//! Compressed load word from the stack (`c.lwsp`).
use vstd::prelude::*;

use crate::format::TypeCI5;
use crate::instruction::embive::{CLwsp, InstructionImpl};
use crate::interpreter::machine::{write_and_advance, MachineState};
use crate::interpreter::memory::{Memory, MemoryType};
use crate::interpreter::registers::SP_INDEX;
use crate::interpreter::{Error, Interpreter, State};

verus! {

/// Executing `c.lwsp`: the destination receives the word at the stack pointer plus the
/// immediate; go to the next instruction. A failed read changes nothing.
pub open spec fn spec_clwsp<M: Memory>(s: MachineState<M::V>, inst: TypeCI5) -> (
    MachineState<M::V>,
    Result<State, Error>,
) {
    match s.reg(SP_INDEX) {
        Err(e) => (s, Err(e)),
        Ok(sp) => {
            let address = (sp as u32).wrapping_add(inst.imm as u32);
            match M::spec_load(s.memory, address, 4) {
                Err(e) => (s, Err(e)),
                Ok(bytes) => if inst.rd_rs1 == 0 {
                    (s.advance(2), Ok(State::Running))
                } else {
                    write_and_advance(s, inst.rd_rs1, <i32 as MemoryType>::spec_from_le(bytes), 2)
                },
            }
        },
    }
}

impl CLwsp {
    /// Execute the instruction.
    ///
    /// Returns:
    /// - `Ok(State)`: Instruction executed successfully.
    /// - `Err(Error)`: Failed to execute instruction.
    #[inline(always)]
    pub fn execute<M: Memory>(&self, interpreter: &mut Interpreter<M>) -> (r: Result<State, Error>)
        ensures
            final(interpreter)@ == spec_clwsp::<M>(old(interpreter)@, self.0).0,
            r == spec_clwsp::<M>(old(interpreter)@, self.0).1,
    {
        let sp = interpreter.registers.cpu.get(SP_INDEX)?;
        let address = (sp as u32).wrapping_add(self.0.imm as u32);
        let result = i32::load(&mut interpreter.memory, address)?;
        if self.0.rd_rs1 != 0 {
            // x0 is hardwired to zero
            interpreter.registers.cpu.set(self.0.rd_rs1, result)?;
        }

        // Go to next instruction
        interpreter.program_counter = interpreter.program_counter.wrapping_add(Self::size());

        Ok(State::Running)
    }
}

} // verus!

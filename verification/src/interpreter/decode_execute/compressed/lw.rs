//! Compressed load word (`c.lw`).
use vstd::prelude::*;

use crate::format::TypeCL;
use crate::instruction::embive::{CLw, InstructionImpl};
use crate::interpreter::machine::{write_and_advance, MachineState};
use crate::interpreter::memory::{Memory, MemoryType};
use crate::interpreter::{Error, Interpreter, State};

verus! {

/// Executing `c.lw`: the destination receives the word at `rs1` plus the immediate; go to the
/// next instruction. A failed read changes nothing.
pub open spec fn spec_clw<M: Memory>(s: MachineState<M::V>, inst: TypeCL) -> (
    MachineState<M::V>,
    Result<State, Error>,
) {
    match s.reg(inst.rs1) {
        Err(e) => (s, Err(e)),
        Ok(rs1) => {
            let address = (rs1 as u32).wrapping_add(inst.imm as u32);
            match M::spec_load(s.memory, address, 4) {
                Err(e) => (s, Err(e)),
                Ok(bytes) => if inst.rd_rs2 == 0 {
                    (s.advance(2), Ok(State::Running))
                } else {
                    write_and_advance(s, inst.rd_rs2, <i32 as MemoryType>::spec_from_le(bytes), 2)
                },
            }
        },
    }
}

impl CLw {
    /// Execute the instruction.
    ///
    /// Returns:
    /// - `Ok(State)`: Instruction executed successfully.
    /// - `Err(Error)`: Failed to execute instruction.
    #[inline(always)]
    pub fn execute<M: Memory>(&self, interpreter: &mut Interpreter<M>) -> (r: Result<State, Error>)
        ensures
            final(interpreter)@ == spec_clw::<M>(old(interpreter)@, self.0).0,
            r == spec_clw::<M>(old(interpreter)@, self.0).1,
    {
        let rs1 = interpreter.registers.cpu.get(self.0.rs1)?;
        let address = (rs1 as u32).wrapping_add(self.0.imm as u32);
        let result = i32::load(&mut interpreter.memory, address)?;
        if self.0.rd_rs2 != 0 {
            // x0 is hardwired to zero
            interpreter.registers.cpu.set(self.0.rd_rs2, result)?;
        }

        // Go to next instruction
        interpreter.program_counter = interpreter.program_counter.wrapping_add(Self::size());

        Ok(State::Running)
    }
}

} // verus!

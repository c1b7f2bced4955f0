//! Compressed store word to the stack (`c.swsp`).
use vstd::prelude::*;

use crate::format::TypeCSS;
use crate::instruction::embive::{CSwsp, InstructionImpl};
use crate::interpreter::machine::{MachineState};
use crate::interpreter::memory::{Memory, MemoryType};
use crate::interpreter::registers::SP_INDEX;
use crate::interpreter::{Error, Interpreter, State};

verus! {

/// Executing `c.swsp`: the word `rs2` is written at the stack pointer plus the immediate; go to
/// the next instruction. A failed write changes nothing.
pub open spec fn spec_cswsp<M: Memory>(s: MachineState<M::V>, inst: TypeCSS) -> (
    MachineState<M::V>,
    Result<State, Error>,
) {
    match s.reg(SP_INDEX) {
        Err(e) => (s, Err(e)),
        Ok(sp) => {
            let address = (sp as u32).wrapping_add(inst.imm as u32);
            match s.reg(inst.rs2) {
                Err(e) => (s, Err(e)),
                Ok(rs2) => match M::spec_store(s.memory, address, <i32 as MemoryType>::spec_to_le(rs2)) {
                    Err(e) => (s, Err(e)),
                    Ok(memory) => (s.with_memory(memory).advance(2), Ok(State::Running)),
                },
            }
        },
    }
}

impl CSwsp {
    /// Execute the instruction.
    ///
    /// Returns:
    /// - `Ok(State)`: Instruction executed successfully.
    /// - `Err(Error)`: Failed to execute instruction.
    #[inline(always)]
    pub fn execute<M: Memory>(&self, interpreter: &mut Interpreter<M>) -> (r: Result<State, Error>)
        ensures
            final(interpreter)@ == spec_cswsp::<M>(old(interpreter)@, self.0).0,
            r == spec_cswsp::<M>(old(interpreter)@, self.0).1,
    {
        let sp = interpreter.registers.cpu.get(SP_INDEX)?;
        let address = (sp as u32).wrapping_add(self.0.imm as u32);
        let rs2 = interpreter.registers.cpu.get(self.0.rs2)?;
        rs2.store(&mut interpreter.memory, address)?;

        // Go to next instruction
        interpreter.program_counter = interpreter.program_counter.wrapping_add(Self::size());

        Ok(State::Running)
    }
}

} // verus!

//! Compressed add of a scaled immediate to the stack pointer (`c.addi16sp`).
use vstd::prelude::*;

use crate::format::TypeCI2;
use crate::instruction::embive::{CAddi16sp, InstructionImpl};
use crate::interpreter::machine::{write_and_advance, MachineState};
use crate::interpreter::memory::{Memory};
use crate::interpreter::registers::SP_INDEX;
use crate::interpreter::{Error, Interpreter, State};

verus! {

/// Executing `c.addi16sp`: the stack pointer receives itself plus the immediate; go to the next
/// instruction.
pub open spec fn spec_caddi16sp<V>(s: MachineState<V>, inst: TypeCI2) -> (MachineState<V>, Result<State, Error>) {
    match s.reg(SP_INDEX) {
        Err(e) => (s, Err(e)),
        Ok(sp) => write_and_advance(s, SP_INDEX, sp.wrapping_add(inst.imm), 2),
    }
}

impl CAddi16sp {
    /// Execute the instruction.
    ///
    /// Returns:
    /// - `Ok(State)`: Instruction executed successfully.
    /// - `Err(Error)`: Failed to execute instruction.
    #[inline(always)]
    pub fn execute<M: Memory>(&self, interpreter: &mut Interpreter<M>) -> (r: Result<State, Error>)
        ensures
            final(interpreter)@ == spec_caddi16sp(old(interpreter)@, self.0).0,
            r == spec_caddi16sp(old(interpreter)@, self.0).1,
    {
        let sp = interpreter.registers.cpu.get(SP_INDEX)?;
        interpreter.registers.cpu.set(SP_INDEX, sp.wrapping_add(self.0.imm))?;

        // Go to next instruction
        interpreter.program_counter = interpreter.program_counter.wrapping_add(Self::size());

        Ok(State::Running)
    }
}

} // verus!

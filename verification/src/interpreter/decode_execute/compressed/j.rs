//! Compressed jump (`c.j`).
use vstd::prelude::*;

use crate::format::TypeCJ;
use crate::instruction::embive::{CJ, InstructionImpl};
use crate::interpreter::machine::{MachineState};
use crate::interpreter::memory::{Memory};
use crate::interpreter::{Error, Interpreter, State};

verus! {

/// Executing `c.j`: the program counter moves by the immediate.
pub open spec fn spec_cj<V>(s: MachineState<V>, inst: TypeCJ) -> (MachineState<V>, Result<State, Error>) {
    (s.jump(s.pc_offset(inst.imm)), Ok(State::Running))
}

impl CJ {
    /// Execute the instruction.
    ///
    /// Returns:
    /// - `Ok(State)`: Instruction executed successfully.
    /// - `Err(Error)`: Failed to execute instruction.
    #[inline(always)]
    pub fn execute<M: Memory>(&self, interpreter: &mut Interpreter<M>) -> (r: Result<State, Error>)
        ensures
            final(interpreter)@ == spec_cj(old(interpreter)@, self.0).0,
            r == spec_cj(old(interpreter)@, self.0).1,
    {
        interpreter.program_counter = interpreter.program_counter.wrapping_add_signed(self.0.imm);

        Ok(State::Running)
    }
}

} // verus!

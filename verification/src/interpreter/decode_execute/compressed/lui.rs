//! Compressed load upper immediate (`c.lui`).
use vstd::prelude::*;

use crate::format::TypeCI3;
use crate::instruction::embive::{CLui, InstructionImpl};
use crate::interpreter::machine::{write_and_advance, MachineState};
use crate::interpreter::memory::{Memory};
use crate::interpreter::{Error, Interpreter, State};

verus! {

/// Executing `c.lui`: unless the register is `x0` (a hint), it receives the immediate (already
/// shifted into the upper bits); go to the next instruction.
pub open spec fn spec_clui<V>(s: MachineState<V>, inst: TypeCI3) -> (MachineState<V>, Result<State, Error>) {
    if inst.rd_rs1 == 0 {
        (s.advance(2), Ok(State::Running))
    } else {
        write_and_advance(s, inst.rd_rs1, inst.imm, 2)
    }
}

impl CLui {
    /// Execute the instruction.
    ///
    /// Returns:
    /// - `Ok(State)`: Instruction executed successfully.
    /// - `Err(Error)`: Failed to execute instruction.
    #[inline(always)]
    pub fn execute<M: Memory>(&self, interpreter: &mut Interpreter<M>) -> (r: Result<State, Error>)
        ensures
            final(interpreter)@ == spec_clui(old(interpreter)@, self.0).0,
            r == spec_clui(old(interpreter)@, self.0).1,
    {
        if self.0.rd_rs1 != 0 {
            interpreter.registers.cpu.set(self.0.rd_rs1, self.0.imm)?;
        }

        // Go to next instruction
        interpreter.program_counter = interpreter.program_counter.wrapping_add(Self::size());

        Ok(State::Running)
    }
}

} // verus!

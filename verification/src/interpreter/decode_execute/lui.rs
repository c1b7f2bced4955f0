//! Load upper immediate (`lui`).
use vstd::prelude::*;

use crate::format::TypeU;
use crate::instruction::embive::{InstructionImpl, Lui};
use crate::interpreter::machine::{write_and_advance, MachineState};
use crate::interpreter::memory::Memory;
use crate::interpreter::{Error, Interpreter, State};

verus! {

/// Executing `lui`: unless the destination is `x0` (a hint), it receives the immediate; go to the
/// next instruction.
pub open spec fn spec_lui<V>(s: MachineState<V>, inst: TypeU) -> (MachineState<V>, Result<State, Error>) {
    if inst.rd == 0 {
        (s.advance(4), Ok(State::Running))
    } else {
        write_and_advance(s, inst.rd, inst.imm, 4)
    }
}

impl Lui {
    /// Execute the instruction.
    ///
    /// Returns:
    /// - `Ok(State)`: Instruction executed successfully.
    /// - `Err(Error)`: Failed to execute instruction.
    #[inline(always)]
    pub fn execute<M: Memory>(&self, interpreter: &mut Interpreter<M>) -> (r: Result<State, Error>)
        ensures
            final(interpreter)@ == spec_lui(old(interpreter)@, self.0).0,
            r == spec_lui(old(interpreter)@, self.0).1,
    {
        if self.0.rd != 0 {
            // rd = 0 means its a HINT instruction, just ignore it.
            // Load the immediate value into the register.
            interpreter.registers.cpu.set(self.0.rd, self.0.imm)?;
        }

        // Go to next instruction
        interpreter.program_counter = interpreter.program_counter.wrapping_add(Self::size());

        // Continue execution
        Ok(State::Running)
    }
}

} // verus!

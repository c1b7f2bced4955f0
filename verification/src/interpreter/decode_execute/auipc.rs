//! Add upper immediate to the program counter (`auipc`).
use vstd::prelude::*;

use crate::format::TypeU;
use crate::instruction::embive::{Auipc, InstructionImpl};
use crate::interpreter::machine::{write_and_advance, MachineState};
use crate::interpreter::memory::Memory;
use crate::interpreter::{Error, Interpreter, State};

verus! {

/// Executing `auipc`: unless the destination is `x0` (a hint), it receives the program counter
/// plus the immediate; go to the next instruction.
pub open spec fn spec_auipc<V>(s: MachineState<V>, inst: TypeU) -> (MachineState<V>, Result<State, Error>) {
    if inst.rd == 0 {
        (s.advance(4), Ok(State::Running))
    } else {
        write_and_advance(s, inst.rd, s.pc_offset(inst.imm) as i32, 4)
    }
}

impl Auipc {
    /// Execute the instruction.
    ///
    /// Returns:
    /// - `Ok(State)`: Instruction executed successfully.
    /// - `Err(Error)`: Failed to execute instruction.
    #[inline(always)]
    pub fn execute<M: Memory>(&self, interpreter: &mut Interpreter<M>) -> (r: Result<State, Error>)
        ensures
            final(interpreter)@ == spec_auipc(old(interpreter)@, self.0).0,
            r == spec_auipc(old(interpreter)@, self.0).1,
    {
        // rd = 0 means its a HINT instruction, just ignore it.
        if self.0.rd != 0 {
            // Load the immediate value + pc into the register.
            let value = interpreter.program_counter.wrapping_add_signed(self.0.imm) as i32;
            interpreter.registers.cpu.set(self.0.rd, value)?;
        }

        // Go to next instruction
        interpreter.program_counter = interpreter.program_counter.wrapping_add(Self::size());

        // Continue execution
        Ok(State::Running)
    }
}

} // verus!

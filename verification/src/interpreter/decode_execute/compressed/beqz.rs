//! Compressed branch if zero (`c.beqz`).
use vstd::prelude::*;

use crate::format::TypeCB4;
use crate::instruction::embive::{CBeqz, InstructionImpl};
use crate::interpreter::machine::{MachineState};
use crate::interpreter::memory::{Memory};
use crate::interpreter::{Error, Interpreter, State};

verus! {

/// Executing `c.beqz`: when `rs1` is zero the program counter moves by the immediate, otherwise
/// it goes to the next instruction.
pub open spec fn spec_cbeqz<V>(s: MachineState<V>, inst: TypeCB4) -> (MachineState<V>, Result<State, Error>) {
    match s.reg(inst.rs1) {
        Err(e) => (s, Err(e)),
        Ok(rs1) => if rs1 == 0 {
            (s.jump(s.pc_offset(inst.imm)), Ok(State::Running))
        } else {
            (s.advance(2), Ok(State::Running))
        },
    }
}

impl CBeqz {
    /// Execute the instruction.
    ///
    /// Returns:
    /// - `Ok(State)`: Instruction executed successfully.
    /// - `Err(Error)`: Failed to execute instruction.
    #[inline(always)]
    pub fn execute<M: Memory>(&self, interpreter: &mut Interpreter<M>) -> (r: Result<State, Error>)
        ensures
            final(interpreter)@ == spec_cbeqz(old(interpreter)@, self.0).0,
            r == spec_cbeqz(old(interpreter)@, self.0).1,
    {
        if interpreter.registers.cpu.get(self.0.rs1)? == 0 {
            interpreter.program_counter = interpreter.program_counter.wrapping_add_signed(self.0.imm);
        } else {
            // Go to next instruction
            interpreter.program_counter = interpreter.program_counter.wrapping_add(Self::size());
        }

        Ok(State::Running)
    }
}

} // verus!

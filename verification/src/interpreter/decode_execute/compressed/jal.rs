//! Compressed jump and link (`c.jal`).
use vstd::prelude::*;

use crate::format::TypeCJ;
use crate::instruction::embive::{CJal, InstructionImpl};
use crate::interpreter::machine::{write_and_jump, MachineState};
use crate::interpreter::memory::{Memory};
use crate::interpreter::registers::RA_INDEX;
use crate::interpreter::{Error, Interpreter, State};

verus! {

/// Executing `c.jal`: the return address register receives the address of the next
/// instruction; the program counter moves by the immediate.
pub open spec fn spec_cjal<V>(s: MachineState<V>, inst: TypeCJ) -> (MachineState<V>, Result<State, Error>) {
    write_and_jump(s, RA_INDEX, s.link(2), s.pc_offset(inst.imm))
}

impl CJal {
    /// Execute the instruction.
    ///
    /// Returns:
    /// - `Ok(State)`: Instruction executed successfully.
    /// - `Err(Error)`: Failed to execute instruction.
    #[inline(always)]
    pub fn execute<M: Memory>(&self, interpreter: &mut Interpreter<M>) -> (r: Result<State, Error>)
        ensures
            final(interpreter)@ == spec_cjal(old(interpreter)@, self.0).0,
            r == spec_cjal(old(interpreter)@, self.0).1,
    {
        let link = interpreter.program_counter.wrapping_add(Self::size()) as i32;
        interpreter.registers.cpu.set(RA_INDEX, link)?;
        interpreter.program_counter = interpreter.program_counter.wrapping_add_signed(self.0.imm);

        Ok(State::Running)
    }
}

} // verus!

//! Jump and link (`jal`).
use vstd::prelude::*;

use crate::format::TypeJ;
use crate::instruction::embive::{InstructionImpl, Jal};
use crate::interpreter::machine::{write_and_jump, MachineState};
use crate::interpreter::memory::Memory;
use crate::interpreter::{Error, Interpreter, State};

verus! {

/// Executing `jal`: unless the destination is `x0`, it receives the address of the next
/// instruction; the program counter moves by the immediate.
pub open spec fn spec_jal<V>(s: MachineState<V>, inst: TypeJ) -> (MachineState<V>, Result<State, Error>) {
    if inst.rd == 0 {
        (s.jump(s.pc_offset(inst.imm)), Ok(State::Running))
    } else {
        write_and_jump(s, inst.rd, s.link(4), s.pc_offset(inst.imm))
    }
}

impl Jal {
    /// Execute the instruction.
    ///
    /// Returns:
    /// - `Ok(State)`: Instruction executed successfully.
    /// - `Err(Error)`: Failed to execute instruction.
    #[inline(always)]
    pub fn execute<M: Memory>(&self, interpreter: &mut Interpreter<M>) -> (r: Result<State, Error>)
        ensures
            final(interpreter)@ == spec_jal(old(interpreter)@, self.0).0,
            r == spec_jal(old(interpreter)@, self.0).1,
    {
        // Load pc + instruction size into the destination register.
        if self.0.rd != 0 {
            let link = interpreter.program_counter.wrapping_add(Self::size()) as i32;
            interpreter.registers.cpu.set(self.0.rd, link)?;
        }

        // Set the program counter to the new address.
        interpreter.program_counter = interpreter.program_counter.wrapping_add_signed(self.0.imm);

        // Continue execution
        Ok(State::Running)
    }
}

} // verus!

//! Compressed add of a scaled immediate to the stack pointer (`c.addi4spn`).
use vstd::prelude::*;

use crate::format::TypeCIW;
use crate::instruction::embive::{CAddi4spn, InstructionImpl};
use crate::interpreter::machine::{write_and_advance, MachineState};
use crate::interpreter::memory::{Memory};
use crate::interpreter::registers::SP_INDEX;
use crate::interpreter::{Error, Interpreter, State};

verus! {

/// Executing `c.addi4spn`: a zero immediate is illegal; otherwise the destination receives the
/// stack pointer plus the immediate; go to the next instruction.
pub open spec fn spec_caddi4spn<V>(s: MachineState<V>, inst: TypeCIW) -> (MachineState<V>, Result<State, Error>) {
    if inst.imm == 0 {
        (s, Err(Error::IllegalInstruction(s.program_counter)))
    } else {
        match s.reg(SP_INDEX) {
            Err(e) => (s, Err(e)),
            Ok(sp) => write_and_advance(s, inst.rd, sp.wrapping_add(inst.imm), 2),
        }
    }
}

impl CAddi4spn {
    /// Execute the instruction.
    ///
    /// Returns:
    /// - `Ok(State)`: Instruction executed successfully.
    /// - `Err(Error)`: Failed to execute instruction.
    #[inline(always)]
    pub fn execute<M: Memory>(&self, interpreter: &mut Interpreter<M>) -> (r: Result<State, Error>)
        ensures
            final(interpreter)@ == spec_caddi4spn(old(interpreter)@, self.0).0,
            r == spec_caddi4spn(old(interpreter)@, self.0).1,
    {
        if self.0.imm == 0 {
            return Err(Error::IllegalInstruction(interpreter.program_counter));
        }

        let sp = interpreter.registers.cpu.get(SP_INDEX)?;
        interpreter.registers.cpu.set(self.0.rd, sp.wrapping_add(self.0.imm))?;

        // Go to next instruction
        interpreter.program_counter = interpreter.program_counter.wrapping_add(Self::size());

        Ok(State::Running)
    }
}

} // verus!

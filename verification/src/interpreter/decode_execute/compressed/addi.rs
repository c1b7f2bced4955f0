//! Compressed add immediate (`c.addi`).
use vstd::prelude::*;

use crate::format::TypeCI1;
use crate::instruction::embive::{CAddi, InstructionImpl};
use crate::interpreter::machine::{write_and_advance, MachineState};
use crate::interpreter::memory::{Memory};
use crate::interpreter::{Error, Interpreter, State};

verus! {

/// Executing `c.addi`: unless the register is `x0` (a hint), it receives itself plus the
/// immediate; go to the next instruction.
pub open spec fn spec_caddi<V>(s: MachineState<V>, inst: TypeCI1) -> (MachineState<V>, Result<State, Error>) {
    if inst.rd_rs1 == 0 {
        (s.advance(2), Ok(State::Running))
    } else {
        match s.reg(inst.rd_rs1) {
            Err(e) => (s, Err(e)),
            Ok(rd) => write_and_advance(s, inst.rd_rs1, rd.wrapping_add(inst.imm), 2),
        }
    }
}

impl CAddi {
    /// Execute the instruction.
    ///
    /// Returns:
    /// - `Ok(State)`: Instruction executed successfully.
    /// - `Err(Error)`: Failed to execute instruction.
    #[inline(always)]
    pub fn execute<M: Memory>(&self, interpreter: &mut Interpreter<M>) -> (r: Result<State, Error>)
        ensures
            final(interpreter)@ == spec_caddi(old(interpreter)@, self.0).0,
            r == spec_caddi(old(interpreter)@, self.0).1,
    {
        if self.0.rd_rs1 != 0 {
            let rd = interpreter.registers.cpu.get(self.0.rd_rs1)?;
            interpreter.registers.cpu.set(self.0.rd_rs1, rd.wrapping_add(self.0.imm))?;
        }

        // Go to next instruction
        interpreter.program_counter = interpreter.program_counter.wrapping_add(Self::size());

        Ok(State::Running)
    }
}

} // verus!

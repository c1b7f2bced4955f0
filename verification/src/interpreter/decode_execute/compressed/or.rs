//! Compressed or (`c.or`).
use vstd::prelude::*;

use crate::format::TypeCS;
use crate::instruction::embive::{COr, InstructionImpl};
use crate::interpreter::machine::{write_and_advance, MachineState};
use crate::interpreter::memory::{Memory};
use crate::interpreter::{Error, Interpreter, State};

verus! {

/// Executing `c.or`: unless the register is `x0`, it receives itself or `rs2`; go to the next
/// instruction.
pub open spec fn spec_cor<V>(s: MachineState<V>, inst: TypeCS) -> (MachineState<V>, Result<State, Error>) {
    if inst.rd_rs1 == 0 {
        (s.advance(2), Ok(State::Running))
    } else {
        match s.reg(inst.rs2) {
            Err(e) => (s, Err(e)),
            Ok(rs2) => match s.reg(inst.rd_rs1) {
                Err(e) => (s, Err(e)),
                Ok(rd) => write_and_advance(s, inst.rd_rs1, rd | rs2, 2),
            },
        }
    }
}

impl COr {
    /// Execute the instruction.
    ///
    /// Returns:
    /// - `Ok(State)`: Instruction executed successfully.
    /// - `Err(Error)`: Failed to execute instruction.
    #[inline(always)]
    pub fn execute<M: Memory>(&self, interpreter: &mut Interpreter<M>) -> (r: Result<State, Error>)
        ensures
            final(interpreter)@ == spec_cor(old(interpreter)@, self.0).0,
            r == spec_cor(old(interpreter)@, self.0).1,
    {
        if self.0.rd_rs1 != 0 {
            let rs2 = interpreter.registers.cpu.get(self.0.rs2)?;
            let rd = interpreter.registers.cpu.get(self.0.rd_rs1)?;
            interpreter.registers.cpu.set(self.0.rd_rs1, rd | rs2)?;
        }

        // Go to next instruction
        interpreter.program_counter = interpreter.program_counter.wrapping_add(Self::size());

        Ok(State::Running)
    }
}

} // verus!

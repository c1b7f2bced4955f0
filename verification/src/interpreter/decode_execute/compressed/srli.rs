//! Compressed shift right logical immediate (`c.srli`).
use vstd::prelude::*;

use crate::format::TypeCB1;
use crate::instruction::embive::{CSrli, InstructionImpl};
use crate::interpreter::machine::{write_and_advance, MachineState};
use crate::interpreter::memory::{Memory};
use crate::interpreter::{Error, Interpreter, State};

verus! {

/// Executing `c.srli`: unless the register is `x0` (a hint), it is shifted right by the
/// immediate, filling with zeros; go to the next instruction.
pub open spec fn spec_csrli<V>(s: MachineState<V>, inst: TypeCB1) -> (MachineState<V>, Result<State, Error>) {
    if inst.rd_rs1 == 0 {
        (s.advance(2), Ok(State::Running))
    } else {
        match s.reg(inst.rd_rs1) {
            Err(e) => (s, Err(e)),
            Ok(rd) => write_and_advance(s, inst.rd_rs1, (rd as u32).wrapping_shr(inst.imm as u32) as i32, 2),
        }
    }
}

impl CSrli {
    /// Execute the instruction.
    ///
    /// Returns:
    /// - `Ok(State)`: Instruction executed successfully.
    /// - `Err(Error)`: Failed to execute instruction.
    #[inline(always)]
    pub fn execute<M: Memory>(&self, interpreter: &mut Interpreter<M>) -> (r: Result<State, Error>)
        ensures
            final(interpreter)@ == spec_csrli(old(interpreter)@, self.0).0,
            r == spec_csrli(old(interpreter)@, self.0).1,
    {
        if self.0.rd_rs1 != 0 {
            let rd = interpreter.registers.cpu.get(self.0.rd_rs1)?;
            interpreter.registers.cpu.set(self.0.rd_rs1, (rd as u32).wrapping_shr(self.0.imm as u32) as i32)?;
        }

        // Go to next instruction
        interpreter.program_counter = interpreter.program_counter.wrapping_add(Self::size());

        Ok(State::Running)
    }
}

} // verus!

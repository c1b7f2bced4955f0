//! Compressed jump register / move (`c.jr`, `c.mv`).
use vstd::prelude::*;

use crate::format::TypeCR;
use crate::instruction::embive::{CJrMv, InstructionImpl};
use crate::interpreter::machine::{write_and_advance, MachineState};
use crate::interpreter::memory::{Memory};
use crate::interpreter::{Error, Interpreter, State};

verus! {

/// Executing `c.jr` (no `rs2`): the program counter becomes `rs1`. Executing `c.mv`: the
/// destination receives `rs2` (the hardwired `x0` keeps its value); go to the next instruction.
pub open spec fn spec_cjr_mv<V>(s: MachineState<V>, inst: TypeCR) -> (MachineState<V>, Result<State, Error>) {
    if inst.rs2 == 0 {
        match s.reg(inst.rd_rs1) {
            Err(e) => (s, Err(e)),
            Ok(rs1) => (s.jump(rs1 as u32), Ok(State::Running)),
        }
    } else {
        match s.reg(inst.rs2) {
            Err(e) => (s, Err(e)),
            Ok(rs2) => if inst.rd_rs1 == 0 {
                (s.advance(2), Ok(State::Running))
            } else {
                write_and_advance(s, inst.rd_rs1, rs2, 2)
            },
        }
    }
}

impl CJrMv {
    /// Execute the instruction.
    ///
    /// Returns:
    /// - `Ok(State)`: Instruction executed successfully.
    /// - `Err(Error)`: Failed to execute instruction.
    #[inline(always)]
    pub fn execute<M: Memory>(&self, interpreter: &mut Interpreter<M>) -> (r: Result<State, Error>)
        ensures
            final(interpreter)@ == spec_cjr_mv(old(interpreter)@, self.0).0,
            r == spec_cjr_mv(old(interpreter)@, self.0).1,
    {
        if self.0.rs2 == 0 {
            let rs1 = interpreter.registers.cpu.get(self.0.rd_rs1)?;
            interpreter.program_counter = rs1 as u32;
        } else {
            let rs2 = interpreter.registers.cpu.get(self.0.rs2)?;
            if self.0.rd_rs1 != 0 {
                // x0 is hardwired to zero
                interpreter.registers.cpu.set(self.0.rd_rs1, rs2)?;
            }

            // Go to next instruction
            interpreter.program_counter = interpreter.program_counter.wrapping_add(Self::size());
        }

        Ok(State::Running)
    }
}

} // verus!

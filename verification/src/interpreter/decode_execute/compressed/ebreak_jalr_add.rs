//! Compressed breakpoint / jump and link register / add (`c.ebreak`, `c.jalr`, `c.add`).
use vstd::prelude::*;

use crate::format::TypeCR;
use crate::instruction::embive::{CEbreakJalrAdd, InstructionImpl};
use crate::interpreter::machine::{write_and_advance, write_and_jump, MachineState};
use crate::interpreter::memory::{Memory};
use crate::interpreter::registers::RA_INDEX;
use crate::interpreter::{Error, Interpreter, State};

verus! {

/// Executing `c.ebreak` (no registers): halt after moving to the next instruction. Executing
/// `c.jalr` (no `rs2`): the return address register receives the address of the next
/// instruction and the program counter becomes `rs1`. Executing `c.add`: the destination receives
/// itself plus `rs2` (the hardwired `x0` keeps its value); go to the next instruction.
pub open spec fn spec_cebreak_jalr_add<V>(s: MachineState<V>, inst: TypeCR) -> (MachineState<V>, Result<State, Error>) {
    if inst.rs2 == 0 {
        if inst.rd_rs1 == 0 {
            (s.advance(2), Ok(State::Halted))
        } else {
            match s.reg(inst.rd_rs1) {
                Err(e) => (s, Err(e)),
                Ok(rs1) => write_and_jump(s, RA_INDEX, s.link(2), rs1 as u32),
            }
        }
    } else {
        match s.reg(inst.rs2) {
            Err(e) => (s, Err(e)),
            Ok(rs2) => match s.reg(inst.rd_rs1) {
                Err(e) => (s, Err(e)),
                Ok(rd) => if inst.rd_rs1 == 0 {
                    (s.advance(2), Ok(State::Running))
                } else {
                    write_and_advance(s, inst.rd_rs1, rd.wrapping_add(rs2), 2)
                },
            },
        }
    }
}

impl CEbreakJalrAdd {
    /// Execute the instruction.
    ///
    /// Returns:
    /// - `Ok(State)`: Instruction executed successfully.
    /// - `Err(Error)`: Failed to execute instruction.
    #[inline(always)]
    pub fn execute<M: Memory>(&self, interpreter: &mut Interpreter<M>) -> (r: Result<State, Error>)
        ensures
            final(interpreter)@ == spec_cebreak_jalr_add(old(interpreter)@, self.0).0,
            r == spec_cebreak_jalr_add(old(interpreter)@, self.0).1,
    {
        if self.0.rs2 == 0 {
            if self.0.rd_rs1 == 0 {
                // Halt the execution (c.ebreak)
                interpreter.program_counter = interpreter.program_counter.wrapping_add(Self::size());
                return Ok(State::Halted);
            } else {
                let rs1 = interpreter.registers.cpu.get(self.0.rd_rs1)?;
                let link = interpreter.program_counter.wrapping_add(Self::size()) as i32;
                interpreter.registers.cpu.set(RA_INDEX, link)?;
                interpreter.program_counter = rs1 as u32;
            }
        } else {
            let rs2 = interpreter.registers.cpu.get(self.0.rs2)?;
            let rd = interpreter.registers.cpu.get(self.0.rd_rs1)?;
            if self.0.rd_rs1 != 0 {
                // x0 is hardwired to zero
                interpreter.registers.cpu.set(self.0.rd_rs1, rd.wrapping_add(rs2))?;
            }

            // Go to next instruction
            interpreter.program_counter = interpreter.program_counter.wrapping_add(Self::size());
        }

        Ok(State::Running)
    }
}

} // verus!

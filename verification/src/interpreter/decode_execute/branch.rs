//! Conditional branches (`beq`, `bne`, `blt`, `bge`, `bltu`, `bgeu`).
use vstd::prelude::*;

use crate::format::TypeB;
use crate::instruction::embive::{Branch, InstructionImpl};
use crate::interpreter::machine::MachineState;
use crate::interpreter::memory::Memory;
use crate::interpreter::{Error, Interpreter, State};

verus! {

/// Whether condition `func` holds of `rs1` and `rs2`, or `None` for an unknown condition.
pub open spec fn spec_branch_taken(func: u8, rs1: i32, rs2: i32) -> Option<bool> {
    if func == Branch::BEQ_FUNC {
        Some(rs1 == rs2)
    } else if func == Branch::BNE_FUNC {
        Some(rs1 != rs2)
    } else if func == Branch::BLT_FUNC {
        Some(rs1 < rs2)
    } else if func == Branch::BGE_FUNC {
        Some(rs1 >= rs2)
    } else if func == Branch::BLTU_FUNC {
        Some((rs1 as u32) < (rs2 as u32))
    } else if func == Branch::BGEU_FUNC {
        Some((rs1 as u32) >= (rs2 as u32))
    } else {
        None
    }
}

/// Executing a branch: read `rs1` and `rs2`; when the condition holds the program counter moves
/// by the immediate, otherwise it goes to the next instruction.
pub open spec fn spec_branch<V>(s: MachineState<V>, inst: TypeB) -> (MachineState<V>, Result<State, Error>) {
    match s.reg(inst.rs1) {
        Err(e) => (s, Err(e)),
        Ok(rs1) => match s.reg(inst.rs2) {
            Err(e) => (s, Err(e)),
            Ok(rs2) => match spec_branch_taken(inst.funct3, rs1, rs2) {
                None => (s, Err(Error::InvalidInstruction(s.program_counter))),
                Some(true) => (s.jump(s.pc_offset(inst.imm)), Ok(State::Running)),
                Some(false) => (s.advance(4), Ok(State::Running)),
            },
        },
    }
}

/// Decide whether condition `func` holds of `rs1` and `rs2`.
pub fn branch_taken(func: u8, rs1: i32, rs2: i32) -> (r: Option<bool>)
    ensures
        r == spec_branch_taken(func, rs1, rs2),
{
    if func == Branch::BEQ_FUNC {
        Some(rs1 == rs2)
    } else if func == Branch::BNE_FUNC {
        Some(rs1 != rs2)
    } else if func == Branch::BLT_FUNC {
        Some(rs1 < rs2)
    } else if func == Branch::BGE_FUNC {
        Some(rs1 >= rs2)
    } else if func == Branch::BLTU_FUNC {
        Some((rs1 as u32) < (rs2 as u32))
    } else if func == Branch::BGEU_FUNC {
        Some((rs1 as u32) >= (rs2 as u32))
    } else {
        None
    }
}

impl Branch {
    /// Execute the instruction.
    ///
    /// Returns:
    /// - `Ok(State)`: Instruction executed successfully.
    /// - `Err(Error)`: Failed to execute instruction.
    #[inline(always)]
    pub fn execute<M: Memory>(&self, interpreter: &mut Interpreter<M>) -> (r: Result<State, Error>)
        ensures
            final(interpreter)@ == spec_branch(old(interpreter)@, self.0).0,
            r == spec_branch(old(interpreter)@, self.0).1,
    {
        let rs1 = interpreter.registers.cpu.get(self.0.rs1)?;
        let rs2 = interpreter.registers.cpu.get(self.0.rs2)?;

        let branch = match branch_taken(self.0.funct3, rs1, rs2) {
            Some(branch) => branch,
            None => return Err(Error::InvalidInstruction(interpreter.program_counter)),
        };

        interpreter.program_counter = if branch {
            // Branch to new address
            interpreter.program_counter.wrapping_add_signed(self.0.imm)
        } else {
            // Go to next instruction
            interpreter.program_counter.wrapping_add(Self::size())
        };

        Ok(State::Running)
    }
}

/// The branch conditions: `beq` holds exactly when the registers are equal and `bne` exactly
/// when `beq` does not; `blt` when `rs1` is below `rs2` as signed numbers and `bge` exactly
/// when `blt` does not; `bltu` and `bgeu` alike as unsigned numbers. Other codes are unknown.
pub proof fn lemma_branch_conditions(func: u8, a: i32, b: i32)
    ensures
        spec_branch_taken(Branch::BEQ_FUNC, a, b) == Some(a == b),
        spec_branch_taken(Branch::BNE_FUNC, a, b) == Some(!(spec_branch_taken(Branch::BEQ_FUNC, a, b)->Some_0)),
        spec_branch_taken(Branch::BLT_FUNC, a, b) == Some(a < b),
        spec_branch_taken(Branch::BGE_FUNC, a, b) == Some(!(spec_branch_taken(Branch::BLT_FUNC, a, b)->Some_0)),
        spec_branch_taken(Branch::BLTU_FUNC, a, b) == Some((a as u32) < (b as u32)),
        spec_branch_taken(Branch::BGEU_FUNC, a, b) == Some(!(spec_branch_taken(Branch::BLTU_FUNC, a, b)->Some_0)),
        spec_branch_taken(func, a, b) is None <==> func > Branch::BGEU_FUNC,
{
}

} // verus!

//! Conditional branches (`beq`, `bne`, `blt`, `bge`, `bltu`, `bgeu`), run by the engine.
use vstd::prelude::*;

use super::format::TypeB;
use super::INSTRUCTION_SIZE;
use crate::engine::{spec_reg, Engine, EngineState};
use crate::error::Error;
use crate::interpreter::machine::MachineState;
use crate::interpreter::memory::Memory;

verus! {

/// `beq` function code.
pub const BEQ_FUNCT3: u8 = 0b000;
/// `bne` function code.
pub const BNE_FUNCT3: u8 = 0b001;
/// `blt` function code.
pub const BLT_FUNCT3: u8 = 0b100;
/// `bge` function code.
pub const BGE_FUNCT3: u8 = 0b101;
/// `bltu` function code.
pub const BLTU_FUNCT3: u8 = 0b110;
/// `bgeu` function code.
pub const BGEU_FUNCT3: u8 = 0b111;

/// Whether condition `funct3` holds of `rs1` and `rs2`, or `None` for an unknown condition.
pub open spec fn spec_riscv_branch_taken(funct3: u8, rs1: i32, rs2: i32) -> Option<bool> {
    if funct3 == BEQ_FUNCT3 {
        Some(rs1 == rs2)
    } else if funct3 == BNE_FUNCT3 {
        Some(rs1 != rs2)
    } else if funct3 == BLT_FUNCT3 {
        Some(rs1 < rs2)
    } else if funct3 == BGE_FUNCT3 {
        Some(rs1 >= rs2)
    } else if funct3 == BLTU_FUNCT3 {
        Some((rs1 as u32) < (rs2 as u32))
    } else if funct3 == BGEU_FUNCT3 {
        Some((rs1 as u32) >= (rs2 as u32))
    } else {
        None
    }
}

/// Executing a branch: read `rs1` and `rs2`; when the condition holds the program counter moves
/// by the immediate, otherwise it goes to the next instruction.
pub open spec fn spec_riscv_branch<V>(s: MachineState<V>, inst: TypeB) -> (MachineState<V>, Result<EngineState, Error>) {
    match spec_reg(s, inst.rs1) {
        Err(e) => (s, Err(e)),
        Ok(rs1) => match spec_reg(s, inst.rs2) {
            Err(e) => (s, Err(e)),
            Ok(rs2) => match spec_riscv_branch_taken(inst.funct3, rs1, rs2) {
                None => (s, Err(Error::InvalidInstruction)),
                Some(true) => (s.jump(s.pc_offset(inst.imm)), Ok(EngineState::Running)),
                Some(false) => (s.advance(4), Ok(EngineState::Running)),
            },
        },
    }
}

/// Branch OpCode
/// Instructions: Beq, Bne, Blt, Bge, Bltu, Bgeu
/// Format: B-Type.
pub struct Branch {}

impl Branch {
    /// Decode and execute the instruction.
    ///
    /// Returns:
    /// - `Ok(EngineState)`: The state of the engine after the instruction.
    /// - `Err(Error)`: Failed to execute.
    #[inline(always)]
    pub fn decode_execute<M: Memory, F>(data: u32, engine: &mut Engine<M, F>) -> (r: Result<EngineState, Error>)
        ensures
            final(engine).config == old(engine).config,
            final(engine)@ == spec_riscv_branch(old(engine)@, TypeB::spec_from_word(data)).0,
            r == spec_riscv_branch(old(engine)@, TypeB::spec_from_word(data)).1,
    {
        let inst = TypeB::from(data);

        let rs1 = engine.reg(inst.rs1)?;
        let rs2 = engine.reg(inst.rs2)?;

        let funct3 = inst.funct3;
        let branch = if funct3 == BEQ_FUNCT3 {
            rs1 == rs2
        } else if funct3 == BNE_FUNCT3 {
            rs1 != rs2
        } else if funct3 == BLT_FUNCT3 {
            rs1 < rs2
        } else if funct3 == BGE_FUNCT3 {
            rs1 >= rs2
        } else if funct3 == BLTU_FUNCT3 {
            (rs1 as u32) < (rs2 as u32)
        } else if funct3 == BGEU_FUNCT3 {
            (rs1 as u32) >= (rs2 as u32)
        } else {
            return Err(Error::InvalidInstruction);
        };

        engine.program_counter = if branch {
            // Branch to new address
            engine.program_counter.wrapping_add_signed(inst.imm)
        } else {
            // Go to next instruction
            engine.program_counter.wrapping_add(INSTRUCTION_SIZE)
        };

        Ok(EngineState::Running)
    }
}

} // verus!

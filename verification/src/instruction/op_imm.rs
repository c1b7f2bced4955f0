//! Operations with an immediate (`addi`, `xori`, `ori`, `andi`, `slli`, `srli`, `srai`, `slti`,
//! `sltiu`), run by the engine.
use vstd::prelude::*;

use super::format::TypeI;
use super::INSTRUCTION_SIZE;
use crate::engine::{spec_reg, write_and_advance, Engine, EngineState};
use crate::error::Error;
use crate::interpreter::decode_execute::{op_imm_value, spec_op_imm_value};
use crate::interpreter::machine::MachineState;
use crate::interpreter::memory::Memory;
use crate::interpreter::registers::CPU_REGISTER_COUNT;

verus! {

/// `addi` function code.
pub const ADDI_FUNC3: u8 = 0b000;
/// `xori` function code.
pub const XORI_FUNC3: u8 = 0b100;
/// `ori` function code.
pub const ORI_FUNC3: u8 = 0b110;
/// `andi` function code.
pub const ANDI_FUNC3: u8 = 0b111;
/// `slli` function code.
pub const SLLI_FUNC3: u8 = 0b001;
/// `srli` / `srai` function code.
pub const SRLI_SRAI_FUNC3: u8 = 0b101;
/// `slti` function code.
pub const SLTI_FUNC3: u8 = 0b010;
/// `sltiu` function code.
pub const SLTIU_FUNC3: u8 = 0b011;

/// Executing an operation with an immediate: read `rs1`; unless the destination is `x0` (a hint),
/// write the result to it; go to the next instruction. The RISC-V function codes are the Embive
/// ones, so the results are those of [`spec_op_imm_value`].
pub open spec fn spec_riscv_op_imm<V>(s: MachineState<V>, inst: TypeI) -> (MachineState<V>, Result<EngineState, Error>) {
    match spec_reg(s, inst.rs1) {
        Err(e) => (s, Err(e)),
        Ok(rs1) => if inst.rd == 0 {
            (s.advance(4), Ok(EngineState::Running))
        } else if inst.rd >= CPU_REGISTER_COUNT {
            (s, Err(Error::InvalidCPURegister))
        } else {
            match spec_op_imm_value(inst.funct3, rs1, inst.imm) {
                None => (s, Err(Error::InvalidInstruction)),
                Some(value) => write_and_advance(s, inst.rd, value),
            }
        },
    }
}

/// Operation Immediate OpCode
/// Instructions: Addi, Xori, Ori, Andi, Slli, Srli, Srai, Slti, Sltiu
/// Format: I-Type.
pub struct OpImm {}

impl OpImm {
    /// Decode and execute the instruction.
    ///
    /// Returns:
    /// - `Ok(EngineState)`: The state of the engine after the instruction.
    /// - `Err(Error)`: Failed to execute.
    #[inline(always)]
    pub fn decode_execute<M: Memory, F>(data: u32, engine: &mut Engine<M, F>) -> (r: Result<EngineState, Error>)
        ensures
            final(engine).config == old(engine).config,
            final(engine)@ == spec_riscv_op_imm(old(engine)@, TypeI::spec_from_word(data)).0,
            r == spec_riscv_op_imm(old(engine)@, TypeI::spec_from_word(data)).1,
    {
        let inst = TypeI::from(data);

        let rs1 = engine.reg(inst.rs1)?;
        let imm = inst.imm;

        if inst.rd != 0 {
            // rd = 0 means its a HINT instruction, just ignore it.
            engine.reg(inst.rd)?;
            let value = match op_imm_value(inst.funct3, rs1, imm) {
                Some(value) => value,
                None => return Err(Error::InvalidInstruction),
            };
            engine.set_reg(inst.rd, value)?;
        }

        // Go to next instruction
        engine.program_counter = engine.program_counter.wrapping_add(INSTRUCTION_SIZE);

        // Continue execution
        Ok(EngineState::Running)
    }
}

} // verus!

//! Register operations (`add`, `sub`, `xor`, `or`, `and`, `sll`, `srl`, `sra`, `slt`, `sltu`)
//! and multiplication and division (`mul`, `mulh`, `mulhsu`, `mulhu`, `div`, `divu`, `rem`,
//! `remu`), run by the engine.
use vstd::prelude::*;

use super::embive::OpAmo;
use super::format::TypeR;
use super::INSTRUCTION_SIZE;
use crate::engine::{spec_reg, write_and_advance, Engine, EngineState};
use crate::error::Error;
use crate::interpreter::decode_execute::{
    op_value, spec_op_imm_value, spec_op_value, SRA_IMM_BIT,
};
use crate::interpreter::machine::MachineState;
use crate::interpreter::memory::Memory;
use crate::interpreter::registers::CPU_REGISTER_COUNT;

verus! {

/// `add` function code (funct7 << 3 | funct3).
pub const ADD_FUNCT10: u16 = 0b000;
/// `sub` function code.
pub const SUB_FUNCT10: u16 = 0b0100000_000;
/// `xor` function code.
pub const XOR_FUNCT10: u16 = 0b100;
/// `or` function code.
pub const OR_FUNCT10: u16 = 0b110;
/// `and` function code.
pub const AND_FUNCT10: u16 = 0b111;
/// `sll` function code.
pub const SLL_FUNCT10: u16 = 0b001;
/// `srl` function code.
pub const SRL_FUNCT10: u16 = 0b101;
/// `sra` function code.
pub const SRA_FUNCT10: u16 = 0b0100000_101;
/// `slt` function code.
pub const SLT_FUNCT10: u16 = 0b010;
/// `sltu` function code.
pub const SLTU_FUNCT10: u16 = 0b011;
/// `mul` function code.
pub const MUL_FUNCT10: u16 = 0b0000001_000;
/// `mulh` function code.
pub const MULH_FUNCT10: u16 = 0b0000001_001;
/// `mulhsu` function code.
pub const MULHSU_FUNCT10: u16 = 0b0000001_010;
/// `mulhu` function code.
pub const MULHU_FUNCT10: u16 = 0b0000001_011;
/// `div` function code.
pub const DIV_FUNCT10: u16 = 0b0000001_100;
/// `divu` function code.
pub const DIVU_FUNCT10: u16 = 0b0000001_101;
/// `rem` function code.
pub const REM_FUNCT10: u16 = 0b0000001_110;
/// `remu` function code.
pub const REMU_FUNCT10: u16 = 0b0000001_111;

/// The Embive operation that RISC-V function code `funct10` names, or `None` for an unknown
/// code.
pub open spec fn spec_riscv_op_func(funct10: u16) -> Option<u16> {
    if funct10 == ADD_FUNCT10 {
        Some(OpAmo::ADD_FUNC)
    } else if funct10 == SUB_FUNCT10 {
        Some(OpAmo::SUB_FUNC)
    } else if funct10 == SLL_FUNCT10 {
        Some(OpAmo::SLL_FUNC)
    } else if funct10 == SLT_FUNCT10 {
        Some(OpAmo::SLT_FUNC)
    } else if funct10 == SLTU_FUNCT10 {
        Some(OpAmo::SLTU_FUNC)
    } else if funct10 == XOR_FUNCT10 {
        Some(OpAmo::XOR_FUNC)
    } else if funct10 == SRL_FUNCT10 {
        Some(OpAmo::SRL_FUNC)
    } else if funct10 == SRA_FUNCT10 {
        Some(OpAmo::SRA_FUNC)
    } else if funct10 == OR_FUNCT10 {
        Some(OpAmo::OR_FUNC)
    } else if funct10 == AND_FUNCT10 {
        Some(OpAmo::AND_FUNC)
    } else if funct10 == MUL_FUNCT10 {
        Some(OpAmo::MUL_FUNC)
    } else if funct10 == MULH_FUNCT10 {
        Some(OpAmo::MULH_FUNC)
    } else if funct10 == MULHSU_FUNCT10 {
        Some(OpAmo::MULHSU_FUNC)
    } else if funct10 == MULHU_FUNCT10 {
        Some(OpAmo::MULHU_FUNC)
    } else if funct10 == DIV_FUNCT10 {
        Some(OpAmo::DIV_FUNC)
    } else if funct10 == DIVU_FUNCT10 {
        Some(OpAmo::DIVU_FUNC)
    } else if funct10 == REM_FUNCT10 {
        Some(OpAmo::REM_FUNC)
    } else if funct10 == REMU_FUNCT10 {
        Some(OpAmo::REMU_FUNC)
    } else {
        None
    }
}

/// Executing a register operation: read `rs1` and `rs2`; unless the destination is `x0` (a
/// hint), write the result (that of the same Embive operation, [`spec_op_value`]) to it; go to
/// the next instruction.
pub open spec fn spec_riscv_op<V>(s: MachineState<V>, inst: TypeR) -> (MachineState<V>, Result<EngineState, Error>) {
    match spec_reg(s, inst.rs1) {
        Err(e) => (s, Err(e)),
        Ok(rs1) => match spec_reg(s, inst.rs2) {
            Err(e) => (s, Err(e)),
            Ok(rs2) => if inst.rd == 0 {
                (s.advance(4), Ok(EngineState::Running))
            } else if inst.rd >= CPU_REGISTER_COUNT {
                (s, Err(Error::InvalidCPURegister))
            } else {
                match spec_riscv_op_func(inst.funct10) {
                    None => (s, Err(Error::InvalidInstruction)),
                    Some(func) => write_and_advance(s, inst.rd, spec_op_value(func, rs1, rs2)->Some_0),
                }
            },
        },
    }
}

/// The Embive operation that RISC-V function code `funct10` names.
fn op_func(funct10: u16) -> (r: Option<u16>)
    ensures
        r == spec_riscv_op_func(funct10),
{
    if funct10 == ADD_FUNCT10 {
        Some(OpAmo::ADD_FUNC)
    } else if funct10 == SUB_FUNCT10 {
        Some(OpAmo::SUB_FUNC)
    } else if funct10 == SLL_FUNCT10 {
        Some(OpAmo::SLL_FUNC)
    } else if funct10 == SLT_FUNCT10 {
        Some(OpAmo::SLT_FUNC)
    } else if funct10 == SLTU_FUNCT10 {
        Some(OpAmo::SLTU_FUNC)
    } else if funct10 == XOR_FUNCT10 {
        Some(OpAmo::XOR_FUNC)
    } else if funct10 == SRL_FUNCT10 {
        Some(OpAmo::SRL_FUNC)
    } else if funct10 == SRA_FUNCT10 {
        Some(OpAmo::SRA_FUNC)
    } else if funct10 == OR_FUNCT10 {
        Some(OpAmo::OR_FUNC)
    } else if funct10 == AND_FUNCT10 {
        Some(OpAmo::AND_FUNC)
    } else if funct10 == MUL_FUNCT10 {
        Some(OpAmo::MUL_FUNC)
    } else if funct10 == MULH_FUNCT10 {
        Some(OpAmo::MULH_FUNC)
    } else if funct10 == MULHSU_FUNCT10 {
        Some(OpAmo::MULHSU_FUNC)
    } else if funct10 == MULHU_FUNCT10 {
        Some(OpAmo::MULHU_FUNC)
    } else if funct10 == DIV_FUNCT10 {
        Some(OpAmo::DIV_FUNC)
    } else if funct10 == DIVU_FUNCT10 {
        Some(OpAmo::DIVU_FUNC)
    } else if funct10 == REM_FUNCT10 {
        Some(OpAmo::REM_FUNC)
    } else if funct10 == REMU_FUNCT10 {
        Some(OpAmo::REMU_FUNC)
    } else {
        None
    }
}

/// Operation OpCode
/// Instructions: Add, Sub, Xor, Or, And, Sll, Srl, Sra, Slt, Sltu
/// Instructions (M Extension): Mul, Mulh, Mulhsu, Mulhu, Div, Divu, Rem, Remu
/// Format: R-Type.
pub struct Op {}

impl Op {
    /// Decode and execute the instruction.
    ///
    /// Returns:
    /// - `Ok(EngineState)`: The state of the engine after the instruction.
    /// - `Err(Error)`: Failed to execute.
    #[inline(always)]
    pub fn decode_execute<M: Memory, F>(data: u32, engine: &mut Engine<M, F>) -> (r: Result<EngineState, Error>)
        ensures
            final(engine).config == old(engine).config,
            final(engine)@ == spec_riscv_op(old(engine)@, TypeR::spec_from_word(data)).0,
            r == spec_riscv_op(old(engine)@, TypeR::spec_from_word(data)).1,
    {
        let inst = TypeR::from(data);

        let rs1 = engine.reg(inst.rs1)?;
        let rs2 = engine.reg(inst.rs2)?;

        if inst.rd != 0 {
            // rd = 0 means its a HINT instruction, just ignore it.
            engine.reg(inst.rd)?;
            let func = match op_func(inst.funct10) {
                Some(func) => func,
                None => return Err(Error::InvalidInstruction),
            };
            let value = match op_value(func, rs1, rs2) {
                Some(value) => value,
                None => return Err(Error::InvalidInstruction),
            };
            engine.set_reg(inst.rd, value)?;
        }

        // Go to next instruction
        engine.program_counter = engine.program_counter.wrapping_add(INSTRUCTION_SIZE);

        Ok(EngineState::Running)
    }
}

/// The RISC-V function codes of the register operations name the operations that the RISC-V
/// instruction set gives them: with `funct7` clear, `funct3` picks the operation that the
/// operation-with-immediate of the same `funct3` computes (`add`, `sll`, `slt`, `sltu`, `xor`,
/// `srl`, `or`, `and`); `sub` subtracts modulo 2^32; `sra` is `srai`; with `funct7` = 1, `div`
/// and `rem`, and `divu` and `remu`, are a quotient and remainder pair.
pub proof fn lemma_riscv_op_codes(funct3: u8, a: i32, b: i32)
    requires
        funct3 < 8,
    ensures
        funct3 != 5 ==> spec_op_value(spec_riscv_op_func(funct3 as u16)->Some_0, a, b)
            == spec_op_imm_value(funct3, a, b),
        b & SRA_IMM_BIT == 0 ==> spec_op_value(spec_riscv_op_func(SRL_FUNCT10)->Some_0, a, b)
            == spec_op_imm_value(5, a, b),
        spec_op_value(spec_riscv_op_func(SRA_FUNCT10)->Some_0, a, b) == spec_op_imm_value(
            5,
            a,
            b | SRA_IMM_BIT,
        ),
        (a - b - spec_op_value(spec_riscv_op_func(SUB_FUNCT10)->Some_0, a, b)->Some_0)
            % 0x1_0000_0000 == 0,
        b != 0 ==> ({
            let q = spec_op_value(spec_riscv_op_func(DIV_FUNCT10)->Some_0, a, b)->Some_0;
            let r = spec_op_value(spec_riscv_op_func(REM_FUNCT10)->Some_0, a, b)->Some_0;
            (q * b + r - a) % 0x1_0000_0000 == 0
        }),
        b != 0 ==> ({
            let q = spec_op_value(spec_riscv_op_func(DIVU_FUNCT10)->Some_0, a, b)->Some_0 as u32;
            let r = spec_op_value(spec_riscv_op_func(REMU_FUNCT10)->Some_0, a, b)->Some_0 as u32;
            q * (b as u32) + r == a as u32 && r < b as u32
        }),
{
    crate::interpreter::decode_execute::lemma_op_imm_is_register_op(funct3, a, b);
    crate::interpreter::decode_execute::lemma_op_imm_is_register_op(5, a, b | SRA_IMM_BIT);
    crate::interpreter::decode_execute::lemma_op_values(a, b);
    crate::interpreter::decode_execute::lemma_division(a, b);
    assert((b | SRA_IMM_BIT) & SRA_IMM_BIT != 0 && a.wrapping_shr((b | SRA_IMM_BIT) as u32)
        == a.wrapping_shr(b as u32)) by (bit_vector);
}

} // verus!

//! Operations with an immediate (`addi`, `slli`, `slti`, `sltiu`, `xori`, `srli`, `srai`, `ori`,
//! `andi`).
use vstd::prelude::*;

use crate::format::TypeI;
use crate::instruction::embive::{InstructionImpl, OpAmo, OpImm};
use crate::interpreter::decode_execute::op_amo::spec_op_value;
use crate::interpreter::machine::{write_and_advance, MachineState};
use crate::interpreter::memory::Memory;
use crate::interpreter::{Error, Interpreter, State};

verus! {

/// Bit 10 of the immediate tells an arithmetic right shift from a logical one.
pub const SRA_IMM_BIT: i32 = 0b100_0000_0000;

/// The value that operation `func` computes from `rs1` and the immediate, or `None` for an
/// unknown operation.
pub open spec fn spec_op_imm_value(func: u8, rs1: i32, imm: i32) -> Option<i32> {
    let shamt = (imm as u32) & 0b11111;
    if func == OpImm::ADDI_FUNC {
        Some(rs1.wrapping_add(imm))
    } else if func == OpImm::SLLI_FUNC {
        Some(rs1.wrapping_shl(shamt))
    } else if func == OpImm::SLTI_FUNC {
        Some(if rs1 < imm { 1 } else { 0 })
    } else if func == OpImm::SLTIU_FUNC {
        Some(if (rs1 as u32) < (imm as u32) { 1 } else { 0 })
    } else if func == OpImm::XORI_FUNC {
        Some(rs1 ^ imm)
    } else if func == OpImm::SRLI_SRAI_FUNC {
        if imm & SRA_IMM_BIT != 0 {
            Some(rs1.wrapping_shr(shamt))
        } else {
            Some((rs1 as u32).wrapping_shr(shamt) as i32)
        }
    } else if func == OpImm::ORI_FUNC {
        Some(rs1 | imm)
    } else if func == OpImm::ANDI_FUNC {
        Some(rs1 & imm)
    } else {
        None
    }
}

/// Executing an operation with an immediate: read `rs1`; unless the destination is `x0` (a hint,
/// which changes nothing), write the result to it; go to the next instruction.
pub open spec fn spec_op_imm<V>(s: MachineState<V>, inst: TypeI) -> (MachineState<V>, Result<State, Error>) {
    match s.reg(inst.rs1) {
        Err(e) => (s, Err(e)),
        Ok(rs1) => if inst.rd_rs2 == 0 {
            (s.advance(4), Ok(State::Running))
        } else {
            match s.reg(inst.rd_rs2) {
                Err(e) => (s, Err(e)),
                Ok(_) => match spec_op_imm_value(inst.funct3, rs1, inst.imm) {
                    None => (s, Err(Error::InvalidInstruction(s.program_counter))),
                    Some(value) => write_and_advance(s, inst.rd_rs2, value, 4),
                },
            }
        },
    }
}

/// Compute the value of operation `func` on `rs1` and the immediate.
pub fn op_imm_value(func: u8, rs1: i32, imm: i32) -> (r: Option<i32>)
    ensures
        r == spec_op_imm_value(func, rs1, imm),
{
    let shamt = (imm as u32) & 0b11111;
    if func == OpImm::ADDI_FUNC {
        Some(rs1.wrapping_add(imm))
    } else if func == OpImm::SLLI_FUNC {
        Some(rs1.wrapping_shl(shamt))
    } else if func == OpImm::SLTI_FUNC {
        Some(if rs1 < imm { 1 } else { 0 })
    } else if func == OpImm::SLTIU_FUNC {
        Some(if (rs1 as u32) < (imm as u32) { 1 } else { 0 })
    } else if func == OpImm::XORI_FUNC {
        Some(rs1 ^ imm)
    } else if func == OpImm::SRLI_SRAI_FUNC {
        if (imm & SRA_IMM_BIT) != 0 {
            // Sra (Arithmetic shift right, fill with sign bit)
            Some(rs1.wrapping_shr(shamt))
        } else {
            // Srl (Logical shift right, fill with zero)
            Some((rs1 as u32).wrapping_shr(shamt) as i32)
        }
    } else if func == OpImm::ORI_FUNC {
        Some(rs1 | imm)
    } else if func == OpImm::ANDI_FUNC {
        Some(rs1 & imm)
    } else {
        None
    }
}

impl OpImm {
    /// Execute the instruction.
    ///
    /// Returns:
    /// - `Ok(State)`: Instruction executed successfully.
    /// - `Err(Error)`: Failed to execute instruction.
    #[inline(always)]
    pub fn execute<M: Memory>(&self, interpreter: &mut Interpreter<M>) -> (r: Result<State, Error>)
        ensures
            final(interpreter)@ == spec_op_imm(old(interpreter)@, self.0).0,
            r == spec_op_imm(old(interpreter)@, self.0).1,
    {
        let rs1 = interpreter.registers.cpu.get(self.0.rs1)?;
        let imm = self.0.imm;

        if self.0.rd_rs2 != 0 {
            // rd = 0 means its a HINT instruction, just ignore it.
            interpreter.registers.cpu.get(self.0.rd_rs2)?;
            let value = match op_imm_value(self.0.funct3, rs1, imm) {
                Some(value) => value,
                None => return Err(Error::InvalidInstruction(interpreter.program_counter)),
            };
            interpreter.registers.cpu.set(self.0.rd_rs2, value)?;
        }

        // Go to next instruction
        interpreter.program_counter = interpreter.program_counter.wrapping_add(Self::size());

        // Continue execution
        Ok(State::Running)
    }
}

/// Each operation with an immediate computes what the register operation of the same name
/// computes with the immediate in place of `rs2` (`srli` and `srai` are told apart by bit 10 of
/// the immediate); the other function codes are unknown.
pub proof fn lemma_op_imm_is_register_op(func: u8, rs1: i32, imm: i32)
    ensures
        spec_op_imm_value(OpImm::ADDI_FUNC, rs1, imm) == spec_op_value(OpAmo::ADD_FUNC, rs1, imm),
        spec_op_imm_value(OpImm::SLLI_FUNC, rs1, imm) == spec_op_value(OpAmo::SLL_FUNC, rs1, imm),
        spec_op_imm_value(OpImm::SLTI_FUNC, rs1, imm) == spec_op_value(OpAmo::SLT_FUNC, rs1, imm),
        spec_op_imm_value(OpImm::SLTIU_FUNC, rs1, imm) == spec_op_value(OpAmo::SLTU_FUNC, rs1, imm),
        spec_op_imm_value(OpImm::XORI_FUNC, rs1, imm) == spec_op_value(OpAmo::XOR_FUNC, rs1, imm),
        imm & SRA_IMM_BIT == 0 ==> spec_op_imm_value(OpImm::SRLI_SRAI_FUNC, rs1, imm)
            == spec_op_value(OpAmo::SRL_FUNC, rs1, imm),
        imm & SRA_IMM_BIT != 0 ==> spec_op_imm_value(OpImm::SRLI_SRAI_FUNC, rs1, imm)
            == spec_op_value(OpAmo::SRA_FUNC, rs1, imm),
        spec_op_imm_value(OpImm::ORI_FUNC, rs1, imm) == spec_op_value(OpAmo::OR_FUNC, rs1, imm),
        spec_op_imm_value(OpImm::ANDI_FUNC, rs1, imm) == spec_op_value(OpAmo::AND_FUNC, rs1, imm),
        spec_op_imm_value(func, rs1, imm) is None <==> !(func == OpImm::ADDI_FUNC || func
            == OpImm::SLLI_FUNC || func == OpImm::SLTI_FUNC || func == OpImm::SLTIU_FUNC || func
            == OpImm::XORI_FUNC || func == OpImm::SRLI_SRAI_FUNC || func == OpImm::ORI_FUNC || func
            == OpImm::ANDI_FUNC),
{
    let shamt = (imm as u32) & 0b11111;
    assert(rs1.wrapping_shl(shamt) == rs1.wrapping_shl(imm as u32)
        && rs1.wrapping_shr(shamt) == rs1.wrapping_shr(imm as u32)
        && (rs1 as u32).wrapping_shr(shamt) == (rs1 as u32).wrapping_shr(imm as u32)) by (bit_vector)
        requires
            shamt == (imm as u32) & 0b11111,
    ;
}

/// The logic operations with a (sign-extended, 12-bit) immediate, bit by bit:
/// - `andi` keeps only bits set in both `rs1` and the immediate: a negative immediate keeps the
///   upper 20 bits of `rs1`, a non-negative one clears them;
/// - `ori` sets the bits of the immediate and keeps those of `rs1`: a negative immediate sets
///   the upper 20 bits, a non-negative one keeps those of `rs1`;
/// - `xori` flips the bits of `rs1` where the immediate has them: applied twice it gives `rs1`
///   back, and a negative immediate flips the upper 20 bits.
/// `addi` adds modulo 2^32.
pub proof fn lemma_op_imm_bits(rs1: i32, imm: i32)
    requires
        -2048 <= imm < 2048,
    ensures
        ({
            let r = spec_op_imm_value(OpImm::ANDI_FUNC, rs1, imm)->Some_0;
            &&& r & !rs1 == 0
            &&& r & !imm == 0
            &&& (r as u32) & 0xFFF == (rs1 as u32) & (imm as u32) & 0xFFF
            &&& imm < 0 ==> (r as u32) >> 12u32 == (rs1 as u32) >> 12u32
            &&& imm >= 0 ==> (r as u32) >> 12u32 == 0
        }),
        ({
            let r = spec_op_imm_value(OpImm::ORI_FUNC, rs1, imm)->Some_0;
            &&& rs1 & !r == 0
            &&& imm & !r == 0
            &&& imm < 0 ==> (r as u32) >> 12u32 == 0xF_FFFF
            &&& imm >= 0 ==> (r as u32) >> 12u32 == (rs1 as u32) >> 12u32
        }),
        ({
            let r = spec_op_imm_value(OpImm::XORI_FUNC, rs1, imm)->Some_0;
            &&& r ^ imm == rs1
            &&& imm < 0 ==> (r as u32) >> 12u32 == !(rs1 as u32) >> 12u32
            &&& imm >= 0 ==> (r as u32) >> 12u32 == (rs1 as u32) >> 12u32
        }),
        ({
            let r = spec_op_imm_value(OpImm::ADDI_FUNC, rs1, imm)->Some_0;
            (rs1 + imm - r) % 0x1_0000_0000 == 0
        }),
{
    let a = rs1 & imm;
    let o = rs1 | imm;
    let x = rs1 ^ imm;
    assert((a & !rs1 == 0) && (a & !imm == 0) && ((a as u32) & 0xFFF == (rs1 as u32) & (imm as u32)
        & 0xFFF) && (imm < 0 ==> (a as u32) >> 12u32 == (rs1 as u32) >> 12u32) && (imm >= 0
        ==> (a as u32) >> 12u32 == 0) && (rs1 & !o == 0) && (imm & !o == 0) && (imm < 0 ==> (o
        as u32) >> 12u32 == 0xF_FFFF) && (imm >= 0 ==> (o as u32) >> 12u32 == (rs1 as u32)
        >> 12u32) && (x ^ imm == rs1) && (imm < 0 ==> (x as u32) >> 12u32 == !(rs1 as u32)
        >> 12u32) && (imm >= 0 ==> (x as u32) >> 12u32 == (rs1 as u32) >> 12u32)) by (bit_vector)
        requires
            -2048 <= imm < 2048,
            a == rs1 & imm,
            o == rs1 | imm,
            x == rs1 ^ imm,
    ;
}

} // verus!

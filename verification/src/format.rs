//! RISC-V & Embive instruction formats.
//!
//! Every format can be read from a raw RISC-V word, read from a raw Embive word and written
//! back to an Embive word. The RISC-V side follows the bit layout of the RISC-V manual; the
//! Embive side keeps every field contiguous, so that the interpreter decodes it cheaply.
use vstd::prelude::*;

mod bits;

use bits::{
    lemma_embive_fields, lemma_riscv_base_fields, lemma_riscv_compressed_fields, lemma_roundtrip_base,
    lemma_roundtrip_c1, lemma_roundtrip_c2,
};

verus! {

/// Offset of the registers that compressed instructions address with three bits (`x8`..`x15`).
pub const COMPRESSED_REGISTER_OFFSET: u8 = 8;

/// Bits `lo .. lo + width` of `value`, moved down to bit 0.
pub open spec fn bit_field(value: u32, lo: u32, width: u32) -> u32 {
    (value >> lo) & (((1u32 << width) - 1) as u32)
}

/// The low `width` bits of `value`, read as a two's complement number and sign-extended.
pub open spec fn sign_extend(value: u32, width: u32) -> i32 {
    ((value << ((32 - width) as u32)) as i32) >> ((32 - width) as u32)
}

/// A compressed register field (three bits) names register `x8 + field`.
pub open spec fn compressed_register(field: u32) -> u8 {
    (field + 8) as u8
}

/// Instruction Format Trait.
///
/// Each format can be expressed as a raw RISC-V bytecode, a raw Embive bytecode, and a struct.
pub trait Format: Sized + Copy {
    /// The fields that a raw RISC-V word decodes to.
    spec fn spec_from_riscv(inst: u32) -> Self;

    /// The fields that a raw Embive word decodes to.
    spec fn spec_from_embive(inst: u32) -> Self;

    /// The Embive word that encodes the fields (opcode bits left clear).
    spec fn spec_to_embive(self) -> u32;

    /// The fields lie in the ranges that a RISC-V word can give them.
    spec fn spec_valid(self) -> bool;

    /// Decode the instruction from a raw RISC-V bytecode.
    fn from_riscv(inst: u32) -> (r: Self)
        ensures
            r == Self::spec_from_riscv(inst),
    ;

    /// Decode the instruction from a raw Embive bytecode.
    fn from_embive(inst: u32) -> (r: Self)
        ensures
            r == Self::spec_from_embive(inst),
    ;

    /// Encode the instruction into a raw Embive bytecode.
    fn to_embive(self) -> (r: u32)
        ensures
            r == self.spec_to_embive(),
    ;

    /// Whatever a RISC-V word decodes to has its fields in range.
    proof fn lemma_from_riscv_valid(inst: u32)
        ensures
            Self::spec_from_riscv(inst).spec_valid(),
    ;

    /// Fields in range survive an Embive encoding followed by an Embive decoding.
    proof fn lemma_embive_roundtrip(self)
        requires
            self.spec_valid(),
        ensures
            Self::spec_from_embive(self.spec_to_embive()) == self,
    ;
}

/// The fields of an R-type, I-type and U-type RISC-V word, as numbers:
/// - `rd` is bits 7..12, `rs1` bits 15..20, `rs2` bits 20..25, `funct3` bits 12..15;
/// - an R-type `funct10` holds `funct7` (bits 25..32) above `funct3`: `funct10 / 8` is `funct7`
///   and `funct10 % 8` is `funct3`, so words that differ there decode differently;
/// - an I-type immediate is the word, read as a signed number, divided by 2^20 rounding down
///   (bits 20..32, sign-extended);
/// - a U-type immediate is the word with its low 12 bits cleared.
pub proof fn lemma_riscv_fields(inst: u32)
    ensures
        TypeR::spec_from_riscv(inst).rd as u32 == (inst / 0x80) % 32,
        TypeR::spec_from_riscv(inst).rs1 as u32 == (inst / 0x8000) % 32,
        TypeR::spec_from_riscv(inst).rs2 as u32 == (inst / 0x10_0000) % 32,
        TypeR::spec_from_riscv(inst).funct10 as u32 / 8 == inst / 0x200_0000,
        TypeR::spec_from_riscv(inst).funct10 as u32 % 8 == (inst / 0x1000) % 8,
        TypeI::spec_from_riscv(inst).rd_rs2 as u32 == (inst / 0x80) % 32,
        TypeI::spec_from_riscv(inst).rs1 as u32 == (inst / 0x8000) % 32,
        TypeI::spec_from_riscv(inst).funct3 as u32 == (inst / 0x1000) % 8,
        TypeI::spec_from_riscv(inst).imm as int == (inst as i32) as int / 0x10_0000,
        TypeU::spec_from_riscv(inst).rd as u32 == (inst / 0x80) % 32,
        TypeU::spec_from_riscv(inst).imm as u32 == (inst / 0x1000) * 0x1000,
{
    let i = inst as i32;
    assert(((bit_field(inst, 7, 5) as u8) as u32 == (inst / 0x80) % 32)
        && ((bit_field(inst, 15, 5) as u8) as u32 == (inst / 0x8000) % 32)
        && ((bit_field(inst, 20, 5) as u8) as u32 == (inst / 0x10_0000) % 32)
        && (((bit_field(inst, 25, 7) << 3 | bit_field(inst, 12, 3)) as u16) as u32 / 8 == inst / 0x200_0000)
        && (((bit_field(inst, 25, 7) << 3 | bit_field(inst, 12, 3)) as u16) as u32 % 8 == (inst / 0x1000) % 8)
        && ((bit_field(inst, 12, 3) as u8) as u32 == (inst / 0x1000) % 8)
        && (sign_extend(bit_field(inst, 20, 12), 12) == i >> 20u32)
        && (((bit_field(inst, 12, 20) << 12) as i32) as u32 == (inst / 0x1000) * 0x1000)
        && (i >> 20u32 == i / 0x10_0000i32)) by (bit_vector)
        requires
            i == inst as i32,
    ;
}

/// R-Type Instruction Format
#[derive(Debug, PartialEq, Copy, Clone)]
pub struct TypeR {
    /// Destination Register
    pub rd: u8,
    /// Source Register 1
    pub rs1: u8,
    /// Source Register 2
    pub rs2: u8,
    /// Function Type (funct7 << 3 | funct3)
    pub funct10: u16,
}

/// I-Type Instruction Format
#[derive(Debug, PartialEq, Copy, Clone)]
pub struct TypeI {
    /// Destination Register / Source Register 2
    pub rd_rs2: u8,
    /// Source Register 1
    pub rs1: u8,
    /// Immediate Value
    pub imm: i32,
    /// Function Type
    pub funct3: u8,
}

/// S-Type Instruction Format (RISC-V only, Embive stores it as an I-Type)
#[derive(Debug, PartialEq, Copy, Clone)]
pub struct TypeS {
    /// Source Register 1
    pub rs1: u8,
    /// Source Register 2
    pub rs2: u8,
    /// Immediate Value
    pub imm: i32,
    /// Function Type
    pub funct3: u8,
}

/// B-Type Instruction Format
#[derive(Debug, PartialEq, Copy, Clone)]
pub struct TypeB {
    /// Source Register 1
    pub rs1: u8,
    /// Source Register 2
    pub rs2: u8,
    /// Immediate Value
    pub imm: i32,
    /// Function Type
    pub funct3: u8,
}

/// U-Type Instruction Format
#[derive(Debug, PartialEq, Copy, Clone)]
pub struct TypeU {
    /// Destination Register
    pub rd: u8,
    /// Immediate Value
    pub imm: i32,
}

/// J-Type Instruction Format
#[derive(Debug, PartialEq, Copy, Clone)]
pub struct TypeJ {
    /// Destination Register
    pub rd: u8,
    /// Immediate Value
    pub imm: i32,
}

/// CIW Format
#[derive(Debug, PartialEq, Copy, Clone)]
pub struct TypeCIW {
    /// Destination Register
    pub rd: u8,
    /// Immediate Value
    pub imm: i32,
}

/// CL Format
#[derive(Debug, PartialEq, Copy, Clone)]
pub struct TypeCL {
    /// Destination Register / Source Register 2
    pub rd_rs2: u8,
    /// Source Register 1
    pub rs1: u8,
    /// Immediate Value
    pub imm: i32,
}

/// CI Format 1 (IMM[5:0])
#[derive(Debug, PartialEq, Copy, Clone)]
pub struct TypeCI1 {
    /// Destination Register / Source Register 1
    pub rd_rs1: u8,
    /// Immediate Value
    pub imm: i32,
}

/// CI Format 2 (IMM[9:4])
#[derive(Debug, PartialEq, Copy, Clone)]
pub struct TypeCI2 {
    /// Destination Register / Source Register 1
    pub rd_rs1: u8,
    /// Immediate Value
    pub imm: i32,
}

/// CI Format 3 (IMM[17:12])
#[derive(Debug, PartialEq, Copy, Clone)]
pub struct TypeCI3 {
    /// Destination Register / Source Register 1
    pub rd_rs1: u8,
    /// Immediate Value
    pub imm: i32,
}

/// CI Format 4 (UIMM[5:0])
#[derive(Debug, PartialEq, Copy, Clone)]
pub struct TypeCI4 {
    /// Destination Register / Source Register 1
    pub rd_rs1: u8,
    /// Immediate Value
    pub imm: i32,
}

/// CI Format 5 (UIMM[7:2])
#[derive(Debug, PartialEq, Copy, Clone)]
pub struct TypeCI5 {
    /// Destination Register / Source Register 1
    pub rd_rs1: u8,
    /// Immediate Value
    pub imm: i32,
}

/// CB Format 1 (UIMM[5:0])
#[derive(Debug, PartialEq, Copy, Clone)]
pub struct TypeCB1 {
    /// Destination / Source Register 1
    pub rd_rs1: u8,
    /// Immediate Value
    pub imm: i32,
}

/// CB Format 2 (IMM[5:0])
#[derive(Debug, PartialEq, Copy, Clone)]
pub struct TypeCB2 {
    /// Destination / Source Register 1
    pub rd_rs1: u8,
    /// Immediate Value
    pub imm: i32,
}

/// CB Format 3 (rs2)
#[derive(Debug, PartialEq, Copy, Clone)]
pub struct TypeCB3 {
    /// Destination / Source Register 1
    pub rd_rs1: u8,
    /// Source Register 2
    pub rs2: u8,
}

/// CB Format 4 (IMM[8:1])
#[derive(Debug, PartialEq, Copy, Clone)]
pub struct TypeCB4 {
    /// Source Register 1
    pub rs1: u8,
    /// Immediate Value
    pub imm: i32,
}

/// CR Format
#[derive(Debug, PartialEq, Copy, Clone)]
pub struct TypeCR {
    /// Destination / Source Register 1
    pub rd_rs1: u8,
    /// Source Register 2
    pub rs2: u8,
}

/// CS Format
#[derive(Debug, PartialEq, Copy, Clone)]
pub struct TypeCS {
    /// Destination / Source Register 1
    pub rd_rs1: u8,
    /// Source Register 2
    pub rs2: u8,
}

/// CSS Format
#[derive(Debug, PartialEq, Copy, Clone)]
pub struct TypeCSS {
    /// Source Register 2
    pub rs2: u8,
    /// Immediate Value
    pub imm: i32,
}

/// CJ Format
#[derive(Debug, PartialEq, Copy, Clone)]
pub struct TypeCJ {
    /// Immediate Value
    pub imm: i32,
}

impl Format for TypeR {
    open spec fn spec_from_riscv(inst: u32) -> Self {
        TypeR {
            rd: bit_field(inst, 7, 5) as u8,
            rs1: bit_field(inst, 15, 5) as u8,
            rs2: bit_field(inst, 20, 5) as u8,
            funct10: (bit_field(inst, 25, 7) << 3 | bit_field(inst, 12, 3)) as u16,
        }
    }

    open spec fn spec_from_embive(inst: u32) -> Self {
        TypeR {
            rd: bit_field(inst, 17, 5) as u8,
            rs1: bit_field(inst, 22, 5) as u8,
            rs2: bit_field(inst, 27, 5) as u8,
            funct10: bit_field(inst, 7, 10) as u16,
        }
    }

    open spec fn spec_to_embive(self) -> u32 {
        ((self.rd as u32) << 17) | ((self.rs1 as u32) << 22) | ((self.rs2 as u32) << 27) | ((self.funct10 as u32) << 7)
    }

    open spec fn spec_valid(self) -> bool {
        self.rd < 32 && self.rs1 < 32 && self.rs2 < 32 && self.funct10 < 1024
    }

    #[inline(always)]
    fn from_riscv(inst: u32) -> (r: Self) {
        proof {
            lemma_riscv_base_fields(inst);
        }
        TypeR {
            rd: ((inst >> 7) & 0b1_1111) as u8,
            rs1: ((inst >> 15) & 0b1_1111) as u8,
            rs2: ((inst >> 20) & 0b1_1111) as u8,
            funct10: (((inst >> 22) & (0b111_1111 << 3)) | ((inst >> 12) & 0b111)) as u16,
        }
    }

    #[inline(always)]
    fn from_embive(inst: u32) -> (r: Self) {
        proof {
            lemma_embive_fields(inst);
        }
        TypeR {
            rd: ((inst >> 17) & 0b1_1111) as u8,
            rs1: ((inst >> 22) & 0b1_1111) as u8,
            rs2: ((inst >> 27) & 0b1_1111) as u8,
            funct10: ((inst >> 7) & 0b11_1111_1111) as u16,
        }
    }

    #[inline(always)]
    fn to_embive(self) -> (r: u32) {
        ((self.rd as u32) << 17) | ((self.rs1 as u32) << 22) | ((self.rs2 as u32) << 27) | ((self.funct10 as u32) << 7)
    }

    proof fn lemma_from_riscv_valid(inst: u32) {
        lemma_riscv_base_fields(inst);
    }

    proof fn lemma_embive_roundtrip(self) {
        lemma_roundtrip_base(self.rd, self.rs1, self.rs2, self.funct10, 0u8, 0i32, 0u8);
    }
}

impl Format for TypeI {
    open spec fn spec_from_riscv(inst: u32) -> Self {
        TypeI {
            rd_rs2: bit_field(inst, 7, 5) as u8,
            rs1: bit_field(inst, 15, 5) as u8,
            imm: sign_extend(bit_field(inst, 20, 12), 12),
            funct3: bit_field(inst, 12, 3) as u8,
        }
    }

    open spec fn spec_from_embive(inst: u32) -> Self {
        TypeI {
            rd_rs2: bit_field(inst, 10, 5) as u8,
            rs1: bit_field(inst, 15, 5) as u8,
            imm: sign_extend(bit_field(inst, 20, 12), 12),
            funct3: bit_field(inst, 7, 3) as u8,
        }
    }

    open spec fn spec_to_embive(self) -> u32 {
        ((self.rd_rs2 as u32) << 10) | ((self.funct3 as u32) << 7) | ((self.rs1 as u32) << 15) | ((self.imm as u32 & 0b1111_1111_1111) << 20)
    }

    open spec fn spec_valid(self) -> bool {
        self.rd_rs2 < 32 && self.rs1 < 32 && self.funct3 < 8 && -2048 <= self.imm < 2048
    }

    #[inline(always)]
    fn from_riscv(inst: u32) -> (r: Self) {
        proof {
            lemma_riscv_base_fields(inst);
        }
        TypeI {
            rd_rs2: ((inst >> 7) & 0b1_1111) as u8,
            rs1: ((inst >> 15) & 0b1_1111) as u8,
            imm: ((inst & (0b1111_1111_1111 << 20)) as i32 >> 20),
            funct3: ((inst >> 12) & 0b111) as u8,
        }
    }

    #[inline(always)]
    fn from_embive(inst: u32) -> (r: Self) {
        proof {
            lemma_embive_fields(inst);
        }
        TypeI {
            rd_rs2: ((inst >> 10) & 0b1_1111) as u8,
            rs1: ((inst >> 15) & 0b1_1111) as u8,
            imm: ((inst & (0b1111_1111_1111 << 20)) as i32 >> 20),
            funct3: ((inst >> 7) & 0b111) as u8,
        }
    }

    #[inline(always)]
    fn to_embive(self) -> (r: u32) {
        ((self.rd_rs2 as u32) << 10) | ((self.funct3 as u32) << 7) | ((self.rs1 as u32) << 15) | ((self.imm as u32 & 0b1111_1111_1111) << 20)
    }

    proof fn lemma_from_riscv_valid(inst: u32) {
        lemma_riscv_base_fields(inst);
    }

    proof fn lemma_embive_roundtrip(self) {
        lemma_roundtrip_base(0u8, self.rs1, 0u8, 0u16, self.rd_rs2, self.imm, self.funct3);
    }
}

impl Format for TypeS {
    open spec fn spec_from_riscv(inst: u32) -> Self {
        TypeS {
            rs1: bit_field(inst, 15, 5) as u8,
            rs2: bit_field(inst, 20, 5) as u8,
            imm: sign_extend(bit_field(inst, 25, 7) << 5 | bit_field(inst, 7, 5), 12),
            funct3: bit_field(inst, 12, 3) as u8,
        }
    }

    open spec fn spec_from_embive(inst: u32) -> Self {
        TypeS {
            rs1: bit_field(inst, 15, 5) as u8,
            rs2: bit_field(inst, 10, 5) as u8,
            imm: sign_extend(bit_field(inst, 20, 12), 12),
            funct3: bit_field(inst, 7, 3) as u8,
        }
    }

    open spec fn spec_to_embive(self) -> u32 {
        ((self.imm as u32) << 20) | ((self.funct3 as u32) << 7) | ((self.rs2 as u32) << 10) | ((self.rs1 as u32) << 15)
    }

    open spec fn spec_valid(self) -> bool {
        self.rs1 < 32 && self.rs2 < 32 && self.funct3 < 8 && -2048 <= self.imm < 2048
    }

    #[inline(always)]
    fn from_riscv(inst: u32) -> (r: Self) {
        proof {
            lemma_riscv_base_fields(inst);
        }
        TypeS {
            rs1: ((inst >> 15) & 0b1_1111) as u8,
            rs2: ((inst >> 20) & 0b1_1111) as u8,
            imm: ((inst & (0b111_1111 << 25)) | ((inst & (0b1_1111 << 7)) << 13)) as i32 >> 20,
            funct3: ((inst >> 12) & 0b111) as u8,
        }
    }

    #[inline(always)]
    fn from_embive(inst: u32) -> (r: Self) {
        proof {
            lemma_embive_fields(inst);
        }
        TypeS {
            rs1: ((inst >> 15) & 0b1_1111) as u8,
            rs2: ((inst >> 10) & 0b1_1111) as u8,
            imm: (inst & (0b1111_1111_1111 << 20)) as i32 >> 20,
            funct3: ((inst >> 7) & 0b111) as u8,
        }
    }

    #[inline(always)]
    fn to_embive(self) -> (r: u32) {
        ((self.imm as u32) << 20) | ((self.funct3 as u32) << 7) | ((self.rs2 as u32) << 10) | ((self.rs1 as u32) << 15)
    }

    proof fn lemma_from_riscv_valid(inst: u32) {
        lemma_riscv_base_fields(inst);
    }

    proof fn lemma_embive_roundtrip(self) {
        lemma_roundtrip_base(0u8, self.rs1, self.rs2, 0u16, 0u8, self.imm, self.funct3);
    }
}

impl Format for TypeB {
    open spec fn spec_from_riscv(inst: u32) -> Self {
        TypeB {
            rs1: bit_field(inst, 15, 5) as u8,
            rs2: bit_field(inst, 20, 5) as u8,
            imm: sign_extend(bit_field(inst, 31, 1) << 12 | bit_field(inst, 7, 1) << 11 | bit_field(inst, 25, 6) << 5 | bit_field(inst, 8, 4) << 1, 13),
            funct3: bit_field(inst, 12, 3) as u8,
        }
    }

    open spec fn spec_from_embive(inst: u32) -> Self {
        TypeB {
            rs1: bit_field(inst, 10, 5) as u8,
            rs2: bit_field(inst, 15, 5) as u8,
            imm: sign_extend(bit_field(inst, 20, 12) << 1, 13),
            funct3: bit_field(inst, 7, 3) as u8,
        }
    }

    open spec fn spec_to_embive(self) -> u32 {
        ((self.imm as u32) << 19) | ((self.funct3 as u32) << 7) | ((self.rs1 as u32) << 10) | ((self.rs2 as u32) << 15)
    }

    open spec fn spec_valid(self) -> bool {
        self.rs1 < 32 && self.rs2 < 32 && self.funct3 < 8 && -4096 <= self.imm < 4096 && self.imm & 1 == 0
    }

    #[inline(always)]
    fn from_riscv(inst: u32) -> (r: Self) {
        proof {
            lemma_riscv_base_fields(inst);
        }
        TypeB {
            rs1: ((inst >> 15) & 0b1_1111) as u8,
            rs2: ((inst >> 20) & 0b1_1111) as u8,
            imm: ((inst & (0b1 << 31)) | ((inst & (0b1 << 7)) << 23) | ((inst & (0b11_1111 << 25)) >> 1) | ((inst & (0b1111 << 8)) << 12)) as i32 >> 19,
            funct3: ((inst >> 12) & 0b111) as u8,
        }
    }

    #[inline(always)]
    fn from_embive(inst: u32) -> (r: Self) {
        proof {
            lemma_embive_fields(inst);
        }
        TypeB {
            rs1: ((inst >> 10) & 0b1_1111) as u8,
            rs2: ((inst >> 15) & 0b1_1111) as u8,
            imm: (inst & (0b1111_1111_1111 << 20)) as i32 >> 19,
            funct3: ((inst >> 7) & 0b111) as u8,
        }
    }

    #[inline(always)]
    fn to_embive(self) -> (r: u32) {
        ((self.imm as u32) << 19) | ((self.funct3 as u32) << 7) | ((self.rs1 as u32) << 10) | ((self.rs2 as u32) << 15)
    }

    proof fn lemma_from_riscv_valid(inst: u32) {
        lemma_riscv_base_fields(inst);
    }

    proof fn lemma_embive_roundtrip(self) {
        lemma_roundtrip_base(0u8, self.rs1, self.rs2, 0u16, 0u8, self.imm, self.funct3);
    }
}

impl Format for TypeU {
    open spec fn spec_from_riscv(inst: u32) -> Self {
        TypeU {
            rd: bit_field(inst, 7, 5) as u8,
            imm: (bit_field(inst, 12, 20) << 12) as i32,
        }
    }

    open spec fn spec_from_embive(inst: u32) -> Self {
        TypeU {
            rd: bit_field(inst, 7, 5) as u8,
            imm: (bit_field(inst, 12, 20) << 12) as i32,
        }
    }

    open spec fn spec_to_embive(self) -> u32 {
        ((self.rd as u32) << 7) | (self.imm as u32 & (0b1111_1111_1111_1111_1111u32 << 12))
    }

    open spec fn spec_valid(self) -> bool {
        self.rd < 32 && self.imm & 0xFFF == 0
    }

    #[inline(always)]
    fn from_riscv(inst: u32) -> (r: Self) {
        proof {
            lemma_riscv_base_fields(inst);
        }
        TypeU {
            rd: ((inst >> 7) & 0b1_1111) as u8,
            imm: (inst & (0b1111_1111_1111_1111_1111 << 12)) as i32,
        }
    }

    #[inline(always)]
    fn from_embive(inst: u32) -> (r: Self) {
        proof {
            lemma_embive_fields(inst);
        }
        TypeU {
            rd: ((inst >> 7) & 0b1_1111) as u8,
            imm: (inst & (0b1111_1111_1111_1111_1111 << 12)) as i32,
        }
    }

    #[inline(always)]
    fn to_embive(self) -> (r: u32) {
        ((self.rd as u32) << 7) | (self.imm as u32 & (0b1111_1111_1111_1111_1111 << 12))
    }

    proof fn lemma_from_riscv_valid(inst: u32) {
        lemma_riscv_base_fields(inst);
    }

    proof fn lemma_embive_roundtrip(self) {
        lemma_roundtrip_base(self.rd, 0u8, 0u8, 0u16, 0u8, self.imm, 0u8);
    }
}

impl Format for TypeJ {
    open spec fn spec_from_riscv(inst: u32) -> Self {
        TypeJ {
            rd: bit_field(inst, 7, 5) as u8,
            imm: sign_extend(bit_field(inst, 31, 1) << 20 | bit_field(inst, 12, 8) << 12 | bit_field(inst, 20, 1) << 11 | bit_field(inst, 21, 10) << 1, 21),
        }
    }

    open spec fn spec_from_embive(inst: u32) -> Self {
        TypeJ {
            rd: bit_field(inst, 7, 5) as u8,
            imm: sign_extend(bit_field(inst, 12, 20) << 1, 21),
        }
    }

    open spec fn spec_to_embive(self) -> u32 {
        ((self.rd as u32) << 7) | ((self.imm as u32) << 11)
    }

    open spec fn spec_valid(self) -> bool {
        self.rd < 32 && -1048576 <= self.imm < 1048576 && self.imm & 1 == 0
    }

    #[inline(always)]
    fn from_riscv(inst: u32) -> (r: Self) {
        proof {
            lemma_riscv_base_fields(inst);
        }
        TypeJ {
            rd: ((inst >> 7) & 0b1_1111) as u8,
            imm: ((inst & (0b1 << 31)) | ((inst & (0b1111_1111 << 12)) << 11) | ((inst & (0b1 << 20)) << 2) | ((inst & (0b11_1111_1111 << 21)) >> 9)) as i32 >> 11,
        }
    }

    #[inline(always)]
    fn from_embive(inst: u32) -> (r: Self) {
        proof {
            lemma_embive_fields(inst);
        }
        TypeJ {
            rd: ((inst >> 7) & 0b1_1111) as u8,
            imm: (inst & (0b1111_1111_1111_1111_1111 << 12)) as i32 >> 11,
        }
    }

    #[inline(always)]
    fn to_embive(self) -> (r: u32) {
        ((self.rd as u32) << 7) | ((self.imm as u32) << 11)
    }

    proof fn lemma_from_riscv_valid(inst: u32) {
        lemma_riscv_base_fields(inst);
    }

    proof fn lemma_embive_roundtrip(self) {
        lemma_roundtrip_base(self.rd, 0u8, 0u8, 0u16, 0u8, self.imm, 0u8);
    }
}

impl Format for TypeCIW {
    open spec fn spec_from_riscv(inst: u32) -> Self {
        TypeCIW {
            rd: compressed_register(bit_field(inst, 2, 3)),
            imm: (bit_field(inst, 6, 1) << 2 | bit_field(inst, 5, 1) << 3 | bit_field(inst, 11, 2) << 4 | bit_field(inst, 7, 4) << 6) as i32,
        }
    }

    open spec fn spec_from_embive(inst: u32) -> Self {
        TypeCIW {
            rd: compressed_register(bit_field(inst, 5, 3)),
            imm: (bit_field(inst, 8, 8) << 2) as i32,
        }
    }

    open spec fn spec_to_embive(self) -> u32 {
        ((vstd::wrapping::u8_specs::wrapping_sub(self.rd, COMPRESSED_REGISTER_OFFSET) as u32) << 5) | (((self.imm as u32) << 6) & (0b1111_1111u32 << 8))
    }

    open spec fn spec_valid(self) -> bool {
        8 <= self.rd < 16 && 0 <= self.imm < 1024 && self.imm & 3 == 0
    }

    #[inline(always)]
    fn from_riscv(inst: u32) -> (r: Self) {
        proof {
            lemma_riscv_compressed_fields(inst);
        }
        TypeCIW {
            rd: (((inst >> 2) & 0b111) as u8).wrapping_add(COMPRESSED_REGISTER_OFFSET),
            imm: (((inst & (0b1 << 6)) >> 4) | ((inst & (0b1 << 5)) >> 2) | ((inst & (0b11 << 11)) >> 7) | ((inst & (0b1111 << 7)) >> 1)) as i32,
        }
    }

    #[inline(always)]
    fn from_embive(inst: u32) -> (r: Self) {
        proof {
            lemma_embive_fields(inst);
        }
        TypeCIW {
            rd: (((inst >> 5) & 0b111) as u8).wrapping_add(COMPRESSED_REGISTER_OFFSET),
            imm: ((inst & (0b1111_1111 << 8)) >> 6) as i32,
        }
    }

    #[inline(always)]
    fn to_embive(self) -> (r: u32) {
        ((self.rd.wrapping_sub(COMPRESSED_REGISTER_OFFSET) as u32) << 5) | (((self.imm as u32) << 6) & (0b1111_1111 << 8))
    }

    proof fn lemma_from_riscv_valid(inst: u32) {
        lemma_riscv_compressed_fields(inst);
    }

    proof fn lemma_embive_roundtrip(self) {
        lemma_roundtrip_c1(self.rd, self.imm, vstd::wrapping::u8_specs::wrapping_sub(self.rd, COMPRESSED_REGISTER_OFFSET), 0u8, 0u8, 0u8, 0u8, 0u8);
    }
}

impl Format for TypeCL {
    open spec fn spec_from_riscv(inst: u32) -> Self {
        TypeCL {
            rd_rs2: compressed_register(bit_field(inst, 2, 3)),
            rs1: compressed_register(bit_field(inst, 7, 3)),
            imm: (bit_field(inst, 5, 1) << 6 | bit_field(inst, 10, 3) << 3 | bit_field(inst, 6, 1) << 2) as i32,
        }
    }

    open spec fn spec_from_embive(inst: u32) -> Self {
        TypeCL {
            rd_rs2: compressed_register(bit_field(inst, 5, 3)),
            rs1: compressed_register(bit_field(inst, 8, 3)),
            imm: (bit_field(inst, 11, 5) << 2) as i32,
        }
    }

    open spec fn spec_to_embive(self) -> u32 {
        ((vstd::wrapping::u8_specs::wrapping_sub(self.rd_rs2, COMPRESSED_REGISTER_OFFSET) as u32) << 5) | ((vstd::wrapping::u8_specs::wrapping_sub(self.rs1, COMPRESSED_REGISTER_OFFSET) as u32) << 8) | ((self.imm as u32) << 9)
    }

    open spec fn spec_valid(self) -> bool {
        8 <= self.rd_rs2 < 16 && 8 <= self.rs1 < 16 && 0 <= self.imm < 128 && self.imm & 3 == 0
    }

    #[inline(always)]
    fn from_riscv(inst: u32) -> (r: Self) {
        proof {
            lemma_riscv_compressed_fields(inst);
        }
        TypeCL {
            rd_rs2: (((inst >> 2) & 0b111) as u8).wrapping_add(COMPRESSED_REGISTER_OFFSET),
            rs1: (((inst >> 7) & 0b111) as u8).wrapping_add(COMPRESSED_REGISTER_OFFSET),
            imm: (((inst & (0b1 << 5)) << 1) | ((inst & (0b111 << 10)) >> 7) | ((inst & (0b1 << 6)) >> 4)) as i32,
        }
    }

    #[inline(always)]
    fn from_embive(inst: u32) -> (r: Self) {
        proof {
            lemma_embive_fields(inst);
        }
        TypeCL {
            rd_rs2: (((inst >> 5) & 0b111) as u8).wrapping_add(COMPRESSED_REGISTER_OFFSET),
            rs1: (((inst >> 8) & 0b111) as u8).wrapping_add(COMPRESSED_REGISTER_OFFSET),
            imm: ((inst & (0b1_1111 << 11)) >> 9) as i32,
        }
    }

    #[inline(always)]
    fn to_embive(self) -> (r: u32) {
        ((self.rd_rs2.wrapping_sub(COMPRESSED_REGISTER_OFFSET) as u32) << 5) | ((self.rs1.wrapping_sub(COMPRESSED_REGISTER_OFFSET) as u32) << 8) | ((self.imm as u32) << 9)
    }

    proof fn lemma_from_riscv_valid(inst: u32) {
        lemma_riscv_compressed_fields(inst);
    }

    proof fn lemma_embive_roundtrip(self) {
        lemma_roundtrip_c1(0u8, self.imm, 0u8, self.rd_rs2, self.rs1, vstd::wrapping::u8_specs::wrapping_sub(self.rd_rs2, COMPRESSED_REGISTER_OFFSET), vstd::wrapping::u8_specs::wrapping_sub(self.rs1, COMPRESSED_REGISTER_OFFSET), 0u8);
    }
}

impl Format for TypeCI1 {
    open spec fn spec_from_riscv(inst: u32) -> Self {
        TypeCI1 {
            rd_rs1: bit_field(inst, 7, 5) as u8,
            imm: sign_extend(bit_field(inst, 12, 1) << 5 | bit_field(inst, 2, 5), 6),
        }
    }

    open spec fn spec_from_embive(inst: u32) -> Self {
        TypeCI1 {
            rd_rs1: bit_field(inst, 5, 5) as u8,
            imm: sign_extend(bit_field(inst, 10, 6), 6),
        }
    }

    open spec fn spec_to_embive(self) -> u32 {
        ((self.rd_rs1 as u32) << 5) | (((self.imm as u32) << 10) & (0b11_1111u32 << 10))
    }

    open spec fn spec_valid(self) -> bool {
        self.rd_rs1 < 32 && -32 <= self.imm < 32
    }

    #[inline(always)]
    fn from_riscv(inst: u32) -> (r: Self) {
        proof {
            lemma_riscv_compressed_fields(inst);
        }
        TypeCI1 {
            rd_rs1: ((inst >> 7) & 0b1_1111) as u8,
            imm: ((((inst & (0b1_1111 << 2)) | ((inst & (0b1 << 12)) >> 5)) as i8) >> 2) as i32,
        }
    }

    #[inline(always)]
    fn from_embive(inst: u32) -> (r: Self) {
        proof {
            lemma_embive_fields(inst);
        }
        TypeCI1 {
            rd_rs1: ((inst >> 5) & 0b1_1111) as u8,
            imm: (((inst & (0b11_1111 << 10)) as i16) >> 10) as i32,
        }
    }

    #[inline(always)]
    fn to_embive(self) -> (r: u32) {
        ((self.rd_rs1 as u32) << 5) | (((self.imm as u32) << 10) & (0b11_1111 << 10))
    }

    proof fn lemma_from_riscv_valid(inst: u32) {
        lemma_riscv_compressed_fields(inst);
    }

    proof fn lemma_embive_roundtrip(self) {
        lemma_roundtrip_c1(0u8, self.imm, 0u8, 0u8, 0u8, 0u8, 0u8, self.rd_rs1);
    }
}

impl Format for TypeCI2 {
    open spec fn spec_from_riscv(inst: u32) -> Self {
        TypeCI2 {
            rd_rs1: bit_field(inst, 7, 5) as u8,
            imm: sign_extend(bit_field(inst, 12, 1) << 9 | bit_field(inst, 3, 2) << 7 | bit_field(inst, 5, 1) << 6 | bit_field(inst, 2, 1) << 5 | bit_field(inst, 6, 1) << 4, 10),
        }
    }

    open spec fn spec_from_embive(inst: u32) -> Self {
        TypeCI2 {
            rd_rs1: bit_field(inst, 5, 5) as u8,
            imm: sign_extend(bit_field(inst, 10, 6) << 4, 10),
        }
    }

    open spec fn spec_to_embive(self) -> u32 {
        ((self.rd_rs1 as u32) << 5) | (((self.imm as u32) << 6) & (0b11_1111u32 << 10))
    }

    open spec fn spec_valid(self) -> bool {
        self.rd_rs1 < 32 && -512 <= self.imm < 512 && self.imm & 15 == 0
    }

    #[inline(always)]
    fn from_riscv(inst: u32) -> (r: Self) {
        proof {
            lemma_riscv_compressed_fields(inst);
        }
        TypeCI2 {
            rd_rs1: ((inst >> 7) & 0b1_1111) as u8,
            imm: (((((inst & (0b1 << 12)) >> 5) | ((inst & (0b11 << 3)) << 2) | ((inst & (0b1 << 5)) >> 1) | ((inst & (0b1 << 2)) << 1) | ((inst & (0b1 << 6)) >> 4)) as i8) as i32) << 2,
        }
    }

    #[inline(always)]
    fn from_embive(inst: u32) -> (r: Self) {
        proof {
            lemma_embive_fields(inst);
        }
        TypeCI2 {
            rd_rs1: ((inst >> 5) & 0b1_1111) as u8,
            imm: (((inst & (0b11_1111 << 10)) as i16) >> 6) as i32,
        }
    }

    #[inline(always)]
    fn to_embive(self) -> (r: u32) {
        ((self.rd_rs1 as u32) << 5) | (((self.imm as u32) << 6) & (0b11_1111 << 10))
    }

    proof fn lemma_from_riscv_valid(inst: u32) {
        lemma_riscv_compressed_fields(inst);
    }

    proof fn lemma_embive_roundtrip(self) {
        lemma_roundtrip_c1(0u8, self.imm, 0u8, 0u8, 0u8, 0u8, 0u8, self.rd_rs1);
    }
}

impl Format for TypeCI3 {
    open spec fn spec_from_riscv(inst: u32) -> Self {
        TypeCI3 {
            rd_rs1: bit_field(inst, 7, 5) as u8,
            imm: sign_extend(bit_field(inst, 12, 1) << 17 | bit_field(inst, 2, 5) << 12, 18),
        }
    }

    open spec fn spec_from_embive(inst: u32) -> Self {
        TypeCI3 {
            rd_rs1: bit_field(inst, 5, 5) as u8,
            imm: sign_extend(bit_field(inst, 10, 6) << 12, 18),
        }
    }

    open spec fn spec_to_embive(self) -> u32 {
        ((self.rd_rs1 as u32) << 5) | (((self.imm as u32) >> 2) & (0b11_1111u32 << 10))
    }

    open spec fn spec_valid(self) -> bool {
        self.rd_rs1 < 32 && -131072 <= self.imm < 131072 && self.imm & 4095 == 0
    }

    #[inline(always)]
    fn from_riscv(inst: u32) -> (r: Self) {
        proof {
            lemma_riscv_compressed_fields(inst);
        }
        TypeCI3 {
            rd_rs1: ((inst >> 7) & 0b1_1111) as u8,
            imm: ((((inst & (0b1_1111 << 2)) | ((inst & (0b1 << 12)) >> 5)) as i8) as i32) << 10,
        }
    }

    #[inline(always)]
    fn from_embive(inst: u32) -> (r: Self) {
        proof {
            lemma_embive_fields(inst);
        }
        TypeCI3 {
            rd_rs1: ((inst >> 5) & 0b1_1111) as u8,
            imm: (((inst & (0b11_1111 << 10)) as i16) as i32) << 2,
        }
    }

    #[inline(always)]
    fn to_embive(self) -> (r: u32) {
        ((self.rd_rs1 as u32) << 5) | (((self.imm as u32) >> 2) & (0b11_1111 << 10))
    }

    proof fn lemma_from_riscv_valid(inst: u32) {
        lemma_riscv_compressed_fields(inst);
    }

    proof fn lemma_embive_roundtrip(self) {
        lemma_roundtrip_c1(0u8, self.imm, 0u8, 0u8, 0u8, 0u8, 0u8, self.rd_rs1);
    }
}

impl Format for TypeCI4 {
    open spec fn spec_from_riscv(inst: u32) -> Self {
        TypeCI4 {
            rd_rs1: bit_field(inst, 7, 5) as u8,
            imm: (bit_field(inst, 12, 1) << 5 | bit_field(inst, 2, 5)) as i32,
        }
    }

    open spec fn spec_from_embive(inst: u32) -> Self {
        TypeCI4 {
            rd_rs1: bit_field(inst, 5, 5) as u8,
            imm: bit_field(inst, 10, 6) as i32,
        }
    }

    open spec fn spec_to_embive(self) -> u32 {
        ((self.rd_rs1 as u32) << 5) | ((self.imm as u32) << 10)
    }

    open spec fn spec_valid(self) -> bool {
        self.rd_rs1 < 32 && 0 <= self.imm < 64
    }

    #[inline(always)]
    fn from_riscv(inst: u32) -> (r: Self) {
        proof {
            lemma_riscv_compressed_fields(inst);
        }
        TypeCI4 {
            rd_rs1: ((inst >> 7) & 0b1_1111) as u8,
            imm: (((inst & (0b1_1111 << 2)) | ((inst & (0b1 << 12)) >> 5)) >> 2) as i32,
        }
    }

    #[inline(always)]
    fn from_embive(inst: u32) -> (r: Self) {
        proof {
            lemma_embive_fields(inst);
        }
        TypeCI4 {
            rd_rs1: ((inst >> 5) & 0b1_1111) as u8,
            imm: ((inst & (0b11_1111 << 10)) >> 10) as i32,
        }
    }

    #[inline(always)]
    fn to_embive(self) -> (r: u32) {
        ((self.rd_rs1 as u32) << 5) | ((self.imm as u32) << 10)
    }

    proof fn lemma_from_riscv_valid(inst: u32) {
        lemma_riscv_compressed_fields(inst);
    }

    proof fn lemma_embive_roundtrip(self) {
        lemma_roundtrip_c1(0u8, self.imm, 0u8, 0u8, 0u8, 0u8, 0u8, self.rd_rs1);
    }
}

impl Format for TypeCI5 {
    open spec fn spec_from_riscv(inst: u32) -> Self {
        TypeCI5 {
            rd_rs1: bit_field(inst, 7, 5) as u8,
            imm: (bit_field(inst, 2, 2) << 6 | bit_field(inst, 12, 1) << 5 | bit_field(inst, 4, 3) << 2) as i32,
        }
    }

    open spec fn spec_from_embive(inst: u32) -> Self {
        TypeCI5 {
            rd_rs1: bit_field(inst, 5, 5) as u8,
            imm: (bit_field(inst, 10, 6) << 2) as i32,
        }
    }

    open spec fn spec_to_embive(self) -> u32 {
        ((self.rd_rs1 as u32) << 5) | ((self.imm as u32) << 8)
    }

    open spec fn spec_valid(self) -> bool {
        self.rd_rs1 < 32 && 0 <= self.imm < 256 && self.imm & 3 == 0
    }

    #[inline(always)]
    fn from_riscv(inst: u32) -> (r: Self) {
        proof {
            lemma_riscv_compressed_fields(inst);
        }
        TypeCI5 {
            rd_rs1: ((inst >> 7) & 0b1_1111) as u8,
            imm: ((((inst & (0b11 << 2)) << 11) | (inst & (0b1 << 12)) | ((inst & (0b111 << 4)) << 5)) as i32) >> 7,
        }
    }

    #[inline(always)]
    fn from_embive(inst: u32) -> (r: Self) {
        proof {
            lemma_embive_fields(inst);
        }
        TypeCI5 {
            rd_rs1: ((inst >> 5) & 0b1_1111) as u8,
            imm: ((inst & (0b11_1111 << 10)) >> 8) as i32,
        }
    }

    #[inline(always)]
    fn to_embive(self) -> (r: u32) {
        ((self.rd_rs1 as u32) << 5) | ((self.imm as u32) << 8)
    }

    proof fn lemma_from_riscv_valid(inst: u32) {
        lemma_riscv_compressed_fields(inst);
    }

    proof fn lemma_embive_roundtrip(self) {
        lemma_roundtrip_c1(0u8, self.imm, 0u8, 0u8, 0u8, 0u8, 0u8, self.rd_rs1);
    }
}

impl Format for TypeCB1 {
    open spec fn spec_from_riscv(inst: u32) -> Self {
        TypeCB1 {
            rd_rs1: compressed_register(bit_field(inst, 7, 3)),
            imm: (bit_field(inst, 12, 1) << 5 | bit_field(inst, 2, 5)) as i32,
        }
    }

    open spec fn spec_from_embive(inst: u32) -> Self {
        TypeCB1 {
            rd_rs1: bit_field(inst, 5, 5) as u8,
            imm: bit_field(inst, 10, 6) as i32,
        }
    }

    open spec fn spec_to_embive(self) -> u32 {
        ((self.rd_rs1 as u32) << 5) | ((self.imm as u32) << 10)
    }

    open spec fn spec_valid(self) -> bool {
        self.rd_rs1 < 32 && 0 <= self.imm < 64
    }

    #[inline(always)]
    fn from_riscv(inst: u32) -> (r: Self) {
        proof {
            lemma_riscv_compressed_fields(inst);
        }
        TypeCB1 {
            rd_rs1: (((inst >> 7) & 0b111) as u8).wrapping_add(COMPRESSED_REGISTER_OFFSET),
            imm: (((inst & (0b1_1111 << 2)) | ((inst & (0b1 << 12)) >> 5)) >> 2) as i32,
        }
    }

    #[inline(always)]
    fn from_embive(inst: u32) -> (r: Self) {
        proof {
            lemma_embive_fields(inst);
        }
        TypeCB1 {
            rd_rs1: ((inst >> 5) & 0b1_1111) as u8,
            imm: ((inst & (0b11_1111 << 10)) >> 10) as i32,
        }
    }

    #[inline(always)]
    fn to_embive(self) -> (r: u32) {
        ((self.rd_rs1 as u32) << 5) | ((self.imm as u32) << 10)
    }

    proof fn lemma_from_riscv_valid(inst: u32) {
        lemma_riscv_compressed_fields(inst);
    }

    proof fn lemma_embive_roundtrip(self) {
        lemma_roundtrip_c2(self.rd_rs1, self.imm, 0u8, 0u8, 0u8);
    }
}

impl Format for TypeCB2 {
    open spec fn spec_from_riscv(inst: u32) -> Self {
        TypeCB2 {
            rd_rs1: compressed_register(bit_field(inst, 7, 3)),
            imm: sign_extend(bit_field(inst, 12, 1) << 5 | bit_field(inst, 2, 5), 6),
        }
    }

    open spec fn spec_from_embive(inst: u32) -> Self {
        TypeCB2 {
            rd_rs1: bit_field(inst, 5, 5) as u8,
            imm: sign_extend(bit_field(inst, 10, 6), 6),
        }
    }

    open spec fn spec_to_embive(self) -> u32 {
        ((self.rd_rs1 as u32) << 5) | (((self.imm as u32) << 10) & (0b11_1111u32 << 10))
    }

    open spec fn spec_valid(self) -> bool {
        self.rd_rs1 < 32 && -32 <= self.imm < 32
    }

    #[inline(always)]
    fn from_riscv(inst: u32) -> (r: Self) {
        proof {
            lemma_riscv_compressed_fields(inst);
        }
        TypeCB2 {
            rd_rs1: (((inst >> 7) & 0b111) as u8).wrapping_add(COMPRESSED_REGISTER_OFFSET),
            imm: ((((inst & (0b1_1111 << 2)) | ((inst & (0b1 << 12)) >> 5)) as i8) >> 2) as i32,
        }
    }

    #[inline(always)]
    fn from_embive(inst: u32) -> (r: Self) {
        proof {
            lemma_embive_fields(inst);
        }
        TypeCB2 {
            rd_rs1: ((inst >> 5) & 0b1_1111) as u8,
            imm: (((inst & (0b11_1111 << 10)) as i16) >> 10) as i32,
        }
    }

    #[inline(always)]
    fn to_embive(self) -> (r: u32) {
        ((self.rd_rs1 as u32) << 5) | (((self.imm as u32) << 10) & (0b11_1111 << 10))
    }

    proof fn lemma_from_riscv_valid(inst: u32) {
        lemma_riscv_compressed_fields(inst);
    }

    proof fn lemma_embive_roundtrip(self) {
        lemma_roundtrip_c2(self.rd_rs1, self.imm, 0u8, 0u8, 0u8);
    }
}

impl Format for TypeCB3 {
    open spec fn spec_from_riscv(inst: u32) -> Self {
        TypeCB3 {
            rd_rs1: compressed_register(bit_field(inst, 7, 3)),
            rs2: compressed_register(bit_field(inst, 2, 3)),
        }
    }

    open spec fn spec_from_embive(inst: u32) -> Self {
        TypeCB3 {
            rd_rs1: bit_field(inst, 5, 5) as u8,
            rs2: bit_field(inst, 10, 5) as u8,
        }
    }

    open spec fn spec_to_embive(self) -> u32 {
        ((self.rd_rs1 as u32) << 5) | ((self.rs2 as u32) << 10)
    }

    open spec fn spec_valid(self) -> bool {
        self.rd_rs1 < 32 && self.rs2 < 32
    }

    #[inline(always)]
    fn from_riscv(inst: u32) -> (r: Self) {
        proof {
            lemma_riscv_compressed_fields(inst);
        }
        TypeCB3 {
            rd_rs1: (((inst >> 7) & 0b111) as u8).wrapping_add(COMPRESSED_REGISTER_OFFSET),
            rs2: (((inst >> 2) & 0b111) as u8).wrapping_add(COMPRESSED_REGISTER_OFFSET),
        }
    }

    #[inline(always)]
    fn from_embive(inst: u32) -> (r: Self) {
        proof {
            lemma_embive_fields(inst);
        }
        TypeCB3 {
            rd_rs1: ((inst >> 5) & 0b1_1111) as u8,
            rs2: ((inst >> 10) & 0b1_1111) as u8,
        }
    }

    #[inline(always)]
    fn to_embive(self) -> (r: u32) {
        ((self.rd_rs1 as u32) << 5) | ((self.rs2 as u32) << 10)
    }

    proof fn lemma_from_riscv_valid(inst: u32) {
        lemma_riscv_compressed_fields(inst);
    }

    proof fn lemma_embive_roundtrip(self) {
        lemma_roundtrip_c2(self.rd_rs1, 0i32, self.rs2, 0u8, 0u8);
    }
}

impl Format for TypeCB4 {
    open spec fn spec_from_riscv(inst: u32) -> Self {
        TypeCB4 {
            rs1: compressed_register(bit_field(inst, 7, 3)),
            imm: sign_extend(bit_field(inst, 12, 1) << 8 | bit_field(inst, 5, 2) << 6 | bit_field(inst, 2, 1) << 5 | bit_field(inst, 10, 2) << 3 | bit_field(inst, 3, 2) << 1, 9),
        }
    }

    open spec fn spec_from_embive(inst: u32) -> Self {
        TypeCB4 {
            rs1: compressed_register(bit_field(inst, 5, 3)),
            imm: sign_extend(bit_field(inst, 8, 8) << 1, 9),
        }
    }

    open spec fn spec_to_embive(self) -> u32 {
        ((vstd::wrapping::u8_specs::wrapping_sub(self.rs1, COMPRESSED_REGISTER_OFFSET) as u32) << 5) | (((self.imm as u32) << 7) & (0b1111_1111u32 << 8))
    }

    open spec fn spec_valid(self) -> bool {
        8 <= self.rs1 < 16 && -256 <= self.imm < 256 && self.imm & 1 == 0
    }

    #[inline(always)]
    fn from_riscv(inst: u32) -> (r: Self) {
        proof {
            lemma_riscv_compressed_fields(inst);
        }
        TypeCB4 {
            rs1: (((inst >> 7) & 0b111) as u8).wrapping_add(COMPRESSED_REGISTER_OFFSET),
            imm: (((((inst & (0b1 << 12)) >> 5) | (inst & (0b11 << 5)) | ((inst & (0b1 << 2)) << 2) | ((inst & (0b11 << 10)) >> 8) | ((inst & (0b11 << 3)) >> 3)) as i8) as i32) << 1,
        }
    }

    #[inline(always)]
    fn from_embive(inst: u32) -> (r: Self) {
        proof {
            lemma_embive_fields(inst);
        }
        TypeCB4 {
            rs1: (((inst >> 5) & 0b111) as u8).wrapping_add(COMPRESSED_REGISTER_OFFSET),
            imm: (((inst & (0b1111_1111 << 8)) as i16) >> 7) as i32,
        }
    }

    #[inline(always)]
    fn to_embive(self) -> (r: u32) {
        ((self.rs1.wrapping_sub(COMPRESSED_REGISTER_OFFSET) as u32) << 5) | (((self.imm as u32) << 7) & (0b1111_1111 << 8))
    }

    proof fn lemma_from_riscv_valid(inst: u32) {
        lemma_riscv_compressed_fields(inst);
    }

    proof fn lemma_embive_roundtrip(self) {
        lemma_roundtrip_c2(0u8, self.imm, 0u8, self.rs1, vstd::wrapping::u8_specs::wrapping_sub(self.rs1, COMPRESSED_REGISTER_OFFSET));
    }
}

impl Format for TypeCR {
    open spec fn spec_from_riscv(inst: u32) -> Self {
        TypeCR {
            rd_rs1: bit_field(inst, 7, 5) as u8,
            rs2: bit_field(inst, 2, 5) as u8,
        }
    }

    open spec fn spec_from_embive(inst: u32) -> Self {
        TypeCR {
            rd_rs1: bit_field(inst, 5, 5) as u8,
            rs2: bit_field(inst, 10, 5) as u8,
        }
    }

    open spec fn spec_to_embive(self) -> u32 {
        ((self.rd_rs1 as u32) << 5) | ((self.rs2 as u32) << 10)
    }

    open spec fn spec_valid(self) -> bool {
        self.rd_rs1 < 32 && self.rs2 < 32
    }

    #[inline(always)]
    fn from_riscv(inst: u32) -> (r: Self) {
        proof {
            lemma_riscv_compressed_fields(inst);
        }
        TypeCR {
            rd_rs1: ((inst >> 7) & 0b1_1111) as u8,
            rs2: ((inst >> 2) & 0b1_1111) as u8,
        }
    }

    #[inline(always)]
    fn from_embive(inst: u32) -> (r: Self) {
        proof {
            lemma_embive_fields(inst);
        }
        TypeCR {
            rd_rs1: ((inst >> 5) & 0b1_1111) as u8,
            rs2: ((inst >> 10) & 0b1_1111) as u8,
        }
    }

    #[inline(always)]
    fn to_embive(self) -> (r: u32) {
        ((self.rd_rs1 as u32) << 5) | ((self.rs2 as u32) << 10)
    }

    proof fn lemma_from_riscv_valid(inst: u32) {
        lemma_riscv_compressed_fields(inst);
    }

    proof fn lemma_embive_roundtrip(self) {
        lemma_roundtrip_c2(self.rd_rs1, 0i32, self.rs2, 0u8, 0u8);
    }
}

impl Format for TypeCS {
    open spec fn spec_from_riscv(inst: u32) -> Self {
        TypeCS {
            rd_rs1: compressed_register(bit_field(inst, 7, 3)),
            rs2: compressed_register(bit_field(inst, 2, 3)),
        }
    }

    open spec fn spec_from_embive(inst: u32) -> Self {
        TypeCS {
            rd_rs1: bit_field(inst, 5, 5) as u8,
            rs2: bit_field(inst, 10, 5) as u8,
        }
    }

    open spec fn spec_to_embive(self) -> u32 {
        ((self.rd_rs1 as u32) << 5) | ((self.rs2 as u32) << 10)
    }

    open spec fn spec_valid(self) -> bool {
        self.rd_rs1 < 32 && self.rs2 < 32
    }

    #[inline(always)]
    fn from_riscv(inst: u32) -> (r: Self) {
        proof {
            lemma_riscv_compressed_fields(inst);
        }
        TypeCS {
            rd_rs1: (((inst >> 7) & 0b111) as u8).wrapping_add(COMPRESSED_REGISTER_OFFSET),
            rs2: (((inst >> 2) & 0b111) as u8).wrapping_add(COMPRESSED_REGISTER_OFFSET),
        }
    }

    #[inline(always)]
    fn from_embive(inst: u32) -> (r: Self) {
        proof {
            lemma_embive_fields(inst);
        }
        TypeCS {
            rd_rs1: ((inst >> 5) & 0b1_1111) as u8,
            rs2: ((inst >> 10) & 0b1_1111) as u8,
        }
    }

    #[inline(always)]
    fn to_embive(self) -> (r: u32) {
        ((self.rd_rs1 as u32) << 5) | ((self.rs2 as u32) << 10)
    }

    proof fn lemma_from_riscv_valid(inst: u32) {
        lemma_riscv_compressed_fields(inst);
    }

    proof fn lemma_embive_roundtrip(self) {
        lemma_roundtrip_c2(self.rd_rs1, 0i32, self.rs2, 0u8, 0u8);
    }
}

impl Format for TypeCSS {
    open spec fn spec_from_riscv(inst: u32) -> Self {
        TypeCSS {
            rs2: bit_field(inst, 2, 5) as u8,
            imm: (bit_field(inst, 7, 2) << 6 | bit_field(inst, 9, 4) << 2) as i32,
        }
    }

    open spec fn spec_from_embive(inst: u32) -> Self {
        TypeCSS {
            rs2: bit_field(inst, 5, 5) as u8,
            imm: (bit_field(inst, 10, 6) << 2) as i32,
        }
    }

    open spec fn spec_to_embive(self) -> u32 {
        ((self.rs2 as u32) << 5) | ((self.imm as u32) << 8)
    }

    open spec fn spec_valid(self) -> bool {
        self.rs2 < 32 && 0 <= self.imm < 256 && self.imm & 3 == 0
    }

    #[inline(always)]
    fn from_riscv(inst: u32) -> (r: Self) {
        proof {
            lemma_riscv_compressed_fields(inst);
        }
        TypeCSS {
            rs2: ((inst >> 2) & 0b1_1111) as u8,
            imm: (((inst & (0b11 << 7)) | ((inst & (0b1111 << 9)) >> 6)) >> 1) as i32,
        }
    }

    #[inline(always)]
    fn from_embive(inst: u32) -> (r: Self) {
        proof {
            lemma_embive_fields(inst);
        }
        TypeCSS {
            rs2: ((inst >> 5) & 0b1_1111) as u8,
            imm: ((inst & (0b11_1111 << 10)) >> 8) as i32,
        }
    }

    #[inline(always)]
    fn to_embive(self) -> (r: u32) {
        ((self.rs2 as u32) << 5) | ((self.imm as u32) << 8)
    }

    proof fn lemma_from_riscv_valid(inst: u32) {
        lemma_riscv_compressed_fields(inst);
    }

    proof fn lemma_embive_roundtrip(self) {
        lemma_roundtrip_c2(0u8, self.imm, self.rs2, 0u8, 0u8);
    }
}

impl Format for TypeCJ {
    open spec fn spec_from_riscv(inst: u32) -> Self {
        TypeCJ {
            imm: sign_extend(bit_field(inst, 12, 1) << 11 | bit_field(inst, 8, 1) << 10 | bit_field(inst, 9, 2) << 8 | bit_field(inst, 6, 1) << 7 | bit_field(inst, 7, 1) << 6 | bit_field(inst, 2, 1) << 5 | bit_field(inst, 11, 1) << 4 | bit_field(inst, 3, 3) << 1, 12),
        }
    }

    open spec fn spec_from_embive(inst: u32) -> Self {
        TypeCJ {
            imm: sign_extend(bit_field(inst, 5, 11) << 1, 12),
        }
    }

    open spec fn spec_to_embive(self) -> u32 {
        ((self.imm as u32) << 4) & (0b111_1111_1111u32 << 5)
    }

    open spec fn spec_valid(self) -> bool {
        -2048 <= self.imm < 2048 && self.imm & 1 == 0
    }

    #[inline(always)]
    fn from_riscv(inst: u32) -> (r: Self) {
        proof {
            lemma_riscv_compressed_fields(inst);
        }
        TypeCJ {
            imm: (((((inst & (0b1 << 12)) << 3) | ((inst & (0b1 << 8)) << 6) | ((inst & (0b11 << 9)) << 3) | ((inst & (0b1 << 6)) << 5) | ((inst & (0b1 << 7)) << 3) | ((inst & (0b1 << 2)) << 7) | ((inst & (0b1 << 11)) >> 3) | ((inst & (0b111 << 3)) << 2)) as i16) as i32) >> 4,
        }
    }

    #[inline(always)]
    fn from_embive(inst: u32) -> (r: Self) {
        proof {
            lemma_embive_fields(inst);
        }
        TypeCJ {
            imm: (((inst & (0b111_1111_1111 << 5)) as i16) >> 4) as i32,
        }
    }

    #[inline(always)]
    fn to_embive(self) -> (r: u32) {
        ((self.imm as u32) << 4) & (0b111_1111_1111 << 5)
    }

    proof fn lemma_from_riscv_valid(inst: u32) {
        lemma_riscv_compressed_fields(inst);
    }

    proof fn lemma_embive_roundtrip(self) {
        lemma_roundtrip_c2(0u8, self.imm, 0u8, 0u8, 0u8);
    }
}

} // verus!

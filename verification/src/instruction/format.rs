//! RISC-V Instruction Formats
//!
//! The fields of the 32-bit RISC-V instruction formats, read from and written back to a raw
//! instruction word, as the RISC-V manual lays them out.
use vstd::prelude::*;

use crate::format::Format;

verus! {

/// R-Type Instruction Format
#[derive(Debug, PartialEq, Copy, Clone)]
pub struct TypeR {
    /// Destination Register
    pub rd: usize,
    /// Source Register 1
    pub rs1: usize,
    /// Source Register 2
    pub rs2: usize,
    /// Function Type (funct7 << 3 | funct3)
    pub funct10: u16,
}

impl TypeR {
    /// The fields that a raw instruction word holds.
    pub open spec fn spec_from_word(inst: u32) -> Self {
        TypeR { rd: ((inst >> 7u32) & 0b1_1111u32) as usize, rs1: ((inst >> 15u32) & 0b1_1111u32) as usize, rs2: ((inst >> 20u32) & 0b1_1111u32) as usize, funct10: (((inst >> 22u32) & (0b111_1111u32 << 3u32)) | ((inst >> 12u32) & 0b111u32)) as u16 }
    }

    /// The raw instruction word that holds the fields.
    pub open spec fn spec_to_word(self) -> u32 {
        ((self.rd as u32) << 7u32) | (((self.funct10 as u32) & 0b111u32) << 12u32) | (((self.funct10 as u32) & (0b111_1111u32 << 3u32)) << 22u32) | ((self.rs1 as u32) << 15u32) | ((self.rs2 as u32) << 20u32)
    }

    /// The fields lie in the ranges that an instruction word can give them.
    pub open spec fn spec_valid(self) -> bool {
        self.rd < 32 && self.rs1 < 32 && self.rs2 < 32 && self.funct10 < 1024
    }

    /// Fields in range survive being written to an instruction word and read back.
    pub proof fn lemma_roundtrip(self)
        requires
            self.spec_valid(),
        ensures
            Self::spec_from_word(self.spec_to_word()) == self,
    {
        lemma_roundtrip_r(self.rd, self.rs1, self.rs2, self.funct10);
    }
}

impl From<u32> for TypeR {
    #[inline(always)]
    fn from(inst: u32) -> (r: Self) {
        TypeR { rd: ((inst >> 7) & 0b1_1111) as usize, rs1: ((inst >> 15) & 0b1_1111) as usize, rs2: ((inst >> 20) & 0b1_1111) as usize, funct10: (((inst >> 22) & (0b111_1111 << 3)) | ((inst >> 12) & 0b111)) as u16 }
    }
}

impl vstd::std_specs::convert::FromSpecImpl<u32> for TypeR {
    open spec fn obeys_from_spec() -> bool {
        true
    }

    open spec fn from_spec(inst: u32) -> Self {
        Self::spec_from_word(inst)
    }
}

impl From<TypeR> for u32 {
    #[inline(always)]
    fn from(ty: TypeR) -> (r: u32) {
        ((ty.rd as u32) << 7) | (((ty.funct10 as u32) & 0b111) << 12) | (((ty.funct10 as u32) & (0b111_1111 << 3)) << 22) | ((ty.rs1 as u32) << 15) | ((ty.rs2 as u32) << 20)
    }
}

impl vstd::std_specs::convert::FromSpecImpl<TypeR> for u32 {
    open spec fn obeys_from_spec() -> bool {
        true
    }

    open spec fn from_spec(ty: TypeR) -> u32 {
        ty.spec_to_word()
    }
}

/// The TypeR field layout read back after being written.
proof fn lemma_roundtrip_r(rd: usize, rs1: usize, rs2: usize, funct10: u16)
    by (bit_vector)
    requires
        rd < 32 && rs1 < 32 && rs2 < 32 && funct10 < 1024,
    ensures
        (((((rd as u32) << 7u32) | (((funct10 as u32) & 0b111u32) << 12u32) | (((funct10 as u32) & (0b111_1111u32 << 3u32)) << 22u32) | ((rs1 as u32) << 15u32) | ((rs2 as u32) << 20u32)) >> 7u32) & 0b1_1111u32) as usize == rd,
        (((((rd as u32) << 7u32) | (((funct10 as u32) & 0b111u32) << 12u32) | (((funct10 as u32) & (0b111_1111u32 << 3u32)) << 22u32) | ((rs1 as u32) << 15u32) | ((rs2 as u32) << 20u32)) >> 15u32) & 0b1_1111u32) as usize == rs1,
        (((((rd as u32) << 7u32) | (((funct10 as u32) & 0b111u32) << 12u32) | (((funct10 as u32) & (0b111_1111u32 << 3u32)) << 22u32) | ((rs1 as u32) << 15u32) | ((rs2 as u32) << 20u32)) >> 20u32) & 0b1_1111u32) as usize == rs2,
        ((((((rd as u32) << 7u32) | (((funct10 as u32) & 0b111u32) << 12u32) | (((funct10 as u32) & (0b111_1111u32 << 3u32)) << 22u32) | ((rs1 as u32) << 15u32) | ((rs2 as u32) << 20u32)) >> 22u32) & (0b111_1111u32 << 3u32)) | (((((rd as u32) << 7u32) | (((funct10 as u32) & 0b111u32) << 12u32) | (((funct10 as u32) & (0b111_1111u32 << 3u32)) << 22u32) | ((rs1 as u32) << 15u32) | ((rs2 as u32) << 20u32)) >> 12u32) & 0b111u32)) as u16 == funct10,
{
}

/// I-Type Instruction Format
#[derive(Debug, PartialEq, Copy, Clone)]
pub struct TypeI {
    /// Destination Register
    pub rd: usize,
    /// Source Register 1
    pub rs1: usize,
    /// Immediate Value
    pub imm: i32,
    /// Function Type
    pub funct3: u8,
}

impl TypeI {
    /// The fields that a raw instruction word holds.
    pub open spec fn spec_from_word(inst: u32) -> Self {
        TypeI { rd: ((inst >> 7u32) & 0b1_1111u32) as usize, rs1: ((inst >> 15u32) & 0b1_1111u32) as usize, imm: ((inst & (0b1111_1111_1111u32 << 20u32)) as i32 >> 20u32), funct3: ((inst >> 12u32) & 0b111u32) as u8 }
    }

    /// The raw instruction word that holds the fields.
    pub open spec fn spec_to_word(self) -> u32 {
        ((self.rd as u32) << 7u32) | ((self.funct3 as u32) << 12u32) | ((self.rs1 as u32) << 15u32) | ((self.imm as u32 & 0b1111_1111_1111u32) << 20u32)
    }

    /// The fields lie in the ranges that an instruction word can give them.
    pub open spec fn spec_valid(self) -> bool {
        self.rd < 32 && self.rs1 < 32 && self.funct3 < 8 && -2048 <= self.imm < 2048
    }

    /// Fields in range survive being written to an instruction word and read back.
    pub proof fn lemma_roundtrip(self)
        requires
            self.spec_valid(),
        ensures
            Self::spec_from_word(self.spec_to_word()) == self,
    {
        lemma_roundtrip_i(self.rd, self.rs1, self.imm, self.funct3);
    }
}

impl From<u32> for TypeI {
    #[inline(always)]
    fn from(inst: u32) -> (r: Self) {
        TypeI { rd: ((inst >> 7) & 0b1_1111) as usize, rs1: ((inst >> 15) & 0b1_1111) as usize, imm: ((inst & (0b1111_1111_1111 << 20)) as i32 >> 20), funct3: ((inst >> 12) & 0b111) as u8 }
    }
}

impl vstd::std_specs::convert::FromSpecImpl<u32> for TypeI {
    open spec fn obeys_from_spec() -> bool {
        true
    }

    open spec fn from_spec(inst: u32) -> Self {
        Self::spec_from_word(inst)
    }
}

impl From<TypeI> for u32 {
    #[inline(always)]
    fn from(ty: TypeI) -> (r: u32) {
        ((ty.rd as u32) << 7) | ((ty.funct3 as u32) << 12) | ((ty.rs1 as u32) << 15) | ((ty.imm as u32 & 0b1111_1111_1111) << 20)
    }
}

impl vstd::std_specs::convert::FromSpecImpl<TypeI> for u32 {
    open spec fn obeys_from_spec() -> bool {
        true
    }

    open spec fn from_spec(ty: TypeI) -> u32 {
        ty.spec_to_word()
    }
}

/// The TypeI field layout read back after being written.
proof fn lemma_roundtrip_i(rd: usize, rs1: usize, imm: i32, funct3: u8)
    by (bit_vector)
    requires
        rd < 32 && rs1 < 32 && funct3 < 8 && -2048 <= imm < 2048,
    ensures
        (((((rd as u32) << 7u32) | ((funct3 as u32) << 12u32) | ((rs1 as u32) << 15u32) | ((imm as u32 & 0b1111_1111_1111u32) << 20u32)) >> 7u32) & 0b1_1111u32) as usize == rd,
        (((((rd as u32) << 7u32) | ((funct3 as u32) << 12u32) | ((rs1 as u32) << 15u32) | ((imm as u32 & 0b1111_1111_1111u32) << 20u32)) >> 15u32) & 0b1_1111u32) as usize == rs1,
        (((((rd as u32) << 7u32) | ((funct3 as u32) << 12u32) | ((rs1 as u32) << 15u32) | ((imm as u32 & 0b1111_1111_1111u32) << 20u32)) & (0b1111_1111_1111u32 << 20u32)) as i32 >> 20u32) == imm,
        (((((rd as u32) << 7u32) | ((funct3 as u32) << 12u32) | ((rs1 as u32) << 15u32) | ((imm as u32 & 0b1111_1111_1111u32) << 20u32)) >> 12u32) & 0b111u32) as u8 == funct3,
{
}

/// S-Type Instruction Format
#[derive(Debug, PartialEq, Copy, Clone)]
pub struct TypeS {
    /// Source Register 1
    pub rs1: usize,
    /// Source Register 2
    pub rs2: usize,
    /// Immediate Value
    pub imm: i32,
    /// Function Type
    pub funct3: u8,
}

impl TypeS {
    /// The fields that a raw instruction word holds.
    pub open spec fn spec_from_word(inst: u32) -> Self {
        TypeS { rs1: ((inst >> 15u32) & 0b1_1111u32) as usize, rs2: ((inst >> 20u32) & 0b1_1111u32) as usize, imm: ((inst & (0b111_1111u32 << 25u32)) | ((inst & (0b1_1111u32 << 7u32)) << 13u32)) as i32 >> 20u32, funct3: ((inst >> 12u32) & 0b111u32) as u8 }
    }

    /// The raw instruction word that holds the fields.
    pub open spec fn spec_to_word(self) -> u32 {
        ((self.imm as u32 & 0b1_1111u32) << 7u32) | (((self.imm as u32) & (0b111_1111u32 << 5u32)) << 20u32) | ((self.funct3 as u32) << 12u32) | ((self.rs1 as u32) << 15u32) | ((self.rs2 as u32) << 20u32)
    }

    /// The fields lie in the ranges that an instruction word can give them.
    pub open spec fn spec_valid(self) -> bool {
        self.rs1 < 32 && self.rs2 < 32 && self.funct3 < 8 && -2048 <= self.imm < 2048
    }

    /// Fields in range survive being written to an instruction word and read back.
    pub proof fn lemma_roundtrip(self)
        requires
            self.spec_valid(),
        ensures
            Self::spec_from_word(self.spec_to_word()) == self,
    {
        lemma_roundtrip_s(self.rs1, self.rs2, self.imm, self.funct3);
    }
}

impl From<u32> for TypeS {
    #[inline(always)]
    fn from(inst: u32) -> (r: Self) {
        TypeS { rs1: ((inst >> 15) & 0b1_1111) as usize, rs2: ((inst >> 20) & 0b1_1111) as usize, imm: ((inst & (0b111_1111 << 25)) | ((inst & (0b1_1111 << 7)) << 13)) as i32 >> 20, funct3: ((inst >> 12) & 0b111) as u8 }
    }
}

impl vstd::std_specs::convert::FromSpecImpl<u32> for TypeS {
    open spec fn obeys_from_spec() -> bool {
        true
    }

    open spec fn from_spec(inst: u32) -> Self {
        Self::spec_from_word(inst)
    }
}

impl From<TypeS> for u32 {
    #[inline(always)]
    fn from(ty: TypeS) -> (r: u32) {
        ((ty.imm as u32 & 0b1_1111) << 7) | (((ty.imm as u32) & (0b111_1111 << 5)) << 20) | ((ty.funct3 as u32) << 12) | ((ty.rs1 as u32) << 15) | ((ty.rs2 as u32) << 20)
    }
}

impl vstd::std_specs::convert::FromSpecImpl<TypeS> for u32 {
    open spec fn obeys_from_spec() -> bool {
        true
    }

    open spec fn from_spec(ty: TypeS) -> u32 {
        ty.spec_to_word()
    }
}

/// The TypeS field layout read back after being written.
proof fn lemma_roundtrip_s(rs1: usize, rs2: usize, imm: i32, funct3: u8)
    by (bit_vector)
    requires
        rs1 < 32 && rs2 < 32 && funct3 < 8 && -2048 <= imm < 2048,
    ensures
        (((((imm as u32 & 0b1_1111u32) << 7u32) | (((imm as u32) & (0b111_1111u32 << 5u32)) << 20u32) | ((funct3 as u32) << 12u32) | ((rs1 as u32) << 15u32) | ((rs2 as u32) << 20u32)) >> 15u32) & 0b1_1111u32) as usize == rs1,
        (((((imm as u32 & 0b1_1111u32) << 7u32) | (((imm as u32) & (0b111_1111u32 << 5u32)) << 20u32) | ((funct3 as u32) << 12u32) | ((rs1 as u32) << 15u32) | ((rs2 as u32) << 20u32)) >> 20u32) & 0b1_1111u32) as usize == rs2,
        (((((imm as u32 & 0b1_1111u32) << 7u32) | (((imm as u32) & (0b111_1111u32 << 5u32)) << 20u32) | ((funct3 as u32) << 12u32) | ((rs1 as u32) << 15u32) | ((rs2 as u32) << 20u32)) & (0b111_1111u32 << 25u32)) | (((((imm as u32 & 0b1_1111u32) << 7u32) | (((imm as u32) & (0b111_1111u32 << 5u32)) << 20u32) | ((funct3 as u32) << 12u32) | ((rs1 as u32) << 15u32) | ((rs2 as u32) << 20u32)) & (0b1_1111u32 << 7u32)) << 13u32)) as i32 >> 20u32 == imm,
        (((((imm as u32 & 0b1_1111u32) << 7u32) | (((imm as u32) & (0b111_1111u32 << 5u32)) << 20u32) | ((funct3 as u32) << 12u32) | ((rs1 as u32) << 15u32) | ((rs2 as u32) << 20u32)) >> 12u32) & 0b111u32) as u8 == funct3,
{
}

/// B-Type Instruction Format
#[derive(Debug, PartialEq, Copy, Clone)]
pub struct TypeB {
    /// Source Register 1
    pub rs1: usize,
    /// Source Register 2
    pub rs2: usize,
    /// Immediate Value
    pub imm: i32,
    /// Function Type
    pub funct3: u8,
}

impl TypeB {
    /// The fields that a raw instruction word holds.
    pub open spec fn spec_from_word(inst: u32) -> Self {
        TypeB { rs1: ((inst >> 15u32) & 0b1_1111u32) as usize, rs2: ((inst >> 20u32) & 0b1_1111u32) as usize, imm: ((inst & (0b1u32 << 31u32)) | ((inst & (0b1u32 << 7u32)) << 23u32) | ((inst & (0b11_1111u32 << 25u32)) >> 1u32) | ((inst & (0b1111u32 << 8u32)) << 12u32)) as i32 >> 19u32, funct3: ((inst >> 12u32) & 0b111u32) as u8 }
    }

    /// The raw instruction word that holds the fields.
    pub open spec fn spec_to_word(self) -> u32 {
        ((self.imm as u32 & 0b1_1110u32) << 7u32) | (((self.imm as u32) & (0b1u32 << 11u32)) >> 4u32) | (((self.imm as u32) & (0b11_1111u32 << 5u32)) << 20u32) | (((self.imm as u32) & (0b1u32 << 12u32)) << 19u32) | ((self.funct3 as u32) << 12u32) | ((self.rs1 as u32) << 15u32) | ((self.rs2 as u32) << 20u32)
    }

    /// The fields lie in the ranges that an instruction word can give them.
    pub open spec fn spec_valid(self) -> bool {
        self.rs1 < 32 && self.rs2 < 32 && self.funct3 < 8 && -4096 <= self.imm < 4096 && self.imm & 1 == 0
    }

    /// Fields in range survive being written to an instruction word and read back.
    pub proof fn lemma_roundtrip(self)
        requires
            self.spec_valid(),
        ensures
            Self::spec_from_word(self.spec_to_word()) == self,
    {
        lemma_roundtrip_b(self.rs1, self.rs2, self.imm, self.funct3);
    }
}

impl From<u32> for TypeB {
    #[inline(always)]
    fn from(inst: u32) -> (r: Self) {
        TypeB { rs1: ((inst >> 15) & 0b1_1111) as usize, rs2: ((inst >> 20) & 0b1_1111) as usize, imm: ((inst & (0b1 << 31)) | ((inst & (0b1 << 7)) << 23) | ((inst & (0b11_1111 << 25)) >> 1) | ((inst & (0b1111 << 8)) << 12)) as i32 >> 19, funct3: ((inst >> 12) & 0b111) as u8 }
    }
}

impl vstd::std_specs::convert::FromSpecImpl<u32> for TypeB {
    open spec fn obeys_from_spec() -> bool {
        true
    }

    open spec fn from_spec(inst: u32) -> Self {
        Self::spec_from_word(inst)
    }
}

impl From<TypeB> for u32 {
    #[inline(always)]
    fn from(ty: TypeB) -> (r: u32) {
        ((ty.imm as u32 & 0b1_1110) << 7) | (((ty.imm as u32) & (0b1 << 11)) >> 4) | (((ty.imm as u32) & (0b11_1111 << 5)) << 20) | (((ty.imm as u32) & (0b1 << 12)) << 19) | ((ty.funct3 as u32) << 12) | ((ty.rs1 as u32) << 15) | ((ty.rs2 as u32) << 20)
    }
}

impl vstd::std_specs::convert::FromSpecImpl<TypeB> for u32 {
    open spec fn obeys_from_spec() -> bool {
        true
    }

    open spec fn from_spec(ty: TypeB) -> u32 {
        ty.spec_to_word()
    }
}

/// The TypeB field layout read back after being written.
proof fn lemma_roundtrip_b(rs1: usize, rs2: usize, imm: i32, funct3: u8)
    by (bit_vector)
    requires
        rs1 < 32 && rs2 < 32 && funct3 < 8 && -4096 <= imm < 4096 && imm & 1 == 0,
    ensures
        (((((imm as u32 & 0b1_1110u32) << 7u32) | (((imm as u32) & (0b1u32 << 11u32)) >> 4u32) | (((imm as u32) & (0b11_1111u32 << 5u32)) << 20u32) | (((imm as u32) & (0b1u32 << 12u32)) << 19u32) | ((funct3 as u32) << 12u32) | ((rs1 as u32) << 15u32) | ((rs2 as u32) << 20u32)) >> 15u32) & 0b1_1111u32) as usize == rs1,
        (((((imm as u32 & 0b1_1110u32) << 7u32) | (((imm as u32) & (0b1u32 << 11u32)) >> 4u32) | (((imm as u32) & (0b11_1111u32 << 5u32)) << 20u32) | (((imm as u32) & (0b1u32 << 12u32)) << 19u32) | ((funct3 as u32) << 12u32) | ((rs1 as u32) << 15u32) | ((rs2 as u32) << 20u32)) >> 20u32) & 0b1_1111u32) as usize == rs2,
        (((((imm as u32 & 0b1_1110u32) << 7u32) | (((imm as u32) & (0b1u32 << 11u32)) >> 4u32) | (((imm as u32) & (0b11_1111u32 << 5u32)) << 20u32) | (((imm as u32) & (0b1u32 << 12u32)) << 19u32) | ((funct3 as u32) << 12u32) | ((rs1 as u32) << 15u32) | ((rs2 as u32) << 20u32)) & (0b1u32 << 31u32)) | (((((imm as u32 & 0b1_1110u32) << 7u32) | (((imm as u32) & (0b1u32 << 11u32)) >> 4u32) | (((imm as u32) & (0b11_1111u32 << 5u32)) << 20u32) | (((imm as u32) & (0b1u32 << 12u32)) << 19u32) | ((funct3 as u32) << 12u32) | ((rs1 as u32) << 15u32) | ((rs2 as u32) << 20u32)) & (0b1u32 << 7u32)) << 23u32) | (((((imm as u32 & 0b1_1110u32) << 7u32) | (((imm as u32) & (0b1u32 << 11u32)) >> 4u32) | (((imm as u32) & (0b11_1111u32 << 5u32)) << 20u32) | (((imm as u32) & (0b1u32 << 12u32)) << 19u32) | ((funct3 as u32) << 12u32) | ((rs1 as u32) << 15u32) | ((rs2 as u32) << 20u32)) & (0b11_1111u32 << 25u32)) >> 1u32) | (((((imm as u32 & 0b1_1110u32) << 7u32) | (((imm as u32) & (0b1u32 << 11u32)) >> 4u32) | (((imm as u32) & (0b11_1111u32 << 5u32)) << 20u32) | (((imm as u32) & (0b1u32 << 12u32)) << 19u32) | ((funct3 as u32) << 12u32) | ((rs1 as u32) << 15u32) | ((rs2 as u32) << 20u32)) & (0b1111u32 << 8u32)) << 12u32)) as i32 >> 19u32 == imm,
        (((((imm as u32 & 0b1_1110u32) << 7u32) | (((imm as u32) & (0b1u32 << 11u32)) >> 4u32) | (((imm as u32) & (0b11_1111u32 << 5u32)) << 20u32) | (((imm as u32) & (0b1u32 << 12u32)) << 19u32) | ((funct3 as u32) << 12u32) | ((rs1 as u32) << 15u32) | ((rs2 as u32) << 20u32)) >> 12u32) & 0b111u32) as u8 == funct3,
{
}

/// U-Type Instruction Format
#[derive(Debug, PartialEq, Copy, Clone)]
pub struct TypeU {
    /// Immediate Value
    pub imm: i32,
    /// Destination Register
    pub rd: usize,
}

impl TypeU {
    /// The fields that a raw instruction word holds.
    pub open spec fn spec_from_word(inst: u32) -> Self {
        TypeU { imm: (inst & (0b1111_1111_1111_1111_1111u32 << 12u32)) as i32, rd: ((inst >> 7u32) & 0b11111u32) as usize }
    }

    /// The raw instruction word that holds the fields.
    pub open spec fn spec_to_word(self) -> u32 {
        ((self.rd as u32) << 7u32) | (self.imm as u32 & (0b1111_1111_1111_1111_1111u32 << 12u32))
    }

    /// The fields lie in the ranges that an instruction word can give them.
    pub open spec fn spec_valid(self) -> bool {
        self.rd < 32 && self.imm & 0xFFF == 0
    }

    /// Fields in range survive being written to an instruction word and read back.
    pub proof fn lemma_roundtrip(self)
        requires
            self.spec_valid(),
        ensures
            Self::spec_from_word(self.spec_to_word()) == self,
    {
        lemma_roundtrip_u(self.imm, self.rd);
    }
}

impl From<u32> for TypeU {
    #[inline(always)]
    fn from(inst: u32) -> (r: Self) {
        TypeU { imm: (inst & (0b1111_1111_1111_1111_1111 << 12)) as i32, rd: ((inst >> 7) & 0b11111) as usize }
    }
}

impl vstd::std_specs::convert::FromSpecImpl<u32> for TypeU {
    open spec fn obeys_from_spec() -> bool {
        true
    }

    open spec fn from_spec(inst: u32) -> Self {
        Self::spec_from_word(inst)
    }
}

impl From<TypeU> for u32 {
    #[inline(always)]
    fn from(ty: TypeU) -> (r: u32) {
        ((ty.rd as u32) << 7) | (ty.imm as u32 & (0b1111_1111_1111_1111_1111 << 12))
    }
}

impl vstd::std_specs::convert::FromSpecImpl<TypeU> for u32 {
    open spec fn obeys_from_spec() -> bool {
        true
    }

    open spec fn from_spec(ty: TypeU) -> u32 {
        ty.spec_to_word()
    }
}

/// The TypeU field layout read back after being written.
proof fn lemma_roundtrip_u(imm: i32, rd: usize)
    by (bit_vector)
    requires
        rd < 32 && imm & 0xFFF == 0,
    ensures
        ((((rd as u32) << 7u32) | (imm as u32 & (0b1111_1111_1111_1111_1111u32 << 12u32))) & (0b1111_1111_1111_1111_1111u32 << 12u32)) as i32 == imm,
        (((((rd as u32) << 7u32) | (imm as u32 & (0b1111_1111_1111_1111_1111u32 << 12u32))) >> 7u32) & 0b11111u32) as usize == rd,
{
}

/// J-Type Instruction Format
#[derive(Debug, PartialEq, Copy, Clone)]
pub struct TypeJ {
    /// Immediate Value
    pub imm: i32,
    /// Destination Register
    pub rd: usize,
}

impl TypeJ {
    /// The fields that a raw instruction word holds.
    pub open spec fn spec_from_word(inst: u32) -> Self {
        TypeJ { imm: ((inst & (0b1u32 << 31u32)) | ((inst & (0b1111_1111u32 << 12u32)) << 11u32) | ((inst & (0b1u32 << 20u32)) << 2u32) | ((inst & (0b11_1111_1111u32 << 21u32)) >> 9u32)) as i32 >> 11u32, rd: ((inst >> 7u32) & 0b1_1111u32) as usize }
    }

    /// The raw instruction word that holds the fields.
    pub open spec fn spec_to_word(self) -> u32 {
        ((self.rd as u32) << 7u32) | ((self.imm as u32) & (0b1111_1111u32 << 12u32)) | (((self.imm as u32) & (0b1u32 << 11u32)) << 9u32) | (((self.imm as u32) & (0b11_1111_1111u32 << 1u32)) << 20u32) | (((self.imm as u32) & (0b1u32 << 20u32)) << 11u32)
    }

    /// The fields lie in the ranges that an instruction word can give them.
    pub open spec fn spec_valid(self) -> bool {
        self.rd < 32 && -1048576 <= self.imm < 1048576 && self.imm & 1 == 0
    }

    /// Fields in range survive being written to an instruction word and read back.
    pub proof fn lemma_roundtrip(self)
        requires
            self.spec_valid(),
        ensures
            Self::spec_from_word(self.spec_to_word()) == self,
    {
        lemma_roundtrip_j(self.imm, self.rd);
    }
}

impl From<u32> for TypeJ {
    #[inline(always)]
    fn from(inst: u32) -> (r: Self) {
        TypeJ { imm: ((inst & (0b1 << 31)) | ((inst & (0b1111_1111 << 12)) << 11) | ((inst & (0b1 << 20)) << 2) | ((inst & (0b11_1111_1111 << 21)) >> 9)) as i32 >> 11, rd: ((inst >> 7) & 0b1_1111) as usize }
    }
}

impl vstd::std_specs::convert::FromSpecImpl<u32> for TypeJ {
    open spec fn obeys_from_spec() -> bool {
        true
    }

    open spec fn from_spec(inst: u32) -> Self {
        Self::spec_from_word(inst)
    }
}

impl From<TypeJ> for u32 {
    #[inline(always)]
    fn from(ty: TypeJ) -> (r: u32) {
        ((ty.rd as u32) << 7) | ((ty.imm as u32) & (0b1111_1111 << 12)) | (((ty.imm as u32) & (0b1 << 11)) << 9) | (((ty.imm as u32) & (0b11_1111_1111 << 1)) << 20) | (((ty.imm as u32) & (0b1 << 20)) << 11)
    }
}

impl vstd::std_specs::convert::FromSpecImpl<TypeJ> for u32 {
    open spec fn obeys_from_spec() -> bool {
        true
    }

    open spec fn from_spec(ty: TypeJ) -> u32 {
        ty.spec_to_word()
    }
}

/// The TypeJ field layout read back after being written.
proof fn lemma_roundtrip_j(imm: i32, rd: usize)
    by (bit_vector)
    requires
        rd < 32 && -1048576 <= imm < 1048576 && imm & 1 == 0,
    ensures
        (((((rd as u32) << 7u32) | ((imm as u32) & (0b1111_1111u32 << 12u32)) | (((imm as u32) & (0b1u32 << 11u32)) << 9u32) | (((imm as u32) & (0b11_1111_1111u32 << 1u32)) << 20u32) | (((imm as u32) & (0b1u32 << 20u32)) << 11u32)) & (0b1u32 << 31u32)) | (((((rd as u32) << 7u32) | ((imm as u32) & (0b1111_1111u32 << 12u32)) | (((imm as u32) & (0b1u32 << 11u32)) << 9u32) | (((imm as u32) & (0b11_1111_1111u32 << 1u32)) << 20u32) | (((imm as u32) & (0b1u32 << 20u32)) << 11u32)) & (0b1111_1111u32 << 12u32)) << 11u32) | (((((rd as u32) << 7u32) | ((imm as u32) & (0b1111_1111u32 << 12u32)) | (((imm as u32) & (0b1u32 << 11u32)) << 9u32) | (((imm as u32) & (0b11_1111_1111u32 << 1u32)) << 20u32) | (((imm as u32) & (0b1u32 << 20u32)) << 11u32)) & (0b1u32 << 20u32)) << 2u32) | (((((rd as u32) << 7u32) | ((imm as u32) & (0b1111_1111u32 << 12u32)) | (((imm as u32) & (0b1u32 << 11u32)) << 9u32) | (((imm as u32) & (0b11_1111_1111u32 << 1u32)) << 20u32) | (((imm as u32) & (0b1u32 << 20u32)) << 11u32)) & (0b11_1111_1111u32 << 21u32)) >> 9u32)) as i32 >> 11u32 == imm,
        (((((rd as u32) << 7u32) | ((imm as u32) & (0b1111_1111u32 << 12u32)) | (((imm as u32) & (0b1u32 << 11u32)) << 9u32) | (((imm as u32) & (0b11_1111_1111u32 << 1u32)) << 20u32) | (((imm as u32) & (0b1u32 << 20u32)) << 11u32)) >> 7u32) & 0b1_1111u32) as usize == rd,
{
}

/// The two RISC-V decoders agree: the fields that the engine reads from a word ([`TypeR`] ..
/// [`TypeJ`] here) are those that the Embive formats read from it
/// ([`crate::format::Format::spec_from_riscv`]), immediates sign-extended alike.
pub proof fn lemma_decoders_agree(inst: u32)
    ensures
        ({
            let (e, w) = (crate::format::TypeR::spec_from_riscv(inst), TypeR::spec_from_word(inst));
            e.rd as usize == w.rd && e.rs1 as usize == w.rs1 && e.rs2 as usize == w.rs2 && e.funct10
                == w.funct10
        }),
        ({
            let (e, w) = (crate::format::TypeI::spec_from_riscv(inst), TypeI::spec_from_word(inst));
            e.rd_rs2 as usize == w.rd && e.rs1 as usize == w.rs1 && e.imm == w.imm && e.funct3
                == w.funct3
        }),
        ({
            let (e, w) = (crate::format::TypeS::spec_from_riscv(inst), TypeS::spec_from_word(inst));
            e.rs1 as usize == w.rs1 && e.rs2 as usize == w.rs2 && e.imm == w.imm && e.funct3 == w.funct3
        }),
        ({
            let (e, w) = (crate::format::TypeB::spec_from_riscv(inst), TypeB::spec_from_word(inst));
            e.rs1 as usize == w.rs1 && e.rs2 as usize == w.rs2 && e.imm == w.imm && e.funct3 == w.funct3
        }),
        ({
            let (e, w) = (crate::format::TypeU::spec_from_riscv(inst), TypeU::spec_from_word(inst));
            e.rd as usize == w.rd && e.imm == w.imm
        }),
        ({
            let (e, w) = (crate::format::TypeJ::spec_from_riscv(inst), TypeJ::spec_from_word(inst));
            e.rd as usize == w.rd && e.imm == w.imm
        }),
{
    assert(
        ((crate::format::bit_field(inst, 7, 5) as u8) as usize == ((inst >> 7u32) & 0b1_1111u32) as usize)
        && ((crate::format::bit_field(inst, 15, 5) as u8) as usize == ((inst >> 15u32) & 0b1_1111u32) as usize)
        && ((crate::format::bit_field(inst, 20, 5) as u8) as usize == ((inst >> 20u32) & 0b1_1111u32) as usize)
        && ((crate::format::bit_field(inst, 25, 7) << 3 | crate::format::bit_field(inst, 12, 3)) as u16
            == (((inst >> 22u32) & (0b111_1111u32 << 3u32)) | ((inst >> 12u32) & 0b111u32)) as u16)
        && (crate::format::bit_field(inst, 12, 3) as u8 == ((inst >> 12u32) & 0b111u32) as u8)
        && (crate::format::sign_extend(crate::format::bit_field(inst, 20, 12), 12)
            == ((inst & (0b1111_1111_1111u32 << 20u32)) as i32 >> 20u32))
        && (crate::format::sign_extend(crate::format::bit_field(inst, 25, 7) << 5 | crate::format::bit_field(inst, 7, 5), 12)
            == ((inst & (0b111_1111u32 << 25u32)) | ((inst & (0b1_1111u32 << 7u32)) << 13u32)) as i32 >> 20u32)
        && (crate::format::sign_extend(crate::format::bit_field(inst, 31, 1) << 12 | crate::format::bit_field(inst, 7, 1) << 11
            | crate::format::bit_field(inst, 25, 6) << 5 | crate::format::bit_field(inst, 8, 4) << 1, 13)
            == ((inst & (0b1u32 << 31u32)) | ((inst & (0b1u32 << 7u32)) << 23u32) | ((inst & (0b11_1111u32 << 25u32)) >> 1u32)
            | ((inst & (0b1111u32 << 8u32)) << 12u32)) as i32 >> 19u32)
        && ((crate::format::bit_field(inst, 12, 20) << 12) as i32 == (inst & (0b1111_1111_1111_1111_1111u32 << 12u32)) as i32)
        && (crate::format::sign_extend(crate::format::bit_field(inst, 31, 1) << 20 | crate::format::bit_field(inst, 12, 8) << 12
            | crate::format::bit_field(inst, 20, 1) << 11 | crate::format::bit_field(inst, 21, 10) << 1, 21)
            == ((inst & (0b1u32 << 31u32)) | ((inst & (0b1111_1111u32 << 12u32)) << 11u32) | ((inst & (0b1u32 << 20u32)) << 2u32)
            | ((inst & (0b11_1111_1111u32 << 21u32)) >> 9u32)) as i32 >> 11u32)
    ) by (bit_vector);
}

} // verus!

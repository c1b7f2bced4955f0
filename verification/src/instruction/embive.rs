//! Embive instructions.
//!
//! Each instruction wraps the fields of its format. The interpreter tells the instructions apart
//! by the low five bits of a raw Embive word, the opcode; the rest of the word holds the fields.
use vstd::prelude::*;

use crate::format::{Format, TypeB, TypeCB1, TypeCB2, TypeCB4, TypeCI1, TypeCI2, TypeCI3, TypeCI4, TypeCI5, TypeCIW, TypeCJ, TypeCL, TypeCR, TypeCS, TypeCSS, TypeI, TypeJ, TypeR, TypeU};

verus! {

/// Embive Instruction Struct
///
/// This struct wraps a raw Embive instruction (u32).
#[derive(Debug, Clone, Copy, PartialEq, Eq)]
pub struct Instruction(pub u32);

impl View for Instruction {
    type V = u32;

    /// The raw Embive word.
    open spec fn view(&self) -> u32 {
        self.0
    }
}

impl From<u32> for Instruction {
    #[inline(always)]
    fn from(inst: u32) -> (r: Self) {
        Instruction(inst)
    }
}

impl vstd::std_specs::convert::FromSpecImpl<u32> for Instruction {
    open spec fn obeys_from_spec() -> bool {
        true
    }

    open spec fn from_spec(inst: u32) -> Self {
        Instruction(inst)
    }
}

impl From<Instruction> for u32 {
    #[inline(always)]
    fn from(inst: Instruction) -> (r: u32) {
        inst.0
    }
}

impl vstd::std_specs::convert::FromSpecImpl<Instruction> for u32 {
    open spec fn obeys_from_spec() -> bool {
        true
    }

    open spec fn from_spec(inst: Instruction) -> u32 {
        inst.0
    }
}

/// Embive Instruction Trait
pub trait InstructionImpl: Sized {
    /// The instruction's opcode.
    spec fn spec_opcode() -> u8;

    /// The instruction's size in bytes.
    spec fn spec_size() -> u32;

    /// The raw Embive word that encodes the instruction (opcode bits left clear).
    spec fn spec_encode(&self) -> u32;

    /// The instruction that a raw Embive word decodes to (its opcode bits are not read).
    spec fn spec_decode(inst: u32) -> Self;

    /// Instruction Opcode
    fn opcode() -> (r: u8)
        ensures
            r == Self::spec_opcode(),
    ;

    /// Instruction size in bytes
    fn size() -> (r: u32)
        ensures
            r == Self::spec_size(),
    ;

    /// Encode instruction to u32 (Embive Format)
    fn encode(&self) -> (r: u32)
        ensures
            r == self.spec_encode(),
    ;

    /// Decode instruction from u32 (Embive Format)
    fn decode(inst: u32) -> (r: Self)
        ensures
            r == Self::spec_decode(inst),
    ;
}

/// Compressed add of a scaled immediate to the stack pointer (`c.addi4spn`).
#[derive(Debug, Clone, Copy, PartialEq)]
pub struct CAddi4spn(pub TypeCIW);

impl InstructionImpl for CAddi4spn {
    open spec fn spec_opcode() -> u8 {
        0
    }

    open spec fn spec_size() -> u32 {
        2
    }

    open spec fn spec_encode(&self) -> u32 {
        self.0.spec_to_embive()
    }

    open spec fn spec_decode(inst: u32) -> Self {
        CAddi4spn(TypeCIW::spec_from_embive(inst))
    }

    #[inline(always)]
    fn opcode() -> (r: u8) {
        0
    }

    #[inline(always)]
    fn size() -> (r: u32) {
        2
    }

    #[inline(always)]
    fn encode(&self) -> (r: u32) {
        self.0.to_embive()
    }

    #[inline(always)]
    fn decode(inst: u32) -> (r: Self) {
        CAddi4spn(TypeCIW::from_embive(inst))
    }
}

/// Compressed load word (`c.lw`).
#[derive(Debug, Clone, Copy, PartialEq)]
pub struct CLw(pub TypeCL);

impl InstructionImpl for CLw {
    open spec fn spec_opcode() -> u8 {
        1
    }

    open spec fn spec_size() -> u32 {
        2
    }

    open spec fn spec_encode(&self) -> u32 {
        self.0.spec_to_embive()
    }

    open spec fn spec_decode(inst: u32) -> Self {
        CLw(TypeCL::spec_from_embive(inst))
    }

    #[inline(always)]
    fn opcode() -> (r: u8) {
        1
    }

    #[inline(always)]
    fn size() -> (r: u32) {
        2
    }

    #[inline(always)]
    fn encode(&self) -> (r: u32) {
        self.0.to_embive()
    }

    #[inline(always)]
    fn decode(inst: u32) -> (r: Self) {
        CLw(TypeCL::from_embive(inst))
    }
}

/// Compressed store word (`c.sw`).
#[derive(Debug, Clone, Copy, PartialEq)]
pub struct CSw(pub TypeCL);

impl InstructionImpl for CSw {
    open spec fn spec_opcode() -> u8 {
        2
    }

    open spec fn spec_size() -> u32 {
        2
    }

    open spec fn spec_encode(&self) -> u32 {
        self.0.spec_to_embive()
    }

    open spec fn spec_decode(inst: u32) -> Self {
        CSw(TypeCL::spec_from_embive(inst))
    }

    #[inline(always)]
    fn opcode() -> (r: u8) {
        2
    }

    #[inline(always)]
    fn size() -> (r: u32) {
        2
    }

    #[inline(always)]
    fn encode(&self) -> (r: u32) {
        self.0.to_embive()
    }

    #[inline(always)]
    fn decode(inst: u32) -> (r: Self) {
        CSw(TypeCL::from_embive(inst))
    }
}

/// Compressed add immediate (`c.addi`).
#[derive(Debug, Clone, Copy, PartialEq)]
pub struct CAddi(pub TypeCI1);

impl InstructionImpl for CAddi {
    open spec fn spec_opcode() -> u8 {
        3
    }

    open spec fn spec_size() -> u32 {
        2
    }

    open spec fn spec_encode(&self) -> u32 {
        self.0.spec_to_embive()
    }

    open spec fn spec_decode(inst: u32) -> Self {
        CAddi(TypeCI1::spec_from_embive(inst))
    }

    #[inline(always)]
    fn opcode() -> (r: u8) {
        3
    }

    #[inline(always)]
    fn size() -> (r: u32) {
        2
    }

    #[inline(always)]
    fn encode(&self) -> (r: u32) {
        self.0.to_embive()
    }

    #[inline(always)]
    fn decode(inst: u32) -> (r: Self) {
        CAddi(TypeCI1::from_embive(inst))
    }
}

/// Compressed jump and link (`c.jal`).
#[derive(Debug, Clone, Copy, PartialEq)]
pub struct CJal(pub TypeCJ);

impl InstructionImpl for CJal {
    open spec fn spec_opcode() -> u8 {
        4
    }

    open spec fn spec_size() -> u32 {
        2
    }

    open spec fn spec_encode(&self) -> u32 {
        self.0.spec_to_embive()
    }

    open spec fn spec_decode(inst: u32) -> Self {
        CJal(TypeCJ::spec_from_embive(inst))
    }

    #[inline(always)]
    fn opcode() -> (r: u8) {
        4
    }

    #[inline(always)]
    fn size() -> (r: u32) {
        2
    }

    #[inline(always)]
    fn encode(&self) -> (r: u32) {
        self.0.to_embive()
    }

    #[inline(always)]
    fn decode(inst: u32) -> (r: Self) {
        CJal(TypeCJ::from_embive(inst))
    }
}

/// Compressed load immediate (`c.li`).
#[derive(Debug, Clone, Copy, PartialEq)]
pub struct CLi(pub TypeCI1);

impl InstructionImpl for CLi {
    open spec fn spec_opcode() -> u8 {
        5
    }

    open spec fn spec_size() -> u32 {
        2
    }

    open spec fn spec_encode(&self) -> u32 {
        self.0.spec_to_embive()
    }

    open spec fn spec_decode(inst: u32) -> Self {
        CLi(TypeCI1::spec_from_embive(inst))
    }

    #[inline(always)]
    fn opcode() -> (r: u8) {
        5
    }

    #[inline(always)]
    fn size() -> (r: u32) {
        2
    }

    #[inline(always)]
    fn encode(&self) -> (r: u32) {
        self.0.to_embive()
    }

    #[inline(always)]
    fn decode(inst: u32) -> (r: Self) {
        CLi(TypeCI1::from_embive(inst))
    }
}

/// Compressed add of a scaled immediate to the stack pointer (`c.addi16sp`).
#[derive(Debug, Clone, Copy, PartialEq)]
pub struct CAddi16sp(pub TypeCI2);

impl InstructionImpl for CAddi16sp {
    open spec fn spec_opcode() -> u8 {
        6
    }

    open spec fn spec_size() -> u32 {
        2
    }

    open spec fn spec_encode(&self) -> u32 {
        self.0.spec_to_embive()
    }

    open spec fn spec_decode(inst: u32) -> Self {
        CAddi16sp(TypeCI2::spec_from_embive(inst))
    }

    #[inline(always)]
    fn opcode() -> (r: u8) {
        6
    }

    #[inline(always)]
    fn size() -> (r: u32) {
        2
    }

    #[inline(always)]
    fn encode(&self) -> (r: u32) {
        self.0.to_embive()
    }

    #[inline(always)]
    fn decode(inst: u32) -> (r: Self) {
        CAddi16sp(TypeCI2::from_embive(inst))
    }
}

/// Compressed load upper immediate (`c.lui`).
#[derive(Debug, Clone, Copy, PartialEq)]
pub struct CLui(pub TypeCI3);

impl InstructionImpl for CLui {
    open spec fn spec_opcode() -> u8 {
        7
    }

    open spec fn spec_size() -> u32 {
        2
    }

    open spec fn spec_encode(&self) -> u32 {
        self.0.spec_to_embive()
    }

    open spec fn spec_decode(inst: u32) -> Self {
        CLui(TypeCI3::spec_from_embive(inst))
    }

    #[inline(always)]
    fn opcode() -> (r: u8) {
        7
    }

    #[inline(always)]
    fn size() -> (r: u32) {
        2
    }

    #[inline(always)]
    fn encode(&self) -> (r: u32) {
        self.0.to_embive()
    }

    #[inline(always)]
    fn decode(inst: u32) -> (r: Self) {
        CLui(TypeCI3::from_embive(inst))
    }
}

/// Compressed shift right logical immediate (`c.srli`).
#[derive(Debug, Clone, Copy, PartialEq)]
pub struct CSrli(pub TypeCB1);

impl InstructionImpl for CSrli {
    open spec fn spec_opcode() -> u8 {
        8
    }

    open spec fn spec_size() -> u32 {
        2
    }

    open spec fn spec_encode(&self) -> u32 {
        self.0.spec_to_embive()
    }

    open spec fn spec_decode(inst: u32) -> Self {
        CSrli(TypeCB1::spec_from_embive(inst))
    }

    #[inline(always)]
    fn opcode() -> (r: u8) {
        8
    }

    #[inline(always)]
    fn size() -> (r: u32) {
        2
    }

    #[inline(always)]
    fn encode(&self) -> (r: u32) {
        self.0.to_embive()
    }

    #[inline(always)]
    fn decode(inst: u32) -> (r: Self) {
        CSrli(TypeCB1::from_embive(inst))
    }
}

/// Compressed shift right arithmetic immediate (`c.srai`).
#[derive(Debug, Clone, Copy, PartialEq)]
pub struct CSrai(pub TypeCB1);

impl InstructionImpl for CSrai {
    open spec fn spec_opcode() -> u8 {
        9
    }

    open spec fn spec_size() -> u32 {
        2
    }

    open spec fn spec_encode(&self) -> u32 {
        self.0.spec_to_embive()
    }

    open spec fn spec_decode(inst: u32) -> Self {
        CSrai(TypeCB1::spec_from_embive(inst))
    }

    #[inline(always)]
    fn opcode() -> (r: u8) {
        9
    }

    #[inline(always)]
    fn size() -> (r: u32) {
        2
    }

    #[inline(always)]
    fn encode(&self) -> (r: u32) {
        self.0.to_embive()
    }

    #[inline(always)]
    fn decode(inst: u32) -> (r: Self) {
        CSrai(TypeCB1::from_embive(inst))
    }
}

/// Compressed and immediate (`c.andi`).
#[derive(Debug, Clone, Copy, PartialEq)]
pub struct CAndi(pub TypeCB2);

impl InstructionImpl for CAndi {
    open spec fn spec_opcode() -> u8 {
        10
    }

    open spec fn spec_size() -> u32 {
        2
    }

    open spec fn spec_encode(&self) -> u32 {
        self.0.spec_to_embive()
    }

    open spec fn spec_decode(inst: u32) -> Self {
        CAndi(TypeCB2::spec_from_embive(inst))
    }

    #[inline(always)]
    fn opcode() -> (r: u8) {
        10
    }

    #[inline(always)]
    fn size() -> (r: u32) {
        2
    }

    #[inline(always)]
    fn encode(&self) -> (r: u32) {
        self.0.to_embive()
    }

    #[inline(always)]
    fn decode(inst: u32) -> (r: Self) {
        CAndi(TypeCB2::from_embive(inst))
    }
}

/// Compressed subtract (`c.sub`).
#[derive(Debug, Clone, Copy, PartialEq)]
pub struct CSub(pub TypeCS);

impl InstructionImpl for CSub {
    open spec fn spec_opcode() -> u8 {
        11
    }

    open spec fn spec_size() -> u32 {
        2
    }

    open spec fn spec_encode(&self) -> u32 {
        self.0.spec_to_embive()
    }

    open spec fn spec_decode(inst: u32) -> Self {
        CSub(TypeCS::spec_from_embive(inst))
    }

    #[inline(always)]
    fn opcode() -> (r: u8) {
        11
    }

    #[inline(always)]
    fn size() -> (r: u32) {
        2
    }

    #[inline(always)]
    fn encode(&self) -> (r: u32) {
        self.0.to_embive()
    }

    #[inline(always)]
    fn decode(inst: u32) -> (r: Self) {
        CSub(TypeCS::from_embive(inst))
    }
}

/// Compressed exclusive or (`c.xor`).
#[derive(Debug, Clone, Copy, PartialEq)]
pub struct CXor(pub TypeCS);

impl InstructionImpl for CXor {
    open spec fn spec_opcode() -> u8 {
        12
    }

    open spec fn spec_size() -> u32 {
        2
    }

    open spec fn spec_encode(&self) -> u32 {
        self.0.spec_to_embive()
    }

    open spec fn spec_decode(inst: u32) -> Self {
        CXor(TypeCS::spec_from_embive(inst))
    }

    #[inline(always)]
    fn opcode() -> (r: u8) {
        12
    }

    #[inline(always)]
    fn size() -> (r: u32) {
        2
    }

    #[inline(always)]
    fn encode(&self) -> (r: u32) {
        self.0.to_embive()
    }

    #[inline(always)]
    fn decode(inst: u32) -> (r: Self) {
        CXor(TypeCS::from_embive(inst))
    }
}

/// Compressed or (`c.or`).
#[derive(Debug, Clone, Copy, PartialEq)]
pub struct COr(pub TypeCS);

impl InstructionImpl for COr {
    open spec fn spec_opcode() -> u8 {
        13
    }

    open spec fn spec_size() -> u32 {
        2
    }

    open spec fn spec_encode(&self) -> u32 {
        self.0.spec_to_embive()
    }

    open spec fn spec_decode(inst: u32) -> Self {
        COr(TypeCS::spec_from_embive(inst))
    }

    #[inline(always)]
    fn opcode() -> (r: u8) {
        13
    }

    #[inline(always)]
    fn size() -> (r: u32) {
        2
    }

    #[inline(always)]
    fn encode(&self) -> (r: u32) {
        self.0.to_embive()
    }

    #[inline(always)]
    fn decode(inst: u32) -> (r: Self) {
        COr(TypeCS::from_embive(inst))
    }
}

/// Compressed and (`c.and`).
#[derive(Debug, Clone, Copy, PartialEq)]
pub struct CAnd(pub TypeCS);

impl InstructionImpl for CAnd {
    open spec fn spec_opcode() -> u8 {
        14
    }

    open spec fn spec_size() -> u32 {
        2
    }

    open spec fn spec_encode(&self) -> u32 {
        self.0.spec_to_embive()
    }

    open spec fn spec_decode(inst: u32) -> Self {
        CAnd(TypeCS::spec_from_embive(inst))
    }

    #[inline(always)]
    fn opcode() -> (r: u8) {
        14
    }

    #[inline(always)]
    fn size() -> (r: u32) {
        2
    }

    #[inline(always)]
    fn encode(&self) -> (r: u32) {
        self.0.to_embive()
    }

    #[inline(always)]
    fn decode(inst: u32) -> (r: Self) {
        CAnd(TypeCS::from_embive(inst))
    }
}

/// Compressed jump (`c.j`).
#[derive(Debug, Clone, Copy, PartialEq)]
pub struct CJ(pub TypeCJ);

impl InstructionImpl for CJ {
    open spec fn spec_opcode() -> u8 {
        15
    }

    open spec fn spec_size() -> u32 {
        2
    }

    open spec fn spec_encode(&self) -> u32 {
        self.0.spec_to_embive()
    }

    open spec fn spec_decode(inst: u32) -> Self {
        CJ(TypeCJ::spec_from_embive(inst))
    }

    #[inline(always)]
    fn opcode() -> (r: u8) {
        15
    }

    #[inline(always)]
    fn size() -> (r: u32) {
        2
    }

    #[inline(always)]
    fn encode(&self) -> (r: u32) {
        self.0.to_embive()
    }

    #[inline(always)]
    fn decode(inst: u32) -> (r: Self) {
        CJ(TypeCJ::from_embive(inst))
    }
}

/// Compressed branch if zero (`c.beqz`).
#[derive(Debug, Clone, Copy, PartialEq)]
pub struct CBeqz(pub TypeCB4);

impl InstructionImpl for CBeqz {
    open spec fn spec_opcode() -> u8 {
        16
    }

    open spec fn spec_size() -> u32 {
        2
    }

    open spec fn spec_encode(&self) -> u32 {
        self.0.spec_to_embive()
    }

    open spec fn spec_decode(inst: u32) -> Self {
        CBeqz(TypeCB4::spec_from_embive(inst))
    }

    #[inline(always)]
    fn opcode() -> (r: u8) {
        16
    }

    #[inline(always)]
    fn size() -> (r: u32) {
        2
    }

    #[inline(always)]
    fn encode(&self) -> (r: u32) {
        self.0.to_embive()
    }

    #[inline(always)]
    fn decode(inst: u32) -> (r: Self) {
        CBeqz(TypeCB4::from_embive(inst))
    }
}

/// Compressed branch if not zero (`c.bnez`).
#[derive(Debug, Clone, Copy, PartialEq)]
pub struct CBnez(pub TypeCB4);

impl InstructionImpl for CBnez {
    open spec fn spec_opcode() -> u8 {
        17
    }

    open spec fn spec_size() -> u32 {
        2
    }

    open spec fn spec_encode(&self) -> u32 {
        self.0.spec_to_embive()
    }

    open spec fn spec_decode(inst: u32) -> Self {
        CBnez(TypeCB4::spec_from_embive(inst))
    }

    #[inline(always)]
    fn opcode() -> (r: u8) {
        17
    }

    #[inline(always)]
    fn size() -> (r: u32) {
        2
    }

    #[inline(always)]
    fn encode(&self) -> (r: u32) {
        self.0.to_embive()
    }

    #[inline(always)]
    fn decode(inst: u32) -> (r: Self) {
        CBnez(TypeCB4::from_embive(inst))
    }
}

/// Compressed shift left logical immediate (`c.slli`).
#[derive(Debug, Clone, Copy, PartialEq)]
pub struct CSlli(pub TypeCI4);

impl InstructionImpl for CSlli {
    open spec fn spec_opcode() -> u8 {
        18
    }

    open spec fn spec_size() -> u32 {
        2
    }

    open spec fn spec_encode(&self) -> u32 {
        self.0.spec_to_embive()
    }

    open spec fn spec_decode(inst: u32) -> Self {
        CSlli(TypeCI4::spec_from_embive(inst))
    }

    #[inline(always)]
    fn opcode() -> (r: u8) {
        18
    }

    #[inline(always)]
    fn size() -> (r: u32) {
        2
    }

    #[inline(always)]
    fn encode(&self) -> (r: u32) {
        self.0.to_embive()
    }

    #[inline(always)]
    fn decode(inst: u32) -> (r: Self) {
        CSlli(TypeCI4::from_embive(inst))
    }
}

/// Compressed load word from the stack (`c.lwsp`).
#[derive(Debug, Clone, Copy, PartialEq)]
pub struct CLwsp(pub TypeCI5);

impl InstructionImpl for CLwsp {
    open spec fn spec_opcode() -> u8 {
        19
    }

    open spec fn spec_size() -> u32 {
        2
    }

    open spec fn spec_encode(&self) -> u32 {
        self.0.spec_to_embive()
    }

    open spec fn spec_decode(inst: u32) -> Self {
        CLwsp(TypeCI5::spec_from_embive(inst))
    }

    #[inline(always)]
    fn opcode() -> (r: u8) {
        19
    }

    #[inline(always)]
    fn size() -> (r: u32) {
        2
    }

    #[inline(always)]
    fn encode(&self) -> (r: u32) {
        self.0.to_embive()
    }

    #[inline(always)]
    fn decode(inst: u32) -> (r: Self) {
        CLwsp(TypeCI5::from_embive(inst))
    }
}

/// Compressed jump register / move (`c.jr`, `c.mv`).
#[derive(Debug, Clone, Copy, PartialEq)]
pub struct CJrMv(pub TypeCR);

impl InstructionImpl for CJrMv {
    open spec fn spec_opcode() -> u8 {
        20
    }

    open spec fn spec_size() -> u32 {
        2
    }

    open spec fn spec_encode(&self) -> u32 {
        self.0.spec_to_embive()
    }

    open spec fn spec_decode(inst: u32) -> Self {
        CJrMv(TypeCR::spec_from_embive(inst))
    }

    #[inline(always)]
    fn opcode() -> (r: u8) {
        20
    }

    #[inline(always)]
    fn size() -> (r: u32) {
        2
    }

    #[inline(always)]
    fn encode(&self) -> (r: u32) {
        self.0.to_embive()
    }

    #[inline(always)]
    fn decode(inst: u32) -> (r: Self) {
        CJrMv(TypeCR::from_embive(inst))
    }
}

/// Compressed breakpoint / jump and link register / add (`c.ebreak`, `c.jalr`, `c.add`).
#[derive(Debug, Clone, Copy, PartialEq)]
pub struct CEbreakJalrAdd(pub TypeCR);

impl InstructionImpl for CEbreakJalrAdd {
    open spec fn spec_opcode() -> u8 {
        21
    }

    open spec fn spec_size() -> u32 {
        2
    }

    open spec fn spec_encode(&self) -> u32 {
        self.0.spec_to_embive()
    }

    open spec fn spec_decode(inst: u32) -> Self {
        CEbreakJalrAdd(TypeCR::spec_from_embive(inst))
    }

    #[inline(always)]
    fn opcode() -> (r: u8) {
        21
    }

    #[inline(always)]
    fn size() -> (r: u32) {
        2
    }

    #[inline(always)]
    fn encode(&self) -> (r: u32) {
        self.0.to_embive()
    }

    #[inline(always)]
    fn decode(inst: u32) -> (r: Self) {
        CEbreakJalrAdd(TypeCR::from_embive(inst))
    }
}

/// Compressed store word to the stack (`c.swsp`).
#[derive(Debug, Clone, Copy, PartialEq)]
pub struct CSwsp(pub TypeCSS);

impl InstructionImpl for CSwsp {
    open spec fn spec_opcode() -> u8 {
        22
    }

    open spec fn spec_size() -> u32 {
        2
    }

    open spec fn spec_encode(&self) -> u32 {
        self.0.spec_to_embive()
    }

    open spec fn spec_decode(inst: u32) -> Self {
        CSwsp(TypeCSS::spec_from_embive(inst))
    }

    #[inline(always)]
    fn opcode() -> (r: u8) {
        22
    }

    #[inline(always)]
    fn size() -> (r: u32) {
        2
    }

    #[inline(always)]
    fn encode(&self) -> (r: u32) {
        self.0.to_embive()
    }

    #[inline(always)]
    fn decode(inst: u32) -> (r: Self) {
        CSwsp(TypeCSS::from_embive(inst))
    }
}

/// Add upper immediate to the program counter (`auipc`).
#[derive(Debug, Clone, Copy, PartialEq)]
pub struct Auipc(pub TypeU);

impl InstructionImpl for Auipc {
    open spec fn spec_opcode() -> u8 {
        23
    }

    open spec fn spec_size() -> u32 {
        4
    }

    open spec fn spec_encode(&self) -> u32 {
        self.0.spec_to_embive()
    }

    open spec fn spec_decode(inst: u32) -> Self {
        Auipc(TypeU::spec_from_embive(inst))
    }

    #[inline(always)]
    fn opcode() -> (r: u8) {
        23
    }

    #[inline(always)]
    fn size() -> (r: u32) {
        4
    }

    #[inline(always)]
    fn encode(&self) -> (r: u32) {
        self.0.to_embive()
    }

    #[inline(always)]
    fn decode(inst: u32) -> (r: Self) {
        Auipc(TypeU::from_embive(inst))
    }
}

/// Conditional branches (`beq`, `bne`, `blt`, `bge`, `bltu`, `bgeu`).
#[derive(Debug, Clone, Copy, PartialEq)]
pub struct Branch(pub TypeB);

impl Branch {
    /// Instruction Constant Value
    pub const BEQ_FUNC: u8 = 0;

    /// Instruction Constant Value
    pub const BNE_FUNC: u8 = 1;

    /// Instruction Constant Value
    pub const BLT_FUNC: u8 = 2;

    /// Instruction Constant Value
    pub const BGE_FUNC: u8 = 3;

    /// Instruction Constant Value
    pub const BLTU_FUNC: u8 = 4;

    /// Instruction Constant Value
    pub const BGEU_FUNC: u8 = 5;
}

impl InstructionImpl for Branch {
    open spec fn spec_opcode() -> u8 {
        24
    }

    open spec fn spec_size() -> u32 {
        4
    }

    open spec fn spec_encode(&self) -> u32 {
        self.0.spec_to_embive()
    }

    open spec fn spec_decode(inst: u32) -> Self {
        Branch(TypeB::spec_from_embive(inst))
    }

    #[inline(always)]
    fn opcode() -> (r: u8) {
        24
    }

    #[inline(always)]
    fn size() -> (r: u32) {
        4
    }

    #[inline(always)]
    fn encode(&self) -> (r: u32) {
        self.0.to_embive()
    }

    #[inline(always)]
    fn decode(inst: u32) -> (r: Self) {
        Branch(TypeB::from_embive(inst))
    }
}

/// Jump and link (`jal`).
#[derive(Debug, Clone, Copy, PartialEq)]
pub struct Jal(pub TypeJ);

impl InstructionImpl for Jal {
    open spec fn spec_opcode() -> u8 {
        25
    }

    open spec fn spec_size() -> u32 {
        4
    }

    open spec fn spec_encode(&self) -> u32 {
        self.0.spec_to_embive()
    }

    open spec fn spec_decode(inst: u32) -> Self {
        Jal(TypeJ::spec_from_embive(inst))
    }

    #[inline(always)]
    fn opcode() -> (r: u8) {
        25
    }

    #[inline(always)]
    fn size() -> (r: u32) {
        4
    }

    #[inline(always)]
    fn encode(&self) -> (r: u32) {
        self.0.to_embive()
    }

    #[inline(always)]
    fn decode(inst: u32) -> (r: Self) {
        Jal(TypeJ::from_embive(inst))
    }
}

/// Jump and link register (`jalr`).
#[derive(Debug, Clone, Copy, PartialEq)]
pub struct Jalr(pub TypeI);

impl InstructionImpl for Jalr {
    open spec fn spec_opcode() -> u8 {
        26
    }

    open spec fn spec_size() -> u32 {
        4
    }

    open spec fn spec_encode(&self) -> u32 {
        self.0.spec_to_embive()
    }

    open spec fn spec_decode(inst: u32) -> Self {
        Jalr(TypeI::spec_from_embive(inst))
    }

    #[inline(always)]
    fn opcode() -> (r: u8) {
        26
    }

    #[inline(always)]
    fn size() -> (r: u32) {
        4
    }

    #[inline(always)]
    fn encode(&self) -> (r: u32) {
        self.0.to_embive()
    }

    #[inline(always)]
    fn decode(inst: u32) -> (r: Self) {
        Jalr(TypeI::from_embive(inst))
    }
}

/// Loads and stores (`lb`, `lh`, `lw`, `lbu`, `lhu`, `sb`, `sh`, `sw`).
#[derive(Debug, Clone, Copy, PartialEq)]
pub struct LoadStore(pub TypeI);

impl LoadStore {
    /// Instruction Constant Value
    pub const LB_FUNC: u8 = 0;

    /// Instruction Constant Value
    pub const LH_FUNC: u8 = 1;

    /// Instruction Constant Value
    pub const LW_FUNC: u8 = 2;

    /// Instruction Constant Value
    pub const LBU_FUNC: u8 = 3;

    /// Instruction Constant Value
    pub const LHU_FUNC: u8 = 4;

    /// Instruction Constant Value
    pub const SB_FUNC: u8 = 5;

    /// Instruction Constant Value
    pub const SH_FUNC: u8 = 6;

    /// Instruction Constant Value
    pub const SW_FUNC: u8 = 7;
}

impl InstructionImpl for LoadStore {
    open spec fn spec_opcode() -> u8 {
        27
    }

    open spec fn spec_size() -> u32 {
        4
    }

    open spec fn spec_encode(&self) -> u32 {
        self.0.spec_to_embive()
    }

    open spec fn spec_decode(inst: u32) -> Self {
        LoadStore(TypeI::spec_from_embive(inst))
    }

    #[inline(always)]
    fn opcode() -> (r: u8) {
        27
    }

    #[inline(always)]
    fn size() -> (r: u32) {
        4
    }

    #[inline(always)]
    fn encode(&self) -> (r: u32) {
        self.0.to_embive()
    }

    #[inline(always)]
    fn decode(inst: u32) -> (r: Self) {
        LoadStore(TypeI::from_embive(inst))
    }
}

/// Load upper immediate (`lui`).
#[derive(Debug, Clone, Copy, PartialEq)]
pub struct Lui(pub TypeU);

impl InstructionImpl for Lui {
    open spec fn spec_opcode() -> u8 {
        28
    }

    open spec fn spec_size() -> u32 {
        4
    }

    open spec fn spec_encode(&self) -> u32 {
        self.0.spec_to_embive()
    }

    open spec fn spec_decode(inst: u32) -> Self {
        Lui(TypeU::spec_from_embive(inst))
    }

    #[inline(always)]
    fn opcode() -> (r: u8) {
        28
    }

    #[inline(always)]
    fn size() -> (r: u32) {
        4
    }

    #[inline(always)]
    fn encode(&self) -> (r: u32) {
        self.0.to_embive()
    }

    #[inline(always)]
    fn decode(inst: u32) -> (r: Self) {
        Lui(TypeU::from_embive(inst))
    }
}

/// Operations with an immediate (`addi`, `slli`, `slti`, `sltiu`, `xori`, `srli`, `srai`, `ori`, `andi`).
#[derive(Debug, Clone, Copy, PartialEq)]
pub struct OpImm(pub TypeI);

impl OpImm {
    /// Instruction Constant Value
    pub const ADDI_FUNC: u8 = 0;

    /// Instruction Constant Value
    pub const SLLI_FUNC: u8 = 1;

    /// Instruction Constant Value
    pub const SLTI_FUNC: u8 = 2;

    /// Instruction Constant Value
    pub const SLTIU_FUNC: u8 = 3;

    /// Instruction Constant Value
    pub const XORI_FUNC: u8 = 4;

    /// Instruction Constant Value
    pub const SRLI_SRAI_FUNC: u8 = 5;

    /// Instruction Constant Value
    pub const ORI_FUNC: u8 = 6;

    /// Instruction Constant Value
    pub const ANDI_FUNC: u8 = 7;
}

impl InstructionImpl for OpImm {
    open spec fn spec_opcode() -> u8 {
        29
    }

    open spec fn spec_size() -> u32 {
        4
    }

    open spec fn spec_encode(&self) -> u32 {
        self.0.spec_to_embive()
    }

    open spec fn spec_decode(inst: u32) -> Self {
        OpImm(TypeI::spec_from_embive(inst))
    }

    #[inline(always)]
    fn opcode() -> (r: u8) {
        29
    }

    #[inline(always)]
    fn size() -> (r: u32) {
        4
    }

    #[inline(always)]
    fn encode(&self) -> (r: u32) {
        self.0.to_embive()
    }

    #[inline(always)]
    fn decode(inst: u32) -> (r: Self) {
        OpImm(TypeI::from_embive(inst))
    }
}

/// Register operations, multiplication and division, and atomic memory operations.
#[derive(Debug, Clone, Copy, PartialEq)]
pub struct OpAmo(pub TypeR);

impl OpAmo {
    /// Instruction Constant Value
    pub const ADD_FUNC: u16 = 0;

    /// Instruction Constant Value
    pub const SUB_FUNC: u16 = 1;

    /// Instruction Constant Value
    pub const SLL_FUNC: u16 = 2;

    /// Instruction Constant Value
    pub const SLT_FUNC: u16 = 3;

    /// Instruction Constant Value
    pub const SLTU_FUNC: u16 = 4;

    /// Instruction Constant Value
    pub const XOR_FUNC: u16 = 5;

    /// Instruction Constant Value
    pub const SRL_FUNC: u16 = 6;

    /// Instruction Constant Value
    pub const SRA_FUNC: u16 = 7;

    /// Instruction Constant Value
    pub const OR_FUNC: u16 = 8;

    /// Instruction Constant Value
    pub const AND_FUNC: u16 = 9;

    /// Instruction Constant Value
    pub const MUL_FUNC: u16 = 10;

    /// Instruction Constant Value
    pub const MULH_FUNC: u16 = 11;

    /// Instruction Constant Value
    pub const MULHSU_FUNC: u16 = 12;

    /// Instruction Constant Value
    pub const MULHU_FUNC: u16 = 13;

    /// Instruction Constant Value
    pub const DIV_FUNC: u16 = 14;

    /// Instruction Constant Value
    pub const DIVU_FUNC: u16 = 15;

    /// Instruction Constant Value
    pub const REM_FUNC: u16 = 16;

    /// Instruction Constant Value
    pub const REMU_FUNC: u16 = 17;

    /// Instruction Constant Value
    pub const LR_FUNC: u16 = 18;

    /// Instruction Constant Value
    pub const SC_FUNC: u16 = 19;

    /// Instruction Constant Value
    pub const AMOSWAP_FUNC: u16 = 20;

    /// Instruction Constant Value
    pub const AMOADD_FUNC: u16 = 21;

    /// Instruction Constant Value
    pub const AMOXOR_FUNC: u16 = 22;

    /// Instruction Constant Value
    pub const AMOAND_FUNC: u16 = 23;

    /// Instruction Constant Value
    pub const AMOOR_FUNC: u16 = 24;

    /// Instruction Constant Value
    pub const AMOMIN_FUNC: u16 = 25;

    /// Instruction Constant Value
    pub const AMOMAX_FUNC: u16 = 26;

    /// Instruction Constant Value
    pub const AMOMINU_FUNC: u16 = 27;

    /// Instruction Constant Value
    pub const AMOMAXU_FUNC: u16 = 28;
}

impl InstructionImpl for OpAmo {
    open spec fn spec_opcode() -> u8 {
        30
    }

    open spec fn spec_size() -> u32 {
        4
    }

    open spec fn spec_encode(&self) -> u32 {
        self.0.spec_to_embive()
    }

    open spec fn spec_decode(inst: u32) -> Self {
        OpAmo(TypeR::spec_from_embive(inst))
    }

    #[inline(always)]
    fn opcode() -> (r: u8) {
        30
    }

    #[inline(always)]
    fn size() -> (r: u32) {
        4
    }

    #[inline(always)]
    fn encode(&self) -> (r: u32) {
        self.0.to_embive()
    }

    #[inline(always)]
    fn decode(inst: u32) -> (r: Self) {
        OpAmo(TypeR::from_embive(inst))
    }
}

/// System, control and status register, and memory ordering instructions.
#[derive(Debug, Clone, Copy, PartialEq)]
pub struct SystemMiscMem(pub TypeI);

impl SystemMiscMem {
    /// Instruction Constant Value
    pub const ECALL_IMM: i32 = 0;

    /// Instruction Constant Value
    pub const EBREAK_IMM: i32 = 1;

    /// Instruction Constant Value
    pub const FENCEI_IMM: i32 = 2;

    /// Instruction Constant Value
    pub const WFI_IMM: i32 = 3;

    /// Instruction Constant Value
    pub const MRET_IMM: i32 = 4;

    /// Instruction Constant Value
    pub const MISC_FUNC: u8 = 0;

    /// Instruction Constant Value
    pub const CSRRW_FUNC: u8 = 1;

    /// Instruction Constant Value
    pub const CSRRS_FUNC: u8 = 2;

    /// Instruction Constant Value
    pub const CSRRC_FUNC: u8 = 3;

    /// Instruction Constant Value
    pub const CSRRWI_FUNC: u8 = 4;

    /// Instruction Constant Value
    pub const CSRRSI_FUNC: u8 = 5;

    /// Instruction Constant Value
    pub const CSRRCI_FUNC: u8 = 6;
}

impl InstructionImpl for SystemMiscMem {
    open spec fn spec_opcode() -> u8 {
        31
    }

    open spec fn spec_size() -> u32 {
        4
    }

    open spec fn spec_encode(&self) -> u32 {
        self.0.spec_to_embive()
    }

    open spec fn spec_decode(inst: u32) -> Self {
        SystemMiscMem(TypeI::spec_from_embive(inst))
    }

    #[inline(always)]
    fn opcode() -> (r: u8) {
        31
    }

    #[inline(always)]
    fn size() -> (r: u32) {
        4
    }

    #[inline(always)]
    fn encode(&self) -> (r: u32) {
        self.0.to_embive()
    }

    #[inline(always)]
    fn decode(inst: u32) -> (r: Self) {
        SystemMiscMem(TypeI::from_embive(inst))
    }
}

} // verus!

//! Instruction decoding and execution module.
//!
//! Every instruction has a specification of what it does to the interpreter's state, written
//! over [`MachineState`], and an `execute` method proved to do exactly that.
use vstd::prelude::*;

mod auipc;
mod branch;
mod compressed;
mod jal;
mod jalr;
mod load_store;
mod lui;
mod op_amo;
mod op_imm;
mod system_misc_mem;

pub use auipc::spec_auipc;
pub use branch::{branch_taken, lemma_branch_conditions, spec_branch, spec_branch_taken};
pub use compressed::{
    lemma_compressed_is_base,
    spec_as_compressed,
    spec_caddi,
    spec_caddi16sp,
    spec_caddi4spn,
    spec_cand,
    spec_candi,
    spec_cbeqz,
    spec_cbnez,
    spec_cebreak_jalr_add,
    spec_cj,
    spec_cjal,
    spec_cjr_mv,
    spec_cli,
    spec_clui,
    spec_clw,
    spec_clwsp,
    spec_cor,
    spec_cslli,
    spec_csrai,
    spec_csrli,
    spec_csub,
    spec_csw,
    spec_cswsp,
    spec_cxor,
};
pub use jal::spec_jal;
pub use jalr::spec_jalr;
pub use load_store::{
    is_load, is_store, lemma_load_store_address, lemma_store_then_load_instruction,
    spec_access_address, spec_load_back,
    spec_load_store, spec_load_value, spec_store_bytes,
};
pub use lui::spec_lui;
pub use op_amo::{
    amo_value, lemma_amo_values, lemma_division, lemma_lr_then_sc, lemma_op_values,
    lemma_sc_without_reservation, op_value, spec_abs, spec_amo_value,
    spec_atomic, spec_div_toward_zero, spec_high_word, spec_op_amo, spec_op_value,
    spec_rem_toward_zero,
};
pub use op_imm::{
    lemma_op_imm_bits, lemma_op_imm_is_register_op, op_imm_value, spec_op_imm, spec_op_imm_value,
    SRA_IMM_BIT,
};
pub use system_misc_mem::{spec_cs_operation, spec_system, spec_system_misc_mem};

use crate::format::{Format, TypeB, TypeCB1, TypeCB2, TypeCB4, TypeCI1, TypeCI2, TypeCI3, TypeCI4, TypeCI5, TypeCIW, TypeCJ, TypeCL, TypeCR, TypeCS, TypeCSS, TypeI, TypeJ, TypeR, TypeU};
use crate::instruction::embive::{
    InstructionImpl,
    Auipc,
    Branch,
    CAddi,
    CAddi16sp,
    CAddi4spn,
    CAnd,
    CAndi,
    CBeqz,
    CBnez,
    CEbreakJalrAdd,
    CJ,
    CJal,
    CJrMv,
    CLi,
    CLui,
    CLw,
    CLwsp,
    COr,
    CSlli,
    CSrai,
    CSrli,
    CSub,
    CSw,
    CSwsp,
    CXor,
    Jal,
    Jalr,
    LoadStore,
    Lui,
    OpAmo,
    OpImm,
    SystemMiscMem,
};
use crate::instruction::Instruction;
use crate::interpreter::machine::{spec_wrap_offset, MachineState};
use crate::interpreter::memory::Memory;
use crate::interpreter::{Error, Interpreter, State};

verus! {

/// Decoding a raw Embive word and executing it: the low five bits (the opcode) pick the
/// instruction, the rest holds its fields.
pub open spec fn spec_decode_execute<M: Memory>(s: MachineState<M::V>, inst: u32) -> (
    MachineState<M::V>,
    Result<State, Error>,
) {
    let opcode = inst & 0x1F;
    if opcode == 0 {
        spec_caddi4spn(s, TypeCIW::spec_from_embive(inst))
    } else if opcode == 1 {
        spec_clw::<M>(s, TypeCL::spec_from_embive(inst))
    } else if opcode == 2 {
        spec_csw::<M>(s, TypeCL::spec_from_embive(inst))
    } else if opcode == 3 {
        spec_caddi(s, TypeCI1::spec_from_embive(inst))
    } else if opcode == 4 {
        spec_cjal(s, TypeCJ::spec_from_embive(inst))
    } else if opcode == 5 {
        spec_cli(s, TypeCI1::spec_from_embive(inst))
    } else if opcode == 6 {
        spec_caddi16sp(s, TypeCI2::spec_from_embive(inst))
    } else if opcode == 7 {
        spec_clui(s, TypeCI3::spec_from_embive(inst))
    } else if opcode == 8 {
        spec_csrli(s, TypeCB1::spec_from_embive(inst))
    } else if opcode == 9 {
        spec_csrai(s, TypeCB1::spec_from_embive(inst))
    } else if opcode == 10 {
        spec_candi(s, TypeCB2::spec_from_embive(inst))
    } else if opcode == 11 {
        spec_csub(s, TypeCS::spec_from_embive(inst))
    } else if opcode == 12 {
        spec_cxor(s, TypeCS::spec_from_embive(inst))
    } else if opcode == 13 {
        spec_cor(s, TypeCS::spec_from_embive(inst))
    } else if opcode == 14 {
        spec_cand(s, TypeCS::spec_from_embive(inst))
    } else if opcode == 15 {
        spec_cj(s, TypeCJ::spec_from_embive(inst))
    } else if opcode == 16 {
        spec_cbeqz(s, TypeCB4::spec_from_embive(inst))
    } else if opcode == 17 {
        spec_cbnez(s, TypeCB4::spec_from_embive(inst))
    } else if opcode == 18 {
        spec_cslli(s, TypeCI4::spec_from_embive(inst))
    } else if opcode == 19 {
        spec_clwsp::<M>(s, TypeCI5::spec_from_embive(inst))
    } else if opcode == 20 {
        spec_cjr_mv(s, TypeCR::spec_from_embive(inst))
    } else if opcode == 21 {
        spec_cebreak_jalr_add(s, TypeCR::spec_from_embive(inst))
    } else if opcode == 22 {
        spec_cswsp::<M>(s, TypeCSS::spec_from_embive(inst))
    } else if opcode == 23 {
        spec_auipc(s, TypeU::spec_from_embive(inst))
    } else if opcode == 24 {
        spec_branch(s, TypeB::spec_from_embive(inst))
    } else if opcode == 25 {
        spec_jal(s, TypeJ::spec_from_embive(inst))
    } else if opcode == 26 {
        spec_jalr(s, TypeI::spec_from_embive(inst))
    } else if opcode == 27 {
        spec_load_store::<M>(s, TypeI::spec_from_embive(inst))
    } else if opcode == 28 {
        spec_lui(s, TypeU::spec_from_embive(inst))
    } else if opcode == 29 {
        spec_op_imm(s, TypeI::spec_from_embive(inst))
    } else if opcode == 30 {
        spec_op_amo::<M>(s, TypeR::spec_from_embive(inst))
    } else if opcode == 31 {
        spec_system_misc_mem(s, TypeI::spec_from_embive(inst))
    } else {
        (s, Err(Error::InvalidInstruction(s.program_counter)))
    }
}

/// Dispatch follows the instruction set: a word whose low five bits are the opcode of an
/// instruction ([`InstructionImpl::spec_opcode`]) executes as that instruction, decoded from the
/// word by that instruction's own decoder. (The 32 instructions take the 32 opcodes.)
pub proof fn lemma_dispatch<M: Memory>(s: MachineState<M::V>, inst: u32)
    ensures
        inst & 0x1F == CAddi4spn::spec_opcode() as u32 ==> spec_decode_execute::<M>(s, inst) == spec_caddi4spn(
            s,
            CAddi4spn::spec_decode(inst).0,
        ),
        inst & 0x1F == CLw::spec_opcode() as u32 ==> spec_decode_execute::<M>(s, inst) == spec_clw::<M>(
            s,
            CLw::spec_decode(inst).0,
        ),
        inst & 0x1F == CSw::spec_opcode() as u32 ==> spec_decode_execute::<M>(s, inst) == spec_csw::<M>(
            s,
            CSw::spec_decode(inst).0,
        ),
        inst & 0x1F == CAddi::spec_opcode() as u32 ==> spec_decode_execute::<M>(s, inst) == spec_caddi(
            s,
            CAddi::spec_decode(inst).0,
        ),
        inst & 0x1F == CJal::spec_opcode() as u32 ==> spec_decode_execute::<M>(s, inst) == spec_cjal(
            s,
            CJal::spec_decode(inst).0,
        ),
        inst & 0x1F == CLi::spec_opcode() as u32 ==> spec_decode_execute::<M>(s, inst) == spec_cli(
            s,
            CLi::spec_decode(inst).0,
        ),
        inst & 0x1F == CAddi16sp::spec_opcode() as u32 ==> spec_decode_execute::<M>(s, inst) == spec_caddi16sp(
            s,
            CAddi16sp::spec_decode(inst).0,
        ),
        inst & 0x1F == CLui::spec_opcode() as u32 ==> spec_decode_execute::<M>(s, inst) == spec_clui(
            s,
            CLui::spec_decode(inst).0,
        ),
        inst & 0x1F == CSrli::spec_opcode() as u32 ==> spec_decode_execute::<M>(s, inst) == spec_csrli(
            s,
            CSrli::spec_decode(inst).0,
        ),
        inst & 0x1F == CSrai::spec_opcode() as u32 ==> spec_decode_execute::<M>(s, inst) == spec_csrai(
            s,
            CSrai::spec_decode(inst).0,
        ),
        inst & 0x1F == CAndi::spec_opcode() as u32 ==> spec_decode_execute::<M>(s, inst) == spec_candi(
            s,
            CAndi::spec_decode(inst).0,
        ),
        inst & 0x1F == CSub::spec_opcode() as u32 ==> spec_decode_execute::<M>(s, inst) == spec_csub(
            s,
            CSub::spec_decode(inst).0,
        ),
        inst & 0x1F == CXor::spec_opcode() as u32 ==> spec_decode_execute::<M>(s, inst) == spec_cxor(
            s,
            CXor::spec_decode(inst).0,
        ),
        inst & 0x1F == COr::spec_opcode() as u32 ==> spec_decode_execute::<M>(s, inst) == spec_cor(
            s,
            COr::spec_decode(inst).0,
        ),
        inst & 0x1F == CAnd::spec_opcode() as u32 ==> spec_decode_execute::<M>(s, inst) == spec_cand(
            s,
            CAnd::spec_decode(inst).0,
        ),
        inst & 0x1F == CJ::spec_opcode() as u32 ==> spec_decode_execute::<M>(s, inst) == spec_cj(
            s,
            CJ::spec_decode(inst).0,
        ),
        inst & 0x1F == CBeqz::spec_opcode() as u32 ==> spec_decode_execute::<M>(s, inst) == spec_cbeqz(
            s,
            CBeqz::spec_decode(inst).0,
        ),
        inst & 0x1F == CBnez::spec_opcode() as u32 ==> spec_decode_execute::<M>(s, inst) == spec_cbnez(
            s,
            CBnez::spec_decode(inst).0,
        ),
        inst & 0x1F == CSlli::spec_opcode() as u32 ==> spec_decode_execute::<M>(s, inst) == spec_cslli(
            s,
            CSlli::spec_decode(inst).0,
        ),
        inst & 0x1F == CLwsp::spec_opcode() as u32 ==> spec_decode_execute::<M>(s, inst) == spec_clwsp::<M>(
            s,
            CLwsp::spec_decode(inst).0,
        ),
        inst & 0x1F == CJrMv::spec_opcode() as u32 ==> spec_decode_execute::<M>(s, inst) == spec_cjr_mv(
            s,
            CJrMv::spec_decode(inst).0,
        ),
        inst & 0x1F == CEbreakJalrAdd::spec_opcode() as u32 ==> spec_decode_execute::<M>(s, inst) == spec_cebreak_jalr_add(
            s,
            CEbreakJalrAdd::spec_decode(inst).0,
        ),
        inst & 0x1F == CSwsp::spec_opcode() as u32 ==> spec_decode_execute::<M>(s, inst) == spec_cswsp::<M>(
            s,
            CSwsp::spec_decode(inst).0,
        ),
        inst & 0x1F == Auipc::spec_opcode() as u32 ==> spec_decode_execute::<M>(s, inst) == spec_auipc(
            s,
            Auipc::spec_decode(inst).0,
        ),
        inst & 0x1F == Branch::spec_opcode() as u32 ==> spec_decode_execute::<M>(s, inst) == spec_branch(
            s,
            Branch::spec_decode(inst).0,
        ),
        inst & 0x1F == Jal::spec_opcode() as u32 ==> spec_decode_execute::<M>(s, inst) == spec_jal(
            s,
            Jal::spec_decode(inst).0,
        ),
        inst & 0x1F == Jalr::spec_opcode() as u32 ==> spec_decode_execute::<M>(s, inst) == spec_jalr(
            s,
            Jalr::spec_decode(inst).0,
        ),
        inst & 0x1F == LoadStore::spec_opcode() as u32 ==> spec_decode_execute::<M>(s, inst) == spec_load_store::<M>(
            s,
            LoadStore::spec_decode(inst).0,
        ),
        inst & 0x1F == Lui::spec_opcode() as u32 ==> spec_decode_execute::<M>(s, inst) == spec_lui(
            s,
            Lui::spec_decode(inst).0,
        ),
        inst & 0x1F == OpImm::spec_opcode() as u32 ==> spec_decode_execute::<M>(s, inst) == spec_op_imm(
            s,
            OpImm::spec_decode(inst).0,
        ),
        inst & 0x1F == OpAmo::spec_opcode() as u32 ==> spec_decode_execute::<M>(s, inst) == spec_op_amo::<M>(
            s,
            OpAmo::spec_decode(inst).0,
        ),
        inst & 0x1F == SystemMiscMem::spec_opcode() as u32 ==> spec_decode_execute::<M>(s, inst) == spec_system_misc_mem(
            s,
            SystemMiscMem::spec_decode(inst).0,
        ),
{
}

/// Where control goes, modulo 2^32 with signed offsets:
/// - `jal` always succeeds, moves the program counter by its offset, and links the address 4
///   bytes on; `c.j` is `jal` that links nothing; `c.jal` moves like `jal` and links the address
///   2 bytes on;
/// - `jalr` moves to `rs1` plus its offset and links the address 4 bytes on;
/// - `auipc` puts the program counter plus its (upper) immediate in its destination;
/// - a branch whose condition holds moves by its offset, one whose condition fails moves 4
///   bytes on.
pub proof fn lemma_control_flow<V>(s: MachineState<V>, j: TypeJ, i: TypeI, u: TypeU, b: TypeB, c: TypeCJ)
    requires
        s.registers.len() == 32,
        j.rd < 32,
        i.rd_rs2 < 32,
        i.rs1 < 32,
        u.rd < 32,
        b.rs1 < 32,
        b.rs2 < 32,
    ensures
        spec_jal(s, j).1 == Ok::<State, Error>(State::Running),
        spec_jal(s, j).0.program_counter == spec_wrap_offset(s.program_counter, j.imm),
        j.rd != 0 ==> spec_jal(s, j).0.registers[j.rd as int] as u32 == spec_wrap_offset(s.program_counter, 4),
        spec_cj(s, c) == spec_jal(s, TypeJ { rd: 0, imm: c.imm }),
        spec_cjal(s, c).0.program_counter == spec_wrap_offset(s.program_counter, c.imm),
        spec_cjal(s, c).0.registers[1] as u32 == spec_wrap_offset(s.program_counter, 2),
        spec_jalr(s, i).1 == Ok::<State, Error>(State::Running),
        spec_jalr(s, i).0.program_counter == spec_wrap_offset(s.registers[i.rs1 as int] as u32, i.imm),
        i.rd_rs2 != 0 ==> spec_jalr(s, i).0.registers[i.rd_rs2 as int] as u32 == spec_wrap_offset(
            s.program_counter,
            4,
        ),
        u.rd != 0 ==> spec_auipc(s, u).0.registers[u.rd as int] as u32 == spec_wrap_offset(
            s.program_counter,
            u.imm,
        ),
        spec_branch_taken(b.funct3, s.registers[b.rs1 as int], s.registers[b.rs2 as int]) == Some(true)
            ==> spec_branch(s, b).0.program_counter == spec_wrap_offset(s.program_counter, b.imm),
        spec_branch_taken(b.funct3, s.registers[b.rs1 as int], s.registers[b.rs2 as int]) == Some(false)
            ==> spec_branch(s, b).0.program_counter == spec_wrap_offset(s.program_counter, 4),
{
    let pc = s.program_counter;
    let (x, y, z) = (pc.wrapping_add(4), pc.wrapping_add(2), pc.wrapping_add_signed(u.imm));
    assert(x as i32 as u32 == x && y as i32 as u32 == y && z as i32 as u32 == z) by (bit_vector);
}

/// Decode and execute an instruction.
///
/// Arguments:
/// - `interpreter`: Mutable pointer to embive interpreter.
/// - `data`: The instruction.
///
/// Returns:
/// - `Ok(State)`: The instruction was decoded and executed successfully.
/// - `Err(Error)`: Failed to decode or execute instruction.
#[inline(always)]
pub fn decode_execute<M: Memory>(interpreter: &mut Interpreter<M>, data: Instruction) -> (r: Result<State, Error>)
    ensures
        final(interpreter)@ == spec_decode_execute::<M>(old(interpreter)@, data@).0,
        r == spec_decode_execute::<M>(old(interpreter)@, data@).1,
{
    let inst = data.0;
    match inst & 0x1F {
        0 => CAddi4spn::decode(inst).execute(interpreter),
        1 => CLw::decode(inst).execute(interpreter),
        2 => CSw::decode(inst).execute(interpreter),
        3 => CAddi::decode(inst).execute(interpreter),
        4 => CJal::decode(inst).execute(interpreter),
        5 => CLi::decode(inst).execute(interpreter),
        6 => CAddi16sp::decode(inst).execute(interpreter),
        7 => CLui::decode(inst).execute(interpreter),
        8 => CSrli::decode(inst).execute(interpreter),
        9 => CSrai::decode(inst).execute(interpreter),
        10 => CAndi::decode(inst).execute(interpreter),
        11 => CSub::decode(inst).execute(interpreter),
        12 => CXor::decode(inst).execute(interpreter),
        13 => COr::decode(inst).execute(interpreter),
        14 => CAnd::decode(inst).execute(interpreter),
        15 => CJ::decode(inst).execute(interpreter),
        16 => CBeqz::decode(inst).execute(interpreter),
        17 => CBnez::decode(inst).execute(interpreter),
        18 => CSlli::decode(inst).execute(interpreter),
        19 => CLwsp::decode(inst).execute(interpreter),
        20 => CJrMv::decode(inst).execute(interpreter),
        21 => CEbreakJalrAdd::decode(inst).execute(interpreter),
        22 => CSwsp::decode(inst).execute(interpreter),
        23 => Auipc::decode(inst).execute(interpreter),
        24 => Branch::decode(inst).execute(interpreter),
        25 => Jal::decode(inst).execute(interpreter),
        26 => Jalr::decode(inst).execute(interpreter),
        27 => LoadStore::decode(inst).execute(interpreter),
        28 => Lui::decode(inst).execute(interpreter),
        29 => OpImm::decode(inst).execute(interpreter),
        30 => OpAmo::decode(inst).execute(interpreter),
        31 => SystemMiscMem::decode(inst).execute(interpreter),
        _ => Err(Error::InvalidInstruction(interpreter.program_counter)),
    }
}

} // verus!

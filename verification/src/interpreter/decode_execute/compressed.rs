//! Compressed instructions.
use vstd::prelude::*;

mod addi;
mod addi16sp;
mod addi4spn;
mod and;
mod andi;
mod beqz;
mod bnez;
mod ebreak_jalr_add;
mod j;
mod jal;
mod jr_mv;
mod li;
mod lui;
mod lw;
mod lwsp;
mod or;
mod slli;
mod srai;
mod srli;
mod sub;
mod sw;
mod swsp;
mod xor;

pub use addi::spec_caddi;
pub use addi16sp::spec_caddi16sp;
pub use addi4spn::spec_caddi4spn;
pub use and::spec_cand;
pub use andi::spec_candi;
pub use beqz::spec_cbeqz;
pub use bnez::spec_cbnez;
pub use ebreak_jalr_add::spec_cebreak_jalr_add;
pub use j::spec_cj;
pub use jal::spec_cjal;
pub use jr_mv::spec_cjr_mv;
pub use li::spec_cli;
pub use lui::spec_clui;
pub use lw::spec_clw;
pub use lwsp::spec_clwsp;
pub use or::spec_cor;
pub use slli::spec_cslli;
pub use srai::spec_csrai;
pub use srli::spec_csrli;
pub use sub::spec_csub;
pub use sw::spec_csw;
pub use swsp::spec_cswsp;
pub use xor::spec_cxor;

use super::op_amo::spec_op_amo;
use super::op_imm::{spec_op_imm, SRA_IMM_BIT};
use crate::format::{TypeCB1, TypeCB2, TypeCI1, TypeCI4, TypeCR, TypeCS, TypeI, TypeR};
use crate::instruction::embive::{OpAmo, OpImm};
use crate::interpreter::machine::MachineState;
use crate::interpreter::memory::Memory;
use crate::interpreter::{Error, State};

verus! {

/// The outcome of a compressed instruction whose base instruction has outcome `base`, from `s`:
/// the same, but a success moves the program counter 2 bytes on instead of 4.
pub open spec fn spec_as_compressed<V>(
    s: MachineState<V>,
    base: (MachineState<V>, Result<State, Error>),
) -> (MachineState<V>, Result<State, Error>) {
    match base.1 {
        Ok(state) => (base.0.jump(s.program_counter.wrapping_add(2)), Ok(state)),
        Err(e) => (base.0, Err(e)),
    }
}

/// Each compressed register and immediate operation is its base instruction:
/// `c.and`, `c.or`, `c.xor`, `c.sub` and `c.add` are `and`, `or`, `xor`, `sub` and `add` of the
/// register with `rs2` into itself; `c.mv` is `add` of `x0` and `rs2`; `c.andi`, `c.addi`,
/// `c.slli`, `c.srli` and `c.srai` are `andi`, `addi`, `slli`, `srli` and `srai` of the register
/// with the immediate into itself; `c.li` is `addi` of `x0` and the immediate. (Valid fields and
/// `x0` holding 0 assumed; the shift amount below 32.)
pub proof fn lemma_compressed_is_base<M: Memory>(s: MachineState<M::V>, rd: u8, rs2: u8, imm: i32)
    requires
        s.registers.len() == 32,
        s.registers[0] == 0,
        rd < 32,
        rs2 < 32,
    ensures
        spec_cand(s, TypeCS { rd_rs1: rd, rs2 }) == spec_as_compressed(
            s,
            spec_op_amo::<M>(s, TypeR { rd, rs1: rd, rs2, funct10: OpAmo::AND_FUNC }),
        ),
        spec_cor(s, TypeCS { rd_rs1: rd, rs2 }) == spec_as_compressed(
            s,
            spec_op_amo::<M>(s, TypeR { rd, rs1: rd, rs2, funct10: OpAmo::OR_FUNC }),
        ),
        spec_cxor(s, TypeCS { rd_rs1: rd, rs2 }) == spec_as_compressed(
            s,
            spec_op_amo::<M>(s, TypeR { rd, rs1: rd, rs2, funct10: OpAmo::XOR_FUNC }),
        ),
        spec_csub(s, TypeCS { rd_rs1: rd, rs2 }) == spec_as_compressed(
            s,
            spec_op_amo::<M>(s, TypeR { rd, rs1: rd, rs2, funct10: OpAmo::SUB_FUNC }),
        ),
        rs2 != 0 ==> spec_cebreak_jalr_add(s, TypeCR { rd_rs1: rd, rs2 }) == spec_as_compressed(
            s,
            spec_op_amo::<M>(s, TypeR { rd, rs1: rd, rs2, funct10: OpAmo::ADD_FUNC }),
        ),
        rs2 != 0 ==> spec_cjr_mv(s, TypeCR { rd_rs1: rd, rs2 }) == spec_as_compressed(
            s,
            spec_op_amo::<M>(s, TypeR { rd, rs1: 0, rs2, funct10: OpAmo::ADD_FUNC }),
        ),
        spec_candi(s, TypeCB2 { rd_rs1: rd, imm }) == spec_as_compressed(
            s,
            spec_op_imm(s, TypeI { rd_rs2: rd, rs1: rd, imm, funct3: OpImm::ANDI_FUNC }),
        ),
        spec_caddi(s, TypeCI1 { rd_rs1: rd, imm }) == spec_as_compressed(
            s,
            spec_op_imm(s, TypeI { rd_rs2: rd, rs1: rd, imm, funct3: OpImm::ADDI_FUNC }),
        ),
        spec_cli(s, TypeCI1 { rd_rs1: rd, imm }) == spec_as_compressed(
            s,
            spec_op_imm(s, TypeI { rd_rs2: rd, rs1: 0, imm, funct3: OpImm::ADDI_FUNC }),
        ),
        0 <= imm < 32 ==> spec_cslli(s, TypeCI4 { rd_rs1: rd, imm }) == spec_as_compressed(
            s,
            spec_op_imm(s, TypeI { rd_rs2: rd, rs1: rd, imm, funct3: OpImm::SLLI_FUNC }),
        ),
        0 <= imm < 32 ==> spec_csrli(s, TypeCB1 { rd_rs1: rd, imm }) == spec_as_compressed(
            s,
            spec_op_imm(s, TypeI { rd_rs2: rd, rs1: rd, imm, funct3: OpImm::SRLI_SRAI_FUNC }),
        ),
        0 <= imm < 32 ==> spec_csrai(s, TypeCB1 { rd_rs1: rd, imm }) == spec_as_compressed(
            s,
            spec_op_imm(
                s,
                TypeI { rd_rs2: rd, rs1: rd, imm: imm | SRA_IMM_BIT, funct3: OpImm::SRLI_SRAI_FUNC },
            ),
        ),
{
    let v = s.registers[rd as int];
    assert(0 <= imm < 32 ==> (imm as u32) & 0b11111 == imm as u32 && imm & SRA_IMM_BIT == 0 && ((imm
        | SRA_IMM_BIT) as u32) & 0b11111 == imm as u32 && (imm | SRA_IMM_BIT) & SRA_IMM_BIT != 0)
        by (bit_vector);
    assert(0i32.wrapping_add(imm) == imm);
    assert(0i32.wrapping_add(s.registers[rs2 as int]) == s.registers[rs2 as int]);
}

} // verus!

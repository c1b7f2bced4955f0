//! Stores (`sb`, `sh`, `sw`), run by the engine.
use vstd::prelude::*;

use super::format::TypeS;
use super::INSTRUCTION_SIZE;
use crate::engine::{spec_reg, Engine, EngineState};
use crate::error::{spec_from_interpreter_error, Error};
use crate::interpreter::machine::{lemma_offset_address, spec_offset_address, MachineState};
use crate::interpreter::memory::{Memory, MemoryType};

verus! {

/// `sb` function code.
pub const SB_FUNCT3: u8 = 0b000;
/// `sh` function code.
pub const SH_FUNCT3: u8 = 0b001;
/// `sw` function code.
pub const SW_FUNCT3: u8 = 0b010;

/// The bytes that store `funct3` writes for `rs2` (its low byte, its low half word or the
/// word), or `None` for an unknown store.
pub open spec fn spec_riscv_store_bytes(funct3: u8, rs2: i32) -> Option<Seq<u8>> {
    if funct3 == SB_FUNCT3 {
        Some(<u8 as MemoryType>::spec_to_le(rs2 as u8))
    } else if funct3 == SH_FUNCT3 {
        Some(<u16 as MemoryType>::spec_to_le(rs2 as u16))
    } else if funct3 == SW_FUNCT3 {
        Some(<i32 as MemoryType>::spec_to_le(rs2))
    } else {
        None
    }
}

/// Executing a store: `rs2` is written at `rs1` plus the immediate; go to the next instruction.
/// A failed write changes nothing.
pub open spec fn spec_riscv_store<M: Memory>(s: MachineState<M::V>, inst: TypeS) -> (
    MachineState<M::V>,
    Result<EngineState, Error>,
) {
    match spec_reg(s, inst.rs1) {
        Err(e) => (s, Err(e)),
        Ok(rs1) => match spec_reg(s, inst.rs2) {
            Err(e) => (s, Err(e)),
            Ok(rs2) => match spec_riscv_store_bytes(inst.funct3, rs2) {
                None => (s, Err(Error::InvalidInstruction)),
                Some(bytes) => match M::spec_store(
                    s.memory,
                    (rs1 as u32).wrapping_add_signed(inst.imm),
                    bytes,
                ) {
                    Err(e) => (s, Err(spec_from_interpreter_error(e))),
                    Ok(memory) => (s.with_memory(memory).advance(4), Ok(EngineState::Running)),
                },
            },
        },
    }
}

/// Store OpCode
/// Instructions: Sb, Sh, Sw
/// Format: S-Type.
pub struct Store {}

impl Store {
    /// Decode and execute the instruction.
    ///
    /// Returns:
    /// - `Ok(EngineState)`: The state of the engine after the instruction.
    /// - `Err(Error)`: Failed to execute.
    #[inline(always)]
    pub fn decode_execute<M: Memory, F>(data: u32, engine: &mut Engine<M, F>) -> (r: Result<EngineState, Error>)
        ensures
            final(engine).config == old(engine).config,
            final(engine)@ == spec_riscv_store::<M>(old(engine)@, TypeS::spec_from_word(data)).0,
            r == spec_riscv_store::<M>(old(engine)@, TypeS::spec_from_word(data)).1,
    {
        let inst = TypeS::from(data);

        let rs1 = engine.reg(inst.rs1)?;
        let rs2 = engine.reg(inst.rs2)?;
        let address = (rs1 as u32).wrapping_add_signed(inst.imm);

        let funct3 = inst.funct3;
        let stored = if funct3 == SB_FUNCT3 {
            (rs2 as u8).store(&mut engine.memory, address)
        } else if funct3 == SH_FUNCT3 {
            (rs2 as u16).store(&mut engine.memory, address)
        } else if funct3 == SW_FUNCT3 {
            rs2.store(&mut engine.memory, address)
        } else {
            return Err(Error::InvalidInstruction);
        };
        if let Err(e) = stored {
            return Err(Error::from(e));
        }

        // Go to next instruction
        engine.program_counter = engine.program_counter.wrapping_add(INSTRUCTION_SIZE);

        Ok(EngineState::Running)
    }
}

/// A store writes at `rs1` plus the sign-extended offset, modulo 2^32 (so a negative offset
/// writes below `rs1`): it succeeds exactly when the memory accepts a store of `rs2`'s bytes
/// there, and then the memory is what that store leaves and the program counter moves to the
/// next instruction.
pub proof fn lemma_riscv_store_address<M: Memory>(s: MachineState<M::V>, inst: TypeS)
    requires
        spec_reg(s, inst.rs1) is Ok,
        spec_reg(s, inst.rs2) is Ok,
        spec_riscv_store_bytes(inst.funct3, 0) is Some,
    ensures
        ({
            let address = spec_offset_address(spec_reg(s, inst.rs1)->Ok_0, inst.imm);
            let bytes = spec_riscv_store_bytes(inst.funct3, spec_reg(s, inst.rs2)->Ok_0)->Some_0;
            &&& spec_riscv_store::<M>(s, inst).1 is Ok <==> M::spec_store(s.memory, address, bytes) is Ok
            &&& spec_riscv_store::<M>(s, inst).1 is Ok ==> spec_riscv_store::<M>(s, inst).0 == s.with_memory(
                M::spec_store(s.memory, address, bytes)->Ok_0,
            ).advance(4)
        }),
{
    lemma_offset_address(spec_reg(s, inst.rs1)->Ok_0, inst.imm);
}

/// The bytes of a store are the low byte (`sb`), the low two bytes (`sh`) or the four bytes
/// (`sw`) of `rs2`, least significant first.
pub proof fn lemma_riscv_store_bytes(funct3: u8, rs2: i32, i: int)
    requires
        spec_riscv_store_bytes(funct3, 0) is Some,
    ensures
        spec_riscv_store_bytes(funct3, rs2)->Some_0.len() == (if funct3 == SB_FUNCT3 {
            1int
        } else if funct3 == SH_FUNCT3 {
            2int
        } else {
            4int
        }),
        0 <= i < spec_riscv_store_bytes(funct3, rs2)->Some_0.len() ==> spec_riscv_store_bytes(
            funct3,
            rs2,
        )->Some_0[i] == (((rs2 as u32) >> (8 * i) as u32) & 0xff) as u8,
{
    let r = rs2;
    assert((((r as u8) as u128 >> 0u128) & 0xff) as u8 == (((r as u32) >> 0u32) & 0xff) as u8
        && (((r as u16) as u128 >> 0u128) & 0xff) as u8 == (((r as u32) >> 0u32) & 0xff) as u8
        && (((r as u16) as u128 >> 8u128) & 0xff) as u8 == (((r as u32) >> 8u32) & 0xff) as u8
        && ((r as u128 >> 0u128) & 0xff) as u8 == (((r as u32) >> 0u32) & 0xff) as u8
        && ((r as u128 >> 8u128) & 0xff) as u8 == (((r as u32) >> 8u32) & 0xff) as u8
        && ((r as u128 >> 16u128) & 0xff) as u8 == (((r as u32) >> 16u32) & 0xff) as u8
        && ((r as u128 >> 24u128) & 0xff) as u8 == (((r as u32) >> 24u32) & 0xff) as u8)
        by (bit_vector);
}

} // verus!

//! Atomic memory operations (`lr.w`, `sc.w`, `amoswap.w`, `amoadd.w`, `amoxor.w`, `amoand.w`,
//! `amoor.w`, `amomin.w`, `amomax.w`, `amominu.w`, `amomaxu.w`), run by the engine.
use vstd::prelude::*;

use super::embive::OpAmo;
use super::format::TypeR;
use super::INSTRUCTION_SIZE;
use crate::engine::{spec_reg, write_and_advance, Engine, EngineState};
use crate::error::{spec_from_interpreter_error, Error};
use crate::interpreter::decode_execute::{amo_value, spec_amo_value};
use crate::interpreter::machine::MachineState;
use crate::interpreter::memory::{Memory, MemoryType};

verus! {

/// Width code of word-sized atomic operations (funct3).
pub const WORD_WIDTH: u8 = 0b010;
/// `lr.w` operation code (funct5).
pub const LR_FUNCT5: u8 = 0b00010;
/// `sc.w` operation code.
pub const SC_FUNCT5: u8 = 0b00011;
/// `amoswap.w` operation code.
pub const AMOSWAP_FUNCT5: u8 = 0b00001;
/// `amoadd.w` operation code.
pub const AMOADD_FUNCT5: u8 = 0b00000;
/// `amoxor.w` operation code.
pub const AMOXOR_FUNCT5: u8 = 0b00100;
/// `amoand.w` operation code.
pub const AMOAND_FUNCT5: u8 = 0b01100;
/// `amoor.w` operation code.
pub const AMOOR_FUNCT5: u8 = 0b01000;
/// `amomin.w` operation code.
pub const AMOMIN_FUNCT5: u8 = 0b10000;
/// `amomax.w` operation code.
pub const AMOMAX_FUNCT5: u8 = 0b10100;
/// `amominu.w` operation code.
pub const AMOMINU_FUNCT5: u8 = 0b11000;
/// `amomaxu.w` operation code.
pub const AMOMAXU_FUNCT5: u8 = 0b11100;

/// The Embive read-modify-write operation that RISC-V operation code `funct5` names, or `None`.
pub open spec fn spec_riscv_amo_func(funct5: u8) -> Option<u16> {
    if funct5 == AMOSWAP_FUNCT5 {
        Some(OpAmo::AMOSWAP_FUNC)
    } else if funct5 == AMOADD_FUNCT5 {
        Some(OpAmo::AMOADD_FUNC)
    } else if funct5 == AMOXOR_FUNCT5 {
        Some(OpAmo::AMOXOR_FUNC)
    } else if funct5 == AMOAND_FUNCT5 {
        Some(OpAmo::AMOAND_FUNC)
    } else if funct5 == AMOOR_FUNCT5 {
        Some(OpAmo::AMOOR_FUNC)
    } else if funct5 == AMOMIN_FUNCT5 {
        Some(OpAmo::AMOMIN_FUNC)
    } else if funct5 == AMOMAX_FUNCT5 {
        Some(OpAmo::AMOMAX_FUNC)
    } else if funct5 == AMOMINU_FUNCT5 {
        Some(OpAmo::AMOMINU_FUNC)
    } else if funct5 == AMOMAXU_FUNCT5 {
        Some(OpAmo::AMOMAXU_FUNC)
    } else {
        None
    }
}

/// The word at `address`, or the error of reading it.
pub open spec fn spec_load_word<M: Memory>(memory: M::V, address: u32) -> Result<i32, Error> {
    match M::spec_load(memory, address, 4) {
        Ok(bytes) => Ok(<i32 as MemoryType>::spec_from_le(bytes)),
        Err(e) => Err(spec_from_interpreter_error(e)),
    }
}

/// The memory part of an atomic operation on the word at `address`: the state it leaves and the
/// value for the destination, or the error (with the state in which it stopped).
///
/// - `lr.w` reads the word and reserves it (address and value);
/// - `sc.w` drops the reservation; when there was one and the reserved word still holds the
///   reserved value, it writes `rs2` there and yields 0; otherwise it yields 1;
/// - the others read the word, write what [`spec_amo_value`] says and yield the word read.
pub open spec fn spec_riscv_amo_result<M: Memory>(s: MachineState<M::V>, funct10: u16, address: u32, rs2: i32) -> (
    MachineState<M::V>,
    Result<i32, Error>,
) {
    let funct5 = (funct10 >> 5) as u8;
    if (funct10 & 0b111) as u8 != WORD_WIDTH {
        (s, Err(Error::InvalidInstruction))
    } else if funct5 == LR_FUNCT5 {
        match spec_load_word::<M>(s.memory, address) {
            Err(e) => (s, Err(e)),
            Ok(value) => (MachineState { memory_reservation: Some((address, value)), ..s }, Ok(value)),
        }
    } else if funct5 == SC_FUNCT5 {
        let s1 = MachineState { memory_reservation: None, ..s };
        match s.memory_reservation {
            None => (s1, Ok(1)),
            Some((addr, reserved)) => match spec_load_word::<M>(s.memory, addr) {
                Err(e) => (s1, Err(e)),
                Ok(value) => if value == reserved {
                    match M::spec_store(s.memory, addr, <i32 as MemoryType>::spec_to_le(rs2)) {
                        Err(e) => (s1, Err(spec_from_interpreter_error(e))),
                        Ok(memory) => (s1.with_memory(memory), Ok(0)),
                    }
                } else {
                    (s1, Ok(1))
                },
            },
        }
    } else {
        match spec_riscv_amo_func(funct5) {
            None => (s, Err(Error::InvalidInstruction)),
            Some(func) => match spec_load_word::<M>(s.memory, address) {
                Err(e) => (s, Err(e)),
                Ok(value) => match M::spec_store(
                    s.memory,
                    address,
                    <i32 as MemoryType>::spec_to_le(spec_amo_value(func, value, rs2)->Some_0),
                ) {
                    Err(e) => (s, Err(spec_from_interpreter_error(e))),
                    Ok(memory) => (s.with_memory(memory), Ok(value)),
                },
            },
        }
    }
}

/// Executing an atomic operation on the word at address `rs1`: read `rs1` and `rs2`, run the
/// memory part, write the result to the destination unless that is `x0`, go to the next
/// instruction.
pub open spec fn spec_riscv_amo<M: Memory>(s: MachineState<M::V>, inst: TypeR) -> (
    MachineState<M::V>,
    Result<EngineState, Error>,
) {
    match spec_reg(s, inst.rs1) {
        Err(e) => (s, Err(e)),
        Ok(rs1) => match spec_reg(s, inst.rs2) {
            Err(e) => (s, Err(e)),
            Ok(rs2) => {
                let (s1, result) = spec_riscv_amo_result::<M>(s, inst.funct10, rs1 as u32, rs2);
                match result {
                    Err(e) => (s1, Err(e)),
                    Ok(value) => if inst.rd == 0 {
                        (s1.advance(4), Ok(EngineState::Running))
                    } else {
                        write_and_advance(s1, inst.rd, value)
                    },
                }
            },
        },
    }
}

/// The Embive read-modify-write operation that RISC-V operation code `funct5` names.
fn amo_func(funct5: u8) -> (r: Option<u16>)
    ensures
        r == spec_riscv_amo_func(funct5),
{
    if funct5 == AMOSWAP_FUNCT5 {
        Some(OpAmo::AMOSWAP_FUNC)
    } else if funct5 == AMOADD_FUNCT5 {
        Some(OpAmo::AMOADD_FUNC)
    } else if funct5 == AMOXOR_FUNCT5 {
        Some(OpAmo::AMOXOR_FUNC)
    } else if funct5 == AMOAND_FUNCT5 {
        Some(OpAmo::AMOAND_FUNC)
    } else if funct5 == AMOOR_FUNCT5 {
        Some(OpAmo::AMOOR_FUNC)
    } else if funct5 == AMOMIN_FUNCT5 {
        Some(OpAmo::AMOMIN_FUNC)
    } else if funct5 == AMOMAX_FUNCT5 {
        Some(OpAmo::AMOMAX_FUNC)
    } else if funct5 == AMOMINU_FUNCT5 {
        Some(OpAmo::AMOMINU_FUNC)
    } else if funct5 == AMOMAXU_FUNCT5 {
        Some(OpAmo::AMOMAXU_FUNC)
    } else {
        None
    }
}

/// Atomic Memory Operation OpCode
/// Instructions: Lr, Sc, Amoswap, Amoadd, Amoxor, Amoand, Amoor, Amomin, Amomax, Amominu, Amomaxu
/// Format: R-Type.
pub struct Amo {}

impl Amo {
    /// Read the word at `address`.
    fn load_word<M: Memory, F>(engine: &mut Engine<M, F>, address: u32) -> (r: Result<i32, Error>)
        ensures
            final(engine)@ == old(engine)@,
            final(engine).config == old(engine).config,
            r == spec_load_word::<M>(old(engine)@.memory, address),
    {
        match i32::load(&mut engine.memory, address) {
            Ok(value) => Ok(value),
            Err(e) => Err(Error::from(e)),
        }
    }

    /// Write the word `value` at `address`.
    fn store_word<M: Memory, F>(engine: &mut Engine<M, F>, address: u32, value: i32) -> (r: Result<(), Error>)
        ensures
            final(engine).config == old(engine).config,
            match M::spec_store(old(engine)@.memory, address, <i32 as MemoryType>::spec_to_le(value)) {
                Ok(memory) => r is Ok && final(engine)@ == old(engine)@.with_memory(memory),
                Err(e) => r == Err::<(), Error>(spec_from_interpreter_error(e)) && final(engine)@
                    == old(engine)@,
            },
    {
        match value.store(&mut engine.memory, address) {
            Ok(()) => Ok(()),
            Err(e) => Err(Error::from(e)),
        }
    }

    /// The memory part of atomic operation `funct10` on the word at `address`.
    fn memory_part<M: Memory, F>(engine: &mut Engine<M, F>, funct10: u16, address: u32, rs2: i32) -> (r: Result<i32, Error>)
        ensures
            final(engine).config == old(engine).config,
            final(engine)@ == spec_riscv_amo_result::<M>(old(engine)@, funct10, address, rs2).0,
            r == spec_riscv_amo_result::<M>(old(engine)@, funct10, address, rs2).1,
    {
        if (funct10 & 0b111) as u8 != WORD_WIDTH {
            return Err(Error::InvalidInstruction);
        }
        let funct5 = (funct10 >> 5) as u8;
        if funct5 == LR_FUNCT5 {
            let value = Self::load_word(engine, address)?;
            engine.memory_reservation = Some((address, value)); // Reserve memory
            Ok(value)
        } else if funct5 == SC_FUNCT5 {
            let reservation = engine.memory_reservation;
            engine.memory_reservation = None;
            match reservation {
                Some((addr, reserved)) => {
                    let value = Self::load_word(engine, addr)?;
                    if value == reserved {
                        Self::store_word(engine, addr, rs2)?;
                        Ok(0)
                    } else {
                        Ok(1)
                    }
                },
                None => Ok(1),
            }
        } else {
            let func = match amo_func(funct5) {
                Some(func) => func,
                None => return Err(Error::InvalidInstruction),
            };
            let value = Self::load_word(engine, address)?;
            let new = match amo_value(func, value, rs2) {
                Some(new) => new,
                None => return Err(Error::InvalidInstruction),
            };
            Self::store_word(engine, address, new)?;
            Ok(value)
        }
    }

    /// Decode and execute the instruction.
    ///
    /// Returns:
    /// - `Ok(EngineState)`: The state of the engine after the instruction.
    /// - `Err(Error)`: Failed to execute.
    #[inline(always)]
    pub fn decode_execute<M: Memory, F>(data: u32, engine: &mut Engine<M, F>) -> (r: Result<EngineState, Error>)
        ensures
            final(engine).config == old(engine).config,
            final(engine)@ == spec_riscv_amo::<M>(old(engine)@, TypeR::spec_from_word(data)).0,
            r == spec_riscv_amo::<M>(old(engine)@, TypeR::spec_from_word(data)).1,
    {
        let inst = TypeR::from(data);

        let rs1 = engine.reg(inst.rs1)? as u32;
        let rs2 = engine.reg(inst.rs2)?;

        let result = Self::memory_part(engine, inst.funct10, rs1, rs2)?;

        if inst.rd != 0 {
            engine.set_reg(inst.rd, result)?;
        }

        // Go to next instruction
        engine.program_counter = engine.program_counter.wrapping_add(INSTRUCTION_SIZE);

        Ok(EngineState::Running)
    }
}

} // verus!

//! Loads (`lb`, `lh`, `lw`, `lbu`, `lhu`), run by the engine.
use vstd::prelude::*;

use super::format::TypeI;
use super::INSTRUCTION_SIZE;
use crate::engine::{spec_reg, write_and_advance, Engine, EngineState};
use crate::error::{spec_from_interpreter_error, Error};
use crate::interpreter::machine::{lemma_offset_address, spec_offset_address, MachineState};
use crate::interpreter::memory::{Memory, MemoryType};

verus! {

/// `lb` function code.
pub const LB_FUNCT3: u8 = 0b000;
/// `lh` function code.
pub const LH_FUNCT3: u8 = 0b001;
/// `lw` function code.
pub const LW_FUNCT3: u8 = 0b010;
/// `lbu` function code.
pub const LBU_FUNCT3: u8 = 0b100;
/// `lhu` function code.
pub const LHU_FUNCT3: u8 = 0b101;

/// The value that load `funct3` reads at `address` (a byte, a half word or a word,
/// sign-extended for `lb` and `lh`, zero-extended for `lbu` and `lhu`), the error of the read, or
/// `None` for an unknown load.
pub open spec fn spec_riscv_load_value<M: Memory>(memory: M::V, funct3: u8, address: u32) -> Option<
    Result<i32, Error>,
> {
    if funct3 == LB_FUNCT3 {
        Some(
            match M::spec_load(memory, address, 1) {
                Ok(bytes) => Ok(<i8 as MemoryType>::spec_from_le(bytes) as i32),
                Err(e) => Err(spec_from_interpreter_error(e)),
            },
        )
    } else if funct3 == LH_FUNCT3 {
        Some(
            match M::spec_load(memory, address, 2) {
                Ok(bytes) => Ok(<i16 as MemoryType>::spec_from_le(bytes) as i32),
                Err(e) => Err(spec_from_interpreter_error(e)),
            },
        )
    } else if funct3 == LW_FUNCT3 {
        Some(
            match M::spec_load(memory, address, 4) {
                Ok(bytes) => Ok(<i32 as MemoryType>::spec_from_le(bytes)),
                Err(e) => Err(spec_from_interpreter_error(e)),
            },
        )
    } else if funct3 == LBU_FUNCT3 {
        Some(
            match M::spec_load(memory, address, 1) {
                Ok(bytes) => Ok(<u8 as MemoryType>::spec_from_le(bytes) as i32),
                Err(e) => Err(spec_from_interpreter_error(e)),
            },
        )
    } else if funct3 == LHU_FUNCT3 {
        Some(
            match M::spec_load(memory, address, 2) {
                Ok(bytes) => Ok(<u16 as MemoryType>::spec_from_le(bytes) as i32),
                Err(e) => Err(spec_from_interpreter_error(e)),
            },
        )
    } else {
        None
    }
}

/// Executing a load from `rs1` plus the immediate: the destination receives the value read (a
/// load into the hardwired `x0` still reads, and discards the value); go to the next
/// instruction. A failed read changes nothing.
pub open spec fn spec_riscv_load<M: Memory>(s: MachineState<M::V>, inst: TypeI) -> (
    MachineState<M::V>,
    Result<EngineState, Error>,
) {
    match spec_reg(s, inst.rs1) {
        Err(e) => (s, Err(e)),
        Ok(rs1) => match spec_riscv_load_value::<M>(
            s.memory,
            inst.funct3,
            (rs1 as u32).wrapping_add_signed(inst.imm),
        ) {
            None => (s, Err(Error::InvalidInstruction)),
            Some(Err(e)) => (s, Err(e)),
            Some(Ok(value)) => if inst.rd == 0 {
                (s.advance(4), Ok(EngineState::Running))
            } else {
                write_and_advance(s, inst.rd, value)
            },
        },
    }
}

/// Load OpCode
/// Instructions: Lb, Lh, Lw, Lbu, Lhu
/// Format: I-Type.
pub struct Load {}

impl Load {
    /// Decode and execute the instruction.
    ///
    /// Returns:
    /// - `Ok(EngineState)`: The state of the engine after the instruction.
    /// - `Err(Error)`: Failed to execute.
    #[inline(always)]
    pub fn decode_execute<M: Memory, F>(data: u32, engine: &mut Engine<M, F>) -> (r: Result<EngineState, Error>)
        ensures
            final(engine).config == old(engine).config,
            final(engine)@ == spec_riscv_load::<M>(old(engine)@, TypeI::spec_from_word(data)).0,
            r == spec_riscv_load::<M>(old(engine)@, TypeI::spec_from_word(data)).1,
    {
        let inst = TypeI::from(data);

        let rs1 = engine.reg(inst.rs1)?;
        let address = (rs1 as u32).wrapping_add_signed(inst.imm);

        let funct3 = inst.funct3;
        let loaded = if funct3 == LB_FUNCT3 {
            match i8::load(&mut engine.memory, address) {
                Ok(v) => Ok(v as i32),
                Err(e) => Err(e),
            }
        } else if funct3 == LH_FUNCT3 {
            match i16::load(&mut engine.memory, address) {
                Ok(v) => Ok(v as i32),
                Err(e) => Err(e),
            }
        } else if funct3 == LW_FUNCT3 {
            i32::load(&mut engine.memory, address)
        } else if funct3 == LBU_FUNCT3 {
            match u8::load(&mut engine.memory, address) {
                Ok(v) => Ok(v as i32),
                Err(e) => Err(e),
            }
        } else if funct3 == LHU_FUNCT3 {
            match u16::load(&mut engine.memory, address) {
                Ok(v) => Ok(v as i32),
                Err(e) => Err(e),
            }
        } else {
            return Err(Error::InvalidInstruction);
        };
        let result = match loaded {
            Ok(value) => value,
            Err(e) => return Err(Error::from(e)),
        };

        // Store the result in the destination register (x0 is hardwired to zero)
        if inst.rd != 0 {
            engine.set_reg(inst.rd, result)?;
        }

        // Go to next instruction
        engine.program_counter = engine.program_counter.wrapping_add(INSTRUCTION_SIZE);

        Ok(EngineState::Running)
    }
}

/// A load reads at `rs1` plus the sign-extended offset, modulo 2^32 (so a negative offset reads
/// below `rs1`): it succeeds exactly when the read there succeeds; then the destination (unless
/// it is `x0`) holds the value read, nothing else but the program counter changes.
pub proof fn lemma_riscv_load_address<M: Memory>(s: MachineState<M::V>, inst: TypeI)
    requires
        spec_reg(s, inst.rs1) is Ok,
        spec_riscv_load_value::<M>(s.memory, inst.funct3, 0) is Some,
        inst.rd < 32,
    ensures
        ({
            let address = spec_offset_address(spec_reg(s, inst.rs1)->Ok_0, inst.imm);
            let value = spec_riscv_load_value::<M>(s.memory, inst.funct3, address)->Some_0;
            let (s2, r) = spec_riscv_load::<M>(s, inst);
            &&& r is Ok <==> value is Ok
            &&& value is Ok ==> s2.program_counter == s.program_counter.wrapping_add(4)
                && s2.memory == s.memory && s2.registers == (if inst.rd == 0 {
                s.registers
            } else {
                s.registers.update(inst.rd as int, value->Ok_0)
            })
        }),
{
    lemma_offset_address(spec_reg(s, inst.rs1)->Ok_0, inst.imm);
}

} // verus!

//! Machine State Module
//!
//! The interpreter's state as plain values, and the steps that every instruction is made of.
use vstd::prelude::*;

use super::registers::{CSRegisters, CPU_REGISTER_COUNT};
use super::{Error, State};

verus! {

/// What an interpreter holds, as plain values; `V` is the view of its memory.
#[verifier::ext_equal]
pub struct MachineState<V> {
    /// Program counter.
    pub program_counter: u32,
    /// The CPU registers `x0` .. `x31`.
    pub registers: Seq<i32>,
    /// Control and status registers.
    pub control_status: CSRegisters,
    /// System memory (code + RAM).
    pub memory: V,
    /// Instruction limit (0 means no limit).
    pub instruction_limit: u32,
    /// Memory reservation for atomic operations (address, value).
    pub memory_reservation: Option<(u32, i32)>,
}

/// The address `offset` bytes away from `base`, modulo 2^32 (a negative offset counts down).
pub open spec fn spec_wrap_offset(base: u32, offset: i32) -> u32 {
    ((base as int + offset as int) % 0x1_0000_0000) as u32
}

/// The address `offset` bytes away from the register value `base`, modulo 2^32 (a negative
/// offset counts down).
pub open spec fn spec_offset_address(base: i32, offset: i32) -> u32 {
    spec_wrap_offset(base as u32, offset)
}

/// Adding a signed offset with wrap-around is adding modulo 2^32.
pub proof fn lemma_offset_address(base: i32, offset: i32)
    ensures
        (base as u32).wrapping_add_signed(offset) == spec_offset_address(base, offset),
{
}

impl<V> MachineState<V> {
    /// The value of register `index`, or the error for an index past the last register.
    pub open spec fn reg(self, index: u8) -> Result<i32, Error> {
        if index < CPU_REGISTER_COUNT {
            Ok(self.registers[index as int])
        } else {
            Err(Error::InvalidCPURegister(index))
        }
    }

    /// The state with register `index` holding `value`, or the error for an index past the last
    /// register.
    pub open spec fn set_reg(self, index: u8, value: i32) -> Result<Self, Error> {
        if index < CPU_REGISTER_COUNT {
            Ok(MachineState { registers: self.registers.update(index as int, value), ..self })
        } else {
            Err(Error::InvalidCPURegister(index))
        }
    }

    /// The state with the program counter at `pc`.
    pub open spec fn jump(self, pc: u32) -> Self {
        MachineState { program_counter: pc, ..self }
    }

    /// The state with the program counter moved past an instruction of `size` bytes
    /// (wrapping around at the end of the address space).
    pub open spec fn advance(self, size: u32) -> Self {
        self.jump(self.program_counter.wrapping_add(size))
    }

    /// The program counter moved by `offset` bytes (wrapping around).
    pub open spec fn pc_offset(self, offset: i32) -> u32 {
        self.program_counter.wrapping_add_signed(offset)
    }

    /// The address of the instruction after one of `size` bytes, as a register value.
    pub open spec fn link(self, size: u32) -> i32 {
        self.program_counter.wrapping_add(size) as i32
    }

    /// The state with the memory holding `memory`.
    pub open spec fn with_memory(self, memory: V) -> Self {
        MachineState { memory, ..self }
    }
}

/// What happens when an instruction writes `value` to register `rd` and then jumps to `target`:
/// either the interpreter keeps running in the new state, or the register does not exist and
/// nothing changes.
pub open spec fn write_and_jump<V>(s: MachineState<V>, rd: u8, value: i32, target: u32) -> (
    MachineState<V>,
    Result<State, Error>,
) {
    match s.set_reg(rd, value) {
        Ok(s1) => (s1.jump(target), Ok(State::Running)),
        Err(e) => (s, Err(e)),
    }
}

/// What happens when an instruction writes `value` to register `rd` and then moves past its
/// `size` bytes: either the interpreter keeps running in the new state, or the register does not
/// exist and nothing changes.
pub open spec fn write_and_advance<V>(s: MachineState<V>, rd: u8, value: i32, size: u32) -> (
    MachineState<V>,
    Result<State, Error>,
) {
    match s.set_reg(rd, value) {
        Ok(s1) => (s1.advance(size), Ok(State::Running)),
        Err(e) => (s, Err(e)),
    }
}

} // verus!

//! Loads and stores (`lb`, `lh`, `lw`, `lbu`, `lhu`, `sb`, `sh`, `sw`).
use vstd::prelude::*;

use crate::format::TypeI;
use crate::instruction::embive::{InstructionImpl, LoadStore};
use crate::interpreter::machine::{
    lemma_offset_address, spec_offset_address, write_and_advance, MachineState,
};
use crate::interpreter::memory::{
    lemma_le_value_of_bytes, lemma_store_then_load, spec_le_bytes, Memory, MemoryType, SliceMemory,
    SliceMemoryView, RAM_OFFSET,
};
use crate::interpreter::{Error, Interpreter, State};

verus! {

/// Operation `func` is one of the loads.
pub open spec fn is_load(func: u8) -> bool {
    func == LoadStore::LB_FUNC || func == LoadStore::LH_FUNC || func == LoadStore::LW_FUNC
        || func == LoadStore::LBU_FUNC || func == LoadStore::LHU_FUNC
}

/// Operation `func` is one of the stores.
pub open spec fn is_store(func: u8) -> bool {
    func == LoadStore::SB_FUNC || func == LoadStore::SH_FUNC || func == LoadStore::SW_FUNC
}

/// The value that load `func` reads at `address`: a byte, a half word or a word, sign-extended
/// (`lb`, `lh`) or zero-extended (`lbu`, `lhu`); or the error of the read.
pub open spec fn spec_load_value<M: Memory>(memory: M::V, func: u8, address: u32) -> Result<i32, Error> {
    if func == LoadStore::LB_FUNC {
        match M::spec_load(memory, address, 1) {
            Ok(bytes) => Ok(<i8 as MemoryType>::spec_from_le(bytes) as i32),
            Err(e) => Err(e),
        }
    } else if func == LoadStore::LH_FUNC {
        match M::spec_load(memory, address, 2) {
            Ok(bytes) => Ok(<i16 as MemoryType>::spec_from_le(bytes) as i32),
            Err(e) => Err(e),
        }
    } else if func == LoadStore::LW_FUNC {
        match M::spec_load(memory, address, 4) {
            Ok(bytes) => Ok(<i32 as MemoryType>::spec_from_le(bytes)),
            Err(e) => Err(e),
        }
    } else if func == LoadStore::LBU_FUNC {
        match M::spec_load(memory, address, 1) {
            Ok(bytes) => Ok(<u8 as MemoryType>::spec_from_le(bytes) as i32),
            Err(e) => Err(e),
        }
    } else {
        match M::spec_load(memory, address, 2) {
            Ok(bytes) => Ok(<u16 as MemoryType>::spec_from_le(bytes) as i32),
            Err(e) => Err(e),
        }
    }
}

/// The bytes that store `func` writes for `rs2`: its low byte, its low half word or the word.
pub open spec fn spec_store_bytes(func: u8, rs2: i32) -> Seq<u8> {
    if func == LoadStore::SB_FUNC {
        <u8 as MemoryType>::spec_to_le(rs2 as u8)
    } else if func == LoadStore::SH_FUNC {
        <u16 as MemoryType>::spec_to_le(rs2 as u16)
    } else {
        <i32 as MemoryType>::spec_to_le(rs2)
    }
}

/// Executing a load or a store at `rs1` plus the immediate: a load writes what it read to the
/// destination (a load into the hardwired `x0` still reads, and discards the value), a store
/// writes `rs2` to memory; then go to the next instruction. A failed read or write changes
/// nothing.
pub open spec fn spec_load_store<M: Memory>(s: MachineState<M::V>, inst: TypeI) -> (
    MachineState<M::V>,
    Result<State, Error>,
) {
    match s.reg(inst.rs1) {
        Err(e) => (s, Err(e)),
        Ok(rs1) => {
            let address = (rs1 as u32).wrapping_add_signed(inst.imm);
            if is_load(inst.funct3) {
                match spec_load_value::<M>(s.memory, inst.funct3, address) {
                    Err(e) => (s, Err(e)),
                    Ok(value) => if inst.rd_rs2 == 0 {
                        (s.advance(4), Ok(State::Running))
                    } else {
                        write_and_advance(s, inst.rd_rs2, value, 4)
                    },
                }
            } else if is_store(inst.funct3) {
                match s.reg(inst.rd_rs2) {
                    Err(e) => (s, Err(e)),
                    Ok(rs2) => match M::spec_store(s.memory, address, spec_store_bytes(inst.funct3, rs2)) {
                        Err(e) => (s, Err(e)),
                        Ok(memory) => (s.with_memory(memory).advance(4), Ok(State::Running)),
                    },
                }
            } else {
                (s, Err(Error::InvalidInstruction(s.program_counter)))
            }
        },
    }
}

impl LoadStore {
    /// Execute the instruction.
    ///
    /// Returns:
    /// - `Ok(State)`: Instruction executed successfully.
    /// - `Err(Error)`: Failed to execute instruction.
    #[inline(always)]
    pub fn execute<M: Memory>(&self, interpreter: &mut Interpreter<M>) -> (r: Result<State, Error>)
        ensures
            final(interpreter)@ == spec_load_store::<M>(old(interpreter)@, self.0).0,
            r == spec_load_store::<M>(old(interpreter)@, self.0).1,
    {
        let rs1 = interpreter.registers.cpu.get(self.0.rs1)?;
        let address = (rs1 as u32).wrapping_add_signed(self.0.imm);
        let func = self.0.funct3;

        if func == Self::LB_FUNC || func == Self::LH_FUNC || func == Self::LW_FUNC || func
            == Self::LBU_FUNC || func == Self::LHU_FUNC {
            let result = if func == Self::LB_FUNC {
                i8::load(&mut interpreter.memory, address)? as i32
            } else if func == Self::LH_FUNC {
                i16::load(&mut interpreter.memory, address)? as i32
            } else if func == Self::LW_FUNC {
                i32::load(&mut interpreter.memory, address)?
            } else if func == Self::LBU_FUNC {
                u8::load(&mut interpreter.memory, address)? as i32
            } else {
                u16::load(&mut interpreter.memory, address)? as i32
            };

            // Store the result in the destination register (x0 is hardwired to zero)
            if self.0.rd_rs2 != 0 {
                interpreter.registers.cpu.set(self.0.rd_rs2, result)?;
            }
        } else if func == Self::SB_FUNC || func == Self::SH_FUNC || func == Self::SW_FUNC {
            let rs2 = interpreter.registers.cpu.get(self.0.rd_rs2)?;
            if func == Self::SB_FUNC {
                (rs2 as u8).store(&mut interpreter.memory, address)?;
            } else if func == Self::SH_FUNC {
                (rs2 as u16).store(&mut interpreter.memory, address)?;
            } else {
                rs2.store(&mut interpreter.memory, address)?;
            }
        } else {
            return Err(Error::InvalidInstruction(interpreter.program_counter));
        }

        // Go to next instruction
        interpreter.program_counter = interpreter.program_counter.wrapping_add(Self::size());

        Ok(State::Running)
    }
}

/// The value that load `load_func` gives back at the address where store `store_func` wrote
/// `rs2`, for the loads that read what the store wrote (`lw` after `sw`; `lh`, `lhu` after `sh`;
/// `lb`, `lbu` after `sb`); `None` for other pairs.
pub open spec fn spec_load_back(store_func: u8, load_func: u8, rs2: i32) -> Option<i32> {
    if store_func == LoadStore::SW_FUNC && load_func == LoadStore::LW_FUNC {
        Some(rs2)
    } else if store_func == LoadStore::SH_FUNC && load_func == LoadStore::LH_FUNC {
        Some(rs2 as i16 as i32)
    } else if store_func == LoadStore::SH_FUNC && load_func == LoadStore::LHU_FUNC {
        Some(rs2 as u16 as i32)
    } else if store_func == LoadStore::SB_FUNC && load_func == LoadStore::LB_FUNC {
        Some(rs2 as i8 as i32)
    } else if store_func == LoadStore::SB_FUNC && load_func == LoadStore::LBU_FUNC {
        Some(rs2 as u8 as i32)
    } else {
        None
    }
}

/// The address that a load or store instruction accesses in `s`.
pub open spec fn spec_access_address<V>(s: MachineState<V>, inst: TypeI) -> u32 {
    (s.reg(inst.rs1)->Ok_0 as u32).wrapping_add_signed(inst.imm)
}

/// A store into the RAM of a [`SliceMemory`], then a load at the same address (the same base
/// register, unchanged, and the same offset): the load succeeds and its destination receives the
/// stored value, cut to the stored width and extended as the load says ([`spec_load_back`]).
pub proof fn lemma_store_then_load_instruction(s: MachineState<SliceMemoryView>, store: TypeI, load: TypeI)
    requires
        s.registers.len() == 32,
        spec_load_back(store.funct3, load.funct3, 0) is Some,
        spec_load_store::<SliceMemory>(s, store).1 is Ok,
        spec_load_store::<SliceMemory>(s, store).0.reg(load.rs1) == s.reg(store.rs1),
        load.imm == store.imm,
        spec_access_address(s, store) >= RAM_OFFSET,
        0 < load.rd_rs2 < 32,
    ensures
        spec_load_store::<SliceMemory>(spec_load_store::<SliceMemory>(s, store).0, load).1
            == Ok::<State, Error>(State::Running),
        spec_load_store::<SliceMemory>(spec_load_store::<SliceMemory>(s, store).0, load).0.registers[load.rd_rs2 as int]
            == spec_load_back(store.funct3, load.funct3, s.reg(store.rd_rs2)->Ok_0)->Some_0,
{
    let rs2 = s.reg(store.rd_rs2)->Ok_0;
    let address = spec_access_address(s, store);
    let bytes = spec_store_bytes(store.funct3, rs2);
    let s1 = spec_load_store::<SliceMemory>(s, store).0;
    let n: nat = if store.funct3 == LoadStore::SB_FUNC { 1 } else if store.funct3 == LoadStore::SH_FUNC { 2 } else { 4 };
    let x: u128 = if store.funct3 == LoadStore::SB_FUNC {
        rs2 as u8 as u128
    } else if store.funct3 == LoadStore::SH_FUNC {
        rs2 as u16 as u128
    } else {
        rs2 as u128
    };
    assert(bytes == spec_le_bytes(x, n));
    assert(bytes.len() == n);
    lemma_store_then_load(s.memory, address, bytes);
    lemma_le_value_of_bytes(x, n);
    let b = rs2 as u8 as u128;
    let h = rs2 as u16 as u128;
    let w = rs2 as u128;
    let m = 0xFFFF_FFFF_FFFF_FFFF_FFFF_FFFF_FFFF_FFFFu128;
    assert((b & !(m << 8u128)) as i8 as i32 == rs2 as i8 as i32 && (b & !(m << 8u128)) as u8 as i32
        == rs2 as u8 as i32 && (h & !(m << 16u128)) as i16 as i32 == rs2 as i16 as i32 && (h & !(m
        << 16u128)) as u16 as i32 == rs2 as u16 as i32 && (w & !(m << 32u128)) as i32 == rs2)
        by (bit_vector)
        requires
            b == rs2 as u8 as u128,
            h == rs2 as u16 as u128,
            w == rs2 as u128,
            m == 0xFFFF_FFFF_FFFF_FFFF_FFFF_FFFF_FFFF_FFFFu128,
    ;
}

/// A load or a store accesses `rs1` plus the sign-extended offset, modulo 2^32 (so a negative
/// offset reaches below `rs1`):
/// - a store succeeds exactly when the memory accepts `rs2`'s bytes there, and leaves the
///   memory that store leaves;
/// - a load succeeds exactly when the read there succeeds, and its destination (unless it is
///   `x0`) receives the value read;
/// in both cases the program counter moves to the next instruction.
pub proof fn lemma_load_store_address<M: Memory>(s: MachineState<M::V>, inst: TypeI)
    requires
        s.reg(inst.rs1) is Ok,
        s.reg(inst.rd_rs2) is Ok,
    ensures
        ({
            let address = spec_offset_address(s.reg(inst.rs1)->Ok_0, inst.imm);
            let (s2, r) = spec_load_store::<M>(s, inst);
            &&& is_store(inst.funct3) ==> {
                let stored = M::spec_store(
                    s.memory,
                    address,
                    spec_store_bytes(inst.funct3, s.reg(inst.rd_rs2)->Ok_0),
                );
                &&& r is Ok <==> stored is Ok
                &&& stored is Ok ==> s2 == s.with_memory(stored->Ok_0).advance(4)
            }
            &&& is_load(inst.funct3) ==> {
                let value = spec_load_value::<M>(s.memory, inst.funct3, address);
                &&& r is Ok <==> value is Ok
                &&& value is Ok ==> s2.program_counter == s.program_counter.wrapping_add(4)
                    && s2.memory == s.memory && s2.registers == (if inst.rd_rs2 == 0 {
                    s.registers
                } else {
                    s.registers.update(inst.rd_rs2 as int, value->Ok_0)
                })
            }
        }),
{
    lemma_offset_address(s.reg(inst.rs1)->Ok_0, inst.imm);
}

} // verus!

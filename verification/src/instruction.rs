//! Instruction module.
//!
//! The Embive instruction set that the interpreter executes ([`embive`]), and the RISC-V
//! instructions that the engine executes directly, with their formats ([`format`]).
use vstd::prelude::*;

pub mod amo;
pub mod auipc;
pub mod branch;
pub mod embive;
pub mod format;
pub mod jal;
pub mod jalr;
pub mod load;
pub mod lui;
pub mod misc_mem;
pub mod op;
pub mod op_imm;
pub mod store;
pub mod system;

pub use amo::{spec_riscv_amo, Amo};
pub use auipc::{spec_riscv_auipc, Auipc};
pub use branch::{spec_riscv_branch, Branch};
pub use embive::Instruction;
pub use jal::{spec_riscv_jal, Jal};
pub use jalr::{spec_riscv_jalr, Jalr};
pub use load::{spec_riscv_load, Load};
pub use lui::{spec_riscv_lui, Lui};
pub use misc_mem::{spec_riscv_misc_mem, MiscMem};
pub use op::{spec_riscv_op, Op};
pub use op_imm::{spec_riscv_op_imm, OpImm};
pub use store::{spec_riscv_store, Store};
pub use system::{spec_riscv_system, System};

use crate::engine::{spec_syscall_fn_callable, Engine, EngineState, SYSCALL_ARGS};
use crate::error::Error;
use crate::interpreter::machine::MachineState;
use crate::interpreter::memory::Memory;
use format::{TypeB, TypeI, TypeJ, TypeR, TypeS, TypeU};

verus! {

/// Size of a RISC-V instruction, in bytes.
pub const INSTRUCTION_SIZE: u32 = 4;

/// `lui` opcode.
pub const LUI_OPCODE: u32 = 0b011_0111;
/// `auipc` opcode.
pub const AUIPC_OPCODE: u32 = 0b001_0111;
/// `jal` opcode.
pub const JAL_OPCODE: u32 = 0b110_1111;
/// `jalr` opcode.
pub const JALR_OPCODE: u32 = 0b110_0111;
/// Branch opcode.
pub const BRANCH_OPCODE: u32 = 0b110_0011;
/// Load opcode.
pub const LOAD_OPCODE: u32 = 0b000_0011;
/// Store opcode.
pub const STORE_OPCODE: u32 = 0b010_0011;
/// Operation with an immediate opcode.
pub const OP_IMM_OPCODE: u32 = 0b001_0011;
/// Register operation opcode.
pub const OP_OPCODE: u32 = 0b011_0011;
/// Memory ordering opcode.
pub const MISC_MEM_OPCODE: u32 = 0b000_1111;
/// System opcode.
pub const SYSTEM_OPCODE: u32 = 0b111_0011;
/// Atomic memory operation opcode.
pub const AMO_OPCODE: u32 = 0b010_1111;

/// Decoding a raw RISC-V word and executing it: the low seven bits (the opcode) pick the
/// instruction. `None` stands for a system call through the syscall function, whose outcome is
/// up to the function.
pub open spec fn spec_engine_decode_execute<M: Memory>(s: MachineState<M::V>, inst: u32, has_syscall_fn: bool) -> Option<
    (MachineState<M::V>, Result<EngineState, Error>),
> {
    let opcode = inst & 0x7F;
    if opcode == LUI_OPCODE {
        Some(spec_riscv_lui(s, TypeU::spec_from_word(inst)))
    } else if opcode == AUIPC_OPCODE {
        Some(spec_riscv_auipc(s, TypeU::spec_from_word(inst)))
    } else if opcode == JAL_OPCODE {
        Some(spec_riscv_jal(s, TypeJ::spec_from_word(inst)))
    } else if opcode == JALR_OPCODE {
        Some(spec_riscv_jalr(s, TypeI::spec_from_word(inst)))
    } else if opcode == BRANCH_OPCODE {
        Some(spec_riscv_branch(s, TypeB::spec_from_word(inst)))
    } else if opcode == LOAD_OPCODE {
        Some(spec_riscv_load::<M>(s, TypeI::spec_from_word(inst)))
    } else if opcode == STORE_OPCODE {
        Some(spec_riscv_store::<M>(s, TypeS::spec_from_word(inst)))
    } else if opcode == OP_IMM_OPCODE {
        Some(spec_riscv_op_imm(s, TypeI::spec_from_word(inst)))
    } else if opcode == OP_OPCODE {
        Some(spec_riscv_op(s, TypeR::spec_from_word(inst)))
    } else if opcode == MISC_MEM_OPCODE {
        Some(spec_riscv_misc_mem(s))
    } else if opcode == SYSTEM_OPCODE {
        spec_riscv_system(s, TypeI::spec_from_word(inst), has_syscall_fn)
    } else if opcode == AMO_OPCODE {
        Some(spec_riscv_amo::<M>(s, TypeR::spec_from_word(inst)))
    } else {
        Some((s, Err(Error::InvalidInstruction)))
    }
}

/// Decode and execute a RISC-V instruction.
///
/// Arguments:
/// - `engine`: The engine.
/// - `data`: The raw instruction.
///
/// Returns:
/// - `Ok(EngineState)`: The instruction was decoded and executed successfully.
/// - `Err(Error)`: Failed to decode or execute instruction.
pub fn decode_execute<M: Memory, F>(engine: &mut Engine<M, F>, data: u32) -> (r: Result<EngineState, Error>)
    where
        F: Fn(i32, &[i32; SYSCALL_ARGS], &mut M) -> Result<i32, i32>,
    requires
        spec_syscall_fn_callable::<M, F>(old(engine).config),
    ensures
        final(engine).config == old(engine).config,
        match spec_engine_decode_execute::<M>(old(engine)@, data, old(engine).config.syscall_fn is Some) {
            Some((s, result)) => final(engine)@ == s && r == result,
            None => r == Ok::<EngineState, Error>(EngineState::Running) && (old(engine).config.syscall_fn matches Some(f)
                && crate::engine::spec_ecall_outcome::<M, F>(f, old(engine)@, final(engine)@) && exists|
                    args: [i32; SYSCALL_ARGS],
                    memory: &mut M,
                    answer: Result<i32, i32>,
                |
                    #![trigger call_ensures(f, (old(engine)@.registers[17], &args, memory), answer)]
                    args@ == old(engine)@.registers.subrange(10, 17) && memory@ == old(engine)@.memory
                        && final(memory)@ == final(engine)@.memory && call_ensures(
                        f,
                        (old(engine)@.registers[17], &args, memory),
                        answer,
                    ) && final(engine)@ == crate::engine::spec_after_syscall(
                        old(engine)@,
                        answer,
                        final(engine)@.memory,
                    ).advance(4)),
        },
{
    let opcode = data & 0x7F;
    if opcode == LUI_OPCODE {
        Lui::decode_execute(data, engine)
    } else if opcode == AUIPC_OPCODE {
        Auipc::decode_execute(data, engine)
    } else if opcode == JAL_OPCODE {
        Jal::decode_execute(data, engine)
    } else if opcode == JALR_OPCODE {
        Jalr::decode_execute(data, engine)
    } else if opcode == BRANCH_OPCODE {
        Branch::decode_execute(data, engine)
    } else if opcode == LOAD_OPCODE {
        Load::decode_execute(data, engine)
    } else if opcode == STORE_OPCODE {
        Store::decode_execute(data, engine)
    } else if opcode == OP_IMM_OPCODE {
        OpImm::decode_execute(data, engine)
    } else if opcode == OP_OPCODE {
        Op::decode_execute(data, engine)
    } else if opcode == MISC_MEM_OPCODE {
        MiscMem::decode_execute(data, engine)
    } else if opcode == SYSTEM_OPCODE {
        System::decode_execute(data, engine)
    } else if opcode == AMO_OPCODE {
        Amo::decode_execute(data, engine)
    } else {
        Err(Error::InvalidInstruction)
    }
}

} // verus!

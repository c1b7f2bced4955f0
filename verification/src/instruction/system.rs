//! System instructions (`ecall`, `ebreak`, `wfi`, `mret`) and control and status register instructions
//! (`csrrw`, `csrrs`, `csrrc`, `csrrwi`, `csrrsi`, `csrrci`), run by the engine.
use vstd::prelude::*;

use super::format::TypeI;
use super::INSTRUCTION_SIZE;
use crate::engine::{
    spec_after_syscall, spec_ecall_outcome, spec_reg, spec_syscall_fn_callable, Engine, EngineState,
    SYSCALL_ARGS,
};
use crate::error::{spec_from_interpreter_error, Error};
use crate::interpreter::machine::MachineState;
use crate::interpreter::memory::Memory;
use crate::interpreter::registers::{CSOperation, CPU_REGISTER_COUNT};

verus! {

/// `ecall` immediate.
pub const ECALL_IMM: i32 = 0x0000;
/// `ebreak` immediate.
pub const EBREAK_IMM: i32 = 0x0001;
/// `wfi` immediate.
pub const WFI_IMM: i32 = 0x0105;
/// `mret` immediate.
pub const MRET_IMM: i32 = 0x0302;

/// `ecall` / `ebreak` function code.
pub const EBREAK_ECALL_FUNCT3: u8 = 0b000;
/// `csrrw` function code.
pub const CSRRW_FUNCT3: u8 = 0b001;
/// `csrrs` function code.
pub const CSRRS_FUNCT3: u8 = 0b010;
/// `csrrc` function code.
pub const CSRRC_FUNCT3: u8 = 0b011;
/// `csrrwi` function code.
pub const CSRRWI_FUNCT3: u8 = 0b101;
/// `csrrsi` function code.
pub const CSRRSI_FUNCT3: u8 = 0b110;
/// `csrrci` function code.
pub const CSRRCI_FUNCT3: u8 = 0b111;

/// The operation that a control and status register instruction asks for: a write, or a set or
/// clear of bits, of `rs1` or (for the immediate forms) of the field `rs1` itself; setting or
/// clearing with `x0` / zero only reads. An unknown instruction, or a register that does not
/// exist, is an error.
pub open spec fn spec_riscv_cs_operation<V>(s: MachineState<V>, inst: TypeI) -> Result<Option<CSOperation>, Error> {
    let funct3 = inst.funct3;
    if funct3 == CSRRW_FUNCT3 {
        match spec_reg(s, inst.rs1) {
            Ok(rs1) => Ok(Some(CSOperation::Write(rs1 as u32))),
            Err(e) => Err(e),
        }
    } else if funct3 == CSRRS_FUNCT3 || funct3 == CSRRC_FUNCT3 {
        if inst.rs1 == 0 {
            Ok(None)
        } else {
            match spec_reg(s, inst.rs1) {
                Ok(rs1) => Ok(
                    Some(
                        if funct3 == CSRRS_FUNCT3 {
                            CSOperation::SetBits(rs1 as u32)
                        } else {
                            CSOperation::ClearBits(rs1 as u32)
                        },
                    ),
                ),
                Err(e) => Err(e),
            }
        }
    } else if funct3 == CSRRWI_FUNCT3 {
        Ok(Some(CSOperation::Write(inst.rs1 as u32)))
    } else if funct3 == CSRRSI_FUNCT3 {
        Ok(if inst.rs1 == 0 { None } else { Some(CSOperation::SetBits(inst.rs1 as u32)) })
    } else if funct3 == CSRRCI_FUNCT3 {
        Ok(if inst.rs1 == 0 { None } else { Some(CSOperation::ClearBits(inst.rs1 as u32)) })
    } else {
        Err(Error::InvalidInstruction)
    }
}

/// Executing a system or control and status register instruction, except a system call made
/// through a syscall function (`None`: its outcome is up to the function, see
/// [`spec_ecall_outcome`]).
///
/// - `ecall` with no syscall function fails with [`Error::NoSyscallFunction`], `ebreak` halts
///   and `wfi` waits for an interrupt, each after moving to the next instruction; `mret`
///   returns from a trap to the address in `mepc`;
/// - a control and status register instruction applies its operation to the register that the
///   low 12 bits of the immediate name, writes the value it held to the destination unless
///   that is `x0`, and goes to the next instruction.
pub open spec fn spec_riscv_system<V>(s: MachineState<V>, inst: TypeI, has_syscall_fn: bool) -> Option<
    (MachineState<V>, Result<EngineState, Error>),
> {
    if inst.funct3 == EBREAK_ECALL_FUNCT3 {
        if inst.imm == ECALL_IMM {
            if has_syscall_fn {
                None
            } else {
                Some((s.advance(4), Err(Error::NoSyscallFunction)))
            }
        } else if inst.imm == EBREAK_IMM {
            Some((s.advance(4), Ok(EngineState::Halted)))
        } else if inst.imm == WFI_IMM {
            Some((s.advance(4), Ok(EngineState::Waiting)))
        } else if inst.imm == MRET_IMM {
            Some(
                (
                    MachineState {
                        control_status: s.control_status.spec_trap_return(),
                        program_counter: s.control_status.spec_trap_return_target(),
                        ..s
                    },
                    Ok(EngineState::Running),
                ),
            )
        } else {
            Some((s, Err(Error::InvalidInstruction)))
        }
    } else {
        match spec_riscv_cs_operation(s, inst) {
            Err(e) => Some((s, Err(e))),
            Ok(op) => {
                let addr = (inst.imm & 0xFFF) as u16;
                match s.control_status.spec_read(addr) {
                    Err(e) => Some((s, Err(spec_from_interpreter_error(e)))),
                    Ok(value) => {
                        let s1 = MachineState {
                            control_status: s.control_status.spec_write(op, addr),
                            ..s
                        };
                        if inst.rd == 0 {
                            Some((s1.advance(4), Ok(EngineState::Running)))
                        } else if inst.rd < CPU_REGISTER_COUNT {
                            Some(
                                (
                                    MachineState {
                                        registers: s1.registers.update(inst.rd as int, value as i32),
                                        ..s1
                                    }.advance(4),
                                    Ok(EngineState::Running),
                                ),
                            )
                        } else {
                            Some((s1, Err(Error::InvalidCPURegister)))
                        }
                    },
                }
            },
        }
    }
}

/// System OpCode
/// Format: I-Type.
/// Action: Syscall, Halt, control and status register operations.
pub struct System {}

impl System {
    /// The control and status register operation that the instruction asks for.
    fn cs_operation<M: Memory, F>(engine: &Engine<M, F>, inst: TypeI) -> (r: Result<Option<CSOperation>, Error>)
        ensures
            r == spec_riscv_cs_operation(engine@, inst),
    {
        let funct3 = inst.funct3;
        if funct3 == CSRRW_FUNCT3 {
            Ok(Some(CSOperation::Write(engine.reg(inst.rs1)? as u32)))
        } else if funct3 == CSRRS_FUNCT3 {
            if inst.rs1 != 0 {
                Ok(Some(CSOperation::SetBits(engine.reg(inst.rs1)? as u32)))
            } else {
                Ok(None)
            }
        } else if funct3 == CSRRC_FUNCT3 {
            if inst.rs1 != 0 {
                Ok(Some(CSOperation::ClearBits(engine.reg(inst.rs1)? as u32)))
            } else {
                Ok(None)
            }
        } else if funct3 == CSRRWI_FUNCT3 {
            Ok(Some(CSOperation::Write(inst.rs1 as u32)))
        } else if funct3 == CSRRSI_FUNCT3 {
            if inst.rs1 != 0 {
                Ok(Some(CSOperation::SetBits(inst.rs1 as u32)))
            } else {
                Ok(None)
            }
        } else if funct3 == CSRRCI_FUNCT3 {
            if inst.rs1 != 0 {
                Ok(Some(CSOperation::ClearBits(inst.rs1 as u32)))
            } else {
                Ok(None)
            }
        } else {
            Err(Error::InvalidInstruction)
        }
    }

    /// Decode and execute the instruction.
    ///
    /// Returns:
    /// - `Ok(EngineState)`: The state of the engine after the instruction.
    /// - `Err(Error)`: Failed to execute.
    #[inline(always)]
    pub fn decode_execute<M: Memory, F>(data: u32, engine: &mut Engine<M, F>) -> (r: Result<EngineState, Error>)
        where
            F: Fn(i32, &[i32; SYSCALL_ARGS], &mut M) -> Result<i32, i32>,
        requires
            spec_syscall_fn_callable::<M, F>(old(engine).config),
        ensures
            final(engine).config == old(engine).config,
            match spec_riscv_system(
                old(engine)@,
                TypeI::spec_from_word(data),
                old(engine).config.syscall_fn is Some,
            ) {
                Some((s, result)) => final(engine)@ == s && r == result,
                None => r == Ok::<EngineState, Error>(EngineState::Running) && (old(engine).config.syscall_fn matches Some(f)
                && spec_ecall_outcome::<M, F>(f, old(engine)@, final(engine)@) && exists|
                    args: [i32; SYSCALL_ARGS],
                    memory: &mut M,
                    answer: Result<i32, i32>,
                |
                    #![trigger call_ensures(f, (old(engine)@.registers[17], &args, memory), answer)]
                    args@ == old(engine)@.registers.subrange(10, 17) && memory@ == old(engine)@.memory
                        && final(memory)@ == final(engine)@.memory && call_ensures(
                        f,
                        (old(engine)@.registers[17], &args, memory),
                        answer,
                    ) && final(engine)@ == spec_after_syscall(old(engine)@, answer, final(engine)@.memory).advance(4)),
            },
    {
        let inst = TypeI::from(data);

        let ret = if inst.funct3 == EBREAK_ECALL_FUNCT3 {
            if inst.imm == ECALL_IMM {
                // Execute the syscall function (ecall)
                let ghost before = engine@;
                let called = engine.syscall();
                proof {
                    if called is Ok {
                        assert(MachineState { program_counter: before.program_counter, ..engine@.advance(4) }
                            == engine@);
                    }
                }
                match called {
                    Ok(()) => Ok(EngineState::Running),
                    Err(e) => Err(e),
                }
            } else if inst.imm == EBREAK_IMM {
                // Halt the execution (ebreak)
                Ok(EngineState::Halted)
            } else if inst.imm == WFI_IMM {
                // Wait for interrupt (wfi)
                Ok(EngineState::Waiting)
            } else if inst.imm == MRET_IMM {
                // Return from machine-mode trap (the program counter is not incremented)
                engine.program_counter = engine.registers.control_status.trap_return();
                return Ok(EngineState::Running);
            } else {
                return Err(Error::InvalidInstruction);
            }
        } else {
            let op = Self::cs_operation(engine, inst)?;

            let res = match engine.registers.control_status.operation(
                op,
                (inst.imm & 0b1111_1111_1111) as u16,
            ) {
                Ok(res) => res,
                Err(e) => return Err(Error::from(e)),
            };

            if inst.rd != 0 {
                engine.set_reg(inst.rd, res as i32)?;
            }

            Ok(EngineState::Running)
        };

        // Go to next instruction
        engine.program_counter = engine.program_counter.wrapping_add(INSTRUCTION_SIZE);

        ret
    }
}

} // verus!

//! System, control and status register, and memory ordering instructions.
use vstd::prelude::*;

use crate::format::TypeI;
use crate::instruction::embive::{InstructionImpl, SystemMiscMem};
use crate::interpreter::machine::MachineState;
use crate::interpreter::memory::Memory;
use crate::interpreter::registers::CSOperation;
use crate::interpreter::{Error, Interpreter, State};

verus! {

/// Executing a system instruction (operation [`SystemMiscMem::MISC_FUNC`], picked by the
/// immediate): `ecall` reports a system call, `ebreak` halts, `fence.i` does nothing and `wfi`
/// waits for an interrupt, each after moving to the next instruction; `mret` returns from a trap
/// to the address in `mepc`.
pub open spec fn spec_system<V>(s: MachineState<V>, imm: i32) -> (MachineState<V>, Result<State, Error>) {
    if imm == SystemMiscMem::ECALL_IMM {
        (s.advance(4), Ok(State::Called))
    } else if imm == SystemMiscMem::EBREAK_IMM {
        (s.advance(4), Ok(State::Halted))
    } else if imm == SystemMiscMem::FENCEI_IMM {
        (s.advance(4), Ok(State::Running))
    } else if imm == SystemMiscMem::WFI_IMM {
        (s.advance(4), Ok(State::Waiting))
    } else if imm == SystemMiscMem::MRET_IMM {
        (
            MachineState {
                control_status: s.control_status.spec_trap_return(),
                program_counter: s.control_status.spec_trap_return_target(),
                ..s
            },
            Ok(State::Running),
        )
    } else {
        (s, Err(Error::InvalidInstruction(s.program_counter)))
    }
}

/// The operation that a control and status register instruction asks for: a write, or a set or
/// clear of bits, of `rs1` or (for the immediate forms) of the field `rs1` itself; setting or
/// clearing with `x0` / zero only reads. An unknown instruction, or a register that does not
/// exist, is an error.
pub open spec fn spec_cs_operation<V>(s: MachineState<V>, inst: TypeI) -> Result<Option<CSOperation>, Error> {
    let func = inst.funct3;
    if func == SystemMiscMem::CSRRW_FUNC {
        match s.reg(inst.rs1) {
            Ok(rs1) => Ok(Some(CSOperation::Write(rs1 as u32))),
            Err(e) => Err(e),
        }
    } else if func == SystemMiscMem::CSRRS_FUNC || func == SystemMiscMem::CSRRC_FUNC {
        if inst.rs1 == 0 {
            Ok(None)
        } else {
            match s.reg(inst.rs1) {
                Ok(rs1) => Ok(
                    Some(
                        if func == SystemMiscMem::CSRRS_FUNC {
                            CSOperation::SetBits(rs1 as u32)
                        } else {
                            CSOperation::ClearBits(rs1 as u32)
                        },
                    ),
                ),
                Err(e) => Err(e),
            }
        }
    } else if func == SystemMiscMem::CSRRWI_FUNC {
        Ok(Some(CSOperation::Write(inst.rs1 as u32)))
    } else if func == SystemMiscMem::CSRRSI_FUNC {
        Ok(if inst.rs1 == 0 { None } else { Some(CSOperation::SetBits(inst.rs1 as u32)) })
    } else if func == SystemMiscMem::CSRRCI_FUNC {
        Ok(if inst.rs1 == 0 { None } else { Some(CSOperation::ClearBits(inst.rs1 as u32)) })
    } else {
        Err(Error::InvalidInstruction(s.program_counter))
    }
}

/// Executing a system, control and status register or memory ordering instruction. A control
/// and status register instruction applies its operation to the register that the low 12 bits of
/// the immediate name, writes the value it held to the destination unless that is `x0`, and goes
/// to the next instruction.
pub open spec fn spec_system_misc_mem<V>(s: MachineState<V>, inst: TypeI) -> (
    MachineState<V>,
    Result<State, Error>,
) {
    if inst.funct3 == SystemMiscMem::MISC_FUNC {
        spec_system(s, inst.imm)
    } else {
        match spec_cs_operation(s, inst) {
            Err(e) => (s, Err(e)),
            Ok(op) => {
                let addr = (inst.imm & 0xFFF) as u16;
                match s.control_status.spec_read(addr) {
                    Err(e) => (s, Err(e)),
                    Ok(value) => {
                        let s1 = MachineState {
                            control_status: s.control_status.spec_write(op, addr),
                            ..s
                        };
                        if inst.rd_rs2 == 0 {
                            (s1.advance(4), Ok(State::Running))
                        } else {
                            match s1.set_reg(inst.rd_rs2, value as i32) {
                                Err(e) => (s1, Err(e)),
                                Ok(s2) => (s2.advance(4), Ok(State::Running)),
                            }
                        }
                    },
                }
            },
        }
    }
}

impl SystemMiscMem {
    /// The control and status register operation that the instruction asks for.
    fn cs_operation<M: Memory>(&self, interpreter: &Interpreter<M>) -> (r: Result<Option<CSOperation>, Error>)
        ensures
            r == spec_cs_operation(interpreter@, self.0),
    {
        let func = self.0.funct3;
        if func == Self::CSRRW_FUNC {
            Ok(Some(CSOperation::Write(interpreter.registers.cpu.get(self.0.rs1)? as u32)))
        } else if func == Self::CSRRS_FUNC {
            if self.0.rs1 != 0 {
                Ok(Some(CSOperation::SetBits(interpreter.registers.cpu.get(self.0.rs1)? as u32)))
            } else {
                Ok(None)
            }
        } else if func == Self::CSRRC_FUNC {
            if self.0.rs1 != 0 {
                Ok(Some(CSOperation::ClearBits(interpreter.registers.cpu.get(self.0.rs1)? as u32)))
            } else {
                Ok(None)
            }
        } else if func == Self::CSRRWI_FUNC {
            Ok(Some(CSOperation::Write(self.0.rs1 as u32)))
        } else if func == Self::CSRRSI_FUNC {
            if self.0.rs1 != 0 {
                Ok(Some(CSOperation::SetBits(self.0.rs1 as u32)))
            } else {
                Ok(None)
            }
        } else if func == Self::CSRRCI_FUNC {
            if self.0.rs1 != 0 {
                Ok(Some(CSOperation::ClearBits(self.0.rs1 as u32)))
            } else {
                Ok(None)
            }
        } else {
            Err(Error::InvalidInstruction(interpreter.program_counter))
        }
    }

    /// Execute the instruction.
    ///
    /// Returns:
    /// - `Ok(State)`: Instruction executed successfully.
    /// - `Err(Error)`: Failed to execute instruction.
    #[inline(always)]
    pub fn execute<M: Memory>(&self, interpreter: &mut Interpreter<M>) -> (r: Result<State, Error>)
        ensures
            final(interpreter)@ == spec_system_misc_mem(old(interpreter)@, self.0).0,
            r == spec_system_misc_mem(old(interpreter)@, self.0).1,
    {
        let ret = if self.0.funct3 == Self::MISC_FUNC {
            let imm = self.0.imm;
            if imm == Self::ECALL_IMM {
                // Syscall (ecall)
                State::Called
            } else if imm == Self::EBREAK_IMM {
                // Halt the execution (ebreak)
                State::Halted
            } else if imm == Self::FENCEI_IMM {
                // Fencing isn't applicable to this implementation. This is a nop.
                State::Running
            } else if imm == Self::WFI_IMM {
                // Wait for interrupt (wfi)
                State::Waiting
            } else if imm == Self::MRET_IMM {
                // Return from machine-mode trap
                interpreter.program_counter = interpreter.registers.control_status.trap_return();
                // Do not increment the program counter
                return Ok(State::Running);
            } else {
                return Err(Error::InvalidInstruction(interpreter.program_counter));
            }
        } else {
            let op = self.cs_operation(interpreter)?;

            let res = interpreter.registers.control_status.operation(
                op,
                (self.0.imm & 0b1111_1111_1111) as u16,
            )?;

            if self.0.rd_rs2 != 0 {
                interpreter.registers.cpu.set(self.0.rd_rs2, res as i32)?;
            }

            State::Running
        };

        // Go to next instruction
        interpreter.program_counter = interpreter.program_counter.wrapping_add(Self::size());

        Ok(ret)
    }
}

} // verus!

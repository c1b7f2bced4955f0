//! Error Module
//!
//! The errors of the [`crate::engine::Engine`], which runs RISC-V code directly.
use vstd::prelude::*;

use crate::interpreter::Error as InterpreterError;

verus! {

/// Embive Error
#[derive(Debug, PartialEq, Clone, Copy)]
pub enum Error {
    /// Memory address is out of bounds.
    InvalidMemoryAddress,
    /// Program counter is out of bounds.
    InvalidProgramCounter,
    /// Instruction is not implemented.
    InvalidInstruction,
    /// CPU Register is out of bounds.
    InvalidCPURegister,
    /// Control and Status Register is invalid or not supported.
    InvalidCSRegister,
    /// Interrupt not enabled by interpreted code (CSR `mie` bit [`crate::engine::EMBIVE_INTERRUPT_CODE`]).
    InterruptNotEnabled,
    /// No syscall function is set.
    NoSyscallFunction,
    /// Custom error.
    Custom(&'static str),
}

/// The engine's error for an error of the memory or the registers it shares with the
/// interpreter: the same kind, without the detail.
pub open spec fn spec_from_interpreter_error(e: InterpreterError) -> Error {
    match e {
        InterpreterError::InvalidMemoryAddress(_) => Error::InvalidMemoryAddress,
        InterpreterError::InvalidMemoryAccessLength(_) => Error::InvalidMemoryAddress,
        InterpreterError::InvalidProgramCounter(_) => Error::InvalidProgramCounter,
        InterpreterError::InvalidInstruction(_) => Error::InvalidInstruction,
        InterpreterError::InvalidCSRegister(_) => Error::InvalidCSRegister,
        InterpreterError::InvalidCPURegister(_) => Error::InvalidCPURegister,
        InterpreterError::IllegalInstruction(_) => Error::InvalidInstruction,
        InterpreterError::InterruptNotEnabled => Error::InterruptNotEnabled,
        InterpreterError::NoSyscallFunction => Error::NoSyscallFunction,
        InterpreterError::Custom(s) => Error::Custom(s),
    }
}

impl From<InterpreterError> for Error {
    fn from(e: InterpreterError) -> (r: Error) {
        match e {
            InterpreterError::InvalidMemoryAddress(_) => Error::InvalidMemoryAddress,
            InterpreterError::InvalidMemoryAccessLength(_) => Error::InvalidMemoryAddress,
            InterpreterError::InvalidProgramCounter(_) => Error::InvalidProgramCounter,
            InterpreterError::InvalidInstruction(_) => Error::InvalidInstruction,
            InterpreterError::InvalidCSRegister(_) => Error::InvalidCSRegister,
            InterpreterError::InvalidCPURegister(_) => Error::InvalidCPURegister,
            InterpreterError::IllegalInstruction(_) => Error::InvalidInstruction,
            InterpreterError::InterruptNotEnabled => Error::InterruptNotEnabled,
            InterpreterError::NoSyscallFunction => Error::NoSyscallFunction,
            InterpreterError::Custom(s) => Error::Custom(s),
        }
    }
}

impl vstd::std_specs::convert::FromSpecImpl<InterpreterError> for Error {
    open spec fn obeys_from_spec() -> bool {
        true
    }

    open spec fn from_spec(e: InterpreterError) -> Error {
        spec_from_interpreter_error(e)
    }
}

} // verus!

//! Embive Engine Config
use vstd::prelude::*;

verus! {

/// Embive Engine Configuration Struct
///
/// `F` is the type of the system call function (see [`super::syscall`]).
#[derive(Debug, PartialEq, Clone, Copy)]
#[non_exhaustive]
pub struct Config<F> {
    /// System call function (Called by `ecall` instruction).
    pub syscall_fn: Option<F>,
    /// Instruction limit. Yield when the limit is reached (0 = No limit).
    pub instruction_limit: u32,
}

impl<F> Config<F> {
    /// Set the system call function and return the configuration.
    ///
    /// Arguments:
    /// - `syscall_fn`: Optional system call function.
    pub fn with_syscall_fn(self, syscall_fn: Option<F>) -> (r: Self)
        ensures
            r.syscall_fn == syscall_fn,
            r.instruction_limit == self.instruction_limit,
    {
        Config { syscall_fn, instruction_limit: self.instruction_limit }
    }

    /// Set the instruction limit and return the configuration.
    ///
    /// Arguments:
    /// - `instruction_limit`: Instruction limit (0 = No limit).
    pub fn with_instruction_limit(self, instruction_limit: u32) -> (r: Self)
        ensures
            r.syscall_fn == self.syscall_fn,
            r.instruction_limit == instruction_limit,
    {
        Config { syscall_fn: self.syscall_fn, instruction_limit }
    }
}

impl<F> Default for Config<F> {
    fn default() -> (r: Self)
        ensures
            r.syscall_fn is None,
            r.instruction_limit == 0,
    {
        Config { syscall_fn: None, instruction_limit: 0 }
    }
}

} // verus!

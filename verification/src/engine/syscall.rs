//! Embive Engine System Call
//!
//! A system call function is called by the `ecall` instruction.
//! The following registers are used:
//! - `a7`: Syscall number.
//! - `a0` to `a6`: Arguments.
//! - `a0`: Return error code.
//! - `a1`: Return value.
//!
//! It takes the syscall number (`a7`), the arguments (`a0` to `a6`) and the system memory, and
//! returns `Ok(value)` (the value goes to `a1`, `a0` is cleared) or `Err(code)` (the nonzero
//! error code goes to `a0`, `a1` is cleared).
use vstd::prelude::*;

verus! {

/// Number of syscall arguments
pub const SYSCALL_ARGS: usize = 7;

} // verus!

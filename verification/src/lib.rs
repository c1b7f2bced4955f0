//! Embive: a RISC-V interpreter with its own compact instruction encoding.
use vstd::prelude::*;

pub mod engine;
pub mod error;
pub mod format;
pub mod instruction;
pub mod interpreter;

verus! {
} // verus!

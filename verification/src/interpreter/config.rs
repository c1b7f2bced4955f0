//! Embive Interpreter Config
use vstd::prelude::*;

verus! {

/// Embive Interpreter Configuration Struct
#[derive(Debug, PartialEq, Clone, Copy)]
#[non_exhaustive]
pub struct Config {
    /// Instruction limit. Yield the interpreter when the limit is reached (0 = No limit).
    pub instruction_limit: u32,
}

impl Config {
    /// Set the instruction limit and return the configuration.
    /// Yield the interpreter when the limit is reached (0 = No limit).
    ///
    /// Arguments:
    /// - `instruction_limit`: Instruction limit.
    pub fn with_instruction_limit(self, instruction_limit: u32) -> (r: Self)
        ensures
            r == (Config { instruction_limit, ..self }),
    {
        let mut config = self;
        config.instruction_limit = instruction_limit;
        config
    }
}

impl Default for Config {
    fn default() -> (r: Self)
        ensures
            r.instruction_limit == 0,
    {
        Config { instruction_limit: 0 }
    }
}

} // verus!

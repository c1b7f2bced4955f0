//! Memory ordering instructions (`fence`, `fence.i`), run by the engine.
use vstd::prelude::*;

use super::format::TypeI;
use super::INSTRUCTION_SIZE;
use crate::engine::{Engine, EngineState};
use crate::error::Error;
use crate::interpreter::machine::MachineState;
use crate::interpreter::memory::Memory;

verus! {

/// Executing a memory ordering instruction: memory accesses are never reordered here, so it
/// only goes to the next instruction.
pub open spec fn spec_riscv_misc_mem<V>(s: MachineState<V>) -> (MachineState<V>, Result<EngineState, Error>) {
    (s.advance(4), Ok(EngineState::Running))
}

/// Miscellaneous Memory OpCode
/// Format: I-Type.
/// Action: Nothing
pub struct MiscMem {}

impl MiscMem {
    /// Decode and execute the instruction.
    ///
    /// Returns:
    /// - `Ok(EngineState)`: The state of the engine after the instruction.
    /// - `Err(Error)`: Failed to execute.
    #[inline(always)]
    pub fn decode_execute<M: Memory, F>(data: u32, engine: &mut Engine<M, F>) -> (r: Result<EngineState, Error>)
        ensures
            final(engine).config == old(engine).config,
            final(engine)@ == spec_riscv_misc_mem(old(engine)@).0,
            r == spec_riscv_misc_mem(old(engine)@).1,
    {
        let _inst = TypeI::from(data);

        // Go to next instruction
        engine.program_counter = engine.program_counter.wrapping_add(INSTRUCTION_SIZE);

        // Continue execution
        Ok(EngineState::Running)
    }
}

} // verus!

//! Add Upper Immediate to Program Counter (`auipc`), run by the engine.
use vstd::prelude::*;

use super::format::TypeU;
use super::INSTRUCTION_SIZE;
use crate::engine::{write_and_advance, Engine, EngineState};
use crate::error::Error;
use crate::interpreter::machine::MachineState;
use crate::interpreter::memory::Memory;

verus! {

/// Executing `auipc`: unless the destination is `x0` (a hint), it receives the program counter
/// plus the immediate; go to the next instruction.
pub open spec fn spec_riscv_auipc<V>(s: MachineState<V>, inst: TypeU) -> (MachineState<V>, Result<EngineState, Error>) {
    if inst.rd == 0 {
        (s.advance(4), Ok(EngineState::Running))
    } else {
        write_and_advance(s, inst.rd, s.pc_offset(inst.imm) as i32)
    }
}

/// Add Upper Immediate to Program Counter OpCode
/// Format: U-Type.
/// Action: rd = PC + imm
pub struct Auipc {}

impl Auipc {
    /// Decode and execute the instruction.
    ///
    /// Returns:
    /// - `Ok(EngineState)`: The state of the engine after the instruction.
    /// - `Err(Error)`: Failed to execute.
    #[inline(always)]
    pub fn decode_execute<M: Memory, F>(data: u32, engine: &mut Engine<M, F>) -> (r: Result<EngineState, Error>)
        ensures
            final(engine).config == old(engine).config,
            final(engine)@ == spec_riscv_auipc(old(engine)@, TypeU::spec_from_word(data)).0,
            r == spec_riscv_auipc(old(engine)@, TypeU::spec_from_word(data)).1,
    {
        let inst = TypeU::from(data);

        if inst.rd != 0 {
            // Load the immediate value + pc into the register.
            let value = engine.program_counter.wrapping_add_signed(inst.imm) as i32;
            engine.set_reg(inst.rd, value)?;
        }

        // Go to next instruction
        engine.program_counter = engine.program_counter.wrapping_add(INSTRUCTION_SIZE);

        // Continue execution
        Ok(EngineState::Running)
    }
}

} // verus!

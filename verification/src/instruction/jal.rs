//! Jump And Link (`jal`), run by the engine.
use vstd::prelude::*;

use super::format::TypeJ;
use super::INSTRUCTION_SIZE;
use crate::engine::{Engine, EngineState};
use crate::error::Error;
use crate::interpreter::machine::MachineState;
use crate::interpreter::memory::Memory;
use crate::interpreter::registers::CPU_REGISTER_COUNT;

verus! {

/// Executing `jal`: unless the destination is `x0`, it receives the address of the next
/// instruction; the program counter moves by the immediate.
pub open spec fn spec_riscv_jal<V>(s: MachineState<V>, inst: TypeJ) -> (MachineState<V>, Result<EngineState, Error>) {
    if inst.rd == 0 {
        (s.jump(s.pc_offset(inst.imm)), Ok(EngineState::Running))
    } else if inst.rd < CPU_REGISTER_COUNT {
        (
            MachineState { registers: s.registers.update(inst.rd as int, s.link(4)), ..s }.jump(
                s.pc_offset(inst.imm),
            ),
            Ok(EngineState::Running),
        )
    } else {
        (s, Err(Error::InvalidCPURegister))
    }
}

/// Jump And Link OpCode
/// Format: J-Type.
/// Action: rd = PC + 4; PC += imm
pub struct Jal {}

impl Jal {
    /// Decode and execute the instruction.
    ///
    /// Returns:
    /// - `Ok(EngineState)`: The state of the engine after the instruction.
    /// - `Err(Error)`: Failed to execute.
    #[inline(always)]
    pub fn decode_execute<M: Memory, F>(data: u32, engine: &mut Engine<M, F>) -> (r: Result<EngineState, Error>)
        ensures
            final(engine).config == old(engine).config,
            final(engine)@ == spec_riscv_jal(old(engine)@, TypeJ::spec_from_word(data)).0,
            r == spec_riscv_jal(old(engine)@, TypeJ::spec_from_word(data)).1,
    {
        let inst = TypeJ::from(data);

        // Load pc + instruction size into the destination register.
        if inst.rd != 0 {
            let link = engine.program_counter.wrapping_add(INSTRUCTION_SIZE) as i32;
            engine.set_reg(inst.rd, link)?;
        }

        // Set the program counter to the new address.
        engine.program_counter = engine.program_counter.wrapping_add_signed(inst.imm);

        // Continue execution
        Ok(EngineState::Running)
    }
}

} // verus!

//! Jump And Link Register (`jalr`), run by the engine.
use vstd::prelude::*;

use super::format::TypeI;
use super::INSTRUCTION_SIZE;
use crate::engine::{spec_reg, Engine, EngineState};
use crate::error::Error;
use crate::interpreter::machine::MachineState;
use crate::interpreter::memory::Memory;
use crate::interpreter::registers::CPU_REGISTER_COUNT;

verus! {

/// Executing `jalr`: read `rs1`; unless the destination is `x0`, it receives the address of the
/// next instruction; the program counter becomes `rs1` plus the immediate.
pub open spec fn spec_riscv_jalr<V>(s: MachineState<V>, inst: TypeI) -> (MachineState<V>, Result<EngineState, Error>) {
    match spec_reg(s, inst.rs1) {
        Err(e) => (s, Err(e)),
        Ok(rs1) => {
            let target = (rs1 as u32).wrapping_add_signed(inst.imm);
            if inst.rd == 0 {
                (s.jump(target), Ok(EngineState::Running))
            } else if inst.rd < CPU_REGISTER_COUNT {
                (
                    MachineState { registers: s.registers.update(inst.rd as int, s.link(4)), ..s }.jump(
                        target,
                    ),
                    Ok(EngineState::Running),
                )
            } else {
                (s, Err(Error::InvalidCPURegister))
            }
        },
    }
}

/// Jump And Link Register OpCode
/// Format: I-Type.
/// Action: rd = PC + 4; PC = rs1 + imm
pub struct Jalr {}

impl Jalr {
    /// Decode and execute the instruction.
    ///
    /// Returns:
    /// - `Ok(EngineState)`: The state of the engine after the instruction.
    /// - `Err(Error)`: Failed to execute.
    #[inline(always)]
    pub fn decode_execute<M: Memory, F>(data: u32, engine: &mut Engine<M, F>) -> (r: Result<EngineState, Error>)
        ensures
            final(engine).config == old(engine).config,
            final(engine)@ == spec_riscv_jalr(old(engine)@, TypeI::spec_from_word(data)).0,
            r == spec_riscv_jalr(old(engine)@, TypeI::spec_from_word(data)).1,
    {
        let inst = TypeI::from(data);

        // Get the value of the source register.
        let rs1 = engine.reg(inst.rs1)?;

        // Load pc + instruction size into the destination register (if not unconditional).
        if inst.rd != 0 {
            let link = engine.program_counter.wrapping_add(INSTRUCTION_SIZE) as i32;
            engine.set_reg(inst.rd, link)?;
        }

        // Set the program counter to the new address.
        engine.program_counter = (rs1 as u32).wrapping_add_signed(inst.imm);

        // Continue execution
        Ok(EngineState::Running)
    }
}

} // verus!

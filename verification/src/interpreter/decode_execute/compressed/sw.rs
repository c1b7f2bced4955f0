//! Compressed store word (`c.sw`).
use vstd::prelude::*;

use crate::format::TypeCL;
use crate::instruction::embive::{CSw, InstructionImpl};
use crate::interpreter::machine::{MachineState};
use crate::interpreter::memory::{Memory, MemoryType};
use crate::interpreter::{Error, Interpreter, State};

verus! {

/// Executing `c.sw`: the word `rs2` is written at `rs1` plus the immediate; go to the next
/// instruction. A failed write changes nothing.
pub open spec fn spec_csw<M: Memory>(s: MachineState<M::V>, inst: TypeCL) -> (
    MachineState<M::V>,
    Result<State, Error>,
) {
    match s.reg(inst.rs1) {
        Err(e) => (s, Err(e)),
        Ok(rs1) => {
            let address = (rs1 as u32).wrapping_add(inst.imm as u32);
            match s.reg(inst.rd_rs2) {
                Err(e) => (s, Err(e)),
                Ok(rs2) => match M::spec_store(s.memory, address, <i32 as MemoryType>::spec_to_le(rs2)) {
                    Err(e) => (s, Err(e)),
                    Ok(memory) => (s.with_memory(memory).advance(2), Ok(State::Running)),
                },
            }
        },
    }
}

impl CSw {
    /// Execute the instruction.
    ///
    /// Returns:
    /// - `Ok(State)`: Instruction executed successfully.
    /// - `Err(Error)`: Failed to execute instruction.
    #[inline(always)]
    pub fn execute<M: Memory>(&self, interpreter: &mut Interpreter<M>) -> (r: Result<State, Error>)
        ensures
            final(interpreter)@ == spec_csw::<M>(old(interpreter)@, self.0).0,
            r == spec_csw::<M>(old(interpreter)@, self.0).1,
    {
        let rs1 = interpreter.registers.cpu.get(self.0.rs1)?;
        let address = (rs1 as u32).wrapping_add(self.0.imm as u32);
        let rs2 = interpreter.registers.cpu.get(self.0.rd_rs2)?;
        rs2.store(&mut interpreter.memory, address)?;

        // Go to next instruction
        interpreter.program_counter = interpreter.program_counter.wrapping_add(Self::size());

        Ok(State::Running)
    }
}

} // verus!

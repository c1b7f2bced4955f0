//! Jump and link register (`jalr`).
use vstd::prelude::*;

use crate::format::TypeI;
use crate::instruction::embive::{InstructionImpl, Jalr};
use crate::interpreter::machine::{write_and_jump, MachineState};
use crate::interpreter::memory::Memory;
use crate::interpreter::{Error, Interpreter, State};

verus! {

/// Executing `jalr`: read `rs1`; unless the destination is `x0`, it receives the address of the
/// next instruction; the program counter becomes `rs1` plus the immediate.
pub open spec fn spec_jalr<V>(s: MachineState<V>, inst: TypeI) -> (MachineState<V>, Result<State, Error>) {
    match s.reg(inst.rs1) {
        Err(e) => (s, Err(e)),
        Ok(rs1) => {
            let target = (rs1 as u32).wrapping_add_signed(inst.imm);
            if inst.rd_rs2 == 0 {
                (s.jump(target), Ok(State::Running))
            } else {
                write_and_jump(s, inst.rd_rs2, s.link(4), target)
            }
        },
    }
}

impl Jalr {
    /// Execute the instruction.
    ///
    /// Returns:
    /// - `Ok(State)`: Instruction executed successfully.
    /// - `Err(Error)`: Failed to execute instruction.
    #[inline(always)]
    pub fn execute<M: Memory>(&self, interpreter: &mut Interpreter<M>) -> (r: Result<State, Error>)
        ensures
            final(interpreter)@ == spec_jalr(old(interpreter)@, self.0).0,
            r == spec_jalr(old(interpreter)@, self.0).1,
    {
        // Get the value of the source register.
        let rs1 = interpreter.registers.cpu.get(self.0.rs1)?;

        // Load pc + instruction size into the destination register (if not unconditional).
        if self.0.rd_rs2 != 0 {
            let link = interpreter.program_counter.wrapping_add(Self::size()) as i32;
            interpreter.registers.cpu.set(self.0.rd_rs2, link)?;
        }

        // Set the program counter to the new address.
        interpreter.program_counter = (rs1 as u32).wrapping_add_signed(self.0.imm);

        // Continue execution
        Ok(State::Running)
    }
}

} // verus!

//! Registers Module
//!
//! The interpreter's CPU registers and its control and status registers.
use vstd::prelude::*;

pub mod control_status;
pub mod cpu;

pub use control_status::{CSOperation, CSRegisters};
pub use cpu::{
    CPURegister, CPURegisters, A0_INDEX, A1_INDEX, A7_INDEX, CPU_REGISTER_COUNT, RA_INDEX, SP_INDEX,
};

verus! {

/// Embive Registers
#[derive(Debug, PartialEq, Copy, Clone)]
pub struct Registers {
    /// CPU Registers.
    pub cpu: CPURegisters,
    /// Control and Status Registers.
    pub control_status: CSRegisters,
}

impl Default for Registers {
    fn default() -> (r: Self)
        ensures
            r.cpu@ == Seq::new(32, |i: int| 0i32),
            r.control_status == CSRegisters::spec_default(),
    {
        Registers { cpu: CPURegisters::default(), control_status: CSRegisters::default() }
    }
}

} // verus!

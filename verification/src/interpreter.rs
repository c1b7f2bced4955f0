//! Interpreter Module
//!
//! This module contains the Embive interpreter, which is responsible for executing the
//! interpreted code. It uses the Embive instruction set.
use vstd::prelude::*;

mod config;
pub mod debugger;
pub mod decode_execute;
mod error;
pub mod machine;
pub mod memory;
pub mod registers;
mod state;

pub use config::Config;
pub use error::Error;
pub use state::State;

use decode_execute::{decode_execute, spec_decode_execute, spec_system};
use machine::MachineState;
use memory::{Memory, MemoryType};
use registers::{CSRegisters, Registers, A0_INDEX, A1_INDEX, A7_INDEX};
use registers::control_status::{MIE_ADDR, MI_E_P_MASK, MSTATUS_ADDR, MSTATUS_MIE};

use crate::instruction::embive::SystemMiscMem;
use crate::instruction::Instruction;

verus! {

/// Embive Custom Interrupt Code
pub const EMBIVE_INTERRUPT_CODE: u32 = 16;

/// Number of syscall arguments
pub const SYSCALL_ARGS: usize = 7;

/// Embive Interpreter Struct
#[derive(Debug)]
#[non_exhaustive]
pub struct Interpreter<M: Memory> {
    /// Program Counter.
    pub program_counter: u32,
    /// CPU Registers.
    pub registers: Registers,
    /// System Memory (code + RAM).
    pub memory: M,
    /// Instruction limit (0 means no limit).
    pub instruction_limit: u32,
    /// Memory reservation for atomic operations (addr, value).
    pub memory_reservation: Option<(u32, i32)>,
}

impl<M: Memory> View for Interpreter<M> {
    type V = MachineState<M::V>;

    open spec fn view(&self) -> MachineState<M::V> {
        MachineState {
            program_counter: self.program_counter,
            registers: self.registers.cpu@,
            control_status: self.registers.control_status,
            memory: self.memory@,
            instruction_limit: self.instruction_limit,
            memory_reservation: self.memory_reservation,
        }
    }
}

/// The word at the program counter, read from memory as a little-endian number, or the error
/// of that read.
pub open spec fn spec_fetch<M: Memory>(s: MachineState<M::V>) -> Result<u32, Error> {
    match M::spec_load(s.memory, s.program_counter, 4) {
        Ok(bytes) => Ok(<u32 as MemoryType>::spec_from_le(bytes)),
        Err(e) => Err(e),
    }
}

/// One step: fetch the instruction at the program counter, then decode and execute it.
pub open spec fn spec_step<M: Memory>(s: MachineState<M::V>) -> (
    MachineState<M::V>,
    Result<State, Error>,
) {
    match spec_fetch::<M>(s) {
        Ok(inst) => spec_decode_execute::<M>(s, inst),
        Err(e) => (s, Err(e)),
    }
}

/// At most `fuel` steps: stepping stops at the first error or at the first state other than
/// [`State::Running`]; after `fuel` steps the interpreter is still running.
pub open spec fn spec_run_steps<M: Memory>(s: MachineState<M::V>, fuel: nat) -> (
    MachineState<M::V>,
    Result<State, Error>,
)
    decreases fuel,
{
    if fuel == 0 {
        (s, Ok(State::Running))
    } else {
        let (s1, r) = spec_step::<M>(s);
        match r {
            Ok(State::Running) => spec_run_steps::<M>(s1, (fuel - 1) as nat),
            _ => (s1, r),
        }
    }
}

/// How many steps a run may take: the instruction limit, or, without one, 2^64 - 1 steps
/// (a bound that no program reaches in practice).
pub open spec fn spec_run_fuel(instruction_limit: u32) -> nat {
    if instruction_limit > 0 {
        instruction_limit as nat
    } else {
        u64::MAX as nat
    }
}

/// The state of a freshly created or reset interpreter: program counter and registers at zero,
/// no memory reservation.
pub open spec fn spec_reset<V>(s: MachineState<V>) -> MachineState<V> {
    MachineState {
        program_counter: 0,
        registers: Seq::new(32, |i: int| 0i32),
        control_status: CSRegisters::spec_default(),
        memory_reservation: None,
        ..s
    }
}

/// An interrupt: refused unless the interpreted code enabled it; otherwise the interrupt
/// becomes pending and the interpreter traps to the handler, with `value` as the trap value.
pub open spec fn spec_interrupt<V>(s: MachineState<V>, value: i32) -> (MachineState<V>, Result<(), Error>) {
    if !s.control_status.spec_interrupt_enabled() {
        (s, Err(Error::InterruptNotEnabled))
    } else {
        let cs = s.control_status.spec_set_interrupt();
        (
            MachineState {
                control_status: cs.spec_trap_entry(s.program_counter, value),
                program_counter: cs.spec_trap_target(),
                ..s
            },
            Ok(()),
        )
    }
}

/// The registers after a system call answered `result`: `a0` holds 0 and `a1` the value on
/// success; `a0` holds the error code and `a1` 0 on failure.
pub open spec fn spec_syscall_result(registers: Seq<i32>, result: Result<i32, i32>) -> Seq<i32> {
    match result {
        Ok(value) => registers.update(A0_INDEX as int, 0).update(A1_INDEX as int, value),
        Err(code) => registers.update(A0_INDEX as int, code).update(A1_INDEX as int, 0),
    }
}

/// An interrupt taken while interrupts are enabled, followed by the handler's `mret`: the
/// handler runs with interrupts disabled, and the return goes back to the interrupted
/// instruction with interrupts enabled again and the CPU registers and memory as the handler
/// left them.
pub proof fn lemma_interrupt_then_mret<V>(s: MachineState<V>, value: i32)
    requires
        s.control_status.spec_interrupt_enabled(),
    ensures
        spec_interrupt(s, value).1 == Ok::<(), Error>(()),
        !spec_interrupt(s, value).0.control_status.spec_interrupt_enabled(),
        spec_system(spec_interrupt(s, value).0, SystemMiscMem::MRET_IMM).1 == Ok::<State, Error>(
            State::Running,
        ),
        spec_system(spec_interrupt(s, value).0, SystemMiscMem::MRET_IMM).0.program_counter
            == s.program_counter,
        spec_system(
            spec_interrupt(s, value).0,
            SystemMiscMem::MRET_IMM,
        ).0.control_status.spec_interrupt_enabled(),
        spec_system(spec_interrupt(s, value).0, SystemMiscMem::MRET_IMM).0.registers == s.registers,
        spec_system(spec_interrupt(s, value).0, SystemMiscMem::MRET_IMM).0.memory == s.memory,
{
    s.control_status.spec_set_interrupt().lemma_trap_entry_then_return(s.program_counter, value);
    s.control_status.lemma_trap_reads(s.program_counter, value, MSTATUS_ADDR);
}

/// An interrupt is taken exactly when the interpreted code enabled it (`mie` bit
/// [`EMBIVE_INTERRUPT_CODE`] and `mstatus.MIE` read set); a refused one changes nothing; a taken
/// one disables interrupts, so that a second interrupt before the handler returns is refused
/// and changes nothing (no nested trap).
pub proof fn lemma_interrupt_enabled_once<V>(s: MachineState<V>, value: i32, next: i32)
    ensures
        spec_interrupt(s, value).1 is Ok <==> (s.control_status.spec_read(MIE_ADDR)->Ok_0
            & MI_E_P_MASK != 0 && s.control_status.spec_read(MSTATUS_ADDR)->Ok_0
            & (MSTATUS_MIE as u32) != 0),
        spec_interrupt(s, value).1 is Err ==> spec_interrupt(s, value) == (
            s,
            Err::<(), Error>(Error::InterruptNotEnabled),
        ),
        spec_interrupt(s, value).1 is Ok ==> spec_interrupt(spec_interrupt(s, value).0, next) == (
            spec_interrupt(s, value).0,
            Err::<(), Error>(Error::InterruptNotEnabled),
        ),
{
    s.control_status.lemma_trap_reads(s.program_counter, value, MSTATUS_ADDR);
    s.control_status.spec_set_interrupt().lemma_trap_entry_then_return(s.program_counter, value);
}

/// An interrupt keeps the control and status registers well formed when it interrupts an
/// instruction at an even address (the return address register drops bit 0).
pub proof fn lemma_interrupt_keeps_control_status<V>(s: MachineState<V>, value: i32)
    requires
        s.control_status.inv(),
        s.program_counter & 1 == 0,
    ensures
        spec_interrupt(s, value).0.control_status.inv(),
{
    s.control_status.lemma_inv_kept();
    s.control_status.spec_set_interrupt().lemma_inv_kept();
}

/// No step breaks the control and status registers' well-formedness.
pub proof fn lemma_step_keeps_control_status<M: Memory>(s: MachineState<M::V>)
    requires
        s.control_status.inv(),
    ensures
        spec_step::<M>(s).0.control_status.inv(),
{
    s.control_status.lemma_inv_kept();
}

/// No run breaks the control and status registers' well-formedness.
pub proof fn lemma_run_keeps_control_status<M: Memory>(s: MachineState<M::V>, fuel: nat)
    requires
        s.control_status.inv(),
    ensures
        spec_run_steps::<M>(s, fuel).0.control_status.inv(),
    decreases fuel,
{
    if fuel > 0 {
        lemma_step_keeps_control_status::<M>(s);
        lemma_run_keeps_control_status::<M>(spec_step::<M>(s).0, (fuel - 1) as nat);
    }
}

impl<M: Memory> Interpreter<M> {
    /// Create a new interpreter.
    ///
    /// Arguments:
    /// - `memory`: System memory (code + RAM).
    /// - `instruction_limit`: Execution will yield when the instruction limit is reached (0 means no limit).
    pub fn new(memory: M, instruction_limit: u32) -> (r: Self)
        ensures
            r@ == spec_reset(
                MachineState {
                    program_counter: 0,
                    registers: Seq::empty(),
                    control_status: CSRegisters::spec_default(),
                    memory: memory@,
                    instruction_limit,
                    memory_reservation: None,
                },
            ),
    {
        Interpreter {
            program_counter: 0,
            registers: Registers::default(),
            memory,
            instruction_limit,
            memory_reservation: None,
        }
    }

    /// Reset the interpreter:
    /// - Program counter is reset to 0.
    /// - CPU Registers are reset to 0.
    /// - Memory reservation is cleared.
    pub fn reset(&mut self)
        ensures
            final(self)@ == spec_reset(old(self)@),
    {
        self.program_counter = 0;
        self.registers = Registers::default();
        self.memory_reservation = None;
    }

    /// Run the interpreter, executing the code.
    ///
    /// With an instruction limit, at most that many instructions run and the interpreter
    /// yields, still running, when the limit is reached. Without one, it runs until the program
    /// stops (an error, a system call, a wait for an interrupt or a halt).
    ///
    /// Returns:
    /// - `Ok(State)`: Success, current state (check [`State`]).
    /// - `Err(Error)`: Failed to run.
    pub fn run(&mut self) -> (r: Result<State, Error>)
        ensures
            final(self)@ == spec_run_steps::<M>(old(self)@, spec_run_fuel(old(self).instruction_limit)).0,
            r == spec_run_steps::<M>(old(self)@, spec_run_fuel(old(self).instruction_limit)).1,
    {
        let ghost start = self@;
        let limit: u64 = if self.instruction_limit > 0 {
            self.instruction_limit as u64
        } else {
            u64::MAX
        };
        let mut count: u64 = 0;
        while count < limit
            invariant
                count <= limit,
                start == old(self)@,
                limit == spec_run_fuel(start.instruction_limit),
                spec_run_steps::<M>(start, limit as nat) == spec_run_steps::<M>(
                    self@,
                    (limit - count) as nat,
                ),
            decreases limit - count,
        {
            // Step through the program
            let ghost before = self@;
            let state = match self.step() {
                Ok(state) => state,
                Err(e) => {
                    assert(spec_run_steps::<M>(before, (limit - count) as nat) == spec_step::<M>(before));
                    return Err(e);
                },
            };

            if state != State::Running {
                // Stop running
                return Ok(state);
            }
            count = count + 1;
        }

        // Yield after the instruction limit (still running)
        Ok(State::Running)
    }

    /// Step through a single instruction from the current program counter.
    ///
    /// Returns:
    /// - `Ok(State)`: Success, current state (check [`State`]).
    /// - `Err(Error)`: Failed to execute.
    #[inline(always)]
    pub fn step(&mut self) -> (r: Result<State, Error>)
        ensures
            final(self)@ == spec_step::<M>(old(self)@).0,
            r == spec_step::<M>(old(self)@).1,
    {
        // Fetch next instruction
        let data = self.fetch()?;

        // Decode and execute the instruction
        decode_execute(self, data)
    }

    /// Fetch the next instruction from the program counter.
    ///
    /// Returns:
    /// - `Ok(Instruction)`: The instruction that was fetched.
    /// - `Err(Error)`: The program counter is out of bounds.
    #[inline(always)]
    pub fn fetch(&mut self) -> (r: Result<Instruction, Error>)
        ensures
            final(self)@ == old(self)@,
            match spec_fetch::<M>(old(self)@) {
                Ok(inst) => r == Ok::<Instruction, Error>(Instruction(inst)),
                Err(e) => r == Err::<Instruction, Error>(e),
            },
    {
        let data = u32::load(&mut self.memory, self.program_counter)?;
        Ok(Instruction(data))
    }

    /// Execute an interrupt as configured by the interpreted code.
    /// This call does not run any interpreted code, [`Interpreter::run`] should be called after.
    /// Interrupt must be configured/enabled by the interpreted code for this function to succeed.
    ///
    /// Interrupt traps are enabled by setting CSRs `mstatus.MIE` and `mie` bit
    /// [`EMBIVE_INTERRUPT_CODE`], as well as configuring `mtvec` with a valid address. If done
    /// correctly, the interpreter will set the interrupt pending bit (`mip` bit
    /// [`EMBIVE_INTERRUPT_CODE`]) and jump to the address in `mtvec` when an interrupt is
    /// triggered.
    ///
    /// The interrupt pending (`mip`) bit [`EMBIVE_INTERRUPT_CODE`] can be cleared by manually
    /// writing 0 to it.
    ///
    /// Arguments:
    /// - `value`: Value to be passed to the interrupt handler (through `mtval` CSR).
    ///
    /// Returns:
    /// - `Ok(())`: Success, interrupt executed.
    /// - `Err(Error)`: Interrupt not enabled by interpreted code.
    pub fn interrupt(&mut self, value: i32) -> (r: Result<(), Error>)
        ensures
            final(self)@ == spec_interrupt(old(self)@, value).0,
            r == spec_interrupt(old(self)@, value).1,
    {
        // Check if interrupt is enabled
        if !self.registers.control_status.interrupt_enabled() {
            // Interrupt is not enabled
            return Err(Error::InterruptNotEnabled);
        }

        // Set interrupt
        self.registers.control_status.set_interrupt();

        // Trap to the interrupt handler
        self.registers.control_status.trap_entry(&mut self.program_counter, value);

        Ok(())
    }

    /// Get the syscall arguments: the syscall number (`a7`) and the arguments (`a0` to `a6`).
    #[inline(always)]
    pub fn syscall_arguments(&self) -> (r: (i32, [i32; SYSCALL_ARGS]))
        ensures
            r.0 == self.registers.cpu@[A7_INDEX as int],
            r.1@ == self.registers.cpu@.subrange(A0_INDEX as int, A0_INDEX + SYSCALL_ARGS),
    {
        proof {
            self.registers.cpu.lemma_view();
        }
        let regs = &self.registers.cpu.inner;
        let args: [i32; SYSCALL_ARGS] = [regs[10], regs[11], regs[12], regs[13], regs[14], regs[15], regs[16]];
        proof {
            assert(args@ =~= self.registers.cpu@.subrange(A0_INDEX as int, A0_INDEX + SYSCALL_ARGS));
        }
        (regs[17], args)
    }

    /// Set the syscall result: on success `a0` is cleared and `a1` holds the value; on failure
    /// `a0` holds the error code and `a1` is cleared.
    #[inline(always)]
    pub fn syscall_result(&mut self, result: Result<i32, i32>)
        ensures
            final(self)@ == (MachineState {
                registers: spec_syscall_result(old(self)@.registers, result),
                ..old(self)@
            }),
    {
        proof {
            self.registers.cpu.lemma_view();
        }
        match result {
            Ok(value) => {
                // Clear error code
                self.registers.cpu.inner[10] = 0;

                // Set return value
                self.registers.cpu.inner[11] = value;
            },
            Err(error) => {
                // Set error code
                self.registers.cpu.inner[10] = error;

                // Clear return value
                self.registers.cpu.inner[11] = 0;
            },
        }
        proof {
            self.registers.cpu.lemma_view();
        }
    }

    /// Handle a system call.
    ///
    /// System calls are triggered by the `ecall` instruction.
    /// The following registers are used:
    /// - `a7`: Syscall number.
    /// - `a0` to `a6`: Arguments.
    /// - `a0`: Return error code.
    /// - `a1`: Return value.
    ///
    /// Arguments:
    /// - `function`: System call function (FnMut closure):
    ///     - Arguments:
    ///         - `i32`: Syscall number (`a7`).
    ///         - `[i32; SYSCALL_ARGS]`: Arguments (`a0` to `a6`).
    ///         - `Memory`: System Memory (code + RAM).
    ///
    ///     - Returns:
    ///         - `Result<Result<i32, i32>, E>`:
    ///             - Outer `Result`: Ok if the syscall was successful, Err(E) if an internal error
    ///               occurred. Errors are returned to the calling code.
    ///             - Inner `Result`: Mapped to the value (`a1`) and error code (`a0`) returned
    ///               to the interpreted code.
    ///
    /// The function is called once, with `a7`, `a0` to `a6` and the memory; its outer error is
    /// returned unchanged and leaves the registers alone.
    pub fn syscall<F, E>(&mut self, function: &mut F) -> (r: Result<(), E>)
        where
            F: FnMut(i32, &[i32; SYSCALL_ARGS], &mut M) -> Result<Result<i32, i32>, E>,
        requires
            forall|nr: i32, args: &[i32; SYSCALL_ARGS], memory: &mut M|
                call_requires(*old(function), (nr, args, memory)),
        ensures
            final(self).program_counter == old(self).program_counter,
            final(self).registers.control_status == old(self).registers.control_status,
            final(self).instruction_limit == old(self).instruction_limit,
            final(self).memory_reservation == old(self).memory_reservation,
            exists|args: [i32; SYSCALL_ARGS], memory: &mut M, out: Result<Result<i32, i32>, E>|
                #![trigger call_ensures(*old(function), (old(self)@.registers[A7_INDEX as int], &args, memory), out)]
                args@ == old(self)@.registers.subrange(A0_INDEX as int, A0_INDEX + SYSCALL_ARGS)
                && memory@ == old(self)@.memory
                && final(memory)@ == final(self)@.memory
                && call_ensures(*old(function), (old(self)@.registers[A7_INDEX as int], &args, memory), out)
                && match out {
                    Err(e) => r == Err::<(), E>(e) && final(self).registers.cpu@ == old(self).registers.cpu@,
                    Ok(answer) => r is Ok && final(self)@.registers == spec_syscall_result(
                        old(self)@.registers,
                        answer,
                    ),
                },
    {
        let ghost registers = self@.registers;
        proof {
            self.registers.cpu.lemma_len();
        }

        // Get syscall arguments
        let (nr, args) = self.syscall_arguments();

        // Call the syscall function
        let out = function(nr, &args, &mut self.memory);
        proof {
            broadcast use vstd::function::group_function_axioms;
            assert(exists|m: &mut M|
                call_ensures(*old(function), (registers[A7_INDEX as int], &args, m), out)
                && m@ == old(self)@.memory && final(m)@ == self@.memory);
        }
        let result = match out {
            Ok(result) => result,
            Err(e) => return Err(e),
        };

        // Set the syscall result
        self.syscall_result(result);
        assert(self@.registers == spec_syscall_result(registers, result));

        Ok(())
    }
}

} // verus!

//! Engine Module
//!
//! The engine runs RISC-V code directly (the interpreter runs Embive code). It shares the
//! memory, the registers and the state model of the interpreter; system calls go to a function
//! set in its configuration.
use vstd::prelude::*;

mod config;
mod state;
pub mod syscall;

pub use config::Config;
pub use state::EngineState;
pub use syscall::SYSCALL_ARGS;

use crate::error::{spec_from_interpreter_error, Error};
use crate::instruction::{decode_execute, spec_engine_decode_execute};
use crate::interpreter::machine::MachineState;
use crate::interpreter::memory::{Memory, MemoryType};
use crate::interpreter::registers::{CSRegisters, Registers, CPU_REGISTER_COUNT};
use crate::interpreter::{spec_interrupt, spec_reset, spec_run_fuel, spec_syscall_result};

verus! {

/// Embive Custom Interrupt Code
pub const EMBIVE_INTERRUPT_CODE: u32 = 16;

/// Embive Engine Struct
#[derive(Debug)]
#[non_exhaustive]
pub struct Engine<M: Memory, F> {
    /// Program Counter.
    pub program_counter: u32,
    /// CPU Registers.
    pub registers: Registers,
    /// System Memory (code + RAM).
    pub memory: M,
    /// Engine Configuration.
    pub config: Config<F>,
    /// Memory reservation for atomic operations (addr, value).
    pub memory_reservation: Option<(u32, i32)>,
}

impl<M: Memory, F> View for Engine<M, F> {
    type V = MachineState<M::V>;

    open spec fn view(&self) -> MachineState<M::V> {
        MachineState {
            program_counter: self.program_counter,
            registers: self.registers.cpu@,
            control_status: self.registers.control_status,
            memory: self.memory@,
            instruction_limit: self.config.instruction_limit,
            memory_reservation: self.memory_reservation,
        }
    }
}

/// The value of register `index`, or the error for an index past the last register.
pub open spec fn spec_reg<V>(s: MachineState<V>, index: usize) -> Result<i32, Error> {
    if index < CPU_REGISTER_COUNT {
        Ok(s.registers[index as int])
    } else {
        Err(Error::InvalidCPURegister)
    }
}

/// What happens when an instruction writes `value` to register `rd` and then moves to the next
/// instruction: the engine keeps running in the new state, or the register does not exist and
/// nothing changes.
pub open spec fn write_and_advance<V>(s: MachineState<V>, rd: usize, value: i32) -> (
    MachineState<V>,
    Result<EngineState, Error>,
) {
    if rd < CPU_REGISTER_COUNT {
        (
            MachineState { registers: s.registers.update(rd as int, value), ..s }.advance(4),
            Ok(EngineState::Running),
        )
    } else {
        (s, Err(Error::InvalidCPURegister))
    }
}

/// The word at the program counter, or the error of reading it.
pub open spec fn spec_engine_fetch<M: Memory>(s: MachineState<M::V>) -> Result<u32, Error> {
    match M::spec_load(s.memory, s.program_counter, 4) {
        Ok(bytes) => Ok(<u32 as MemoryType>::spec_from_le(bytes)),
        Err(e) => Err(spec_from_interpreter_error(e)),
    }
}

/// The state after a system call answered `answer` and left the memory as `memory`: `a0` and
/// `a1` hold the answer (see [`spec_syscall_result`]).
pub open spec fn spec_after_syscall<V>(s: MachineState<V>, answer: Result<i32, i32>, memory: V) -> MachineState<V> {
    MachineState { registers: spec_syscall_result(s.registers, answer), memory, ..s }
}

/// `f` may give `answer` when it is called, as a system call from `s`, with `a7`, `a0` to `a6`
/// and the memory of `s`.
pub open spec fn spec_syscall_answer<M: Memory, F>(f: F, s: MachineState<M::V>, answer: Result<i32, i32>) -> bool where
    F: Fn(i32, &[i32; SYSCALL_ARGS], &mut M) -> Result<i32, i32>,
 {
    exists|args: [i32; SYSCALL_ARGS], memory: &mut M|
        #![trigger call_ensures(f, (s.registers[17], &args, memory), answer)]
        args@ == s.registers.subrange(10, 17) && memory@ == s.memory && call_ensures(
            f,
            (s.registers[17], &args, memory),
            answer,
        )
}

/// The states that an `ecall` answered by `f` can leave: `a0` and `a1` hold an answer that `f`
/// may give to the call (see [`spec_syscall_answer`], [`spec_syscall_result`]), and the program
/// counter is at the next instruction. (Which memory `f` leaves is stated by the functions that
/// make the call; here it is any.)
pub open spec fn spec_ecall_outcome<M: Memory, F>(f: F, s: MachineState<M::V>, s2: MachineState<M::V>) -> bool where
    F: Fn(i32, &[i32; SYSCALL_ARGS], &mut M) -> Result<i32, i32>,
 {
    exists|answer: Result<i32, i32>, memory: M::V|
        #![trigger spec_after_syscall(s, answer, memory)]
        spec_syscall_answer::<M, F>(f, s, answer) && s2 == spec_after_syscall(s, answer, memory).advance(4)
}

/// One step from `s` may end in `s2` with result `r`: fetch the instruction at the program
/// counter, then decode and execute it (`syscall_fn`: the system call function, if one is set).
pub open spec fn spec_engine_step<M: Memory, F>(
    s: MachineState<M::V>,
    syscall_fn: Option<F>,
    s2: MachineState<M::V>,
    r: Result<EngineState, Error>,
) -> bool where F: Fn(i32, &[i32; SYSCALL_ARGS], &mut M) -> Result<i32, i32>,
 {
    match spec_engine_fetch::<M>(s) {
        Err(e) => s2 == s && r == Err::<EngineState, Error>(e),
        Ok(inst) => match spec_engine_decode_execute::<M>(s, inst, syscall_fn is Some) {
            Some((s1, r1)) => s2 == s1 && r == r1,
            None => r == Ok::<EngineState, Error>(EngineState::Running) && (syscall_fn matches Some(f)
                && spec_ecall_outcome::<M, F>(f, s, s2)),
        },
    }
}

/// At most `fuel` steps from `s` may end in `s2` with result `r`: stepping stops at the first
/// error or the first state other than [`EngineState::Running`]; after `fuel` steps the engine is
/// still running.
pub open spec fn spec_engine_run<M: Memory, F>(
    s: MachineState<M::V>,
    syscall_fn: Option<F>,
    fuel: nat,
    s2: MachineState<M::V>,
    r: Result<EngineState, Error>,
) -> bool where F: Fn(i32, &[i32; SYSCALL_ARGS], &mut M) -> Result<i32, i32>,
    decreases fuel,
{
    if fuel == 0 {
        s2 == s && r == Ok::<EngineState, Error>(EngineState::Running)
    } else {
        exists|s1: MachineState<M::V>, r1: Result<EngineState, Error>|
            #[trigger] spec_engine_step::<M, F>(s, syscall_fn, s1, r1) && if r1
                == Ok::<EngineState, Error>(EngineState::Running) {
                spec_engine_run::<M, F>(s1, syscall_fn, (fuel - 1) as nat, s2, r)
            } else {
                s2 == s1 && r == r1
            }
    }
}

/// The syscall function, when one is set, accepts every call.
pub open spec fn spec_syscall_fn_callable<M: Memory, F>(config: Config<F>) -> bool where
    F: Fn(i32, &[i32; SYSCALL_ARGS], &mut M) -> Result<i32, i32>,
 {
    config.syscall_fn matches Some(f) ==> forall|nr: i32, args: &[i32; SYSCALL_ARGS], memory: &mut M|
        call_requires(f, (nr, args, memory))
}

impl<M: Memory, F> Engine<M, F> {
    /// Create a new engine.
    ///
    /// Arguments:
    /// - `memory`: System memory (code + RAM).
    /// - `config`: Engine configuration.
    pub fn new(memory: M, config: Config<F>) -> (r: Result<Self, Error>)
        ensures
            r matches Ok(engine) && engine.config == config && engine@ == spec_reset(
                MachineState {
                    program_counter: 0,
                    registers: Seq::empty(),
                    control_status: CSRegisters::spec_default(),
                    memory: memory@,
                    instruction_limit: config.instruction_limit,
                    memory_reservation: None,
                },
            ),
    {
        // Create the engine
        Ok(
            Engine {
                program_counter: 0,
                registers: Registers::default(),
                memory,
                config,
                memory_reservation: None,
            },
        )
    }

    /// Reset the engine:
    /// - Program counter is reset to 0.
    /// - CPU Registers are reset to 0.
    /// - Memory reservation is cleared.
    pub fn reset(&mut self)
        ensures
            final(self)@ == spec_reset(old(self)@),
            final(self).config == old(self).config,
    {
        self.program_counter = 0;
        self.registers = Registers::default();
        self.memory_reservation = None;
    }

    /// Read register `index`.
    pub fn reg(&self, index: usize) -> (r: Result<i32, Error>)
        ensures
            r == spec_reg(self@, index),
    {
        if index >= 32 {
            return Err(Error::InvalidCPURegister);
        }
        match self.registers.cpu.get(index as u8) {
            Ok(value) => Ok(value),
            Err(_) => Err(Error::InvalidCPURegister),
        }
    }

    /// Write `value` to register `index` (nothing changes for an index past the last register).
    pub fn set_reg(&mut self, index: usize, value: i32) -> (r: Result<(), Error>)
        ensures
            final(self).config == old(self).config,
            index < CPU_REGISTER_COUNT ==> r is Ok && final(self)@ == (MachineState {
                registers: old(self)@.registers.update(index as int, value),
                ..old(self)@
            }),
            index >= CPU_REGISTER_COUNT ==> r == Err::<(), Error>(Error::InvalidCPURegister)
                && final(self)@ == old(self)@,
    {
        if index >= 32 {
            return Err(Error::InvalidCPURegister);
        }
        match self.registers.cpu.set(index as u8, value) {
            Ok(()) => Ok(()),
            Err(_) => Err(Error::InvalidCPURegister),
        }
    }

    /// Fetch the next instruction (raw) from the program counter.
    ///
    /// Returns:
    /// - `Ok(u32)`: The instruction (raw) that was fetched.
    /// - `Err(Error)`: The program counter is out of bounds.
    #[inline(always)]
    pub fn fetch(&mut self) -> (r: Result<u32, Error>)
        ensures
            final(self)@ == old(self)@,
            final(self).config == old(self).config,
            r == spec_engine_fetch::<M>(old(self)@),
    {
        match u32::load(&mut self.memory, self.program_counter) {
            Ok(data) => Ok(data),
            Err(e) => Err(Error::from(e)),
        }
    }

    /// Execute an interrupt as configured by the interpreted code.
    /// This call does not run any interpreted code, [`Engine::run`] should be called after.
    /// Interrupt must be configured/enabled by the interpreted code for this function to succeed.
    ///
    /// Interrupt traps are enabled by setting CSRs `mstatus.MIE` and `mie` bit
    /// [`EMBIVE_INTERRUPT_CODE`], as well as configuring `mtvec` with a valid address. If done
    /// correctly, the engine will set the interrupt pending bit (`mip` bit
    /// [`EMBIVE_INTERRUPT_CODE`]) and jump to the address in `mtvec` when an interrupt is
    /// triggered. The trap value (`mtval`) is left as it is.
    ///
    /// The interrupt pending (`mip`) bit [`EMBIVE_INTERRUPT_CODE`] can be cleared by manually
    /// writing 0 to it.
    ///
    /// Returns:
    /// - `Ok(())`: Success, interrupt executed.
    /// - `Err(Error)`: Interrupt not enabled by interpreted code.
    pub fn interrupt(&mut self) -> (r: Result<(), Error>)
        ensures
            final(self).config == old(self).config,
            final(self)@ == spec_interrupt(
                old(self)@,
                old(self)@.control_status.spec_trap_value(),
            ).0,
            r is Ok <==> spec_interrupt(old(self)@, old(self)@.control_status.spec_trap_value()).1 is Ok,
            r is Err ==> r == Err::<(), Error>(Error::InterruptNotEnabled),
    {
        // Check if interrupt is enabled
        if !self.registers.control_status.interrupt_enabled() {
            // Interrupt is not enabled
            return Err(Error::InterruptNotEnabled);
        }

        // Set interrupt
        let value = self.registers.control_status.trap_value();
        self.registers.control_status.set_interrupt();

        // Trap to the interrupt handler
        self.registers.control_status.trap_entry(&mut self.program_counter, value);

        Ok(())
    }
}

impl<M: Memory, F> Engine<M, F> where F: Fn(i32, &[i32; SYSCALL_ARGS], &mut M) -> Result<i32, i32> {
    /// Run the engine, executing the interpreted code.
    ///
    /// With an instruction limit, at most that many instructions run and the engine yields,
    /// still running, when the limit is reached. Without one, it runs until the program stops
    /// (an error or a halt).
    ///
    /// Returns:
    /// - `Ok(EngineState)`: Success, current engine state (check [`EngineState`]).
    /// - `Err(Error)`: Failed to run.
    pub fn run(&mut self) -> (r: Result<EngineState, Error>)
        requires
            spec_syscall_fn_callable::<M, F>(old(self).config),
        ensures
            final(self).config == old(self).config,
            spec_engine_run::<M, F>(
                old(self)@,
                old(self).config.syscall_fn,
                spec_run_fuel(old(self).config.instruction_limit),
                final(self)@,
                r,
            ),
    {
        let ghost start = self@;
        let ghost has_fn = self.config.syscall_fn;
        let limit: u64 = if self.config.instruction_limit > 0 {
            self.config.instruction_limit as u64
        } else {
            u64::MAX
        };
        let mut count: u64 = 0;
        while count < limit
            invariant
                count <= limit,
                start == old(self)@,
                has_fn == old(self).config.syscall_fn,
                self.config == old(self).config,
                spec_syscall_fn_callable::<M, F>(self.config),
                limit == spec_run_fuel(start.instruction_limit),
                forall|sf: MachineState<M::V>, rf: Result<EngineState, Error>|
                    spec_engine_run::<M, F>(self@, has_fn, (limit - count) as nat, sf, rf)
                        ==> #[trigger] spec_engine_run::<M, F>(start, has_fn, limit as nat, sf, rf),
            decreases limit - count,
        {
            let ghost before = self@;
            let ghost fuel = (limit - count) as nat;
            // Step through the program
            let result = self.step();
            let ghost after = self@;
            assert(spec_engine_step::<M, F>(before, has_fn, after, result));
            match result {
                Ok(EngineState::Running) => {},
                _ => {
                    assert(spec_engine_run::<M, F>(before, has_fn, fuel, after, result));
                    return result;
                },
            }
            assert forall|sf: MachineState<M::V>, rf: Result<EngineState, Error>|
                spec_engine_run::<M, F>(after, has_fn, (fuel - 1) as nat, sf, rf) implies #[trigger] spec_engine_run::<M, F>(
                start,
                has_fn,
                limit as nat,
                sf,
                rf,
            ) by {
                assert(spec_engine_run::<M, F>(before, has_fn, fuel, sf, rf));
            }
            count = count + 1;
        }

        // Yield after the instruction limit (still running)
        assert(spec_engine_run::<M, F>(self@, has_fn, 0, self@, Ok(EngineState::Running)));
        Ok(EngineState::Running)
    }

    /// Step through a single instruction from the current program counter.
    ///
    /// Returns:
    /// - `Ok(EngineState)`: Success, current engine state (check [`EngineState`]).
    /// - `Err(Error)`: Failed to execute.
    #[inline(always)]
    pub fn step(&mut self) -> (r: Result<EngineState, Error>)
        requires
            spec_syscall_fn_callable::<M, F>(old(self).config),
        ensures
            final(self).config == old(self).config,
            spec_engine_step::<M, F>(old(self)@, old(self).config.syscall_fn, final(self)@, r),
    {
        // Fetch next instruction
        let data = self.fetch()?;

        // Decode and execute the instruction
        decode_execute(self, data)
    }

    /// Handle a system call.
    /// The system call function is called with the system call number and arguments.
    ///
    /// Returns:
    /// - `Ok(())`: Syscall executed.
    /// - `Err(Error)`: Failed to execute the system call function.
    ///     - System call function is not set.
    #[inline(always)]
    pub(crate) fn syscall(&mut self) -> (r: Result<(), Error>)
        requires
            spec_syscall_fn_callable::<M, F>(old(self).config),
        ensures
            final(self).config == old(self).config,
            old(self).config.syscall_fn is None ==> r == Err::<(), Error>(Error::NoSyscallFunction)
                && final(self)@ == old(self)@,
            old(self).config.syscall_fn matches Some(f) ==> r is Ok && exists|
                args: [i32; SYSCALL_ARGS],
                memory: &mut M,
                answer: Result<i32, i32>,
            |
                #![trigger call_ensures(f, (old(self)@.registers[17], &args, memory), answer)]
                args@ == old(self)@.registers.subrange(10, 17) && memory@ == old(self)@.memory
                    && final(memory)@ == final(self)@.memory && call_ensures(
                    f,
                    (old(self)@.registers[17], &args, memory),
                    answer,
                ) && final(self)@ == spec_after_syscall(old(self)@, answer, final(self)@.memory),
    {
        match &self.config.syscall_fn {
            Some(syscall_fn) => {
                let ghost registers = self@.registers;
                proof {
                    self.registers.cpu.lemma_view();
                }
                // Syscall Number
                let nr = self.registers.cpu.inner[17];

                // Syscall Arguments
                let regs = &self.registers.cpu.inner;
                let args: [i32; SYSCALL_ARGS] = [
                    regs[10],
                    regs[11],
                    regs[12],
                    regs[13],
                    regs[14],
                    regs[15],
                    regs[16],
                ];

                // Call the syscall function
                let answer = syscall_fn(nr, &args, &mut self.memory);
                match answer {
                    Ok(value) => {
                        // Clear error code
                        self.registers.cpu.inner[10] = 0;

                        // Set return value
                        self.registers.cpu.inner[11] = value;
                    },
                    Err(error) => {
                        // Set error code
                        self.registers.cpu.inner[10] = error;

                        // Clear return value
                        self.registers.cpu.inner[11] = 0;
                    },
                }
                proof {
                    self.registers.cpu.lemma_view();
                    assert(self@.registers == spec_syscall_result(registers, answer));
                    assert(self@ == spec_after_syscall(old(self)@, answer, self@.memory));
                    assert(exists|m: &mut M|
                        call_ensures(*syscall_fn, (registers[17], &args, m), answer)
                        && m@ == old(self)@.memory && final(m)@ == self@.memory);
                }
                Ok(())
            },
            // No syscall function set
            None => Err(Error::NoSyscallFunction),
        }
    }
}

} // verus!

//! Debugger Module
//!
//! What a debugger of the interpreter decides: which breakpoints are set, when a running program
//! stops, and how the debugger reads and writes registers. The connection to the debugger
//! client stays outside the library.
use vstd::prelude::*;

use super::machine::MachineState;
use super::memory::{le_bytes_to_u128, spec_le_value, Memory};
use super::registers::{CSOperation, A0_INDEX, A7_INDEX};
use super::{spec_interrupt, spec_step, spec_syscall_result, Error, Interpreter, State, SYSCALL_ARGS};

verus! {

/// Debugger Execution Mode
#[derive(Debug, PartialEq, Eq, Clone, Copy, Structural)]
pub enum ExecMode {
    /// Stop after every instruction.
    Step,
    /// Run until a breakpoint or the end of the program.
    Run,
}

/// Why the debugger stopped the program.
#[derive(Debug, PartialEq, Eq, Clone, Copy, Structural)]
pub enum StopReason {
    /// The program halted.
    Terminated,
    /// The program reached a breakpoint.
    SwBreak,
    /// A single step is done.
    DoneStep,
}

/// A register as a debugger names it.
#[derive(Debug, PartialEq, Eq, Clone, Copy)]
pub enum DebugRegister {
    /// The program counter.
    Pc,
    /// A CPU register.
    Gpr(u8),
    /// A floating-point register (there are none).
    Fpr(u8),
    /// A control and status register.
    Csr(u16),
    /// Any other register (not supported).
    Other,
}

/// Software breakpoints: a fixed number of slots, each empty or holding an address.
#[derive(Debug)]
pub struct Breakpoints {
    slots: Vec<Option<u32>>,
}

impl View for Breakpoints {
    type V = Seq<Option<u32>>;

    /// The slots, in order.
    closed spec fn view(&self) -> Seq<Option<u32>> {
        self.slots@
    }
}

impl Breakpoints {
    /// Create `count` empty breakpoint slots.
    pub fn new(count: usize) -> (r: Self)
        ensures
            r@ == Seq::new(count as nat, |i: int| None::<u32>),
    {
        let mut slots: Vec<Option<u32>> = Vec::new();
        let mut i: usize = 0;
        while i < count
            invariant
                i <= count,
                slots@ == Seq::new(i as nat, |k: int| None::<u32>),
            decreases count - i,
        {
            slots.push(None);
            i = i + 1;
            assert(slots@ =~= Seq::new(i as nat, |k: int| None::<u32>));
        }
        Breakpoints { slots }
    }

    /// Set a breakpoint at `addr` in the first empty slot.
    ///
    /// Returns:
    /// - `true`: The breakpoint was set.
    /// - `false`: Every slot is taken (nothing changed).
    pub fn add(&mut self, addr: u32) -> (r: bool)
        ensures
            r ==> exists|k: int|
                0 <= k < old(self)@.len() && old(self)@[k] is None && (forall|j: int|
                    0 <= j < k ==> old(self)@[j] is Some) && final(self)@ == old(self)@.update(
                    k,
                    Some(addr),
                ),
            !r ==> final(self)@ == old(self)@ && forall|j: int|
                0 <= j < old(self)@.len() ==> old(self)@[j] is Some,
    {
        let mut i: usize = 0;
        while i < self.slots.len()
            invariant
                i <= self.slots@.len(),
                self.slots@ == old(self)@,
                forall|j: int| 0 <= j < i ==> self.slots@[j] is Some,
            decreases self.slots@.len() - i,
        {
            if self.slots[i].is_none() {
                self.slots.set(i, Some(addr));
                return true;
            }
            i = i + 1;
        }
        false
    }

    /// Remove the breakpoint at `addr` (from the first slot that holds it).
    ///
    /// Returns:
    /// - `true`: The breakpoint was removed.
    /// - `false`: No slot holds `addr` (nothing changed).
    pub fn remove(&mut self, addr: u32) -> (r: bool)
        ensures
            r ==> exists|k: int|
                0 <= k < old(self)@.len() && old(self)@[k] == Some(addr) && (forall|j: int|
                    0 <= j < k ==> old(self)@[j] != Some(addr)) && final(self)@ == old(self)@.update(
                    k,
                    None,
                ),
            !r ==> final(self)@ == old(self)@ && !old(self)@.contains(Some(addr)),
    {
        let mut i: usize = 0;
        while i < self.slots.len()
            invariant
                i <= self.slots@.len(),
                self.slots@ == old(self)@,
                forall|j: int| 0 <= j < i ==> self.slots@[j] != Some(addr),
            decreases self.slots@.len() - i,
        {
            if self.slots[i] == Some(addr) {
                self.slots.set(i, None);
                return true;
            }
            i = i + 1;
        }
        false
    }

    /// Whether a breakpoint is set at `addr`.
    pub fn contains(&self, addr: u32) -> (r: bool)
        ensures
            r == self@.contains(Some(addr)),
    {
        let mut i: usize = 0;
        while i < self.slots.len()
            invariant
                i <= self.slots@.len(),
                forall|j: int| 0 <= j < i ==> self.slots@[j] != Some(addr),
            decreases self.slots@.len() - i,
        {
            if self.slots[i] == Some(addr) {
                return true;
            }
            i = i + 1;
        }
        false
    }
}

/// When a step that left the program counter at `pc` makes the debugger stop: at a breakpoint,
/// or after any instruction in step mode.
pub open spec fn spec_stop_reason(breakpoints: Seq<Option<u32>>, pc: u32, mode: ExecMode) -> Option<StopReason> {
    if breakpoints.contains(Some(pc)) {
        Some(StopReason::SwBreak)
    } else if mode == ExecMode::Step {
        Some(StopReason::DoneStep)
    } else {
        None
    }
}

/// Decide whether to stop after a step that left the program counter at `pc`.
pub fn stop_reason(breakpoints: &Breakpoints, pc: u32, mode: ExecMode) -> (r: Option<StopReason>)
    ensures
        r == spec_stop_reason(breakpoints@, pc, mode),
{
    if breakpoints.contains(pc) {
        Some(StopReason::SwBreak)
    } else if mode == ExecMode::Step {
        Some(StopReason::DoneStep)
    } else {
        None
    }
}

/// One step of a debugged program: run one instruction; a halt stops the program; a system call
/// is answered by `syscall_fn`; a wait for an interrupt is answered with an interrupt (trap value
/// 0), which fails unless the program enabled interrupts; then the debugger stops at a
/// breakpoint or, in step mode, after the instruction.
///
/// Returns:
/// - `Ok(Some(StopReason))`: The program stopped.
/// - `Ok(None)`: The program goes on.
/// - `Err(Error)`: The step, the system call or the interrupt failed.
pub fn debug_step<M: Memory, F>(
    interpreter: &mut Interpreter<M>,
    syscall_fn: &mut F,
    breakpoints: &Breakpoints,
    mode: ExecMode,
) -> (r: Result<Option<StopReason>, Error>) where
    F: FnMut(i32, &[i32; SYSCALL_ARGS], &mut M) -> Result<Result<i32, i32>, Error>,

    requires
        forall|nr: i32, args: &[i32; SYSCALL_ARGS], memory: &mut M|
            call_requires(*old(syscall_fn), (nr, args, memory)),
    ensures
        match spec_step::<M>(old(interpreter)@).1 {
            Err(e) => r == Err::<Option<StopReason>, Error>(e) && final(interpreter)@ == spec_step::<M>(
                old(interpreter)@,
            ).0,
            Ok(State::Halted) => r == Ok::<Option<StopReason>, Error>(Some(StopReason::Terminated))
                && final(interpreter)@ == spec_step::<M>(old(interpreter)@).0,
            Ok(State::Running) => r == Ok::<Option<StopReason>, Error>(
                spec_stop_reason(
                    breakpoints@,
                    spec_step::<M>(old(interpreter)@).0.program_counter,
                    mode,
                ),
            ) && final(interpreter)@ == spec_step::<M>(old(interpreter)@).0,
            Ok(State::Waiting) => {
                let (s, result) = spec_interrupt(spec_step::<M>(old(interpreter)@).0, 0);
                &&& final(interpreter)@ == s
                &&& result is Err ==> r == Err::<Option<StopReason>, Error>(
                    Error::InterruptNotEnabled,
                )
                &&& result is Ok ==> r == Ok::<Option<StopReason>, Error>(
                    spec_stop_reason(breakpoints@, s.program_counter, mode),
                )
            },
            Ok(State::Called) => {
                let s = spec_step::<M>(old(interpreter)@).0;
                &&& final(interpreter)@.program_counter == s.program_counter
                &&& final(interpreter)@.control_status == s.control_status
                &&& final(interpreter)@.memory_reservation == s.memory_reservation
                &&& final(interpreter)@.instruction_limit == s.instruction_limit
                &&& exists|args: [i32; SYSCALL_ARGS], memory: &mut M, out: Result<Result<i32, i32>, Error>|
                    #![trigger call_ensures(*old(syscall_fn), (s.registers[A7_INDEX as int], &args, memory), out)]
                    args@ == s.registers.subrange(A0_INDEX as int, A0_INDEX + SYSCALL_ARGS)
                    && memory@ == s.memory
                    && final(memory)@ == final(interpreter)@.memory
                    && call_ensures(*old(syscall_fn), (s.registers[A7_INDEX as int], &args, memory), out)
                    && match out {
                        Err(e) => r == Err::<Option<StopReason>, Error>(e)
                            && final(interpreter)@.registers == s.registers,
                        Ok(answer) => r == Ok::<Option<StopReason>, Error>(
                            spec_stop_reason(breakpoints@, s.program_counter, mode),
                        ) && final(interpreter)@.registers == spec_syscall_result(s.registers, answer),
                    }
            },
        },
{
    // Run a single instruction.
    match interpreter.step()? {
        State::Running => {},
        State::Halted => return Ok(Some(StopReason::Terminated)),
        State::Called => interpreter.syscall(syscall_fn)?,
        State::Waiting => interpreter.interrupt(0)?,
    }

    // Check for breakpoints at the current program counter, or the end of a single step.
    Ok(stop_reason(breakpoints, interpreter.program_counter, mode))
}

/// Instructions between two checks of the debugger's connection for incoming data.
pub const POLL_INTERVAL: u32 = 1024;

/// Whether a running debugger checks its connection for incoming data after `cycles`
/// instructions without a stop: every [`POLL_INTERVAL`] instructions, the first one included.
pub fn should_poll(cycles: u32) -> (r: bool)
    ensures
        r == (cycles % POLL_INTERVAL == 0),
{
    cycles % POLL_INTERVAL == 0
}

/// The value of `reg`, or `None` for a register that the debugger cannot read: the program
/// counter, a CPU register, or the value a control and status register reads as.
pub open spec fn spec_read_register<V>(s: MachineState<V>, reg: DebugRegister) -> Result<Option<u32>, Error> {
    match reg {
        DebugRegister::Pc => Ok(Some(s.program_counter)),
        DebugRegister::Gpr(i) => match s.reg(i) {
            Ok(value) => Ok(Some(value as u32)),
            Err(e) => Err(e),
        },
        DebugRegister::Fpr(i) => Err(Error::InvalidCPURegister(i)),
        DebugRegister::Csr(i) => match s.control_status.spec_read(i) {
            Ok(value) => Ok(Some(value)),
            Err(e) => Err(e),
        },
        DebugRegister::Other => Ok(None),
    }
}

/// Read a register for the debugger.
///
/// Returns:
/// - `Ok(Some(u32))`: The register's value.
/// - `Ok(None)`: The register is not supported.
/// - `Err(Error)`: The register does not exist.
pub fn read_register<M: Memory>(interpreter: &mut Interpreter<M>, reg: DebugRegister) -> (r: Result<Option<u32>, Error>)
    ensures
        r == spec_read_register(old(interpreter)@, reg),
        final(interpreter)@ == (match reg {
            DebugRegister::Csr(i) => MachineState {
                control_status: old(interpreter)@.control_status.spec_write(None, i),
                ..old(interpreter)@
            },
            _ => old(interpreter)@,
        }),
{
    match reg {
        DebugRegister::Pc => Ok(Some(interpreter.program_counter)),
        DebugRegister::Gpr(i) => {
            let value = interpreter.registers.cpu.get(i)?;
            Ok(Some(value as u32))
        },
        DebugRegister::Fpr(i) => Err(Error::InvalidCPURegister(i)),
        DebugRegister::Csr(i) => {
            let value = interpreter.registers.control_status.operation(None, i)?;
            Ok(Some(value))
        },
        DebugRegister::Other => Ok(None),
    }
}

/// What writing `value` to `reg` leaves, whether the register was supported, or the error for a
/// register that does not exist (the state is then unchanged).
pub open spec fn spec_write_register<V>(s: MachineState<V>, reg: DebugRegister, value: u32) -> (
    MachineState<V>,
    Result<bool, Error>,
) {
    match reg {
        DebugRegister::Pc => (s.jump(value), Ok(true)),
        DebugRegister::Gpr(i) => match s.set_reg(i, value as i32) {
            Ok(s1) => (s1, Ok(true)),
            Err(e) => (s, Err(e)),
        },
        DebugRegister::Fpr(i) => (s, Err(Error::InvalidCPURegister(i))),
        DebugRegister::Csr(i) => match s.control_status.spec_read(i) {
            Ok(_) => (
                MachineState {
                    control_status: s.control_status.spec_write(Some(CSOperation::Write(value)), i),
                    ..s
                },
                Ok(true),
            ),
            Err(e) => (s, Err(e)),
        },
        DebugRegister::Other => (s, Ok(false)),
    }
}

/// Write a register for the debugger.
///
/// Returns:
/// - `Ok(true)`: The register holds the value.
/// - `Ok(false)`: The register is not supported (nothing changed).
/// - `Err(Error)`: The register does not exist (nothing changed).
pub fn write_register<M: Memory>(interpreter: &mut Interpreter<M>, reg: DebugRegister, value: u32) -> (r: Result<bool, Error>)
    ensures
        final(interpreter)@ == spec_write_register(old(interpreter)@, reg, value).0,
        r == spec_write_register(old(interpreter)@, reg, value).1,
{
    match reg {
        DebugRegister::Pc => interpreter.program_counter = value,
        DebugRegister::Gpr(i) => interpreter.registers.cpu.set(i, value as i32)?,
        DebugRegister::Fpr(i) => return Err(Error::InvalidCPURegister(i)),
        DebugRegister::Csr(i) => {
            interpreter.registers.control_status.operation(Some(CSOperation::Write(value)), i)?;
        },
        DebugRegister::Other => return Ok(false),
    }
    Ok(true)
}

/// The value that a debugger's register buffer holds: up to four little-endian bytes (the
/// missing high bytes are zero), or `None` for a longer buffer.
pub fn register_value(bytes: &[u8]) -> (r: Option<u32>)
    ensures
        bytes@.len() > 4 ==> r is None,
        bytes@.len() <= 4 ==> r == Some(spec_le_value(bytes@) as u32),
{
    if bytes.len() > 4 {
        return None;
    }
    Some(le_bytes_to_u128(bytes) as u32)
}

} // verus!

use core::num::NonZeroI32;

use embive::format::{Format, TypeI};
use embive::instruction::embive::{InstructionImpl, OpImm, SystemMiscMem};
use embive::interpreter::debugger::{
    debug_step, read_register, register_value, stop_reason, write_register, Breakpoints,
    DebugRegister, ExecMode, StopReason,
};
use embive::interpreter::memory::SliceMemory;
use embive::interpreter::{Error, Interpreter, SYSCALL_ARGS};

fn addi(rd: u8, rs1: u8, imm: i32) -> u32 {
    OpImm(TypeI { rd_rs2: rd, rs1, imm, funct3: OpImm::ADDI_FUNC }).encode() | OpImm::opcode() as u32
}

fn system(imm: i32) -> u32 {
    SystemMiscMem(TypeI { rd_rs2: 0, rs1: 0, imm, funct3: SystemMiscMem::MISC_FUNC }).encode()
        | SystemMiscMem::opcode() as u32
}

fn program(words: &[u32]) -> Vec<u8> {
    words.iter().flat_map(|w| w.to_le_bytes()).collect()
}

fn answer(
    nr: i32,
    _args: &[i32; SYSCALL_ARGS],
    _memory: &mut SliceMemory,
) -> Result<Result<i32, NonZeroI32>, Error> {
    Ok(Ok(nr + 100))
}

/// `answer`, with its error codes as the `i32` that the interpreter writes to `a0`.
fn answer_codes(
    nr: i32,
    args: &[i32; SYSCALL_ARGS],
    memory: &mut SliceMemory,
) -> Result<Result<i32, i32>, Error> {
    answer(nr, args, memory).map(|r| r.map_err(NonZeroI32::get))
}

#[test]
fn breakpoints_fill_and_empty() {
    let mut breakpoints = Breakpoints::new(2);
    assert!(!breakpoints.contains(8));
    assert!(breakpoints.add(8));
    assert!(breakpoints.add(12));
    // Every slot is taken
    assert!(!breakpoints.add(16));
    assert!(breakpoints.contains(8));
    assert!(breakpoints.contains(12));
    assert!(!breakpoints.contains(16));

    assert!(breakpoints.remove(8));
    assert!(!breakpoints.remove(8));
    assert!(!breakpoints.contains(8));
    // The freed slot is used again
    assert!(breakpoints.add(16));
    assert!(breakpoints.contains(16));
}

#[test]
fn breakpoints_none() {
    let mut breakpoints = Breakpoints::new(0);
    assert!(!breakpoints.add(0));
    assert!(!breakpoints.remove(0));
}

#[test]
fn stop_reason_order() {
    let mut breakpoints = Breakpoints::new(1);
    breakpoints.add(4);
    // A breakpoint wins over the end of a step
    assert_eq!(stop_reason(&breakpoints, 4, ExecMode::Step), Some(StopReason::SwBreak));
    assert_eq!(stop_reason(&breakpoints, 8, ExecMode::Step), Some(StopReason::DoneStep));
    assert_eq!(stop_reason(&breakpoints, 8, ExecMode::Run), None);
}

#[test]
fn debug_step_runs_to_the_end() {
    let code = program(&[addi(1, 0, 5), system(SystemMiscMem::EBREAK_IMM)]);
    let mut interpreter = Interpreter::new(SliceMemory::new(code, vec![]), 0);
    let breakpoints = Breakpoints::new(4);
    let mut syscall_fn = answer_codes;

    assert_eq!(
        debug_step(&mut interpreter, &mut syscall_fn, &breakpoints, ExecMode::Run),
        Ok(None)
    );
    assert_eq!(interpreter.registers.cpu.get(1), Ok(5));
    assert_eq!(
        debug_step(&mut interpreter, &mut syscall_fn, &breakpoints, ExecMode::Run),
        Ok(Some(StopReason::Terminated))
    );
}

#[test]
fn debug_step_stops_at_breakpoint_and_step() {
    let code = program(&[addi(1, 0, 5), addi(2, 0, 6), system(SystemMiscMem::EBREAK_IMM)]);
    let mut interpreter = Interpreter::new(SliceMemory::new(code, vec![]), 0);
    let mut breakpoints = Breakpoints::new(4);
    breakpoints.add(8);
    let mut syscall_fn = answer_codes;

    assert_eq!(
        debug_step(&mut interpreter, &mut syscall_fn, &breakpoints, ExecMode::Step),
        Ok(Some(StopReason::DoneStep))
    );
    assert_eq!(
        debug_step(&mut interpreter, &mut syscall_fn, &breakpoints, ExecMode::Run),
        Ok(Some(StopReason::SwBreak))
    );
    assert_eq!(interpreter.program_counter, 8);
}

#[test]
fn debug_step_answers_syscall() {
    let code = program(&[addi(17, 0, 7), system(SystemMiscMem::ECALL_IMM)]);
    let mut interpreter = Interpreter::new(SliceMemory::new(code, vec![]), 0);
    let breakpoints = Breakpoints::new(4);
    let mut syscall_fn = answer_codes;

    assert_eq!(
        debug_step(&mut interpreter, &mut syscall_fn, &breakpoints, ExecMode::Run),
        Ok(None)
    );
    assert_eq!(
        debug_step(&mut interpreter, &mut syscall_fn, &breakpoints, ExecMode::Run),
        Ok(None)
    );
    assert_eq!(interpreter.registers.cpu.get(10), Ok(0));
    assert_eq!(interpreter.registers.cpu.get(11), Ok(107));
}

#[test]
fn debug_step_wait_without_interrupts() {
    let code = program(&[system(SystemMiscMem::WFI_IMM)]);
    let mut interpreter = Interpreter::new(SliceMemory::new(code, vec![]), 0);
    let breakpoints = Breakpoints::new(4);
    let mut syscall_fn = answer_codes;

    assert_eq!(
        debug_step(&mut interpreter, &mut syscall_fn, &breakpoints, ExecMode::Run),
        Err(Error::InterruptNotEnabled)
    );
}

#[test]
fn debug_step_fetch_error() {
    let mut interpreter = Interpreter::new(SliceMemory::new(vec![], vec![]), 0);
    let breakpoints = Breakpoints::new(4);
    let mut syscall_fn = answer_codes;

    assert_eq!(
        debug_step(&mut interpreter, &mut syscall_fn, &breakpoints, ExecMode::Run),
        Err(Error::InvalidMemoryAddress(4))
    );
}

#[test]
fn registers_through_the_debugger() {
    let mut interpreter = Interpreter::new(SliceMemory::new(vec![], vec![]), 0);

    assert_eq!(write_register(&mut interpreter, DebugRegister::Pc, 0x40), Ok(true));
    assert_eq!(read_register(&mut interpreter, DebugRegister::Pc), Ok(Some(0x40)));

    assert_eq!(write_register(&mut interpreter, DebugRegister::Gpr(5), 0xFFFF_FFFF), Ok(true));
    assert_eq!(interpreter.registers.cpu.get(5), Ok(-1));
    assert_eq!(read_register(&mut interpreter, DebugRegister::Gpr(5)), Ok(Some(0xFFFF_FFFF)));
    assert_eq!(
        read_register(&mut interpreter, DebugRegister::Gpr(32)),
        Err(Error::InvalidCPURegister(32))
    );

    // mscratch
    assert_eq!(write_register(&mut interpreter, DebugRegister::Csr(0x340), 0x1234), Ok(true));
    assert_eq!(read_register(&mut interpreter, DebugRegister::Csr(0x340)), Ok(Some(0x1234)));
    assert_eq!(
        write_register(&mut interpreter, DebugRegister::Csr(0x999), 1),
        Err(Error::InvalidCSRegister(0x999))
    );

    assert_eq!(
        read_register(&mut interpreter, DebugRegister::Fpr(1)),
        Err(Error::InvalidCPURegister(1))
    );
    assert_eq!(read_register(&mut interpreter, DebugRegister::Other), Ok(None));
    assert_eq!(write_register(&mut interpreter, DebugRegister::Other, 1), Ok(false));
}

#[test]
fn register_buffers() {
    assert_eq!(register_value(&[0x78, 0x56, 0x34, 0x12]), Some(0x1234_5678));
    assert_eq!(register_value(&[0x01, 0x02]), Some(0x0201));
    assert_eq!(register_value(&[]), Some(0));
    assert_eq!(register_value(&[0, 0, 0, 0, 0]), None);
}

#[test]
fn debugger_polls_every_interval() {
    assert!(embive::interpreter::debugger::should_poll(0));
    assert!(!embive::interpreter::debugger::should_poll(1));
    assert!(embive::interpreter::debugger::should_poll(embive::interpreter::debugger::POLL_INTERVAL));
}

#![allow(unused_imports, unused_mut, unused_variables)]
use embive::engine::{Config, Engine, EngineState, SYSCALL_ARGS};
use embive::error::Error;
use embive::instruction::format::{TypeB, TypeI, TypeJ, TypeR, TypeS, TypeU};
use embive::instruction::INSTRUCTION_SIZE;
use embive::interpreter::memory::{Memory, SliceMemory, RAM_OFFSET};
use embive::interpreter::registers::{CPURegister, CSOperation};
use embive::engine::EMBIVE_INTERRUPT_CODE;
type NoSyscall = fn(i32, &[i32; SYSCALL_ARGS], &mut SliceMemory) -> Result<i32, i32>;

fn get_ram_addr() -> i32 {
    RAM_OFFSET as i32
}

fn syscall<M: Memory>(nr: i32, args: &[i32; SYSCALL_ARGS], _memory: &mut M) -> Result<i32, i32> {
    // Match the syscall number
    match nr {
        0 => Ok(0),
        1 => {
            // Check all 7 arguments
            if args[0] == 1
                && args[1] == 2
                && args[2] == 3
                && args[3] == 4
                && args[4] == -5
                && args[5] == -6
                && args[6] == -7
            {
                Ok(-1)
            } else {
                Err(-1)
            }
        }
        _ => Err(1), // Not implemented
    }
}

#[test]
fn engine_test_syscall() {
    let code = &[
        0x93, 0x08, 0x00, 0x00, // li   a7, 0
        0x73, 0x00, 0x00, 0x00, // ecall
        0x73, 0x00, 0x10, 0x00, // ebreak
    ];

    // Create memory from code and RAM slices
    let mut memory = SliceMemory::new(code.to_vec(), vec![]);

    // Create engine config
    let config = Config::default().with_syscall_fn(Some(syscall));

    // Create engine & run it
    let mut engine = Engine::new(memory, config).unwrap();
    engine.run().unwrap();

    // Check the result (Ok(0))
    assert_eq!(
        engine.registers.cpu.get(CPURegister::A0 as u8).unwrap(),
        0
    );
    assert_eq!(
        engine.registers.cpu.get(CPURegister::A1 as u8).unwrap(),
        0
    );
}

#[test]
fn engine_test_syscall_error() {
    let code = &[
        0x93, 0x08, 0x20, 0x00, // li   a7, 2
        0x73, 0x00, 0x00, 0x00, // ecall
        0x73, 0x00, 0x10, 0x00, // ebreak
    ];

    // Create memory from code and RAM slices
    let mut memory = SliceMemory::new(code.to_vec(), vec![]);

    // Create engine config
    let config = Config::default().with_syscall_fn(Some(syscall));

    // Create engine & run it
    let mut engine = Engine::new(memory, config).unwrap();
    engine.run().unwrap();

    // Check the result (Err(1))
    assert_eq!(
        engine.registers.cpu.get(CPURegister::A0 as u8).unwrap(),
        1
    );
    assert_eq!(
        engine.registers.cpu.get(CPURegister::A1 as u8).unwrap(),
        0
    );
}

#[test]
fn engine_test_syscall_args() {
    let code = &[
        0x93, 0x08, 0x10, 0x00, // li   a7, 1
        0x13, 0x05, 0x10, 0x00, // li   a0, 1
        0x93, 0x05, 0x20, 0x00, // li   a1, 2
        0x13, 0x06, 0x30, 0x00, // li   a2, 3
        0x93, 0x06, 0x40, 0x00, // li   a3, 4
        0x13, 0x07, 0xb0, 0xff, // li   a4, -5
        0x93, 0x07, 0xa0, 0xff, // li   a5, -6
        0x13, 0x08, 0x90, 0xff, // li   a6, -7
        0x73, 0x00, 0x00, 0x00, // ecall
        0x73, 0x00, 0x10, 0x00, // ebreak
    ];

    // Create memory from code and RAM slices
    let mut memory = SliceMemory::new(code.to_vec(), vec![]);

    // Create engine config
    let config = Config::default().with_syscall_fn(Some(syscall));

    // Create engine & run it
    let mut engine = Engine::new(memory, config).unwrap();
    engine.run().unwrap();

    // Check the result (Ok(-1))
    assert_eq!(
        engine.registers.cpu.get(CPURegister::A0 as u8).unwrap(),
        0
    );
    assert_eq!(
        engine.registers.cpu.get(CPURegister::A1 as u8).unwrap(),
        -1
    );
}

#[test]
fn engine_test_syscall_args_error() {
    let code = &[
        0x93, 0x08, 0x10, 0x00, // li   a7, 1
        0x13, 0x05, 0xf0, 0xff, // li   a0, -1
        0x93, 0x05, 0xe0, 0xff, // li   a1, -2
        0x13, 0x06, 0xd0, 0xff, // li   a2, -3
        0x93, 0x06, 0xc0, 0xff, // li   a3, -4
        0x13, 0x07, 0x50, 0x00, // li   a4, 5
        0x93, 0x07, 0x60, 0x00, // li   a5, 6
        0x13, 0x08, 0x70, 0x00, // li   a6, 7
        0x73, 0x00, 0x00, 0x00, // ecall
        0x73, 0x00, 0x10, 0x00, // ebreak
    ];

    // Create memory from code and RAM slices
    let mut memory = SliceMemory::new(code.to_vec(), vec![]);

    // Create engine config
    let config = Config::default().with_syscall_fn(Some(syscall));

    // Create engine & run it
    let mut engine = Engine::new(memory, config).unwrap();
    engine.run().unwrap();

    // Check the result (Err(-1))
    assert_eq!(
        engine.registers.cpu.get(CPURegister::A0 as u8).unwrap(),
        -1
    );
    assert_eq!(
        engine.registers.cpu.get(CPURegister::A1 as u8).unwrap(),
        0
    );
}

#[test]
fn engine_test_reset() {
    let mut memory = SliceMemory::new(vec![], vec![]);
    let mut engine = Engine::new(memory, Config::<NoSyscall>::default()).unwrap();
    engine.reset();

    assert_eq!(engine.program_counter, 0);
}

#[test]
fn engine_test_instruction_limit() {
    let code = &[
        0x93, 0x08, 0x20, 0x00, // li   a7, 2      (Syscall nr)
        0x13, 0x05, 0x10, 0x00, // li   a0, 1      (arg0, set first bit)
        0x13, 0x15, 0xf5, 0x01, // slli a0, a0, 31 (arg0, shift-left 31 bits)
        0x73, 0x00, 0x10, 0x00, // ebreak          (Halt)
    ];

    let mut memory = SliceMemory::new(code.to_vec(), vec![]);
    let mut engine = Engine::new(memory, Config::<NoSyscall>::default().with_instruction_limit(2))
    .unwrap();

    // Run the engine
    let result = engine.run();
    assert_eq!(result, Ok(EngineState::Running));
    assert_eq!(engine.program_counter, 4 * 2);

    // Run the engine again
    let result = engine.run();
    assert_eq!(result, Ok(EngineState::Halted));
    assert_eq!(engine.program_counter, 4 * 4);
}

#[test]
fn engine_test_instruction_limit_zero() {
    let code = &[
        0x93, 0x08, 0x20, 0x00, // li   a7, 2      (Syscall nr)
        0x13, 0x05, 0x10, 0x00, // li   a0, 1      (arg0, set first bit)
        0x13, 0x15, 0xf5, 0x01, // slli a0, a0, 31 (arg0, shift-left 31 bits)
        0x73, 0x00, 0x10, 0x00, // ebreak          (Halt)
    ];

    let mut memory = SliceMemory::new(code.to_vec(), vec![]);
    let mut engine = Engine::new(memory, Config::<NoSyscall>::default().with_instruction_limit(0))
    .unwrap();

    // Run the engine
    let result = engine.run();
    assert_eq!(result, Ok(EngineState::Halted));
    assert_eq!(engine.program_counter, 4 * 4);
}

#[test]
fn engine_test_interrupt() {
    let code = &[
        0x93, 0x00, 0x80, 0x00, // li   ra, 8
        0xf3, 0x90, 0x00, 0x30, // csrrw ra, mstatus, ra
        0x93, 0x00, 0x00, 0x80, // li   ra, -2048
        0xf3, 0x90, 0x40, 0x30, // csrrw ra, mie, ra
        0x93, 0x00, 0x80, 0x02, // li   ra, 40
        0xf3, 0x90, 0x50, 0x30, // csrrw ra, mtvec, ra
        0x13, 0x01, 0x70, 0x03, // li   sp, 55
        0x73, 0x00, 0x50, 0x10, // wfi
        0x93, 0x01, 0x70, 0x03, // li   gp, 55
        0x73, 0x00, 0x10, 0x00, // ebreak
        0x13, 0x01, 0x60, 0x01, // li   sp, 22
        0x73, 0x00, 0x20, 0x30, // mret
    ];

    let mut memory = SliceMemory::new(code.to_vec(), vec![]);
    let mut engine = Engine::new(memory, Config::<NoSyscall>::default()).unwrap();

    // Run the engine
    let result = engine.run();
    assert_eq!(result, Ok(EngineState::Waiting));
    assert_eq!(
        engine.registers.cpu.get(CPURegister::SP as u8).unwrap(),
        55
    );

    // interrupt
    let result = engine.interrupt();
    assert_eq!(result, Ok(()));
    assert_eq!(engine.program_counter, 40);
    assert!(
        engine
            .registers
            .control_status
            .operation(None, 0x344) // MIP
            .unwrap()
            & (1 << EMBIVE_INTERRUPT_CODE)
            != 0
    );

    // Run the engine again
    let result = engine.run();
    assert_eq!(result, Ok(EngineState::Halted));
    assert_eq!(
        engine.registers.cpu.get(CPURegister::SP as u8).unwrap(),
        22
    );
    assert_eq!(
        engine.registers.cpu.get(CPURegister::GP as u8).unwrap(),
        55
    );
}

#[test]
fn engine_test_interrupt_disabled() {
    let mut memory = SliceMemory::new(vec![], vec![]);
    let mut engine = Engine::new(memory, Config::<NoSyscall>::default()).unwrap();

    // interrupt
    let result = engine.interrupt();
    assert_eq!(result, Err(Error::InterruptNotEnabled));
}

#[test]
fn config_test_default_config() {
    let config = Config::<NoSyscall>::default();
    assert_eq!(config.syscall_fn, None);
    assert_eq!(config.instruction_limit, 0);
}

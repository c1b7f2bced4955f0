#![allow(unused_imports, unused_mut, unused_variables)]
use embive::engine::{Config, Engine, EngineState, SYSCALL_ARGS};
use embive::error::Error;
use embive::instruction::format::{TypeB, TypeI, TypeJ, TypeR, TypeS, TypeU};
use embive::instruction::INSTRUCTION_SIZE;
use embive::interpreter::memory::{SliceMemory, RAM_OFFSET};
use embive::interpreter::registers::{CPURegister, CSOperation};
use embive::instruction::store::{Store, SB_FUNCT3, SH_FUNCT3, SW_FUNCT3};
type NoSyscall = fn(i32, &[i32; SYSCALL_ARGS], &mut SliceMemory) -> Result<i32, i32>;

fn get_ram_addr() -> i32 {
    RAM_OFFSET as i32
}

#[test]
fn store_test_sb() {
    let mut ram = [0; 2];
    let mut memory = SliceMemory::new(vec![], ram.to_vec());
    let mut engine = Engine::new(memory, Config::<NoSyscall>::default()).unwrap();
    let store = TypeS {
        imm: 0x1,
        funct3: SB_FUNCT3,
        rs1: 1,
        rs2: 2,
    };

    *engine.registers.cpu.get_mut(1).unwrap() = get_ram_addr();
    *engine.registers.cpu.get_mut(2).unwrap() = 0x2;

    let result = Store::decode_execute(store.into(), &mut engine);
    assert_eq!(result, Ok(EngineState::Running));
    assert_eq!(engine.program_counter, INSTRUCTION_SIZE);
    assert_eq!(engine.memory.ram()[1], 0x2);
}

#[test]
fn store_test_sh() {
    let mut ram = [0; 4];
    let mut memory = SliceMemory::new(vec![], ram.to_vec());
    let mut engine = Engine::new(memory, Config::<NoSyscall>::default()).unwrap();
    let store = TypeS {
        imm: 0x2,
        funct3: SH_FUNCT3,
        rs1: 1,
        rs2: 2,
    };

    *engine.registers.cpu.get_mut(1).unwrap() = get_ram_addr();
    *engine.registers.cpu.get_mut(2).unwrap() = 0x1234;

    let result = Store::decode_execute(store.into(), &mut engine);
    assert_eq!(result, Ok(EngineState::Running));
    assert_eq!(engine.program_counter, INSTRUCTION_SIZE);
    assert_eq!(engine.memory.ram()[2..4], [0x34, 0x12]);
}

#[test]
fn store_test_sw() {
    let mut ram = [0; 4];
    let mut memory = SliceMemory::new(vec![], ram.to_vec());
    let mut engine = Engine::new(memory, Config::<NoSyscall>::default()).unwrap();
    let store = TypeS {
        imm: 0x0,
        funct3: SW_FUNCT3,
        rs1: 1,
        rs2: 2,
    };

    *engine.registers.cpu.get_mut(1).unwrap() = get_ram_addr();
    *engine.registers.cpu.get_mut(2).unwrap() = 0x12345678;

    let result = Store::decode_execute(store.into(), &mut engine);
    assert_eq!(result, Ok(EngineState::Running));
    assert_eq!(engine.program_counter, INSTRUCTION_SIZE);
    assert_eq!(engine.memory.ram()[0..4], [0x78, 0x56, 0x34, 0x12]);
}

#![allow(unused_imports, unused_mut, unused_variables)]
use embive::engine::{Config, Engine, EngineState, SYSCALL_ARGS};
use embive::error::Error;
use embive::instruction::format::{TypeB, TypeI, TypeJ, TypeR, TypeS, TypeU};
use embive::instruction::INSTRUCTION_SIZE;
use embive::interpreter::memory::{SliceMemory, RAM_OFFSET};
use embive::interpreter::registers::{CPURegister, CSOperation};
use embive::instruction::amo::{Amo, AMOADD_FUNCT5, AMOAND_FUNCT5, AMOMAXU_FUNCT5, AMOMAX_FUNCT5, AMOMINU_FUNCT5, AMOMIN_FUNCT5, AMOOR_FUNCT5, AMOSWAP_FUNCT5, AMOXOR_FUNCT5, LR_FUNCT5, SC_FUNCT5, WORD_WIDTH};
type NoSyscall = fn(i32, &[i32; SYSCALL_ARGS], &mut SliceMemory) -> Result<i32, i32>;

fn get_ram_addr() -> i32 {
    RAM_OFFSET as i32
}

#[test]
fn amo_test_amoadd() {
    let mut ram = 14i32.to_le_bytes();

    let mut memory = SliceMemory::new(vec![], ram.to_vec());
    let mut engine = Engine::new(memory, Config::<NoSyscall>::default()).unwrap();

    let amo = TypeR {
        rd: 1,
        rs1: 3,
        rs2: 2,
        funct10: WORD_WIDTH as u16 | ((AMOADD_FUNCT5 as u16) << 5),
    };

    *engine.registers.cpu.get_mut(2).unwrap() = 2;
    *engine.registers.cpu.get_mut(3).unwrap() = RAM_OFFSET as i32;

    let result = Amo::decode_execute(amo.into(), &mut engine);
    assert_eq!(result, Ok(EngineState::Running));

    assert_eq!(*engine.registers.cpu.get_mut(1).unwrap(), 14);
    assert_eq!(i32::from_le_bytes(engine.memory.ram().try_into().unwrap()), 16);
}

#[test]
fn amo_test_amoswap() {
    let mut ram = 14i32.to_le_bytes();

    let mut memory = SliceMemory::new(vec![], ram.to_vec());
    let mut engine = Engine::new(memory, Config::<NoSyscall>::default()).unwrap();

    let amo = TypeR {
        rd: 1,
        rs1: 3,
        rs2: 2,
        funct10: WORD_WIDTH as u16 | ((AMOSWAP_FUNCT5 as u16) << 5),
    };

    *engine.registers.cpu.get_mut(2).unwrap() = 2;
    *engine.registers.cpu.get_mut(3).unwrap() = RAM_OFFSET as i32;

    let result = Amo::decode_execute(amo.into(), &mut engine);
    assert_eq!(result, Ok(EngineState::Running));

    assert_eq!(*engine.registers.cpu.get_mut(1).unwrap(), 14);
    assert_eq!(i32::from_le_bytes(engine.memory.ram().try_into().unwrap()), 2);
}

#[test]
fn amo_test_lr() {
    let mut ram = 14i32.to_le_bytes();

    let mut memory = SliceMemory::new(vec![], ram.to_vec());
    let mut engine = Engine::new(memory, Config::<NoSyscall>::default()).unwrap();

    let amo = TypeR {
        rd: 1,
        rs1: 3,
        rs2: 2,
        funct10: WORD_WIDTH as u16 | ((LR_FUNCT5 as u16) << 5),
    };

    *engine.registers.cpu.get_mut(2).unwrap() = 2;
    *engine.registers.cpu.get_mut(3).unwrap() = RAM_OFFSET as i32;

    let result = Amo::decode_execute(amo.into(), &mut engine);
    assert_eq!(result, Ok(EngineState::Running));

    assert_eq!(*engine.registers.cpu.get_mut(1).unwrap(), 14);
    assert_eq!(engine.memory_reservation, Some((RAM_OFFSET as u32, 14)));
}

#[test]
fn amo_test_sc() {
    let mut ram = 14i32.to_le_bytes();

    let mut memory = SliceMemory::new(vec![], ram.to_vec());
    let mut engine = Engine::new(memory, Config::<NoSyscall>::default()).unwrap();

    let amo = TypeR {
        rd: 1,
        rs1: 3,
        rs2: 2,
        funct10: WORD_WIDTH as u16 | ((SC_FUNCT5 as u16) << 5),
    };

    *engine.registers.cpu.get_mut(2).unwrap() = 2;
    *engine.registers.cpu.get_mut(3).unwrap() = RAM_OFFSET as i32;

    engine.memory_reservation = Some((RAM_OFFSET as u32, 14));

    let result = Amo::decode_execute(amo.into(), &mut engine);
    assert_eq!(result, Ok(EngineState::Running));

    assert_eq!(*engine.registers.cpu.get_mut(1).unwrap(), 0);
    assert_eq!(i32::from_le_bytes(engine.memory.ram().try_into().unwrap()), 2);
}

#[test]
fn amo_test_amoxor() {
    let mut ram = 14i32.to_le_bytes();

    let mut memory = SliceMemory::new(vec![], ram.to_vec());
    let mut engine = Engine::new(memory, Config::<NoSyscall>::default()).unwrap();

    let amo = TypeR {
        rd: 1,
        rs1: 3,
        rs2: 2,
        funct10: WORD_WIDTH as u16 | ((AMOXOR_FUNCT5 as u16) << 5),
    };

    *engine.registers.cpu.get_mut(2).unwrap() = 2;
    *engine.registers.cpu.get_mut(3).unwrap() = RAM_OFFSET as i32;

    let result = Amo::decode_execute(amo.into(), &mut engine);
    assert_eq!(result, Ok(EngineState::Running));

    assert_eq!(*engine.registers.cpu.get_mut(1).unwrap(), 14);
    assert_eq!(i32::from_le_bytes(engine.memory.ram().try_into().unwrap()), 12);
}

#[test]
fn amo_test_amoor() {
    let mut ram = 14i32.to_le_bytes();

    let mut memory = SliceMemory::new(vec![], ram.to_vec());
    let mut engine = Engine::new(memory, Config::<NoSyscall>::default()).unwrap();

    let amo = TypeR {
        rd: 1,
        rs1: 3,
        rs2: 2,
        funct10: WORD_WIDTH as u16 | ((AMOOR_FUNCT5 as u16) << 5),
    };

    *engine.registers.cpu.get_mut(2).unwrap() = 3;
    *engine.registers.cpu.get_mut(3).unwrap() = RAM_OFFSET as i32;

    let result = Amo::decode_execute(amo.into(), &mut engine);
    assert_eq!(result, Ok(EngineState::Running));

    assert_eq!(*engine.registers.cpu.get_mut(1).unwrap(), 14);
    assert_eq!(i32::from_le_bytes(engine.memory.ram().try_into().unwrap()), 15);
}

#[test]
fn amo_test_amoand() {
    let mut ram = 14i32.to_le_bytes();

    let mut memory = SliceMemory::new(vec![], ram.to_vec());
    let mut engine = Engine::new(memory, Config::<NoSyscall>::default()).unwrap();

    let amo = TypeR {
        rd: 1,
        rs1: 3,
        rs2: 2,
        funct10: WORD_WIDTH as u16 | ((AMOAND_FUNCT5 as u16) << 5),
    };

    *engine.registers.cpu.get_mut(2).unwrap() = 3;
    *engine.registers.cpu.get_mut(3).unwrap() = RAM_OFFSET as i32;

    let result = Amo::decode_execute(amo.into(), &mut engine);
    assert_eq!(result, Ok(EngineState::Running));

    assert_eq!(*engine.registers.cpu.get_mut(1).unwrap(), 14);
    assert_eq!(i32::from_le_bytes(engine.memory.ram().try_into().unwrap()), 2);
}

#[test]
fn amo_test_amomin() {
    let mut ram = (-14 as i32).to_le_bytes();

    let mut memory = SliceMemory::new(vec![], ram.to_vec());
    let mut engine = Engine::new(memory, Config::<NoSyscall>::default()).unwrap();

    let amo = TypeR {
        rd: 1,
        rs1: 3,
        rs2: 2,
        funct10: WORD_WIDTH as u16 | ((AMOMIN_FUNCT5 as u16) << 5),
    };

    *engine.registers.cpu.get_mut(2).unwrap() = 3;
    *engine.registers.cpu.get_mut(3).unwrap() = RAM_OFFSET as i32;

    let result = Amo::decode_execute(amo.into(), &mut engine);
    assert_eq!(result, Ok(EngineState::Running));

    assert_eq!(*engine.registers.cpu.get_mut(1).unwrap(), -14);
    assert_eq!(i32::from_le_bytes(engine.memory.ram().try_into().unwrap()), -14);
}

#[test]
fn amo_test_amomax() {
    let mut ram = (-14 as i32).to_le_bytes();

    let mut memory = SliceMemory::new(vec![], ram.to_vec());
    let mut engine = Engine::new(memory, Config::<NoSyscall>::default()).unwrap();

    let amo = TypeR {
        rd: 1,
        rs1: 3,
        rs2: 2,
        funct10: WORD_WIDTH as u16 | ((AMOMAX_FUNCT5 as u16) << 5),
    };

    *engine.registers.cpu.get_mut(2).unwrap() = 3;
    *engine.registers.cpu.get_mut(3).unwrap() = RAM_OFFSET as i32;

    let result = Amo::decode_execute(amo.into(), &mut engine);
    assert_eq!(result, Ok(EngineState::Running));

    assert_eq!(*engine.registers.cpu.get_mut(1).unwrap(), -14);
    assert_eq!(i32::from_le_bytes(engine.memory.ram().try_into().unwrap()), 3);
}

#[test]
fn amo_test_amominu() {
    let mut ram = (-14 as i32).to_le_bytes();

    let mut memory = SliceMemory::new(vec![], ram.to_vec());
    let mut engine = Engine::new(memory, Config::<NoSyscall>::default()).unwrap();

    let amo = TypeR {
        rd: 1,
        rs1: 3,
        rs2: 2,
        funct10: WORD_WIDTH as u16 | ((AMOMINU_FUNCT5 as u16) << 5),
    };

    *engine.registers.cpu.get_mut(2).unwrap() = 3;
    *engine.registers.cpu.get_mut(3).unwrap() = RAM_OFFSET as i32;

    let result = Amo::decode_execute(amo.into(), &mut engine);
    assert_eq!(result, Ok(EngineState::Running));

    assert_eq!(*engine.registers.cpu.get_mut(1).unwrap(), -14);
    assert_eq!(i32::from_le_bytes(engine.memory.ram().try_into().unwrap()), 3);
}

#[test]
fn amo_test_amomaxu() {
    let mut ram = (-14 as i32).to_le_bytes();

    let mut memory = SliceMemory::new(vec![], ram.to_vec());
    let mut engine = Engine::new(memory, Config::<NoSyscall>::default()).unwrap();

    let amo = TypeR {
        rd: 1,
        rs1: 3,
        rs2: 2,
        funct10: WORD_WIDTH as u16 | ((AMOMAXU_FUNCT5 as u16) << 5),
    };

    *engine.registers.cpu.get_mut(2).unwrap() = 3;
    *engine.registers.cpu.get_mut(3).unwrap() = RAM_OFFSET as i32;

    let result = Amo::decode_execute(amo.into(), &mut engine);
    assert_eq!(result, Ok(EngineState::Running));

    assert_eq!(*engine.registers.cpu.get_mut(1).unwrap(), -14);
    assert_eq!(i32::from_le_bytes(engine.memory.ram().try_into().unwrap()), -14);
}

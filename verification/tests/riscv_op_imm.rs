#![allow(unused_imports, unused_mut, unused_variables)]
use embive::engine::{Config, Engine, EngineState, SYSCALL_ARGS};
use embive::error::Error;
use embive::instruction::format::{TypeB, TypeI, TypeJ, TypeR, TypeS, TypeU};
use embive::instruction::INSTRUCTION_SIZE;
use embive::interpreter::memory::{SliceMemory, RAM_OFFSET};
use embive::interpreter::registers::{CPURegister, CSOperation};
use embive::instruction::op_imm::{OpImm, ADDI_FUNC3, ANDI_FUNC3, ORI_FUNC3, SLLI_FUNC3, SLTIU_FUNC3, SLTI_FUNC3, SRLI_SRAI_FUNC3, XORI_FUNC3};
type NoSyscall = fn(i32, &[i32; SYSCALL_ARGS], &mut SliceMemory) -> Result<i32, i32>;

fn get_ram_addr() -> i32 {
    RAM_OFFSET as i32
}

#[test]
fn op_imm_test_addi() {
    let mut memory = SliceMemory::new(vec![], vec![]);
    let mut engine = Engine::new(memory, Config::<NoSyscall>::default()).unwrap();
    let addi = TypeI {
        rd: 1,
        rs1: 2,
        imm: 0x100,
        funct3: ADDI_FUNC3,
    };
    *engine.registers.cpu.get_mut(2).unwrap() = 1;

    let result = OpImm::decode_execute(addi.into(), &mut engine);
    assert_eq!(result, Ok(EngineState::Running));
    assert_eq!(*engine.registers.cpu.get_mut(1).unwrap(), 0x101);
    assert_eq!(engine.program_counter, INSTRUCTION_SIZE);
}

#[test]
fn op_imm_test_addi_negative() {
    let mut memory = SliceMemory::new(vec![], vec![]);
    let mut engine = Engine::new(memory, Config::<NoSyscall>::default()).unwrap();
    let addi = TypeI {
        rd: 1,
        rs1: 2,
        imm: -100,
        funct3: ADDI_FUNC3,
    };
    *engine.registers.cpu.get_mut(2).unwrap() = 1;

    let result = OpImm::decode_execute(addi.into(), &mut engine);
    assert_eq!(result, Ok(EngineState::Running));
    assert_eq!(*engine.registers.cpu.get_mut(1).unwrap(), -99);
    assert_eq!(engine.program_counter, INSTRUCTION_SIZE);
}

#[test]
fn op_imm_test_xori() {
    let mut memory = SliceMemory::new(vec![], vec![]);
    let mut engine = Engine::new(memory, Config::<NoSyscall>::default()).unwrap();
    let xori = TypeI {
        rd: 1,
        rs1: 2,
        imm: 0x100,
        funct3: XORI_FUNC3,
    };
    *engine.registers.cpu.get_mut(2).unwrap() = 0x123;

    let result = OpImm::decode_execute(xori.into(), &mut engine);
    assert_eq!(result, Ok(EngineState::Running));
    assert_eq!(*engine.registers.cpu.get_mut(1).unwrap(), 0x023);
    assert_eq!(engine.program_counter, INSTRUCTION_SIZE);
}

#[test]
fn op_imm_test_xori_not() {
    let mut memory = SliceMemory::new(vec![], vec![]);
    let mut engine = Engine::new(memory, Config::<NoSyscall>::default()).unwrap();
    let xori = TypeI {
        rd: 1,
        rs1: 2,
        imm: -1,
        funct3: XORI_FUNC3,
    };
    *engine.registers.cpu.get_mut(2).unwrap() = 0x1234;

    let result = OpImm::decode_execute(xori.into(), &mut engine);
    assert_eq!(result, Ok(EngineState::Running));
    assert_eq!(*engine.registers.cpu.get_mut(1).unwrap(), !0x1234);
    assert_eq!(engine.program_counter, INSTRUCTION_SIZE);
}

#[test]
fn op_imm_test_ori() {
    let mut memory = SliceMemory::new(vec![], vec![]);
    let mut engine = Engine::new(memory, Config::<NoSyscall>::default()).unwrap();
    let ori = TypeI {
        rd: 1,
        rs1: 2,
        imm: 0x100,
        funct3: ORI_FUNC3,
    };
    *engine.registers.cpu.get_mut(2).unwrap() = 0x1234;

    let result = OpImm::decode_execute(ori.into(), &mut engine);
    assert_eq!(result, Ok(EngineState::Running));
    assert_eq!(*engine.registers.cpu.get_mut(1).unwrap(), 0x1234 | 0x100);
    assert_eq!(engine.program_counter, INSTRUCTION_SIZE);
}

#[test]
fn op_imm_test_ori_negative() {
    let mut memory = SliceMemory::new(vec![], vec![]);
    let mut engine = Engine::new(memory, Config::<NoSyscall>::default()).unwrap();
    let ori = TypeI {
        rd: 1,
        rs1: 2,
        imm: -0x100,
        funct3: ORI_FUNC3,
    };
    *engine.registers.cpu.get_mut(2).unwrap() = 0x1234;

    let result = OpImm::decode_execute(ori.into(), &mut engine);
    assert_eq!(result, Ok(EngineState::Running));
    assert_eq!(*engine.registers.cpu.get_mut(1).unwrap(), 0x1234 | -0x100);
    assert_eq!(engine.program_counter, INSTRUCTION_SIZE);
}

#[test]
fn op_imm_test_andi() {
    let mut memory = SliceMemory::new(vec![], vec![]);
    let mut engine = Engine::new(memory, Config::<NoSyscall>::default()).unwrap();
    let andi = TypeI {
        rd: 1,
        rs1: 2,
        imm: 0x100,
        funct3: ANDI_FUNC3,
    };
    *engine.registers.cpu.get_mut(2).unwrap() = 0x1234;

    let result = OpImm::decode_execute(andi.into(), &mut engine);
    assert_eq!(result, Ok(EngineState::Running));
    assert_eq!(*engine.registers.cpu.get_mut(1).unwrap(), 0x1234 & 0x100);
    assert_eq!(engine.program_counter, INSTRUCTION_SIZE);
}

#[test]
fn op_imm_test_slli() {
    let mut memory = SliceMemory::new(vec![], vec![]);
    let mut engine = Engine::new(memory, Config::<NoSyscall>::default()).unwrap();
    let slli = TypeI {
        rd: 1,
        rs1: 2,
        imm: 0b101,
        funct3: SLLI_FUNC3,
    };
    *engine.registers.cpu.get_mut(2).unwrap() = 0x1234;

    let result = OpImm::decode_execute(slli.into(), &mut engine);
    assert_eq!(result, Ok(EngineState::Running));
    assert_eq!(*engine.registers.cpu.get_mut(1).unwrap(), 0x1234 << 0b101);
    assert_eq!(engine.program_counter, INSTRUCTION_SIZE);
}

#[test]
fn op_imm_test_srli() {
    let mut memory = SliceMemory::new(vec![], vec![]);
    let mut engine = Engine::new(memory, Config::<NoSyscall>::default()).unwrap();
    let srli = TypeI {
        rd: 1,
        rs1: 2,
        imm: 0b101,
        funct3: SRLI_SRAI_FUNC3,
    };
    *engine.registers.cpu.get_mut(2).unwrap() = -0x1234;

    let result = OpImm::decode_execute(srli.into(), &mut engine);
    assert_eq!(result, Ok(EngineState::Running));
    assert_eq!(
        *engine.registers.cpu.get_mut(1).unwrap(),
        ((-0x1234i32 as u32) >> 0b101) as i32
    );
    assert_eq!(engine.program_counter, INSTRUCTION_SIZE);
}

#[test]
fn op_imm_test_srai() {
    let mut memory = SliceMemory::new(vec![], vec![]);
    let mut engine = Engine::new(memory, Config::<NoSyscall>::default()).unwrap();
    let srai = TypeI {
        rd: 1,
        rs1: 2,
        imm: 0b101 | (0b1 << 10),
        funct3: SRLI_SRAI_FUNC3,
    };
    *engine.registers.cpu.get_mut(2).unwrap() = -0x1234;

    let result = OpImm::decode_execute(srai.into(), &mut engine);
    assert_eq!(result, Ok(EngineState::Running));
    assert_eq!(*engine.registers.cpu.get_mut(1).unwrap(), -0x1234 >> 0b101);
    assert_eq!(engine.program_counter, INSTRUCTION_SIZE);
}

#[test]
fn op_imm_test_slti_lower() {
    let mut memory = SliceMemory::new(vec![], vec![]);
    let mut engine = Engine::new(memory, Config::<NoSyscall>::default()).unwrap();
    let slti = TypeI {
        rd: 1,
        rs1: 2,
        imm: 0x123,
        funct3: SLTI_FUNC3,
    };
    *engine.registers.cpu.get_mut(2).unwrap() = 0x100;

    let result = OpImm::decode_execute(slti.into(), &mut engine);
    assert_eq!(result, Ok(EngineState::Running));
    assert_eq!(*engine.registers.cpu.get_mut(1).unwrap(), 1);
    assert_eq!(engine.program_counter, INSTRUCTION_SIZE);
}

#[test]
fn op_imm_test_slti_greater() {
    let mut memory = SliceMemory::new(vec![], vec![]);
    let mut engine = Engine::new(memory, Config::<NoSyscall>::default()).unwrap();
    let slti = TypeI {
        rd: 1,
        rs1: 2,
        imm: 0x1000,
        funct3: SLTI_FUNC3,
    };
    *engine.registers.cpu.get_mut(2).unwrap() = 0x1234;

    let result = OpImm::decode_execute(slti.into(), &mut engine);
    assert_eq!(result, Ok(EngineState::Running));
    assert_eq!(*engine.registers.cpu.get_mut(1).unwrap(), 0);
    assert_eq!(engine.program_counter, INSTRUCTION_SIZE);
}

#[test]
fn op_imm_test_slti_equal() {
    let mut memory = SliceMemory::new(vec![], vec![]);
    let mut engine = Engine::new(memory, Config::<NoSyscall>::default()).unwrap();
    let slti = TypeI {
        rd: 1,
        rs1: 2,
        imm: 0x1000,
        funct3: SLTI_FUNC3,
    };
    *engine.registers.cpu.get_mut(2).unwrap() = 0x1000;

    let result = OpImm::decode_execute(slti.into(), &mut engine);
    assert_eq!(result, Ok(EngineState::Running));
    assert_eq!(*engine.registers.cpu.get_mut(1).unwrap(), 0);
    assert_eq!(engine.program_counter, INSTRUCTION_SIZE);
}

#[test]
fn op_imm_test_slti_negative() {
    let mut memory = SliceMemory::new(vec![], vec![]);
    let mut engine = Engine::new(memory, Config::<NoSyscall>::default()).unwrap();
    let slti = TypeI {
        rd: 1,
        rs1: 2,
        imm: -0x1000,
        funct3: SLTI_FUNC3,
    };
    *engine.registers.cpu.get_mut(2).unwrap() = -0x1234;

    let result = OpImm::decode_execute(slti.into(), &mut engine);
    assert_eq!(result, Ok(EngineState::Running));
    assert_eq!(*engine.registers.cpu.get_mut(1).unwrap(), 1);
    assert_eq!(engine.program_counter, INSTRUCTION_SIZE);
}

#[test]
fn op_imm_test_sltiu_lower() {
    let mut memory = SliceMemory::new(vec![], vec![]);
    let mut engine = Engine::new(memory, Config::<NoSyscall>::default()).unwrap();
    let sltiu = TypeI {
        rd: 1,
        rs1: 2,
        imm: 0x123,
        funct3: SLTIU_FUNC3,
    };
    *engine.registers.cpu.get_mut(2).unwrap() = 0x100;

    let result = OpImm::decode_execute(sltiu.into(), &mut engine);
    assert_eq!(result, Ok(EngineState::Running));
    assert_eq!(*engine.registers.cpu.get_mut(1).unwrap(), 1);
    assert_eq!(engine.program_counter, INSTRUCTION_SIZE);
}

#[test]
fn op_imm_test_sltiu_greater() {
    let mut memory = SliceMemory::new(vec![], vec![]);
    let mut engine = Engine::new(memory, Config::<NoSyscall>::default()).unwrap();
    let sltiu = TypeI {
        rd: 1,
        rs1: 2,
        imm: 0x1000,
        funct3: SLTIU_FUNC3,
    };
    *engine.registers.cpu.get_mut(2).unwrap() = 0x1234;

    let result = OpImm::decode_execute(sltiu.into(), &mut engine);
    assert_eq!(result, Ok(EngineState::Running));
    assert_eq!(*engine.registers.cpu.get_mut(1).unwrap(), 0);
    assert_eq!(engine.program_counter, INSTRUCTION_SIZE);
}

#[test]
fn op_imm_test_sltiu_equal() {
    let mut memory = SliceMemory::new(vec![], vec![]);
    let mut engine = Engine::new(memory, Config::<NoSyscall>::default()).unwrap();
    let sltiu = TypeI {
        rd: 1,
        rs1: 2,
        imm: 0x1000,
        funct3: SLTIU_FUNC3,
    };
    *engine.registers.cpu.get_mut(2).unwrap() = 0x1000;

    let result = OpImm::decode_execute(sltiu.into(), &mut engine);
    assert_eq!(result, Ok(EngineState::Running));
    assert_eq!(*engine.registers.cpu.get_mut(1).unwrap(), 0);
    assert_eq!(engine.program_counter, INSTRUCTION_SIZE);
}

#[test]
fn op_imm_test_sltiu_negative() {
    let mut memory = SliceMemory::new(vec![], vec![]);
    let mut engine = Engine::new(memory, Config::<NoSyscall>::default()).unwrap();
    let sltiu = TypeI {
        rd: 1,
        rs1: 2,
        imm: -0x100,
        funct3: SLTIU_FUNC3,
    };
    *engine.registers.cpu.get_mut(2).unwrap() = -0x1234;

    let result = OpImm::decode_execute(sltiu.into(), &mut engine);
    assert_eq!(result, Ok(EngineState::Running));
    assert_eq!(*engine.registers.cpu.get_mut(1).unwrap(), 1);
    assert_eq!(engine.program_counter, INSTRUCTION_SIZE);
}

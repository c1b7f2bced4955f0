#![allow(unused_imports, unused_mut, unused_variables)]
use embive::engine::{Config, Engine, EngineState, SYSCALL_ARGS};
use embive::error::Error;
use embive::instruction::format::{TypeB, TypeI, TypeJ, TypeR, TypeS, TypeU};
use embive::instruction::INSTRUCTION_SIZE;
use embive::interpreter::memory::{SliceMemory, RAM_OFFSET};
use embive::interpreter::registers::{CPURegister, CSOperation};
use embive::instruction::branch::{Branch, BEQ_FUNCT3, BGEU_FUNCT3, BGE_FUNCT3, BLTU_FUNCT3, BLT_FUNCT3, BNE_FUNCT3};
type NoSyscall = fn(i32, &[i32; SYSCALL_ARGS], &mut SliceMemory) -> Result<i32, i32>;

fn get_ram_addr() -> i32 {
    RAM_OFFSET as i32
}

#[test]
fn branch_test_beq_negative() {
    let mut memory = SliceMemory::new(vec![], vec![]);
    let mut engine = Engine::new(memory, Config::<NoSyscall>::default()).unwrap();
    engine.program_counter = 0x1;
    let branch = TypeB {
        imm: -0x100,
        funct3: BEQ_FUNCT3,
        rs1: 1,
        rs2: 2,
    };

    *engine.registers.cpu.get_mut(1).unwrap() = -0x1;
    *engine.registers.cpu.get_mut(2).unwrap() = -0x1;

    let result = Branch::decode_execute(branch.into(), &mut engine);
    assert_eq!(result, Ok(EngineState::Running));
    assert_eq!(engine.program_counter, 0x1u32.wrapping_sub(0x100u32));
}

#[test]
fn branch_test_beq_equal() {
    let mut memory = SliceMemory::new(vec![], vec![]);
    let mut engine = Engine::new(memory, Config::<NoSyscall>::default()).unwrap();
    engine.program_counter = 0x1;
    let branch = TypeB {
        imm: 0x100,
        funct3: BEQ_FUNCT3,
        rs1: 1,
        rs2: 2,
    };

    *engine.registers.cpu.get_mut(1).unwrap() = 0x1;
    *engine.registers.cpu.get_mut(2).unwrap() = 0x1;

    let result = Branch::decode_execute(branch.into(), &mut engine);
    assert_eq!(result, Ok(EngineState::Running));
    assert_eq!(engine.program_counter, 0x101);
}

#[test]
fn branch_test_beq_not_equal() {
    let mut memory = SliceMemory::new(vec![], vec![]);
    let mut engine = Engine::new(memory, Config::<NoSyscall>::default()).unwrap();
    engine.program_counter = 0x1;
    let branch = TypeB {
        imm: 0x100,
        funct3: BEQ_FUNCT3,
        rs1: 1,
        rs2: 2,
    };

    *engine.registers.cpu.get_mut(1).unwrap() = 0x1;
    *engine.registers.cpu.get_mut(2).unwrap() = 0x2;

    let result = Branch::decode_execute(branch.into(), &mut engine);
    assert_eq!(result, Ok(EngineState::Running));
    assert_eq!(engine.program_counter, 0x1 + INSTRUCTION_SIZE);
}

#[test]
fn branch_test_bne_equal() {
    let mut memory = SliceMemory::new(vec![], vec![]);
    let mut engine = Engine::new(memory, Config::<NoSyscall>::default()).unwrap();
    engine.program_counter = 0x1;
    let branch = TypeB {
        imm: 0x100,
        funct3: BNE_FUNCT3,
        rs1: 1,
        rs2: 2,
    };

    *engine.registers.cpu.get_mut(1).unwrap() = 0x1;
    *engine.registers.cpu.get_mut(2).unwrap() = 0x1;

    let result = Branch::decode_execute(branch.into(), &mut engine);
    assert_eq!(result, Ok(EngineState::Running));
    assert_eq!(engine.program_counter, 0x1 + INSTRUCTION_SIZE);
}

#[test]
fn branch_test_bne_not_equal() {
    let mut memory = SliceMemory::new(vec![], vec![]);
    let mut engine = Engine::new(memory, Config::<NoSyscall>::default()).unwrap();
    engine.program_counter = 0x1;
    let branch = TypeB {
        imm: 0x100,
        funct3: BNE_FUNCT3,
        rs1: 1,
        rs2: 2,
    };

    *engine.registers.cpu.get_mut(1).unwrap() = -0x2;
    *engine.registers.cpu.get_mut(2).unwrap() = -0x1;

    let result = Branch::decode_execute(branch.into(), &mut engine);
    assert_eq!(result, Ok(EngineState::Running));
    assert_eq!(engine.program_counter, 0x101);
}

#[test]
fn branch_test_blt_less_than() {
    let mut memory = SliceMemory::new(vec![], vec![]);
    let mut engine = Engine::new(memory, Config::<NoSyscall>::default()).unwrap();
    engine.program_counter = 0x1;
    let branch = TypeB {
        imm: 0x100,
        funct3: BLT_FUNCT3,
        rs1: 1,
        rs2: 2,
    };

    *engine.registers.cpu.get_mut(1).unwrap() = 0x1;
    *engine.registers.cpu.get_mut(2).unwrap() = 0x2;

    let result = Branch::decode_execute(branch.into(), &mut engine);
    assert_eq!(result, Ok(EngineState::Running));
    assert_eq!(engine.program_counter, 0x101);
}

#[test]
fn branch_test_blt_greater_than() {
    let mut memory = SliceMemory::new(vec![], vec![]);
    let mut engine = Engine::new(memory, Config::<NoSyscall>::default()).unwrap();
    engine.program_counter = 0x1;
    let branch = TypeB {
        imm: 0x100,
        funct3: BLT_FUNCT3,
        rs1: 2,
        rs2: 1,
    };

    *engine.registers.cpu.get_mut(1).unwrap() = -0x2;
    *engine.registers.cpu.get_mut(2).unwrap() = -0x1;

    let result = Branch::decode_execute(branch.into(), &mut engine);
    assert_eq!(result, Ok(EngineState::Running));
    assert_eq!(engine.program_counter, 0x1 + INSTRUCTION_SIZE);
}

#[test]
fn branch_test_bge_greater_than() {
    let mut memory = SliceMemory::new(vec![], vec![]);
    let mut engine = Engine::new(memory, Config::<NoSyscall>::default()).unwrap();
    engine.program_counter = 0x1;
    let branch = TypeB {
        imm: 0x100,
        funct3: BGE_FUNCT3,
        rs1: 2,
        rs2: 1,
    };

    *engine.registers.cpu.get_mut(1).unwrap() = 0x1;
    *engine.registers.cpu.get_mut(2).unwrap() = 0x2;

    let result = Branch::decode_execute(branch.into(), &mut engine);
    assert_eq!(result, Ok(EngineState::Running));
    assert_eq!(engine.program_counter, 0x101);
}

#[test]
fn branch_test_bge_equal() {
    let mut memory = SliceMemory::new(vec![], vec![]);
    let mut engine = Engine::new(memory, Config::<NoSyscall>::default()).unwrap();
    engine.program_counter = 0x1;
    let branch = TypeB {
        imm: 0x100,
        funct3: BGE_FUNCT3,
        rs1: 1,
        rs2: 2,
    };

    *engine.registers.cpu.get_mut(1).unwrap() = 0x1;
    *engine.registers.cpu.get_mut(2).unwrap() = 0x1;

    let result = Branch::decode_execute(branch.into(), &mut engine);
    assert_eq!(result, Ok(EngineState::Running));
    assert_eq!(engine.program_counter, 0x101);
}

#[test]
fn branch_test_bge_less_than() {
    let mut memory = SliceMemory::new(vec![], vec![]);
    let mut engine = Engine::new(memory, Config::<NoSyscall>::default()).unwrap();
    engine.program_counter = 0x1;
    let branch = TypeB {
        imm: 0x100,
        funct3: BGE_FUNCT3,
        rs1: 1,
        rs2: 2,
    };
    *engine.registers.cpu.get_mut(1).unwrap() = -0x2;
    *engine.registers.cpu.get_mut(2).unwrap() = -0x1;

    let result = Branch::decode_execute(branch.into(), &mut engine);
    assert_eq!(result, Ok(EngineState::Running));
    assert_eq!(engine.program_counter, 0x1 + INSTRUCTION_SIZE);
}

#[test]
fn branch_test_bltu_less_than() {
    let mut memory = SliceMemory::new(vec![], vec![]);
    let mut engine = Engine::new(memory, Config::<NoSyscall>::default()).unwrap();
    engine.program_counter = 0x1;
    let branch = TypeB {
        imm: 0x100,
        funct3: BLTU_FUNCT3,
        rs1: 1,
        rs2: 2,
    };

    *engine.registers.cpu.get_mut(1).unwrap() = 0x1;
    *engine.registers.cpu.get_mut(2).unwrap() = 0x2;

    let result = Branch::decode_execute(branch.into(), &mut engine);
    assert_eq!(result, Ok(EngineState::Running));
    assert_eq!(engine.program_counter, 0x101);
}

#[test]
fn branch_test_bltu_greater_than() {
    let mut memory = SliceMemory::new(vec![], vec![]);
    let mut engine = Engine::new(memory, Config::<NoSyscall>::default()).unwrap();
    engine.program_counter = 0x1;
    let branch = TypeB {
        imm: 0x100,
        funct3: BLTU_FUNCT3,
        rs1: 2,
        rs2: 1,
    };

    *engine.registers.cpu.get_mut(1).unwrap() = -0x2;
    *engine.registers.cpu.get_mut(2).unwrap() = -0x1;

    let result = Branch::decode_execute(branch.into(), &mut engine);
    assert_eq!(result, Ok(EngineState::Running));
    assert_eq!(engine.program_counter, 0x1 + INSTRUCTION_SIZE);
}

#[test]
fn branch_test_bgeu_greater_than() {
    let mut memory = SliceMemory::new(vec![], vec![]);
    let mut engine = Engine::new(memory, Config::<NoSyscall>::default()).unwrap();
    engine.program_counter = 0x1;
    let branch = TypeB {
        imm: 0x100,
        funct3: BGEU_FUNCT3,
        rs1: 2,
        rs2: 1,
    };

    *engine.registers.cpu.get_mut(1).unwrap() = 0x1;
    *engine.registers.cpu.get_mut(2).unwrap() = -0x1;

    let result = Branch::decode_execute(branch.into(), &mut engine);
    assert_eq!(result, Ok(EngineState::Running));
    assert_eq!(engine.program_counter, 0x101);
}

#[test]
fn branch_test_bgeu_equal() {
    let mut memory = SliceMemory::new(vec![], vec![]);
    let mut engine = Engine::new(memory, Config::<NoSyscall>::default()).unwrap();
    engine.program_counter = 0x1;
    let branch = TypeB {
        imm: 0x100,
        funct3: BGEU_FUNCT3,
        rs1: 1,
        rs2: 2,
    };

    *engine.registers.cpu.get_mut(1).unwrap() = 0x1;
    *engine.registers.cpu.get_mut(2).unwrap() = 0x1;

    let result = Branch::decode_execute(branch.into(), &mut engine);
    assert_eq!(result, Ok(EngineState::Running));
    assert_eq!(engine.program_counter, 0x101);
}

#[test]
fn branch_test_bgeu_less_than() {
    let mut memory = SliceMemory::new(vec![], vec![]);
    let mut engine = Engine::new(memory, Config::<NoSyscall>::default()).unwrap();
    engine.program_counter = 0x1;
    let branch = TypeB {
        imm: 0x100,
        funct3: BGEU_FUNCT3,
        rs1: 1,
        rs2: 2,
    };

    *engine.registers.cpu.get_mut(1).unwrap() = 0x1;
    *engine.registers.cpu.get_mut(2).unwrap() = -0x1;

    let result = Branch::decode_execute(branch.into(), &mut engine);
    assert_eq!(result, Ok(EngineState::Running));
    assert_eq!(engine.program_counter, 0x1 + INSTRUCTION_SIZE);
}

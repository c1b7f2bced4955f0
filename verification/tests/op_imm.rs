#![allow(unused_imports, unused_mut, unused_variables)]
use embive::format::{
    Format, TypeB, TypeCB1, TypeCB2, TypeCB4, TypeCI1, TypeCI2, TypeCI3, TypeCI4, TypeCI5, TypeCIW,
    TypeCJ, TypeCL, TypeCR, TypeCS, TypeCSS, TypeI, TypeJ, TypeR, TypeU,
};
use embive::instruction::embive::{
    Auipc, Branch, CAddi, CAddi16sp, CAddi4spn, CAnd, CBeqz, CBnez, CEbreakJalrAdd, CJal, CJrMv, CLi,
    CLw, COr, CSrli, CSw, InstructionImpl, Jal, Jalr, LoadStore, Lui, OpAmo, OpImm, SystemMiscMem,
};
use embive::interpreter::memory::{SliceMemory, RAM_OFFSET};
use embive::interpreter::registers::{CPURegister, CSOperation};
use embive::interpreter::{Error, Interpreter, State};


#[test]
fn test_addi() {
    let mut memory = SliceMemory::new(vec![], vec![]);
    let mut interpreter = Interpreter::new(memory, 0);
    let addi = TypeI {
        rd_rs2: 1,
        rs1: 2,
        imm: 0x100,
        funct3: OpImm::ADDI_FUNC,
    };
    *interpreter.registers.cpu.get_mut(2).unwrap() = 1;

    let result = OpImm::decode(addi.to_embive()).execute(&mut interpreter);
    assert_eq!(result, Ok(State::Running));
    assert_eq!(*interpreter.registers.cpu.get_mut(1).unwrap(), 0x101);
    assert_eq!(interpreter.program_counter, OpImm::size() as u32);
}

#[test]
fn test_addi_negative() {
    let mut memory = SliceMemory::new(vec![], vec![]);
    let mut interpreter = Interpreter::new(memory, 0);
    let addi = TypeI {
        rd_rs2: 1,
        rs1: 2,
        imm: -100,
        funct3: OpImm::ADDI_FUNC,
    };
    *interpreter.registers.cpu.get_mut(2).unwrap() = 1;

    let result = OpImm::decode(addi.to_embive()).execute(&mut interpreter);
    assert_eq!(result, Ok(State::Running));
    assert_eq!(*interpreter.registers.cpu.get_mut(1).unwrap(), -99);
    assert_eq!(interpreter.program_counter, OpImm::size() as u32);
}

#[test]
fn test_xori() {
    let mut memory = SliceMemory::new(vec![], vec![]);
    let mut interpreter = Interpreter::new(memory, 0);
    let xori = TypeI {
        rd_rs2: 1,
        rs1: 2,
        imm: 0x100,
        funct3: OpImm::XORI_FUNC,
    };
    *interpreter.registers.cpu.get_mut(2).unwrap() = 0x123;

    let result = OpImm::decode(xori.to_embive()).execute(&mut interpreter);
    assert_eq!(result, Ok(State::Running));
    assert_eq!(*interpreter.registers.cpu.get_mut(1).unwrap(), 0x023);
    assert_eq!(interpreter.program_counter, OpImm::size() as u32);
}

#[test]
fn test_xori_not() {
    let mut memory = SliceMemory::new(vec![], vec![]);
    let mut interpreter = Interpreter::new(memory, 0);
    let xori = TypeI {
        rd_rs2: 1,
        rs1: 2,
        imm: -1,
        funct3: OpImm::XORI_FUNC,
    };
    *interpreter.registers.cpu.get_mut(2).unwrap() = 0x1234;

    let result = OpImm::decode(xori.to_embive()).execute(&mut interpreter);
    assert_eq!(result, Ok(State::Running));
    assert_eq!(*interpreter.registers.cpu.get_mut(1).unwrap(), !0x1234);
    assert_eq!(interpreter.program_counter, OpImm::size() as u32);
}

#[test]
fn test_ori() {
    let mut memory = SliceMemory::new(vec![], vec![]);
    let mut interpreter = Interpreter::new(memory, 0);
    let ori = TypeI {
        rd_rs2: 1,
        rs1: 2,
        imm: 0x100,
        funct3: OpImm::ORI_FUNC,
    };
    *interpreter.registers.cpu.get_mut(2).unwrap() = 0x1234;

    let result = OpImm::decode(ori.to_embive()).execute(&mut interpreter);
    assert_eq!(result, Ok(State::Running));
    assert_eq!(
        *interpreter.registers.cpu.get_mut(1).unwrap(),
        0x1234 | 0x100
    );
    assert_eq!(interpreter.program_counter, OpImm::size() as u32);
}

#[test]
fn test_ori_negative() {
    let mut memory = SliceMemory::new(vec![], vec![]);
    let mut interpreter = Interpreter::new(memory, 0);
    let ori = TypeI {
        rd_rs2: 1,
        rs1: 2,
        imm: -0x100,
        funct3: OpImm::ORI_FUNC,
    };
    *interpreter.registers.cpu.get_mut(2).unwrap() = 0x1234;

    let result = OpImm::decode(ori.to_embive()).execute(&mut interpreter);
    assert_eq!(result, Ok(State::Running));
    assert_eq!(
        *interpreter.registers.cpu.get_mut(1).unwrap(),
        0x1234 | -0x100
    );
    assert_eq!(interpreter.program_counter, OpImm::size() as u32);
}

#[test]
fn test_andi() {
    let mut memory = SliceMemory::new(vec![], vec![]);
    let mut interpreter = Interpreter::new(memory, 0);
    let andi = TypeI {
        rd_rs2: 1,
        rs1: 2,
        imm: 0x100,
        funct3: OpImm::ANDI_FUNC,
    };
    *interpreter.registers.cpu.get_mut(2).unwrap() = 0x1234;

    let result = OpImm::decode(andi.to_embive()).execute(&mut interpreter);
    assert_eq!(result, Ok(State::Running));
    assert_eq!(
        *interpreter.registers.cpu.get_mut(1).unwrap(),
        0x1234 & 0x100
    );
    assert_eq!(interpreter.program_counter, OpImm::size() as u32);
}

#[test]
fn test_slli() {
    let mut memory = SliceMemory::new(vec![], vec![]);
    let mut interpreter = Interpreter::new(memory, 0);
    let slli = TypeI {
        rd_rs2: 1,
        rs1: 2,
        imm: 0b101,
        funct3: OpImm::SLLI_FUNC,
    };
    *interpreter.registers.cpu.get_mut(2).unwrap() = 0x1234;

    let result = OpImm::decode(slli.to_embive()).execute(&mut interpreter);
    assert_eq!(result, Ok(State::Running));
    assert_eq!(
        *interpreter.registers.cpu.get_mut(1).unwrap(),
        0x1234 << 0b101
    );
    assert_eq!(interpreter.program_counter, OpImm::size() as u32);
}

#[test]
fn test_srli() {
    let mut memory = SliceMemory::new(vec![], vec![]);
    let mut interpreter = Interpreter::new(memory, 0);
    let srli = TypeI {
        rd_rs2: 1,
        rs1: 2,
        imm: 0b101,
        funct3: OpImm::SRLI_SRAI_FUNC,
    };
    *interpreter.registers.cpu.get_mut(2).unwrap() = -0x1234;

    let result = OpImm::decode(srli.to_embive()).execute(&mut interpreter);
    assert_eq!(result, Ok(State::Running));
    assert_eq!(
        *interpreter.registers.cpu.get_mut(1).unwrap(),
        ((-0x1234i32 as u32) >> 0b101) as i32
    );
    assert_eq!(interpreter.program_counter, OpImm::size() as u32);
}

#[test]
fn test_srai() {
    let mut memory = SliceMemory::new(vec![], vec![]);
    let mut interpreter = Interpreter::new(memory, 0);
    let srai = TypeI {
        rd_rs2: 1,
        rs1: 2,
        imm: 0b101 | (0b1 << 10),
        funct3: OpImm::SRLI_SRAI_FUNC,
    };
    *interpreter.registers.cpu.get_mut(2).unwrap() = -0x1234;

    let result = OpImm::decode(srai.to_embive()).execute(&mut interpreter);
    assert_eq!(result, Ok(State::Running));
    assert_eq!(
        *interpreter.registers.cpu.get_mut(1).unwrap(),
        -0x1234 >> 0b101
    );
    assert_eq!(interpreter.program_counter, OpImm::size() as u32);
}

#[test]
fn test_slti_lower() {
    let mut memory = SliceMemory::new(vec![], vec![]);
    let mut interpreter = Interpreter::new(memory, 0);
    let slti = TypeI {
        rd_rs2: 1,
        rs1: 2,
        imm: 0x123,
        funct3: OpImm::SLTI_FUNC,
    };
    *interpreter.registers.cpu.get_mut(2).unwrap() = 0x100;

    let result = OpImm::decode(slti.to_embive()).execute(&mut interpreter);
    assert_eq!(result, Ok(State::Running));
    assert_eq!(*interpreter.registers.cpu.get_mut(1).unwrap(), 1);
    assert_eq!(interpreter.program_counter, OpImm::size() as u32);
}

#[test]
fn test_slti_greater() {
    let mut memory = SliceMemory::new(vec![], vec![]);
    let mut interpreter = Interpreter::new(memory, 0);
    let slti = TypeI {
        rd_rs2: 1,
        rs1: 2,
        imm: 0x1000,
        funct3: OpImm::SLTI_FUNC,
    };
    *interpreter.registers.cpu.get_mut(2).unwrap() = 0x1234;

    let result = OpImm::decode(slti.to_embive()).execute(&mut interpreter);
    assert_eq!(result, Ok(State::Running));
    assert_eq!(*interpreter.registers.cpu.get_mut(1).unwrap(), 0);
    assert_eq!(interpreter.program_counter, OpImm::size() as u32);
}

#[test]
fn test_slti_equal() {
    let mut memory = SliceMemory::new(vec![], vec![]);
    let mut interpreter = Interpreter::new(memory, 0);
    let slti = TypeI {
        rd_rs2: 1,
        rs1: 2,
        imm: 0x1000,
        funct3: OpImm::SLTI_FUNC,
    };
    *interpreter.registers.cpu.get_mut(2).unwrap() = 0x1000;

    let result = OpImm::decode(slti.to_embive()).execute(&mut interpreter);
    assert_eq!(result, Ok(State::Running));
    assert_eq!(*interpreter.registers.cpu.get_mut(1).unwrap(), 0);
    assert_eq!(interpreter.program_counter, OpImm::size() as u32);
}

#[test]
fn test_slti_negative() {
    let mut memory = SliceMemory::new(vec![], vec![]);
    let mut interpreter = Interpreter::new(memory, 0);
    let slti = TypeI {
        rd_rs2: 1,
        rs1: 2,
        imm: -0x1000,
        funct3: OpImm::SLTI_FUNC,
    };
    *interpreter.registers.cpu.get_mut(2).unwrap() = -0x1234;

    let result = OpImm::decode(slti.to_embive()).execute(&mut interpreter);
    assert_eq!(result, Ok(State::Running));
    assert_eq!(*interpreter.registers.cpu.get_mut(1).unwrap(), 1);
    assert_eq!(interpreter.program_counter, OpImm::size() as u32);
}

#[test]
fn test_sltiu_lower() {
    let mut memory = SliceMemory::new(vec![], vec![]);
    let mut interpreter = Interpreter::new(memory, 0);
    let sltiu = TypeI {
        rd_rs2: 1,
        rs1: 2,
        imm: 0x123,
        funct3: OpImm::SLTIU_FUNC,
    };
    *interpreter.registers.cpu.get_mut(2).unwrap() = 0x100;

    let result = OpImm::decode(sltiu.to_embive()).execute(&mut interpreter);
    assert_eq!(result, Ok(State::Running));
    assert_eq!(*interpreter.registers.cpu.get_mut(1).unwrap(), 1);
    assert_eq!(interpreter.program_counter, OpImm::size() as u32);
}

#[test]
fn test_sltiu_greater() {
    let mut memory = SliceMemory::new(vec![], vec![]);
    let mut interpreter = Interpreter::new(memory, 0);
    let sltiu = TypeI {
        rd_rs2: 1,
        rs1: 2,
        imm: 0x1000,
        funct3: OpImm::SLTIU_FUNC,
    };
    *interpreter.registers.cpu.get_mut(2).unwrap() = 0x1234;

    let result = OpImm::decode(sltiu.to_embive()).execute(&mut interpreter);
    assert_eq!(result, Ok(State::Running));
    assert_eq!(*interpreter.registers.cpu.get_mut(1).unwrap(), 0);
    assert_eq!(interpreter.program_counter, OpImm::size() as u32);
}

#[test]
fn test_sltiu_equal() {
    let mut memory = SliceMemory::new(vec![], vec![]);
    let mut interpreter = Interpreter::new(memory, 0);
    let sltiu = TypeI {
        rd_rs2: 1,
        rs1: 2,
        imm: 0x1000,
        funct3: OpImm::SLTIU_FUNC,
    };
    *interpreter.registers.cpu.get_mut(2).unwrap() = 0x1000;

    let result = OpImm::decode(sltiu.to_embive()).execute(&mut interpreter);
    assert_eq!(result, Ok(State::Running));
    assert_eq!(*interpreter.registers.cpu.get_mut(1).unwrap(), 0);
    assert_eq!(interpreter.program_counter, OpImm::size() as u32);
}

#[test]
fn test_sltiu_negative() {
    let mut memory = SliceMemory::new(vec![], vec![]);
    let mut interpreter = Interpreter::new(memory, 0);
    let sltiu = TypeI {
        rd_rs2: 1,
        rs1: 2,
        imm: -0x100,
        funct3: OpImm::SLTIU_FUNC,
    };
    *interpreter.registers.cpu.get_mut(2).unwrap() = -0x1234;

    let result = OpImm::decode(sltiu.to_embive()).execute(&mut interpreter);
    assert_eq!(result, Ok(State::Running));
    assert_eq!(*interpreter.registers.cpu.get_mut(1).unwrap(), 1);
    assert_eq!(interpreter.program_counter, OpImm::size() as u32);
}

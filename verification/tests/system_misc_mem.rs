#![allow(unused_imports, unused_mut, unused_variables)]
use embive::format::{
    Format, TypeB, TypeCB1, TypeCB2, TypeCB4, TypeCI1, TypeCI2, TypeCI3, TypeCI4, TypeCI5, TypeCIW,
    TypeCJ, TypeCL, TypeCR, TypeCS, TypeCSS, TypeI, TypeJ, TypeR, TypeU,
};
use embive::instruction::embive::{
    Auipc, Branch, CAddi, CAddi16sp, CAddi4spn, CAnd, CBeqz, CBnez, CEbreakJalrAdd, CJal, CJrMv, CLi,
    CLw, COr, CSrli, CSw, InstructionImpl, Jal, Jalr, LoadStore, Lui, OpAmo, OpImm, SystemMiscMem,
};
use embive::interpreter::memory::{SliceMemory, RAM_OFFSET};
use embive::interpreter::registers::{CPURegister, CSOperation};
use embive::interpreter::{Error, Interpreter, State};


#[test]
fn test_ebreak() {
    let mut memory = SliceMemory::new(vec![], vec![]);
    let mut interpreter = Interpreter::new(memory, 0);
    let misc_mem = TypeI {
        rd_rs2: 0,
        rs1: 0,
        imm: 0x1,
        funct3: 0,
    };

    let result = SystemMiscMem::decode(misc_mem.to_embive()).execute(&mut interpreter);
    assert_eq!(result, Ok(State::Halted));
    assert_eq!(interpreter.program_counter, SystemMiscMem::size() as u32);
}

#[test]
fn test_ecall() {
    let mut ram = [0; 4];
    let mut memory = SliceMemory::new(vec![], ram.to_vec());
    let mut interpreter = Interpreter::new(memory, 0);

    let misc_mem = TypeI {
        rd_rs2: 0,
        rs1: 0,
        imm: SystemMiscMem::ECALL_IMM,
        funct3: SystemMiscMem::MISC_FUNC,
    };

    let result = SystemMiscMem::decode(misc_mem.to_embive()).execute(&mut interpreter);
    assert_eq!(result, Ok(State::Called));
    assert_eq!(interpreter.program_counter, SystemMiscMem::size() as u32);
}

#[test]
fn test_wfi() {
    let mut memory = SliceMemory::new(vec![], vec![]);
    let mut interpreter = Interpreter::new(memory, 0);
    let misc_mem = TypeI {
        rd_rs2: 0,
        rs1: 0,
        imm: SystemMiscMem::WFI_IMM,
        funct3: SystemMiscMem::MISC_FUNC,
    };

    let result = SystemMiscMem::decode(misc_mem.to_embive()).execute(&mut interpreter);
    assert_eq!(result, Ok(State::Waiting));
    assert_eq!(interpreter.program_counter, SystemMiscMem::size() as u32);
}

#[test]
fn test_mret() {
    let mut memory = SliceMemory::new(vec![], vec![]);
    let mut interpreter = Interpreter::new(memory, 0);
    interpreter
        .registers
        .control_status
        .operation(Some(CSOperation::Write(0x1234)), 0x341)
        .unwrap(); //mepc

    let misc_mem = TypeI {
        rd_rs2: 0,
        rs1: 0,
        imm: SystemMiscMem::MRET_IMM,
        funct3: SystemMiscMem::MISC_FUNC,
    };

    let result = SystemMiscMem::decode(misc_mem.to_embive()).execute(&mut interpreter);
    assert_eq!(result, Ok(State::Running));
    assert_eq!(interpreter.program_counter, 0x1234);
}

#[test]
fn test_fencei() {
    let mut memory = SliceMemory::new(vec![], vec![]);
    let mut interpreter = Interpreter::new(memory, 0);
    let misc_mem = TypeI {
        rd_rs2: 0,
        rs1: 0,
        imm: SystemMiscMem::FENCEI_IMM,
        funct3: SystemMiscMem::MISC_FUNC,
    };

    let result = SystemMiscMem::decode(misc_mem.to_embive()).execute(&mut interpreter);
    assert_eq!(result, Ok(State::Running));
    assert_eq!(interpreter.program_counter, SystemMiscMem::size() as u32);
}

#[test]
fn test_csrrw() {
    let mut memory = SliceMemory::new(vec![], vec![]);
    let mut interpreter = Interpreter::new(memory, 0);
    *interpreter.registers.cpu.get_mut(1).unwrap() = 0x1234;
    *interpreter.registers.cpu.get_mut(2).unwrap() = 0x1234;

    let csrrw = TypeI {
        rd_rs2: 1,
        rs1: 2,
        imm: 0x342,
        funct3: SystemMiscMem::CSRRW_FUNC,
    };

    let result = SystemMiscMem::decode(csrrw.to_embive()).execute(&mut interpreter);
    assert_eq!(result, Ok(State::Running));
    assert_eq!(interpreter.registers.cpu.get(1).unwrap(), 0);
    assert_eq!(
        interpreter
            .registers
            .control_status
            .operation(None, 0x342)
            .unwrap(),
        0x1234
    );
}

#[test]
fn test_csrrs() {
    let mut memory = SliceMemory::new(vec![], vec![]);
    let mut interpreter = Interpreter::new(memory, 0);
    interpreter
        .registers
        .control_status
        .operation(Some(CSOperation::Write(0x1230)), 0x342)
        .unwrap();

    *interpreter.registers.cpu.get_mut(1).unwrap() = 0x1234;
    *interpreter.registers.cpu.get_mut(2).unwrap() = 0x1234;

    let csrrs = TypeI {
        rd_rs2: 1,
        rs1: 2,
        imm: 0x342,
        funct3: SystemMiscMem::CSRRS_FUNC,
    };

    let result = SystemMiscMem::decode(csrrs.to_embive()).execute(&mut interpreter);
    assert_eq!(result, Ok(State::Running));
    assert_eq!(interpreter.registers.cpu.get(1).unwrap(), 0x1230);
    assert_eq!(
        interpreter
            .registers
            .control_status
            .operation(None, 0x342)
            .unwrap(),
        0x1234
    );
}

#[test]
fn test_csrrc() {
    let mut memory = SliceMemory::new(vec![], vec![]);
    let mut interpreter = Interpreter::new(memory, 0);
    interpreter
        .registers
        .control_status
        .operation(Some(CSOperation::Write(0x1234)), 0x342)
        .unwrap();

    *interpreter.registers.cpu.get_mut(1).unwrap() = 0x1230;
    *interpreter.registers.cpu.get_mut(2).unwrap() = 0x1230;

    let csrrc = TypeI {
        rd_rs2: 1,
        rs1: 2,
        imm: 0x342,
        funct3: SystemMiscMem::CSRRC_FUNC,
    };

    let result = SystemMiscMem::decode(csrrc.to_embive()).execute(&mut interpreter);
    assert_eq!(result, Ok(State::Running));
    assert_eq!(interpreter.registers.cpu.get(1).unwrap(), 0x1234);
    assert_eq!(
        interpreter
            .registers
            .control_status
            .operation(None, 0x342)
            .unwrap(),
        0x4
    );
}

#[test]
fn test_csrrwi() {
    let mut memory = SliceMemory::new(vec![], vec![]);
    let mut interpreter = Interpreter::new(memory, 0);
    *interpreter.registers.cpu.get_mut(1).unwrap() = 0x1234;

    let csrrwi = TypeI {
        rd_rs2: 1,
        rs1: 1,
        imm: 0x342,
        funct3: SystemMiscMem::CSRRWI_FUNC,
    };

    let result = SystemMiscMem::decode(csrrwi.to_embive()).execute(&mut interpreter);
    assert_eq!(result, Ok(State::Running));
    assert_eq!(interpreter.registers.cpu.get(1).unwrap(), 0);
    assert_eq!(
        interpreter
            .registers
            .control_status
            .operation(None, 0x342)
            .unwrap(),
        0x1
    );
}

#[test]
fn test_csrrsi() {
    let mut memory = SliceMemory::new(vec![], vec![]);
    let mut interpreter = Interpreter::new(memory, 0);
    interpreter
        .registers
        .control_status
        .operation(Some(CSOperation::Write(0x1230)), 0x342)
        .unwrap();

    *interpreter.registers.cpu.get_mut(1).unwrap() = 0x1234;

    let csrrsi = TypeI {
        rd_rs2: 1,
        rs1: 4,
        imm: 0x342,
        funct3: SystemMiscMem::CSRRSI_FUNC,
    };

    let result = SystemMiscMem::decode(csrrsi.to_embive()).execute(&mut interpreter);
    assert_eq!(result, Ok(State::Running));
    assert_eq!(interpreter.registers.cpu.get(1).unwrap(), 0x1230);
    assert_eq!(
        interpreter
            .registers
            .control_status
            .operation(None, 0x342)
            .unwrap(),
        0x1234
    );
}

#[test]
fn test_csrrci() {
    let mut memory = SliceMemory::new(vec![], vec![]);
    let mut interpreter = Interpreter::new(memory, 0);
    interpreter
        .registers
        .control_status
        .operation(Some(CSOperation::Write(0x1234)), 0x342)
        .unwrap();

    *interpreter.registers.cpu.get_mut(1).unwrap() = 0x1230;

    let csrrci = TypeI {
        rd_rs2: 1,
        rs1: 4,
        imm: 0x342,
        funct3: SystemMiscMem::CSRRCI_FUNC,
    };

    let result = SystemMiscMem::decode(csrrci.to_embive()).execute(&mut interpreter);
    assert_eq!(result, Ok(State::Running));
    assert_eq!(interpreter.registers.cpu.get(1).unwrap(), 0x1234);
    assert_eq!(
        interpreter
            .registers
            .control_status
            .operation(None, 0x342)
            .unwrap(),
        0x1230
    );
}

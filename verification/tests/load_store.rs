#![allow(unused_imports, unused_mut, unused_variables)]
use embive::format::{
    Format, TypeB, TypeCB1, TypeCB2, TypeCB4, TypeCI1, TypeCI2, TypeCI3, TypeCI4, TypeCI5, TypeCIW,
    TypeCJ, TypeCL, TypeCR, TypeCS, TypeCSS, TypeI, TypeJ, TypeR, TypeU,
};
use embive::instruction::embive::{
    Auipc, Branch, CAddi, CAddi16sp, CAddi4spn, CAnd, CBeqz, CBnez, CEbreakJalrAdd, CJal, CJrMv, CLi,
    CLw, COr, CSrli, CSw, InstructionImpl, Jal, Jalr, LoadStore, Lui, OpAmo, OpImm, SystemMiscMem,
};
use embive::interpreter::memory::{SliceMemory, RAM_OFFSET};
use embive::interpreter::registers::{CPURegister, CSOperation};
use embive::interpreter::{Error, Interpreter, State};


fn get_ram_addr() -> i32 {
    RAM_OFFSET as i32
}

#[test]
fn test_lb() {
    let mut ram = [0x0; 2];
    ram[1] = 0x12;

    let mut memory = SliceMemory::new(vec![], ram.to_vec());
    let mut interpreter = Interpreter::new(memory, 0);
    let lb = TypeI {
        rd_rs2: 1,
        rs1: 2,
        imm: 0x1,
        funct3: LoadStore::LB_FUNC,
    };
    *interpreter.registers.cpu.get_mut(2).unwrap() = get_ram_addr();

    let result = LoadStore::decode(lb.to_embive()).execute(&mut interpreter);
    assert_eq!(result, Ok(State::Running));
    assert_eq!(*interpreter.registers.cpu.get_mut(1).unwrap(), 0x12);
    assert_eq!(interpreter.program_counter, LoadStore::size() as u32);
}

#[test]
fn test_lb_negative() {
    let mut ram = [0x0; 2];
    ram[1] = -0x12i8 as u8;

    let mut memory = SliceMemory::new(vec![], ram.to_vec());
    let mut interpreter = Interpreter::new(memory, 0);
    let lb = TypeI {
        rd_rs2: 1,
        rs1: 2,
        imm: 0x1,
        funct3: LoadStore::LB_FUNC,
    };
    *interpreter.registers.cpu.get_mut(2).unwrap() = get_ram_addr();

    let result = LoadStore::decode(lb.to_embive()).execute(&mut interpreter);
    assert_eq!(result, Ok(State::Running));
    assert_eq!(*interpreter.registers.cpu.get_mut(1).unwrap(), -0x12);
    assert_eq!(interpreter.program_counter, LoadStore::size() as u32);
}

#[test]
fn test_lh() {
    let mut ram = [0x0; 3];
    ram[1] = 0x12;
    ram[2] = 0x34;

    let mut memory = SliceMemory::new(vec![], ram.to_vec());
    let mut interpreter = Interpreter::new(memory, 0);
    let lh = TypeI {
        rd_rs2: 1,
        rs1: 2,
        imm: 0x1,
        funct3: LoadStore::LH_FUNC,
    };
    *interpreter.registers.cpu.get_mut(2).unwrap() = get_ram_addr();

    let result = LoadStore::decode(lh.to_embive()).execute(&mut interpreter);
    assert_eq!(result, Ok(State::Running));
    assert_eq!(*interpreter.registers.cpu.get_mut(1).unwrap(), 0x3412);
    assert_eq!(interpreter.program_counter, LoadStore::size() as u32);
}

#[test]
fn test_lh_negative() {
    let mut ram = (-28098i16).to_le_bytes();

    let mut memory = SliceMemory::new(vec![], ram.to_vec());
    let mut interpreter = Interpreter::new(memory, 0);
    let lh = TypeI {
        rd_rs2: 1,
        rs1: 2,
        imm: 0x0,
        funct3: LoadStore::LH_FUNC,
    };
    *interpreter.registers.cpu.get_mut(2).unwrap() = get_ram_addr();

    let result = LoadStore::decode(lh.to_embive()).execute(&mut interpreter);
    assert_eq!(result, Ok(State::Running));
    assert_eq!(*interpreter.registers.cpu.get_mut(1).unwrap(), -28098);
    assert_eq!(interpreter.program_counter, LoadStore::size() as u32);
}

#[test]
fn test_lw() {
    let mut ram = [0x0; 5];
    ram[1] = 0x12;
    ram[2] = 0x34;
    ram[3] = 0x56;
    ram[4] = 0x78;

    let mut memory = SliceMemory::new(vec![], ram.to_vec());
    let mut interpreter = Interpreter::new(memory, 0);
    let lw = TypeI {
        rd_rs2: 1,
        rs1: 2,
        imm: 0x1,
        funct3: LoadStore::LW_FUNC,
    };
    *interpreter.registers.cpu.get_mut(2).unwrap() = get_ram_addr();

    let result = LoadStore::decode(lw.to_embive()).execute(&mut interpreter);
    assert_eq!(result, Ok(State::Running));
    assert_eq!(*interpreter.registers.cpu.get_mut(1).unwrap(), 0x78563412);
    assert_eq!(interpreter.program_counter, LoadStore::size() as u32);
}

#[test]
fn test_lw_negative() {
    let mut ram = (-19088744i32).to_le_bytes();

    let mut memory = SliceMemory::new(vec![], ram.to_vec());
    let mut interpreter = Interpreter::new(memory, 0);
    let lw = TypeI {
        rd_rs2: 1,
        rs1: 2,
        imm: 0x0,
        funct3: LoadStore::LW_FUNC,
    };
    *interpreter.registers.cpu.get_mut(2).unwrap() = get_ram_addr();

    let result = LoadStore::decode(lw.to_embive()).execute(&mut interpreter);
    assert_eq!(result, Ok(State::Running));
    assert_eq!(*interpreter.registers.cpu.get_mut(1).unwrap(), -19088744);
    assert_eq!(interpreter.program_counter, LoadStore::size() as u32);
}

#[test]
fn test_lbu() {
    let mut ram = [0x0; 2];
    ram[1] = 0x12;

    let mut memory = SliceMemory::new(vec![], ram.to_vec());
    let mut interpreter = Interpreter::new(memory, 0);
    let lbu = TypeI {
        rd_rs2: 1,
        rs1: 2,
        imm: 0x1,
        funct3: LoadStore::LBU_FUNC,
    };
    *interpreter.registers.cpu.get_mut(2).unwrap() = get_ram_addr();

    let result = LoadStore::decode(lbu.to_embive()).execute(&mut interpreter);
    assert_eq!(result, Ok(State::Running));
    assert_eq!(*interpreter.registers.cpu.get_mut(1).unwrap(), 0x12);
    assert_eq!(interpreter.program_counter, LoadStore::size() as u32);
}

#[test]
fn test_lbu_negative() {
    let mut ram = [0x0; 2];
    ram[1] = -0x12i8 as u8;

    let mut memory = SliceMemory::new(vec![], ram.to_vec());
    let mut interpreter = Interpreter::new(memory, 0);
    let lbu = TypeI {
        rd_rs2: 1,
        rs1: 2,
        imm: 0x1,
        funct3: LoadStore::LBU_FUNC,
    };
    *interpreter.registers.cpu.get_mut(2).unwrap() = get_ram_addr();

    let result = LoadStore::decode(lbu.to_embive()).execute(&mut interpreter);
    assert_eq!(result, Ok(State::Running));
    assert_eq!(
        *interpreter.registers.cpu.get_mut(1).unwrap(),
        (-0x12i8 as u8) as i32
    );
    assert_eq!(interpreter.program_counter, LoadStore::size() as u32);
}

#[test]
fn test_lhu() {
    let mut ram = [0x0; 3];
    ram[1] = 0x12;
    ram[2] = 0x34;

    let mut memory = SliceMemory::new(vec![], ram.to_vec());
    let mut interpreter = Interpreter::new(memory, 0);
    let lhu = TypeI {
        rd_rs2: 1,
        rs1: 2,
        imm: 0x1,
        funct3: LoadStore::LHU_FUNC,
    };
    *interpreter.registers.cpu.get_mut(2).unwrap() = get_ram_addr();

    let result = LoadStore::decode(lhu.to_embive()).execute(&mut interpreter);
    assert_eq!(result, Ok(State::Running));
    assert_eq!(*interpreter.registers.cpu.get_mut(1).unwrap(), 0x3412);
    assert_eq!(interpreter.program_counter, LoadStore::size() as u32);
}

#[test]
fn test_lhu_negative() {
    let mut ram = (-28098i16).to_le_bytes();

    let mut memory = SliceMemory::new(vec![], ram.to_vec());
    let mut interpreter = Interpreter::new(memory, 0);
    let lhu = TypeI {
        rd_rs2: 1,
        rs1: 2,
        imm: 0x0,
        funct3: LoadStore::LHU_FUNC,
    };
    *interpreter.registers.cpu.get_mut(2).unwrap() = get_ram_addr();

    let result = LoadStore::decode(lhu.to_embive()).execute(&mut interpreter);
    assert_eq!(result, Ok(State::Running));
    assert_eq!(
        *interpreter.registers.cpu.get_mut(1).unwrap(),
        (-28098i16 as u16) as i32
    );
    assert_eq!(interpreter.program_counter, LoadStore::size() as u32);
}

#[test]
fn test_sb() {
    let mut ram = [0; 2];
    let mut memory = SliceMemory::new(vec![], ram.to_vec());
    let mut interpreter = Interpreter::new(memory, 0);
    let store = TypeI {
        imm: 0x1,
        funct3: LoadStore::SB_FUNC,
        rs1: 1,
        rd_rs2: 2,
    };

    *interpreter.registers.cpu.get_mut(1).unwrap() = get_ram_addr();
    *interpreter.registers.cpu.get_mut(2).unwrap() = 0x2;

    let result = LoadStore::decode(store.to_embive()).execute(&mut interpreter);
    assert_eq!(result, Ok(State::Running));
    assert_eq!(interpreter.program_counter, LoadStore::size() as u32);
    assert_eq!(interpreter.memory.ram()[1], 0x2);
}

#[test]
fn test_sh() {
    let mut ram = [0; 4];
    let mut memory = SliceMemory::new(vec![], ram.to_vec());
    let mut interpreter = Interpreter::new(memory, 0);
    let store = TypeI {
        imm: 0x2,
        funct3: LoadStore::SH_FUNC,
        rs1: 1,
        rd_rs2: 2,
    };

    *interpreter.registers.cpu.get_mut(1).unwrap() = get_ram_addr();
    *interpreter.registers.cpu.get_mut(2).unwrap() = i32::from_le(0x1234);

    let result = LoadStore::decode(store.to_embive()).execute(&mut interpreter);
    assert_eq!(result, Ok(State::Running));
    assert_eq!(interpreter.program_counter, LoadStore::size() as u32);
    assert_eq!(interpreter.memory.ram()[2..4], [0x34, 0x12]);
}

#[test]
fn test_sw() {
    let mut ram = [0; 4];
    let mut memory = SliceMemory::new(vec![], ram.to_vec());
    let mut interpreter = Interpreter::new(memory, 0);
    let store = TypeI {
        imm: 0x0,
        funct3: LoadStore::SW_FUNC,
        rs1: 1,
        rd_rs2: 2,
    };

    *interpreter.registers.cpu.get_mut(1).unwrap() = get_ram_addr();
    *interpreter.registers.cpu.get_mut(2).unwrap() = i32::from_le(0x12345678);

    let result = LoadStore::decode(store.to_embive()).execute(&mut interpreter);
    assert_eq!(result, Ok(State::Running));
    assert_eq!(interpreter.program_counter, LoadStore::size() as u32);
    assert_eq!(interpreter.memory.ram()[0..4], [0x78, 0x56, 0x34, 0x12]);
}

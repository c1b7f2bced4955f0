#![allow(unused_imports, unused_mut, unused_variables)]
use embive::format::{
    Format, TypeB, TypeCB1, TypeCB2, TypeCB4, TypeCI1, TypeCI2, TypeCI3, TypeCI4, TypeCI5, TypeCIW,
    TypeCJ, TypeCL, TypeCR, TypeCS, TypeCSS, TypeI, TypeJ, TypeR, TypeU,
};
use embive::instruction::embive::{
    Auipc, Branch, CAddi, CAddi16sp, CAddi4spn, CAnd, CBeqz, CBnez, CEbreakJalrAdd, CJal, CJrMv, CLi,
    CLw, COr, CSrli, CSw, InstructionImpl, Jal, Jalr, LoadStore, Lui, OpAmo, OpImm, SystemMiscMem,
};
use embive::interpreter::memory::{SliceMemory, RAM_OFFSET};
use embive::interpreter::registers::{CPURegister, CSOperation};
use embive::interpreter::{Error, Interpreter, State};


fn get_ram_addr() -> i32 {
    RAM_OFFSET as i32
}

#[test]
fn test_caddi() {
    let mut memory = SliceMemory::new(vec![], vec![]);
    let mut interpreter = Interpreter::new(memory, Default::default());
    let addi = TypeCI1 {
        rd_rs1: 1,
        imm: 0x4,
    };

    *interpreter.registers.cpu.get_mut(1).unwrap() = 0x1;

    let result = CAddi::decode(addi.to_embive()).execute(&mut interpreter);
    assert_eq!(result, Ok(State::Running));
    assert_eq!(*interpreter.registers.cpu.get_mut(1).unwrap(), 0x5);
    assert_eq!(interpreter.program_counter, 0x2);
}

#[test]
fn test_caddi16spn() {
    let mut memory = SliceMemory::new(vec![], vec![]);
    let mut interpreter = Interpreter::new(memory, Default::default());
    *interpreter
        .registers
        .cpu
        .get_mut(CPURegister::SP as u8)
        .unwrap() = 0x1;

    let addi16sp = TypeCI2 { imm: 96, rd_rs1: 2 };

    let result = CAddi16sp::decode(addi16sp.to_embive()).execute(&mut interpreter);
    assert_eq!(result, Ok(State::Running));
    assert_eq!(
        interpreter
            .registers
            .cpu
            .get(CPURegister::SP as u8)
            .unwrap(),
        97
    );
    assert_eq!(interpreter.program_counter, 0x2);
}

#[test]
fn test_caddi4spn() {
    let mut memory = SliceMemory::new(vec![], vec![]);
    let mut interpreter = Interpreter::new(memory, Default::default());
    *interpreter
        .registers
        .cpu
        .get_mut(CPURegister::SP as u8)
        .unwrap() = 0x1;
    let caddi4spn = TypeCIW { rd: 10, imm: 0x100 };

    let result = CAddi4spn::decode(caddi4spn.to_embive()).execute(&mut interpreter);
    assert_eq!(result, Ok(State::Running));
    assert_eq!(interpreter.registers.cpu.get(10).unwrap(), 0x101);
    assert_eq!(interpreter.program_counter, 0x2);
}

#[test]
fn test_illegal() {
    let mut memory = SliceMemory::new(vec![], vec![]);
    let mut interpreter = Interpreter::new(memory, Default::default());
    let caddi4spn = TypeCIW { rd: 10, imm: 0x0 };

    let result = CAddi4spn::decode(caddi4spn.to_embive()).execute(&mut interpreter);
    assert_eq!(
        result,
        Err(Error::IllegalInstruction(interpreter.program_counter))
    );
}

#[test]
fn test_cand() {
    let mut memory = SliceMemory::new(vec![], vec![]);
    let mut interpreter = Interpreter::new(memory, 0);
    let and = TypeCS { rd_rs1: 1, rs2: 2 };

    *interpreter.registers.cpu.get_mut(1).unwrap() = 3;
    *interpreter.registers.cpu.get_mut(2).unwrap() = 1;

    let result = CAnd::decode(and.to_embive()).execute(&mut interpreter);
    assert_eq!(result, Ok(State::Running));
    assert_eq!(*interpreter.registers.cpu.get_mut(1).unwrap(), 1);
    assert_eq!(interpreter.program_counter, 0x2);
}

#[test]
fn test_cbeqz() {
    let mut memory = SliceMemory::new(vec![], vec![]);
    let mut interpreter = Interpreter::new(memory, Default::default());
    let beqz = TypeCB4 { imm: 0x4, rs1: 8 };

    *interpreter.registers.cpu.get_mut(8).unwrap() = 0x1;

    let result = CBeqz::decode(beqz.to_embive()).execute(&mut interpreter);
    assert_eq!(result, Ok(State::Running));
    assert_eq!(interpreter.program_counter, 0x2);
}

#[test]
fn test_cbeqz_zero() {
    let mut memory = SliceMemory::new(vec![], vec![]);
    let mut interpreter = Interpreter::new(memory, Default::default());
    let beqz = TypeCB4 { imm: 0x4, rs1: 8 };

    let result = CBeqz::decode(beqz.to_embive()).execute(&mut interpreter);
    assert_eq!(result, Ok(State::Running));
    assert_eq!(interpreter.program_counter, 0x4);
}

#[test]
fn test_cneqz() {
    let mut memory = SliceMemory::new(vec![], vec![]);
    let mut interpreter = Interpreter::new(memory, 0);
    let bnez = TypeCB4 { imm: 0x4, rs1: 8 };

    *interpreter.registers.cpu.get_mut(8).unwrap() = 0x1;

    let result = CBnez::decode(bnez.to_embive()).execute(&mut interpreter);
    assert_eq!(result, Ok(State::Running));
    assert_eq!(interpreter.program_counter, 0x4);
}

#[test]
fn test_cneqz_zero() {
    let mut memory = SliceMemory::new(vec![], vec![]);
    let mut interpreter = Interpreter::new(memory, 0);
    let bnez = TypeCB4 { imm: 0x4, rs1: 8 };

    let result = CBnez::decode(bnez.to_embive()).execute(&mut interpreter);
    assert_eq!(result, Ok(State::Running));
    assert_eq!(interpreter.program_counter, 0x2);
}

#[test]
fn test_cebreak() {
    let mut memory = SliceMemory::new(vec![], vec![]);
    let mut interpreter = Interpreter::new(memory, 0);
    let ebreak = TypeCR { rd_rs1: 0, rs2: 0 };

    let result = CEbreakJalrAdd::decode(ebreak.to_embive()).execute(&mut interpreter);
    assert_eq!(result, Ok(State::Halted));
    assert_eq!(interpreter.program_counter, 0x2);
}

#[test]
fn test_cjalr() {
    let mut memory = SliceMemory::new(vec![], vec![]);
    let mut interpreter = Interpreter::new(memory, 0);
    let jalr = TypeCR { rd_rs1: 1, rs2: 0 };

    *interpreter.registers.cpu.get_mut(1).unwrap() = 4;

    let result = CEbreakJalrAdd::decode(jalr.to_embive()).execute(&mut interpreter);
    assert_eq!(result, Ok(State::Running));
    assert_eq!(
        interpreter
            .registers
            .cpu
            .get(CPURegister::RA as u8)
            .unwrap(),
        0x2
    );
    assert_eq!(interpreter.program_counter, 0x4);
}

#[test]
fn test_cadd() {
    let mut memory = SliceMemory::new(vec![], vec![]);
    let mut interpreter = Interpreter::new(memory, 0);
    let add = TypeCR { rd_rs1: 1, rs2: 2 };

    *interpreter.registers.cpu.get_mut(1).unwrap() = 5;
    *interpreter.registers.cpu.get_mut(2).unwrap() = 3;

    let result = CEbreakJalrAdd::decode(add.to_embive()).execute(&mut interpreter);
    assert_eq!(result, Ok(State::Running));
    assert_eq!(*interpreter.registers.cpu.get_mut(1).unwrap(), 8);
    assert_eq!(interpreter.program_counter, 0x2);
}

#[test]
fn test_cjal() {
    let mut memory = SliceMemory::new(vec![], vec![]);
    let mut interpreter = Interpreter::new(memory, Default::default());
    let jal = TypeCJ { imm: 0xc };

    let result = CJal::decode(jal.to_embive()).execute(&mut interpreter);
    assert_eq!(result, Ok(State::Running));
    assert_eq!(
        interpreter
            .registers
            .cpu
            .get(CPURegister::RA as u8)
            .unwrap(),
        0x2
    );
    assert_eq!(interpreter.program_counter, 0xc);
}

#[test]
fn test_cjr() {
    let mut memory = SliceMemory::new(vec![], vec![]);
    let mut interpreter = Interpreter::new(memory, Default::default());
    let jr = TypeCR { rd_rs1: 1, rs2: 0 };

    *interpreter.registers.cpu.get_mut(1).unwrap() = 4;

    let result = CJrMv::decode(jr.to_embive()).execute(&mut interpreter);
    assert_eq!(result, Ok(State::Running));
    assert_eq!(interpreter.program_counter, 0x4);
}

#[test]
fn test_cmv() {
    let mut memory = SliceMemory::new(vec![], vec![]);
    let mut interpreter = Interpreter::new(memory, Default::default());
    let mv = TypeCR { rd_rs1: 1, rs2: 2 };

    *interpreter.registers.cpu.get_mut(2).unwrap() = 4;

    let result = CJrMv::decode(mv.to_embive()).execute(&mut interpreter);
    assert_eq!(result, Ok(State::Running));
    assert_eq!(*interpreter.registers.cpu.get_mut(1).unwrap(), 4);
    assert_eq!(interpreter.program_counter, 0x2);
}

#[test]
fn test_cli() {
    let mut memory = SliceMemory::new(vec![], vec![]);
    let mut interpreter = Interpreter::new(memory, Default::default());
    let li = TypeCI1 {
        rd_rs1: 1,
        imm: 0x4,
    };

    let result = CLi::decode(li.to_embive()).execute(&mut interpreter);
    assert_eq!(result, Ok(State::Running));
    assert_eq!(*interpreter.registers.cpu.get_mut(1).unwrap(), 0x4);
    assert_eq!(interpreter.program_counter, 0x2);
}

#[test]
fn test_clw() {
    let mut ram = [0x0; 8];
    ram[4] = 0x12;
    ram[5] = 0x34;
    ram[6] = 0x56;
    ram[7] = 0x78;

    let mut memory = SliceMemory::new(vec![], ram.to_vec());
    let mut interpreter = Interpreter::new(memory, 0);
    let lw = TypeCL {
        rd_rs2: 8,
        rs1: 9,
        imm: 0x4,
    };
    *interpreter.registers.cpu.get_mut(9).unwrap() = get_ram_addr();

    let result = CLw::decode(lw.to_embive()).execute(&mut interpreter);
    assert_eq!(result, Ok(State::Running));
    assert_eq!(*interpreter.registers.cpu.get_mut(8).unwrap(), 0x78563412);
    assert_eq!(interpreter.program_counter, 0x2);
}

#[test]
fn test_cor() {
    let mut memory = SliceMemory::new(vec![], vec![]);
    let mut interpreter = Interpreter::new(memory, Default::default());
    let or = TypeCS { rd_rs1: 1, rs2: 2 };

    *interpreter.registers.cpu.get_mut(1).unwrap() = 2;
    *interpreter.registers.cpu.get_mut(2).unwrap() = 1;

    let result = COr::decode(or.to_embive()).execute(&mut interpreter);
    assert_eq!(result, Ok(State::Running));
    assert_eq!(*interpreter.registers.cpu.get_mut(1).unwrap(), 3);
    assert_eq!(interpreter.program_counter, 0x2);
}

#[test]
fn test_csrli() {
    let mut memory = SliceMemory::new(vec![], vec![]);
    let mut interpreter = Interpreter::new(memory, 0);
    let srli = TypeCB1 { rd_rs1: 1, imm: 3 };

    *interpreter.registers.cpu.get_mut(1).unwrap() = -1;

    let result = CSrli::decode(srli.to_embive()).execute(&mut interpreter);
    assert_eq!(result, Ok(State::Running));
    assert_eq!(
        *interpreter.registers.cpu.get_mut(1).unwrap(),
        ((-1i32 as u32) >> 3) as i32
    );
    assert_eq!(interpreter.program_counter, 0x2);
}

#[test]
fn test_csw() {
    let mut ram = [0x0; 8];

    let mut memory = SliceMemory::new(vec![], ram.to_vec());
    let mut interpreter = Interpreter::new(memory, Default::default());
    let lw = TypeCL {
        rd_rs2: 8,
        rs1: 9,
        imm: 0x4,
    };
    *interpreter.registers.cpu.get_mut(9).unwrap() = get_ram_addr();
    *interpreter.registers.cpu.get_mut(8).unwrap() = i32::from_le(0x78563412);

    let result = CSw::decode(lw.to_embive()).execute(&mut interpreter);
    assert_eq!(result, Ok(State::Running));
    assert_eq!(interpreter.program_counter, 0x2);
    assert_eq!(&interpreter.memory.ram()[4..], &[0x12, 0x34, 0x56, 0x78]);
}

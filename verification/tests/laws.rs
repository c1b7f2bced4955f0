use embive::engine::{Config, Engine, EngineState, SYSCALL_ARGS};
use embive::error::Error as EngineError;
use embive::format::{Format, TypeB, TypeCJ, TypeCR, TypeI, TypeR};
use embive::instruction::embive::{
    CEbreakJalrAdd, CJrMv, InstructionImpl, LoadStore, OpAmo, OpImm, SystemMiscMem,
};
use embive::interpreter::decode_execute::decode_execute;
use embive::interpreter::memory::{Memory, MemoryType, SliceMemory, RAM_OFFSET};
use embive::interpreter::registers::{CSOperation, CSRegisters};
use embive::interpreter::{Error, Interpreter, State};
use embive::instruction::Instruction;

type NoSyscall = fn(i32, &[i32; SYSCALL_ARGS], &mut SliceMemory) -> Result<i32, i32>;

#[test]
fn embive_roundtrip_of_riscv_fields() {
    // bge x5, x8, -1336 in RISC-V, then Embive and back
    let parsed = TypeB::from_riscv(0b10101100100000101101010011100011);
    assert_eq!(TypeB::from_embive(parsed.to_embive()), parsed);
    let jump = TypeCJ { imm: -2048 };
    assert_eq!(TypeCJ::from_embive(jump.to_embive()), jump);
}

#[test]
fn store_then_load_each_type() {
    let mut memory = SliceMemory::new(vec![1, 2, 3], vec![0; 32]);
    (-5i64).store(&mut memory, RAM_OFFSET + 8).unwrap();
    assert_eq!(i64::load(&mut memory, RAM_OFFSET + 8), Ok(-5));
    0xDEAD_BEEFu32.store(&mut memory, RAM_OFFSET + 1).unwrap();
    assert_eq!(u32::load(&mut memory, RAM_OFFSET + 1), Ok(0xDEAD_BEEF));
    // The code and the other bytes are untouched
    assert_eq!(memory.code(), &[1, 2, 3]);
    assert_eq!(memory.ram()[0], 0);
    assert_eq!(memory.ram()[5], 0);
}

#[test]
fn access_length_overflow() {
    let mut memory = SliceMemory::new(vec![], vec![0; 4]);
    assert_eq!(
        memory.load_bytes(0xFFFF_FFFF, usize::MAX),
        Err(Error::InvalidMemoryAccessLength(usize::MAX))
    );
    // Code is read-only
    assert_eq!(memory.store_bytes(0x0, &[1]), Err(Error::InvalidMemoryAddress(0x8000_0001)));
}

#[test]
fn interrupt_then_mret_returns_with_interrupts_enabled() {
    let mut cs = CSRegisters::default();
    cs.operation(Some(CSOperation::Write(0b1000)), 0x300).unwrap(); // mstatus.MIE
    cs.operation(Some(CSOperation::Write(0x1_0000)), 0x304).unwrap(); // mie
    cs.operation(Some(CSOperation::Write(0x100)), 0x305).unwrap(); // mtvec
    assert!(cs.interrupt_enabled());

    let mut pc = 0x24;
    cs.set_interrupt();
    cs.trap_entry(&mut pc, 7);
    assert_eq!(pc, 0x100);
    assert!(!cs.interrupt_enabled());
    assert_eq!(cs.trap_value(), 7);

    let back = cs.trap_return();
    assert_eq!(back, 0x24);
    assert!(cs.interrupt_enabled());
}

#[test]
fn csr_masks() {
    let mut cs = CSRegisters::default();
    // mtvec keeps direct mode, mepc keeps bit 0 clear, mstatus keeps MIE and MPIE only
    assert_eq!(cs.operation(Some(CSOperation::Write(0xFF)), 0x305), Ok(0));
    assert_eq!(cs.operation(None, 0x305), Ok(0xFC));
    assert_eq!(cs.operation(Some(CSOperation::Write(0xFF)), 0x341), Ok(0));
    assert_eq!(cs.operation(None, 0x341), Ok(0xFE));
    assert_eq!(cs.operation(Some(CSOperation::Write(0xFF)), 0x300), Ok(0));
    assert_eq!(cs.operation(None, 0x300), Ok(0x88));
    assert_eq!(cs.operation(Some(CSOperation::SetBits(0x3)), 0x340), Ok(0));
    assert_eq!(cs.operation(Some(CSOperation::ClearBits(0x1)), 0x340), Ok(0x3));
    assert_eq!(cs.operation(None, 0x340), Ok(0x2));
    assert_eq!(cs.operation(None, 0x999), Err(Error::InvalidCSRegister(0x999)));
    // Counters read as 0
    assert_eq!(cs.operation(Some(CSOperation::Write(5)), 0xB00), Ok(0));
    assert_eq!(cs.operation(None, 0xB00), Ok(0));
}

#[test]
fn division_edge_cases() {
    let mut interpreter = Interpreter::new(SliceMemory::new(vec![], vec![]), 0);
    interpreter.registers.cpu.set(2, i32::MIN).unwrap();
    interpreter.registers.cpu.set(3, -1).unwrap();
    let div = OpAmo(TypeR { rd: 1, rs1: 2, rs2: 3, funct10: OpAmo::DIV_FUNC });
    assert_eq!(div.execute(&mut interpreter), Ok(State::Running));
    assert_eq!(interpreter.registers.cpu.get(1), Ok(i32::MIN));
    let rem = OpAmo(TypeR { rd: 1, rs1: 2, rs2: 3, funct10: OpAmo::REM_FUNC });
    assert_eq!(rem.execute(&mut interpreter), Ok(State::Running));
    assert_eq!(interpreter.registers.cpu.get(1), Ok(0));

    interpreter.registers.cpu.set(2, -7).unwrap();
    interpreter.registers.cpu.set(3, 2).unwrap();
    assert_eq!(div.execute(&mut interpreter), Ok(State::Running));
    assert_eq!(interpreter.registers.cpu.get(1), Ok(-3));
    assert_eq!(rem.execute(&mut interpreter), Ok(State::Running));
    assert_eq!(interpreter.registers.cpu.get(1), Ok(-1));

    interpreter.registers.cpu.set(3, 0).unwrap();
    let divu = OpAmo(TypeR { rd: 1, rs1: 2, rs2: 3, funct10: OpAmo::DIVU_FUNC });
    assert_eq!(divu.execute(&mut interpreter), Ok(State::Running));
    assert_eq!(interpreter.registers.cpu.get(1), Ok(-1));
    let remu = OpAmo(TypeR { rd: 1, rs1: 2, rs2: 3, funct10: OpAmo::REMU_FUNC });
    assert_eq!(remu.execute(&mut interpreter), Ok(State::Running));
    assert_eq!(interpreter.registers.cpu.get(1), Ok(-7));

    interpreter.registers.cpu.set(2, -1).unwrap();
    interpreter.registers.cpu.set(3, -1).unwrap();
    let mulhu = OpAmo(TypeR { rd: 1, rs1: 2, rs2: 3, funct10: OpAmo::MULHU_FUNC });
    assert_eq!(mulhu.execute(&mut interpreter), Ok(State::Running));
    assert_eq!(interpreter.registers.cpu.get(1), Ok(-2));
    let mulhsu = OpAmo(TypeR { rd: 1, rs1: 2, rs2: 3, funct10: OpAmo::MULHSU_FUNC });
    assert_eq!(mulhsu.execute(&mut interpreter), Ok(State::Running));
    assert_eq!(interpreter.registers.cpu.get(1), Ok(-1));
}

#[test]
fn invalid_operation_changes_nothing() {
    let mut interpreter = Interpreter::new(SliceMemory::new(vec![], vec![]), 0);
    interpreter.registers.cpu.set(2, 3).unwrap();
    let op = OpAmo(TypeR { rd: 1, rs1: 2, rs2: 2, funct10: 40 });
    // An unknown atomic operation reads memory first
    assert_eq!(op.execute(&mut interpreter), Err(Error::InvalidMemoryAddress(7)));
    let op = OpImm(TypeI { rd_rs2: 1, rs1: 2, imm: 0, funct3: 9 });
    assert_eq!(op.execute(&mut interpreter), Err(Error::InvalidInstruction(0)));
    let op = OpImm(TypeI { rd_rs2: 40, rs1: 2, imm: 0, funct3: 0 });
    assert_eq!(op.execute(&mut interpreter), Err(Error::InvalidCPURegister(40)));
    assert_eq!(interpreter.registers.cpu.get(1), Ok(0));
    assert_eq!(interpreter.program_counter, 0);
}

#[test]
fn decode_execute_dispatches_on_the_opcode() {
    let mut interpreter = Interpreter::new(SliceMemory::new(vec![], vec![]), 0);
    let word = OpImm(TypeI { rd_rs2: 3, rs1: 0, imm: 9, funct3: OpImm::ADDI_FUNC }).encode() | 29;
    assert_eq!(decode_execute(&mut interpreter, Instruction::from(word)), Ok(State::Running));
    assert_eq!(interpreter.registers.cpu.get(3), Ok(9));
    let word = SystemMiscMem(TypeI { rd_rs2: 0, rs1: 0, imm: 1, funct3: 0 }).encode() | 31;
    assert_eq!(decode_execute(&mut interpreter, Instruction::from(word)), Ok(State::Halted));
    assert_eq!(u32::from(Instruction::from(word)), word);
}

#[test]
fn run_is_steps_and_reset_clears() {
    let word = OpImm(TypeI { rd_rs2: 3, rs1: 3, imm: 1, funct3: OpImm::ADDI_FUNC }).encode() | 29;
    let code: Vec<u8> = [word, word, word].iter().flat_map(|w| w.to_le_bytes()).collect();
    let mut interpreter = Interpreter::new(SliceMemory::new(code, vec![]), 2);
    assert_eq!(interpreter.run(), Ok(State::Running));
    assert_eq!(interpreter.registers.cpu.get(3), Ok(2));
    // The fourth fetch falls off the code
    assert_eq!(interpreter.run(), Err(Error::InvalidMemoryAddress(16)));
    assert_eq!(interpreter.registers.cpu.get(3), Ok(3));
    interpreter.reset();
    assert_eq!(interpreter.program_counter, 0);
    assert_eq!(interpreter.registers.cpu.get(3), Ok(0));
    assert_eq!(interpreter.memory_reservation, None);
}

#[test]
fn engine_errors() {
    // An unknown opcode, then a fetch past the code
    let code = vec![0x7F, 0x00, 0x00, 0x00];
    let mut engine = Engine::new(SliceMemory::new(code, vec![]), Config::<NoSyscall>::default()).unwrap();
    assert_eq!(engine.step(), Err(EngineError::InvalidInstruction));
    engine.program_counter = 4;
    assert_eq!(engine.fetch(), Err(EngineError::InvalidMemoryAddress));
    assert_eq!(engine.interrupt(), Err(EngineError::InterruptNotEnabled));
    assert_eq!(EngineError::from(Error::IllegalInstruction(4)), EngineError::InvalidInstruction);
    assert_eq!(EngineError::from(Error::InvalidCPURegister(40)), EngineError::InvalidCPURegister);
}

#[test]
fn engine_ecall_without_function() {
    // ecall
    let code = vec![0x73, 0x00, 0x00, 0x00];
    let mut engine = Engine::new(SliceMemory::new(code, vec![]), Config::<NoSyscall>::default()).unwrap();
    assert_eq!(engine.run(), Err(EngineError::NoSyscallFunction));
    assert_eq!(engine.program_counter, 4);
    assert_eq!(EngineState::default(), EngineState::Running);
}

#[test]
fn loads_keep_x0_zero() {
    let mut interpreter = Interpreter::new(SliceMemory::new(vec![], vec![0x12, 0x34, 0x56, 0x78]), 0);
    interpreter.registers.cpu.set(2, RAM_OFFSET as i32).unwrap();
    let lw = LoadStore(TypeI { rd_rs2: 0, rs1: 2, imm: 0, funct3: LoadStore::LW_FUNC });
    assert_eq!(lw.execute(&mut interpreter), Ok(State::Running));
    assert_eq!(interpreter.registers.cpu.get(0), Ok(0));
    assert_eq!(interpreter.program_counter, 4);
    // A load into x0 still reads: one past the RAM fails
    let lw = LoadStore(TypeI { rd_rs2: 0, rs1: 2, imm: 4, funct3: LoadStore::LW_FUNC });
    assert_eq!(lw.execute(&mut interpreter), Err(Error::InvalidMemoryAddress(8)));
    // c.add and c.mv into x0 keep it zero
    interpreter.registers.cpu.set(3, 5).unwrap();
    let add = CEbreakJalrAdd(TypeCR { rd_rs1: 0, rs2: 3 });
    assert_eq!(add.execute(&mut interpreter), Ok(State::Running));
    let mv = CJrMv(TypeCR { rd_rs1: 0, rs2: 3 });
    assert_eq!(mv.execute(&mut interpreter), Ok(State::Running));
    assert_eq!(interpreter.registers.cpu.get(0), Ok(0));
}

#[test]
fn engine_load_keeps_x0_zero() {
    // lw x0, 0(x0): reads the word at address 0, discards it
    let code = vec![0x03, 0x20, 0x00, 0x00];
    let mut engine = Engine::new(SliceMemory::new(code, vec![]), Config::<NoSyscall>::default()).unwrap();
    assert_eq!(engine.step(), Ok(EngineState::Running));
    assert_eq!(engine.registers.cpu.get(0), Ok(0));
    assert_eq!(engine.program_counter, 4);
}

#[test]
fn store_then_load_instruction() {
    let mut interpreter = Interpreter::new(SliceMemory::new(vec![], vec![0; 8]), 0);
    interpreter.registers.cpu.set(2, RAM_OFFSET as i32).unwrap();
    interpreter.registers.cpu.set(3, -0x1234_5680).unwrap();
    let sh = LoadStore(TypeI { rd_rs2: 3, rs1: 2, imm: 2, funct3: LoadStore::SH_FUNC });
    assert_eq!(sh.execute(&mut interpreter), Ok(State::Running));
    let lh = LoadStore(TypeI { rd_rs2: 4, rs1: 2, imm: 2, funct3: LoadStore::LH_FUNC });
    assert_eq!(lh.execute(&mut interpreter), Ok(State::Running));
    assert_eq!(interpreter.registers.cpu.get(4), Ok(-0x1234_5680i32 as i16 as i32));
    let lhu = LoadStore(TypeI { rd_rs2: 5, rs1: 2, imm: 2, funct3: LoadStore::LHU_FUNC });
    assert_eq!(lhu.execute(&mut interpreter), Ok(State::Running));
    assert_eq!(interpreter.registers.cpu.get(5), Ok(-0x1234_5680i32 as u16 as i32));
}

#[test]
fn lr_then_sc_then_sc() {
    let mut interpreter = Interpreter::new(SliceMemory::new(vec![], vec![1, 0, 0, 0]), 0);
    interpreter.registers.cpu.set(2, RAM_OFFSET as i32).unwrap();
    interpreter.registers.cpu.set(3, 77).unwrap();
    let lr = OpAmo(TypeR { rd: 1, rs1: 2, rs2: 0, funct10: OpAmo::LR_FUNC });
    assert_eq!(lr.execute(&mut interpreter), Ok(State::Running));
    assert_eq!(interpreter.registers.cpu.get(1), Ok(1));
    let sc = OpAmo(TypeR { rd: 4, rs1: 2, rs2: 3, funct10: OpAmo::SC_FUNC });
    assert_eq!(sc.execute(&mut interpreter), Ok(State::Running));
    assert_eq!(interpreter.registers.cpu.get(4), Ok(0));
    assert_eq!(i32::load(&mut interpreter.memory, RAM_OFFSET), Ok(77));
    assert_eq!(interpreter.memory_reservation, None);
    // A second store-conditional has no reservation left
    interpreter.registers.cpu.set(3, 99).unwrap();
    assert_eq!(sc.execute(&mut interpreter), Ok(State::Running));
    assert_eq!(interpreter.registers.cpu.get(4), Ok(1));
    assert_eq!(i32::load(&mut interpreter.memory, RAM_OFFSET), Ok(77));
}

#[test]
fn interrupt_taken_once() {
    let mut interpreter = Interpreter::new(SliceMemory::new(vec![], vec![]), 0);
    // Refused while disabled, and nothing changes
    assert_eq!(interpreter.interrupt(3), Err(Error::InterruptNotEnabled));
    assert_eq!(interpreter.program_counter, 0);
    let cs = &mut interpreter.registers.control_status;
    cs.operation(Some(CSOperation::Write(0x8)), 0x300).unwrap(); // mstatus.MIE
    cs.operation(Some(CSOperation::Write(0x1_0000)), 0x304).unwrap(); // mie
    cs.operation(Some(CSOperation::Write(0x40)), 0x305).unwrap(); // mtvec
    assert_eq!(interpreter.interrupt(3), Ok(()));
    assert_eq!(interpreter.program_counter, 0x40);
    // mcause: interrupt bit and code 11
    assert_eq!(interpreter.registers.control_status.operation(None, 0x342), Ok(0x8000_000B));
    // No nested trap
    assert_eq!(interpreter.interrupt(4), Err(Error::InterruptNotEnabled));
    assert_eq!(interpreter.program_counter, 0x40);
}

#[test]
fn csr_read_keeps_and_write_reads_back() {
    let mut cs = CSRegisters::default();
    assert_eq!(cs.operation(Some(CSOperation::Write(0x1898)), 0x300), Ok(0));
    assert_eq!(cs.operation(None, 0x300), Ok(0x88));
    assert_eq!(cs.operation(None, 0x300), Ok(0x88));
    assert_eq!(cs.operation(Some(CSOperation::Write(0x3_0000)), 0x344), Ok(0));
    assert_eq!(cs.operation(None, 0x344), Ok(0x1_0000));
    assert_eq!(cs.operation(None, 0x301), Ok(0x4000_1101));
}

#[test]
fn interpreter_syscall_error_code() {
    // a7 = 5, ecall answered with an error code
    let mut interpreter = Interpreter::new(SliceMemory::new(vec![], vec![]), 0);
    interpreter.registers.cpu.set(17, 5).unwrap();
    interpreter.registers.cpu.set(11, 9).unwrap();
    let mut f = |nr: i32, _args: &[i32; 7], _m: &mut SliceMemory| -> Result<Result<i32, i32>, ()> {
        Ok(Err(-nr))
    };
    assert_eq!(interpreter.syscall(&mut f), Ok(()));
    assert_eq!(interpreter.registers.cpu.get(10), Ok(-5));
    assert_eq!(interpreter.registers.cpu.get(11), Ok(0));
    let mut g = |_nr: i32, _args: &[i32; 7], _m: &mut SliceMemory| -> Result<Result<i32, i32>, u8> { Err(4) };
    assert_eq!(interpreter.syscall(&mut g), Err(4));
    assert_eq!(interpreter.registers.cpu.get(10), Ok(-5));
}

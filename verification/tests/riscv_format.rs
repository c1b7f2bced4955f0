#![allow(unused_imports)]
use embive::instruction::format::{TypeB, TypeI, TypeJ, TypeR, TypeS, TypeU};

fn test_from_into<T>(inst: T)
where
    T: Into<u32> + From<u32> + PartialEq + std::fmt::Debug + Copy,
{
    let into: u32 = inst.into();
    let from: T = T::from(into);
    assert_eq!(inst, from);
}

#[test]
fn format_test_type_r() {
    let inst = u32::from_le(0b01000000001100100101000010110011); // sra x1, x4, x3
    let parsed = TypeR::from(inst);
    test_from_into(parsed);

    assert_eq!(parsed.rd, 1);
    assert_eq!(parsed.rs1, 4);
    assert_eq!(parsed.rs2, 3);
    assert_eq!(parsed.funct10, (32 << 3) | 5);
}

#[test]
fn format_test_type_i_negative() {
    let inst = u32::from_le(0b11000001100000010000000110010011); // addi x3, x2, -1000
    let parsed = TypeI::from(inst);
    test_from_into(parsed);

    assert_eq!(parsed.rd, 3);
    assert_eq!(parsed.funct3, 0);
    assert_eq!(parsed.rs1, 2);
    assert_eq!(parsed.imm as i32, -1000);
}

#[test]
fn format_test_type_i_positive() {
    let inst = u32::from_le(0b01111111101000000100000010010011); // xori x1, x0, 2042
    let parsed = TypeI::from(inst);
    test_from_into(parsed);

    assert_eq!(parsed.rd, 1);
    assert_eq!(parsed.funct3, 4);
    assert_eq!(parsed.rs1, 0);
    assert_eq!(parsed.imm as i32, 2042);
}

#[test]
fn format_test_type_s_negative() {
    let inst = u32::from_le(0b11100000000100010001101100100011); // sh x1, -490(x2)
    let parsed = TypeS::from(inst);
    test_from_into(parsed);

    assert_eq!(parsed.imm, -490);
    assert_eq!(parsed.funct3, 1);
    assert_eq!(parsed.rs1, 2);
    assert_eq!(parsed.rs2, 1);
}

#[test]
fn format_test_type_s_positive() {
    let inst = u32::from_le(0b00011110000100010001010100100011); // sh x1, 490(x2)
    let parsed = TypeS::from(inst);
    test_from_into(parsed);

    assert_eq!(parsed.imm, 490);
    assert_eq!(parsed.funct3, 1);
    assert_eq!(parsed.rs1, 2);
    assert_eq!(parsed.rs2, 1);
}

#[test]
fn format_test_type_b_negative() {
    let inst = u32::from_le(0b10101100100000101001010011100011); // bne x5, x8, -1336
    let parsed = TypeB::from(inst);
    test_from_into(parsed);

    assert_eq!(parsed.imm, -1336);
    assert_eq!(parsed.funct3, 1);
    assert_eq!(parsed.rs1, 5);
    assert_eq!(parsed.rs2, 8);
}

#[test]
fn format_test_type_b_positive() {
    let inst = u32::from_le(0b00101100100000101001010001100011); // bne x5, x8, 712
    let parsed = TypeB::from(inst);
    test_from_into(parsed);

    assert_eq!(parsed.imm, 712);
    assert_eq!(parsed.funct3, 1);
    assert_eq!(parsed.rs1, 5);
    assert_eq!(parsed.rs2, 8);
}

#[test]
fn format_test_type_u_negative() {
    let inst = u32::from_le(0b11110000001000001111000110110111); // lui x3, -65009
    let parsed = TypeU::from(inst);
    test_from_into(parsed);

    assert_eq!(parsed.imm, -65009 << 12);
    assert_eq!(parsed.rd, 3);
}

#[test]
fn format_test_type_u_positive() {
    let inst = u32::from_le(0b00010000001000001111000110110111); // lui x3, 66063
    let parsed = TypeU::from(inst);
    test_from_into(parsed);

    assert_eq!(parsed.imm, 66063 << 12);
    assert_eq!(parsed.rd, 3);
}

#[test]
fn format_test_type_j_negative() {
    let inst = u32::from_le(0b10101100001100011011000111101111); // jal x3, -935230
    let parsed = TypeJ::from(inst);
    test_from_into(parsed);

    assert_eq!(parsed.imm, -935230);
    assert_eq!(parsed.rd, 3);
}

#[test]
fn format_test_type_j_positive() {
    let inst = u32::from_le(0b01011100001100011011000111101111); // jal x3, 114114
    let parsed = TypeJ::from(inst);
    test_from_into(parsed);

    assert_eq!(parsed.imm, 114114);
    assert_eq!(parsed.rd, 3);
}

//! Bit-level facts about the instruction layouts, proved by the bit-vector solver.
use vstd::prelude::*;

use super::{bit_field, compressed_register, sign_extend};

verus! {

/// The RISC-V bit layouts of the 32-bit formats, read with shifts and masks.
pub proof fn lemma_riscv_base_fields(inst: u32)
    by (bit_vector)
    ensures
        ((inst >> 7u32) & 0b1_1111u32) as u8 == bit_field(inst, 7u32, 5u32) as u8,
        ((inst >> 15u32) & 0b1_1111u32) as u8 == bit_field(inst, 15u32, 5u32) as u8,
        ((inst >> 20u32) & 0b1_1111u32) as u8 == bit_field(inst, 20u32, 5u32) as u8,
        (((inst >> 22u32) & (0b111_1111u32 << 3u32)) | ((inst >> 12u32) & 0b111u32)) as u16 == (bit_field(inst, 25u32, 7u32) << 3u32 | bit_field(inst, 12u32, 3u32)) as u16,
        ((inst & (0b1111_1111_1111u32 << 20u32)) as i32 >> 20u32) == sign_extend(bit_field(inst, 20u32, 12u32), 12u32),
        ((inst >> 12u32) & 0b111u32) as u8 == bit_field(inst, 12u32, 3u32) as u8,
        ((inst & (0b111_1111u32 << 25u32)) | ((inst & (0b1_1111u32 << 7u32)) << 13u32)) as i32 >> 20u32 == sign_extend(bit_field(inst, 25u32, 7u32) << 5u32 | bit_field(inst, 7u32, 5u32), 12u32),
        ((inst & (0b1u32 << 31u32)) | ((inst & (0b1u32 << 7u32)) << 23u32) | ((inst & (0b11_1111u32 << 25u32)) >> 1u32) | ((inst & (0b1111u32 << 8u32)) << 12u32)) as i32 >> 19u32 == sign_extend(bit_field(inst, 31u32, 1u32) << 12u32 | bit_field(inst, 7u32, 1u32) << 11u32 | bit_field(inst, 25u32, 6u32) << 5u32 | bit_field(inst, 8u32, 4u32) << 1u32, 13u32),
        (inst & (0b1111_1111_1111_1111_1111u32 << 12u32)) as i32 == (bit_field(inst, 12u32, 20u32) << 12u32) as i32,
        ((inst & (0b1u32 << 31u32)) | ((inst & (0b1111_1111u32 << 12u32)) << 11u32) | ((inst & (0b1u32 << 20u32)) << 2u32) | ((inst & (0b11_1111_1111u32 << 21u32)) >> 9u32)) as i32 >> 11u32 == sign_extend(bit_field(inst, 31u32, 1u32) << 20u32 | bit_field(inst, 12u32, 8u32) << 12u32 | bit_field(inst, 20u32, 1u32) << 11u32 | bit_field(inst, 21u32, 10u32) << 1u32, 21u32),
        (bit_field(inst, 7u32, 5u32) as u8) < 32 && (bit_field(inst, 15u32, 5u32) as u8) < 32 && (bit_field(inst, 20u32, 5u32) as u8) < 32 && ((bit_field(inst, 25u32, 7u32) << 3u32 | bit_field(inst, 12u32, 3u32)) as u16) < 1024,
        (bit_field(inst, 7u32, 5u32) as u8) < 32 && (bit_field(inst, 15u32, 5u32) as u8) < 32 && (bit_field(inst, 12u32, 3u32) as u8) < 8 && -2048 <= (sign_extend(bit_field(inst, 20u32, 12u32), 12u32)) < 2048,
        (bit_field(inst, 15u32, 5u32) as u8) < 32 && (bit_field(inst, 20u32, 5u32) as u8) < 32 && (bit_field(inst, 12u32, 3u32) as u8) < 8 && -2048 <= (sign_extend(bit_field(inst, 25u32, 7u32) << 5u32 | bit_field(inst, 7u32, 5u32), 12u32)) < 2048,
        (bit_field(inst, 15u32, 5u32) as u8) < 32 && (bit_field(inst, 20u32, 5u32) as u8) < 32 && (bit_field(inst, 12u32, 3u32) as u8) < 8 && -4096 <= (sign_extend(bit_field(inst, 31u32, 1u32) << 12u32 | bit_field(inst, 7u32, 1u32) << 11u32 | bit_field(inst, 25u32, 6u32) << 5u32 | bit_field(inst, 8u32, 4u32) << 1u32, 13u32)) < 4096 && (sign_extend(bit_field(inst, 31u32, 1u32) << 12u32 | bit_field(inst, 7u32, 1u32) << 11u32 | bit_field(inst, 25u32, 6u32) << 5u32 | bit_field(inst, 8u32, 4u32) << 1u32, 13u32)) & 1 == 0,
        (bit_field(inst, 7u32, 5u32) as u8) < 32 && ((bit_field(inst, 12u32, 20u32) << 12u32) as i32) & 0xFFF == 0,
        (bit_field(inst, 7u32, 5u32) as u8) < 32 && -1048576 <= (sign_extend(bit_field(inst, 31u32, 1u32) << 20u32 | bit_field(inst, 12u32, 8u32) << 12u32 | bit_field(inst, 20u32, 1u32) << 11u32 | bit_field(inst, 21u32, 10u32) << 1u32, 21u32)) < 1048576 && (sign_extend(bit_field(inst, 31u32, 1u32) << 20u32 | bit_field(inst, 12u32, 8u32) << 12u32 | bit_field(inst, 20u32, 1u32) << 11u32 | bit_field(inst, 21u32, 10u32) << 1u32, 21u32)) & 1 == 0,
{
}

/// The RISC-V bit layouts of the compressed formats, read with shifts and masks.
pub proof fn lemma_riscv_compressed_fields(inst: u32)
    by (bit_vector)
    ensures
        ((inst >> 2u32) & 0b111u32) as u8 == bit_field(inst, 2u32, 3u32) as u8,
        bit_field(inst, 2u32, 3u32) < 8u32,
        (((inst & (0b1u32 << 6u32)) >> 4u32) | ((inst & (0b1u32 << 5u32)) >> 2u32) | ((inst & (0b11u32 << 11u32)) >> 7u32) | ((inst & (0b1111u32 << 7u32)) >> 1u32)) as i32 == (bit_field(inst, 6u32, 1u32) << 2u32 | bit_field(inst, 5u32, 1u32) << 3u32 | bit_field(inst, 11u32, 2u32) << 4u32 | bit_field(inst, 7u32, 4u32) << 6u32) as i32,
        ((inst >> 7u32) & 0b111u32) as u8 == bit_field(inst, 7u32, 3u32) as u8,
        bit_field(inst, 7u32, 3u32) < 8u32,
        (((inst & (0b1u32 << 5u32)) << 1u32) | ((inst & (0b111u32 << 10u32)) >> 7u32) | ((inst & (0b1u32 << 6u32)) >> 4u32)) as i32 == (bit_field(inst, 5u32, 1u32) << 6u32 | bit_field(inst, 10u32, 3u32) << 3u32 | bit_field(inst, 6u32, 1u32) << 2u32) as i32,
        ((inst >> 7u32) & 0b1_1111u32) as u8 == bit_field(inst, 7u32, 5u32) as u8,
        ((((inst & (0b1_1111u32 << 2u32)) | ((inst & (0b1u32 << 12u32)) >> 5u32)) as i8) >> 2u32) as i32 == sign_extend(bit_field(inst, 12u32, 1u32) << 5u32 | bit_field(inst, 2u32, 5u32), 6u32),
        (((((inst & (0b1u32 << 12u32)) >> 5u32) | ((inst & (0b11u32 << 3u32)) << 2u32) | ((inst & (0b1u32 << 5u32)) >> 1u32) | ((inst & (0b1u32 << 2u32)) << 1u32) | ((inst & (0b1u32 << 6u32)) >> 4u32)) as i8) as i32) << 2u32 == sign_extend(bit_field(inst, 12u32, 1u32) << 9u32 | bit_field(inst, 3u32, 2u32) << 7u32 | bit_field(inst, 5u32, 1u32) << 6u32 | bit_field(inst, 2u32, 1u32) << 5u32 | bit_field(inst, 6u32, 1u32) << 4u32, 10u32),
        ((((inst & (0b1_1111u32 << 2u32)) | ((inst & (0b1u32 << 12u32)) >> 5u32)) as i8) as i32) << 10u32 == sign_extend(bit_field(inst, 12u32, 1u32) << 17u32 | bit_field(inst, 2u32, 5u32) << 12u32, 18u32),
        (((inst & (0b1_1111u32 << 2u32)) | ((inst & (0b1u32 << 12u32)) >> 5u32)) >> 2u32) as i32 == (bit_field(inst, 12u32, 1u32) << 5u32 | bit_field(inst, 2u32, 5u32)) as i32,
        ((((inst & (0b11u32 << 2u32)) << 11u32) | (inst & (0b1u32 << 12u32)) | ((inst & (0b111u32 << 4u32)) << 5u32)) as i32) >> 7u32 == (bit_field(inst, 2u32, 2u32) << 6u32 | bit_field(inst, 12u32, 1u32) << 5u32 | bit_field(inst, 4u32, 3u32) << 2u32) as i32,
        (((((inst & (0b1u32 << 12u32)) >> 5u32) | (inst & (0b11u32 << 5u32)) | ((inst & (0b1u32 << 2u32)) << 2u32) | ((inst & (0b11u32 << 10u32)) >> 8u32) | ((inst & (0b11u32 << 3u32)) >> 3u32)) as i8) as i32) << 1u32 == sign_extend(bit_field(inst, 12u32, 1u32) << 8u32 | bit_field(inst, 5u32, 2u32) << 6u32 | bit_field(inst, 2u32, 1u32) << 5u32 | bit_field(inst, 10u32, 2u32) << 3u32 | bit_field(inst, 3u32, 2u32) << 1u32, 9u32),
        ((inst >> 2u32) & 0b1_1111u32) as u8 == bit_field(inst, 2u32, 5u32) as u8,
        (((inst & (0b11u32 << 7u32)) | ((inst & (0b1111u32 << 9u32)) >> 6u32)) >> 1u32) as i32 == (bit_field(inst, 7u32, 2u32) << 6u32 | bit_field(inst, 9u32, 4u32) << 2u32) as i32,
        (((((inst & (0b1u32 << 12u32)) << 3u32) | ((inst & (0b1u32 << 8u32)) << 6u32) | ((inst & (0b11u32 << 9u32)) << 3u32) | ((inst & (0b1u32 << 6u32)) << 5u32) | ((inst & (0b1u32 << 7u32)) << 3u32) | ((inst & (0b1u32 << 2u32)) << 7u32) | ((inst & (0b1u32 << 11u32)) >> 3u32) | ((inst & (0b111u32 << 3u32)) << 2u32)) as i16) as i32) >> 4u32 == sign_extend(bit_field(inst, 12u32, 1u32) << 11u32 | bit_field(inst, 8u32, 1u32) << 10u32 | bit_field(inst, 9u32, 2u32) << 8u32 | bit_field(inst, 6u32, 1u32) << 7u32 | bit_field(inst, 7u32, 1u32) << 6u32 | bit_field(inst, 2u32, 1u32) << 5u32 | bit_field(inst, 11u32, 1u32) << 4u32 | bit_field(inst, 3u32, 3u32) << 1u32, 12u32),
        8 <= (compressed_register(bit_field(inst, 2u32, 3u32))) < 16 && 0 <= ((bit_field(inst, 6u32, 1u32) << 2u32 | bit_field(inst, 5u32, 1u32) << 3u32 | bit_field(inst, 11u32, 2u32) << 4u32 | bit_field(inst, 7u32, 4u32) << 6u32) as i32) < 1024 && ((bit_field(inst, 6u32, 1u32) << 2u32 | bit_field(inst, 5u32, 1u32) << 3u32 | bit_field(inst, 11u32, 2u32) << 4u32 | bit_field(inst, 7u32, 4u32) << 6u32) as i32) & 3 == 0,
        8 <= (compressed_register(bit_field(inst, 2u32, 3u32))) < 16 && 8 <= (compressed_register(bit_field(inst, 7u32, 3u32))) < 16 && 0 <= ((bit_field(inst, 5u32, 1u32) << 6u32 | bit_field(inst, 10u32, 3u32) << 3u32 | bit_field(inst, 6u32, 1u32) << 2u32) as i32) < 128 && ((bit_field(inst, 5u32, 1u32) << 6u32 | bit_field(inst, 10u32, 3u32) << 3u32 | bit_field(inst, 6u32, 1u32) << 2u32) as i32) & 3 == 0,
        (bit_field(inst, 7u32, 5u32) as u8) < 32 && -32 <= (sign_extend(bit_field(inst, 12u32, 1u32) << 5u32 | bit_field(inst, 2u32, 5u32), 6u32)) < 32,
        (bit_field(inst, 7u32, 5u32) as u8) < 32 && -512 <= (sign_extend(bit_field(inst, 12u32, 1u32) << 9u32 | bit_field(inst, 3u32, 2u32) << 7u32 | bit_field(inst, 5u32, 1u32) << 6u32 | bit_field(inst, 2u32, 1u32) << 5u32 | bit_field(inst, 6u32, 1u32) << 4u32, 10u32)) < 512 && (sign_extend(bit_field(inst, 12u32, 1u32) << 9u32 | bit_field(inst, 3u32, 2u32) << 7u32 | bit_field(inst, 5u32, 1u32) << 6u32 | bit_field(inst, 2u32, 1u32) << 5u32 | bit_field(inst, 6u32, 1u32) << 4u32, 10u32)) & 15 == 0,
        (bit_field(inst, 7u32, 5u32) as u8) < 32 && -131072 <= (sign_extend(bit_field(inst, 12u32, 1u32) << 17u32 | bit_field(inst, 2u32, 5u32) << 12u32, 18u32)) < 131072 && (sign_extend(bit_field(inst, 12u32, 1u32) << 17u32 | bit_field(inst, 2u32, 5u32) << 12u32, 18u32)) & 4095 == 0,
        (bit_field(inst, 7u32, 5u32) as u8) < 32 && 0 <= ((bit_field(inst, 12u32, 1u32) << 5u32 | bit_field(inst, 2u32, 5u32)) as i32) < 64,
        (bit_field(inst, 7u32, 5u32) as u8) < 32 && 0 <= ((bit_field(inst, 2u32, 2u32) << 6u32 | bit_field(inst, 12u32, 1u32) << 5u32 | bit_field(inst, 4u32, 3u32) << 2u32) as i32) < 256 && ((bit_field(inst, 2u32, 2u32) << 6u32 | bit_field(inst, 12u32, 1u32) << 5u32 | bit_field(inst, 4u32, 3u32) << 2u32) as i32) & 3 == 0,
        (compressed_register(bit_field(inst, 7u32, 3u32))) < 32 && 0 <= ((bit_field(inst, 12u32, 1u32) << 5u32 | bit_field(inst, 2u32, 5u32)) as i32) < 64,
        (compressed_register(bit_field(inst, 7u32, 3u32))) < 32 && -32 <= (sign_extend(bit_field(inst, 12u32, 1u32) << 5u32 | bit_field(inst, 2u32, 5u32), 6u32)) < 32,
        (compressed_register(bit_field(inst, 7u32, 3u32))) < 32 && (compressed_register(bit_field(inst, 2u32, 3u32))) < 32,
        8 <= (compressed_register(bit_field(inst, 7u32, 3u32))) < 16 && -256 <= (sign_extend(bit_field(inst, 12u32, 1u32) << 8u32 | bit_field(inst, 5u32, 2u32) << 6u32 | bit_field(inst, 2u32, 1u32) << 5u32 | bit_field(inst, 10u32, 2u32) << 3u32 | bit_field(inst, 3u32, 2u32) << 1u32, 9u32)) < 256 && (sign_extend(bit_field(inst, 12u32, 1u32) << 8u32 | bit_field(inst, 5u32, 2u32) << 6u32 | bit_field(inst, 2u32, 1u32) << 5u32 | bit_field(inst, 10u32, 2u32) << 3u32 | bit_field(inst, 3u32, 2u32) << 1u32, 9u32)) & 1 == 0,
        (bit_field(inst, 7u32, 5u32) as u8) < 32 && (bit_field(inst, 2u32, 5u32) as u8) < 32,
        (compressed_register(bit_field(inst, 7u32, 3u32))) < 32 && (compressed_register(bit_field(inst, 2u32, 3u32))) < 32,
        (bit_field(inst, 2u32, 5u32) as u8) < 32 && 0 <= ((bit_field(inst, 7u32, 2u32) << 6u32 | bit_field(inst, 9u32, 4u32) << 2u32) as i32) < 256 && ((bit_field(inst, 7u32, 2u32) << 6u32 | bit_field(inst, 9u32, 4u32) << 2u32) as i32) & 3 == 0,
        -2048 <= (sign_extend(bit_field(inst, 12u32, 1u32) << 11u32 | bit_field(inst, 8u32, 1u32) << 10u32 | bit_field(inst, 9u32, 2u32) << 8u32 | bit_field(inst, 6u32, 1u32) << 7u32 | bit_field(inst, 7u32, 1u32) << 6u32 | bit_field(inst, 2u32, 1u32) << 5u32 | bit_field(inst, 11u32, 1u32) << 4u32 | bit_field(inst, 3u32, 3u32) << 1u32, 12u32)) < 2048 && (sign_extend(bit_field(inst, 12u32, 1u32) << 11u32 | bit_field(inst, 8u32, 1u32) << 10u32 | bit_field(inst, 9u32, 2u32) << 8u32 | bit_field(inst, 6u32, 1u32) << 7u32 | bit_field(inst, 7u32, 1u32) << 6u32 | bit_field(inst, 2u32, 1u32) << 5u32 | bit_field(inst, 11u32, 1u32) << 4u32 | bit_field(inst, 3u32, 3u32) << 1u32, 12u32)) & 1 == 0,
{
}

/// The Embive bit layouts, read with shifts and masks.
pub proof fn lemma_embive_fields(inst: u32)
    by (bit_vector)
    ensures
        ((inst >> 17u32) & 0b1_1111u32) as u8 == bit_field(inst, 17u32, 5u32) as u8,
        ((inst >> 22u32) & 0b1_1111u32) as u8 == bit_field(inst, 22u32, 5u32) as u8,
        ((inst >> 27u32) & 0b1_1111u32) as u8 == bit_field(inst, 27u32, 5u32) as u8,
        ((inst >> 7u32) & 0b11_1111_1111u32) as u16 == bit_field(inst, 7u32, 10u32) as u16,
        ((inst >> 10u32) & 0b1_1111u32) as u8 == bit_field(inst, 10u32, 5u32) as u8,
        ((inst >> 15u32) & 0b1_1111u32) as u8 == bit_field(inst, 15u32, 5u32) as u8,
        ((inst & (0b1111_1111_1111u32 << 20u32)) as i32 >> 20u32) == sign_extend(bit_field(inst, 20u32, 12u32), 12u32),
        ((inst >> 7u32) & 0b111u32) as u8 == bit_field(inst, 7u32, 3u32) as u8,
        (inst & (0b1111_1111_1111u32 << 20u32)) as i32 >> 20u32 == sign_extend(bit_field(inst, 20u32, 12u32), 12u32),
        (inst & (0b1111_1111_1111u32 << 20u32)) as i32 >> 19u32 == sign_extend(bit_field(inst, 20u32, 12u32) << 1u32, 13u32),
        ((inst >> 7u32) & 0b1_1111u32) as u8 == bit_field(inst, 7u32, 5u32) as u8,
        (inst & (0b1111_1111_1111_1111_1111u32 << 12u32)) as i32 == (bit_field(inst, 12u32, 20u32) << 12u32) as i32,
        (inst & (0b1111_1111_1111_1111_1111u32 << 12u32)) as i32 >> 11u32 == sign_extend(bit_field(inst, 12u32, 20u32) << 1u32, 21u32),
        ((inst >> 5u32) & 0b111u32) as u8 == bit_field(inst, 5u32, 3u32) as u8,
        bit_field(inst, 5u32, 3u32) < 8u32,
        ((inst & (0b1111_1111u32 << 8u32)) >> 6u32) as i32 == (bit_field(inst, 8u32, 8u32) << 2u32) as i32,
        ((inst >> 8u32) & 0b111u32) as u8 == bit_field(inst, 8u32, 3u32) as u8,
        bit_field(inst, 8u32, 3u32) < 8u32,
        ((inst & (0b1_1111u32 << 11u32)) >> 9u32) as i32 == (bit_field(inst, 11u32, 5u32) << 2u32) as i32,
        ((inst >> 5u32) & 0b1_1111u32) as u8 == bit_field(inst, 5u32, 5u32) as u8,
        (((inst & (0b11_1111u32 << 10u32)) as i16) >> 10u32) as i32 == sign_extend(bit_field(inst, 10u32, 6u32), 6u32),
        (((inst & (0b11_1111u32 << 10u32)) as i16) >> 6u32) as i32 == sign_extend(bit_field(inst, 10u32, 6u32) << 4u32, 10u32),
        (((inst & (0b11_1111u32 << 10u32)) as i16) as i32) << 2u32 == sign_extend(bit_field(inst, 10u32, 6u32) << 12u32, 18u32),
        ((inst & (0b11_1111u32 << 10u32)) >> 10u32) as i32 == bit_field(inst, 10u32, 6u32) as i32,
        ((inst & (0b11_1111u32 << 10u32)) >> 8u32) as i32 == (bit_field(inst, 10u32, 6u32) << 2u32) as i32,
        (((inst & (0b1111_1111u32 << 8u32)) as i16) >> 7u32) as i32 == sign_extend(bit_field(inst, 8u32, 8u32) << 1u32, 9u32),
        (((inst & (0b111_1111_1111u32 << 5u32)) as i16) >> 4u32) as i32 == sign_extend(bit_field(inst, 5u32, 11u32) << 1u32, 12u32),
{
}

/// Fields in range are read back unchanged from their Embive encoding.
pub proof fn lemma_roundtrip_base(rd: u8, rs1: u8, rs2: u8, funct10: u16, rd_rs2: u8, imm: i32, funct3: u8)
    by (bit_vector)
    ensures
        (rd < 32 && rs1 < 32 && rs2 < 32 && funct10 < 1024) ==> (bit_field((((rd as u32) << 17u32) | ((rs1 as u32) << 22u32) | ((rs2 as u32) << 27u32) | ((funct10 as u32) << 7u32)), 17u32, 5u32) as u8 == rd && bit_field((((rd as u32) << 17u32) | ((rs1 as u32) << 22u32) | ((rs2 as u32) << 27u32) | ((funct10 as u32) << 7u32)), 22u32, 5u32) as u8 == rs1 && bit_field((((rd as u32) << 17u32) | ((rs1 as u32) << 22u32) | ((rs2 as u32) << 27u32) | ((funct10 as u32) << 7u32)), 27u32, 5u32) as u8 == rs2 && bit_field((((rd as u32) << 17u32) | ((rs1 as u32) << 22u32) | ((rs2 as u32) << 27u32) | ((funct10 as u32) << 7u32)), 7u32, 10u32) as u16 == funct10),
        (rd_rs2 < 32 && rs1 < 32 && funct3 < 8 && -2048 <= imm < 2048) ==> (bit_field((((rd_rs2 as u32) << 10u32) | ((funct3 as u32) << 7u32) | ((rs1 as u32) << 15u32) | ((imm as u32 & 0b1111_1111_1111u32) << 20u32)), 10u32, 5u32) as u8 == rd_rs2 && bit_field((((rd_rs2 as u32) << 10u32) | ((funct3 as u32) << 7u32) | ((rs1 as u32) << 15u32) | ((imm as u32 & 0b1111_1111_1111u32) << 20u32)), 15u32, 5u32) as u8 == rs1 && sign_extend(bit_field((((rd_rs2 as u32) << 10u32) | ((funct3 as u32) << 7u32) | ((rs1 as u32) << 15u32) | ((imm as u32 & 0b1111_1111_1111u32) << 20u32)), 20u32, 12u32), 12u32) == imm && bit_field((((rd_rs2 as u32) << 10u32) | ((funct3 as u32) << 7u32) | ((rs1 as u32) << 15u32) | ((imm as u32 & 0b1111_1111_1111u32) << 20u32)), 7u32, 3u32) as u8 == funct3),
        (rs1 < 32 && rs2 < 32 && funct3 < 8 && -2048 <= imm < 2048) ==> (bit_field((((imm as u32) << 20u32) | ((funct3 as u32) << 7u32) | ((rs2 as u32) << 10u32) | ((rs1 as u32) << 15u32)), 15u32, 5u32) as u8 == rs1 && bit_field((((imm as u32) << 20u32) | ((funct3 as u32) << 7u32) | ((rs2 as u32) << 10u32) | ((rs1 as u32) << 15u32)), 10u32, 5u32) as u8 == rs2 && sign_extend(bit_field((((imm as u32) << 20u32) | ((funct3 as u32) << 7u32) | ((rs2 as u32) << 10u32) | ((rs1 as u32) << 15u32)), 20u32, 12u32), 12u32) == imm && bit_field((((imm as u32) << 20u32) | ((funct3 as u32) << 7u32) | ((rs2 as u32) << 10u32) | ((rs1 as u32) << 15u32)), 7u32, 3u32) as u8 == funct3),
        (rs1 < 32 && rs2 < 32 && funct3 < 8 && -4096 <= imm < 4096 && imm & 1 == 0) ==> (bit_field((((imm as u32) << 19u32) | ((funct3 as u32) << 7u32) | ((rs1 as u32) << 10u32) | ((rs2 as u32) << 15u32)), 10u32, 5u32) as u8 == rs1 && bit_field((((imm as u32) << 19u32) | ((funct3 as u32) << 7u32) | ((rs1 as u32) << 10u32) | ((rs2 as u32) << 15u32)), 15u32, 5u32) as u8 == rs2 && sign_extend(bit_field((((imm as u32) << 19u32) | ((funct3 as u32) << 7u32) | ((rs1 as u32) << 10u32) | ((rs2 as u32) << 15u32)), 20u32, 12u32) << 1u32, 13u32) == imm && bit_field((((imm as u32) << 19u32) | ((funct3 as u32) << 7u32) | ((rs1 as u32) << 10u32) | ((rs2 as u32) << 15u32)), 7u32, 3u32) as u8 == funct3),
        (rd < 32 && imm & 0xFFF == 0) ==> (bit_field((((rd as u32) << 7u32) | (imm as u32 & (0b1111_1111_1111_1111_1111u32 << 12u32))), 7u32, 5u32) as u8 == rd && (bit_field((((rd as u32) << 7u32) | (imm as u32 & (0b1111_1111_1111_1111_1111u32 << 12u32))), 12u32, 20u32) << 12u32) as i32 == imm),
        (rd < 32 && -1048576 <= imm < 1048576 && imm & 1 == 0) ==> (bit_field((((rd as u32) << 7u32) | ((imm as u32) << 11u32)), 7u32, 5u32) as u8 == rd && sign_extend(bit_field((((rd as u32) << 7u32) | ((imm as u32) << 11u32)), 12u32, 20u32) << 1u32, 21u32) == imm),
{
}

/// Fields in range are read back unchanged from their Embive encoding.
pub proof fn lemma_roundtrip_c1(rd: u8, imm: i32, k_rd: u8, rd_rs2: u8, rs1: u8, k_rd_rs2: u8, k_rs1: u8, rd_rs1: u8)
    by (bit_vector)
    ensures
        (k_rd < 8 && 0 <= imm < 1024 && imm & 3 == 0) ==> (compressed_register(bit_field((((k_rd as u32) << 5u32) | (((imm as u32) << 6u32) & (0b1111_1111u32 << 8u32))), 5u32, 3u32)) == (k_rd + 8u32) as u8 && (bit_field((((k_rd as u32) << 5u32) | (((imm as u32) << 6u32) & (0b1111_1111u32 << 8u32))), 8u32, 8u32) << 2u32) as i32 == imm),
        (k_rd_rs2 < 8 && k_rs1 < 8 && 0 <= imm < 128 && imm & 3 == 0) ==> (compressed_register(bit_field((((k_rd_rs2 as u32) << 5u32) | ((k_rs1 as u32) << 8u32) | ((imm as u32) << 9u32)), 5u32, 3u32)) == (k_rd_rs2 + 8u32) as u8 && compressed_register(bit_field((((k_rd_rs2 as u32) << 5u32) | ((k_rs1 as u32) << 8u32) | ((imm as u32) << 9u32)), 8u32, 3u32)) == (k_rs1 + 8u32) as u8 && (bit_field((((k_rd_rs2 as u32) << 5u32) | ((k_rs1 as u32) << 8u32) | ((imm as u32) << 9u32)), 11u32, 5u32) << 2u32) as i32 == imm),
        (rd_rs1 < 32 && -32 <= imm < 32) ==> (bit_field((((rd_rs1 as u32) << 5u32) | (((imm as u32) << 10u32) & (0b11_1111u32 << 10u32))), 5u32, 5u32) as u8 == rd_rs1 && sign_extend(bit_field((((rd_rs1 as u32) << 5u32) | (((imm as u32) << 10u32) & (0b11_1111u32 << 10u32))), 10u32, 6u32), 6u32) == imm),
        (rd_rs1 < 32 && -512 <= imm < 512 && imm & 15 == 0) ==> (bit_field((((rd_rs1 as u32) << 5u32) | (((imm as u32) << 6u32) & (0b11_1111u32 << 10u32))), 5u32, 5u32) as u8 == rd_rs1 && sign_extend(bit_field((((rd_rs1 as u32) << 5u32) | (((imm as u32) << 6u32) & (0b11_1111u32 << 10u32))), 10u32, 6u32) << 4u32, 10u32) == imm),
        (rd_rs1 < 32 && -131072 <= imm < 131072 && imm & 4095 == 0) ==> (bit_field((((rd_rs1 as u32) << 5u32) | (((imm as u32) >> 2u32) & (0b11_1111u32 << 10u32))), 5u32, 5u32) as u8 == rd_rs1 && sign_extend(bit_field((((rd_rs1 as u32) << 5u32) | (((imm as u32) >> 2u32) & (0b11_1111u32 << 10u32))), 10u32, 6u32) << 12u32, 18u32) == imm),
        (rd_rs1 < 32 && 0 <= imm < 64) ==> (bit_field((((rd_rs1 as u32) << 5u32) | ((imm as u32) << 10u32)), 5u32, 5u32) as u8 == rd_rs1 && bit_field((((rd_rs1 as u32) << 5u32) | ((imm as u32) << 10u32)), 10u32, 6u32) as i32 == imm),
        (rd_rs1 < 32 && 0 <= imm < 256 && imm & 3 == 0) ==> (bit_field((((rd_rs1 as u32) << 5u32) | ((imm as u32) << 8u32)), 5u32, 5u32) as u8 == rd_rs1 && (bit_field((((rd_rs1 as u32) << 5u32) | ((imm as u32) << 8u32)), 10u32, 6u32) << 2u32) as i32 == imm),
{
}

/// Fields in range are read back unchanged from their Embive encoding.
pub proof fn lemma_roundtrip_c2(rd_rs1: u8, imm: i32, rs2: u8, rs1: u8, k_rs1: u8)
    by (bit_vector)
    ensures
        (rd_rs1 < 32 && 0 <= imm < 64) ==> (bit_field((((rd_rs1 as u32) << 5u32) | ((imm as u32) << 10u32)), 5u32, 5u32) as u8 == rd_rs1 && bit_field((((rd_rs1 as u32) << 5u32) | ((imm as u32) << 10u32)), 10u32, 6u32) as i32 == imm),
        (rd_rs1 < 32 && -32 <= imm < 32) ==> (bit_field((((rd_rs1 as u32) << 5u32) | (((imm as u32) << 10u32) & (0b11_1111u32 << 10u32))), 5u32, 5u32) as u8 == rd_rs1 && sign_extend(bit_field((((rd_rs1 as u32) << 5u32) | (((imm as u32) << 10u32) & (0b11_1111u32 << 10u32))), 10u32, 6u32), 6u32) == imm),
        (rd_rs1 < 32 && rs2 < 32) ==> (bit_field((((rd_rs1 as u32) << 5u32) | ((rs2 as u32) << 10u32)), 5u32, 5u32) as u8 == rd_rs1 && bit_field((((rd_rs1 as u32) << 5u32) | ((rs2 as u32) << 10u32)), 10u32, 5u32) as u8 == rs2),
        (k_rs1 < 8 && -256 <= imm < 256 && imm & 1 == 0) ==> (compressed_register(bit_field((((k_rs1 as u32) << 5u32) | (((imm as u32) << 7u32) & (0b1111_1111u32 << 8u32))), 5u32, 3u32)) == (k_rs1 + 8u32) as u8 && sign_extend(bit_field((((k_rs1 as u32) << 5u32) | (((imm as u32) << 7u32) & (0b1111_1111u32 << 8u32))), 8u32, 8u32) << 1u32, 9u32) == imm),
        (rd_rs1 < 32 && rs2 < 32) ==> (bit_field((((rd_rs1 as u32) << 5u32) | ((rs2 as u32) << 10u32)), 5u32, 5u32) as u8 == rd_rs1 && bit_field((((rd_rs1 as u32) << 5u32) | ((rs2 as u32) << 10u32)), 10u32, 5u32) as u8 == rs2),
        (rd_rs1 < 32 && rs2 < 32) ==> (bit_field((((rd_rs1 as u32) << 5u32) | ((rs2 as u32) << 10u32)), 5u32, 5u32) as u8 == rd_rs1 && bit_field((((rd_rs1 as u32) << 5u32) | ((rs2 as u32) << 10u32)), 10u32, 5u32) as u8 == rs2),
        (rs2 < 32 && 0 <= imm < 256 && imm & 3 == 0) ==> (bit_field((((rs2 as u32) << 5u32) | ((imm as u32) << 8u32)), 5u32, 5u32) as u8 == rs2 && (bit_field((((rs2 as u32) << 5u32) | ((imm as u32) << 8u32)), 10u32, 6u32) << 2u32) as i32 == imm),
        (-2048 <= imm < 2048 && imm & 1 == 0) ==> (sign_extend(bit_field((((imm as u32) << 4u32) & (0b111_1111_1111u32 << 5u32)), 5u32, 11u32) << 1u32, 12u32) == imm),
{
}

} // verus!

//! Register operations, multiplication and division, and atomic memory operations.
use vstd::prelude::*;

use crate::format::TypeR;
use crate::instruction::embive::{InstructionImpl, OpAmo};
use crate::interpreter::machine::{write_and_advance, MachineState};
use crate::interpreter::memory::{
    lemma_store_then_load, Memory, MemoryType, SliceMemory, SliceMemoryView, RAM_OFFSET,
};
use crate::interpreter::{Error, Interpreter, State};

verus! {

/// The upper 32 bits of a 64-bit product, as a register value.
pub open spec fn spec_high_word(product: int) -> i32 {
    (product / 0x1_0000_0000) as i32
}

/// The magnitude of a number.
pub open spec fn spec_abs(x: int) -> int {
    if x < 0 {
        -x
    } else {
        x
    }
}

/// The quotient of a division rounded toward zero.
pub open spec fn spec_div_toward_zero(a: int, b: int) -> int {
    let q = spec_abs(a) / spec_abs(b);
    if (a < 0) == (b < 0) {
        q
    } else {
        -q
    }
}

/// The remainder of a division rounded toward zero: it has the sign of the dividend.
pub open spec fn spec_rem_toward_zero(a: int, b: int) -> int {
    let r = spec_abs(a) % spec_abs(b);
    if a < 0 {
        -r
    } else {
        r
    }
}

/// The value that register operation `func` computes from `rs1` and `rs2`, or `None` when
/// `func` is not a register operation (the atomic operations and unknown ones).
pub open spec fn spec_op_value(func: u16, rs1: i32, rs2: i32) -> Option<i32> {
    if func == OpAmo::ADD_FUNC {
        Some(rs1.wrapping_add(rs2))
    } else if func == OpAmo::SUB_FUNC {
        Some(rs1.wrapping_sub(rs2))
    } else if func == OpAmo::SLL_FUNC {
        Some(rs1.wrapping_shl(rs2 as u32))
    } else if func == OpAmo::SLT_FUNC {
        Some(if rs1 < rs2 { 1 } else { 0 })
    } else if func == OpAmo::SLTU_FUNC {
        Some(if (rs1 as u32) < (rs2 as u32) { 1 } else { 0 })
    } else if func == OpAmo::XOR_FUNC {
        Some(rs1 ^ rs2)
    } else if func == OpAmo::SRL_FUNC {
        Some((rs1 as u32).wrapping_shr(rs2 as u32) as i32)
    } else if func == OpAmo::SRA_FUNC {
        Some(rs1.wrapping_shr(rs2 as u32))
    } else if func == OpAmo::OR_FUNC {
        Some(rs1 | rs2)
    } else if func == OpAmo::AND_FUNC {
        Some(rs1 & rs2)
    } else if func == OpAmo::MUL_FUNC {
        Some(rs1.wrapping_mul(rs2))
    } else if func == OpAmo::MULH_FUNC {
        Some(spec_high_word(rs1 * rs2))
    } else if func == OpAmo::MULHSU_FUNC {
        Some(spec_high_word(rs1 * (rs2 as u32)))
    } else if func == OpAmo::MULHU_FUNC {
        Some(spec_high_word((rs1 as u32) * (rs2 as u32)))
    } else if func == OpAmo::DIV_FUNC {
        Some(if rs2 == 0 { -1i32 } else { spec_div_toward_zero(rs1 as int, rs2 as int) as i32 })
    } else if func == OpAmo::DIVU_FUNC {
        Some(if rs2 == 0 { -1i32 } else { ((rs1 as u32) / (rs2 as u32)) as i32 })
    } else if func == OpAmo::REM_FUNC {
        Some(if rs2 == 0 { rs1 } else { spec_rem_toward_zero(rs1 as int, rs2 as int) as i32 })
    } else if func == OpAmo::REMU_FUNC {
        Some(if rs2 == 0 { rs1 } else { ((rs1 as u32) % (rs2 as u32)) as i32 })
    } else {
        None
    }
}

/// The value that atomic operation `func` leaves in memory, from the value it read there and
/// `rs2`; `None` for the reservation operations and unknown ones.
pub open spec fn spec_amo_value(func: u16, value: i32, rs2: i32) -> Option<i32> {
    if func == OpAmo::AMOSWAP_FUNC {
        Some(rs2)
    } else if func == OpAmo::AMOADD_FUNC {
        Some(value.wrapping_add(rs2))
    } else if func == OpAmo::AMOXOR_FUNC {
        Some(value ^ rs2)
    } else if func == OpAmo::AMOAND_FUNC {
        Some(value & rs2)
    } else if func == OpAmo::AMOOR_FUNC {
        Some(value | rs2)
    } else if func == OpAmo::AMOMIN_FUNC {
        Some(if value <= rs2 { value } else { rs2 })
    } else if func == OpAmo::AMOMAX_FUNC {
        Some(if value >= rs2 { value } else { rs2 })
    } else if func == OpAmo::AMOMINU_FUNC {
        Some(if (value as u32) <= (rs2 as u32) { value } else { rs2 })
    } else if func == OpAmo::AMOMAXU_FUNC {
        Some(if (value as u32) >= (rs2 as u32) { value } else { rs2 })
    } else {
        None
    }
}

/// An atomic operation on the word at `address`: the state after its memory part and the
/// value for the destination, or the error (with the state in which it stopped).
///
/// - `lr` reads the word and reserves it (address and value);
/// - `sc` drops the reservation and, when it held this address and the word still holds the
///   reserved value, writes `rs2` and yields 0; otherwise it yields 1;
/// - the others read the word, write what [`spec_amo_value`] says and yield the word read.
pub open spec fn spec_atomic<M: Memory>(s: MachineState<M::V>, func: u16, address: u32, rs2: i32) -> (
    MachineState<M::V>,
    Result<i32, Error>,
) {
    match M::spec_load(s.memory, address, 4) {
        Err(e) => (s, Err(e)),
        Ok(bytes) => {
            let value = <i32 as MemoryType>::spec_from_le(bytes);
            if func == OpAmo::LR_FUNC {
                (MachineState { memory_reservation: Some((address, value)), ..s }, Ok(value))
            } else if func == OpAmo::SC_FUNC {
                let s1 = MachineState { memory_reservation: None, ..s };
                match s.memory_reservation {
                    Some((addr, reserved)) => if addr == address && value == reserved {
                        match M::spec_store(s.memory, addr, <i32 as MemoryType>::spec_to_le(rs2)) {
                            Err(e) => (s1, Err(e)),
                            Ok(memory) => (s1.with_memory(memory), Ok(0)),
                        }
                    } else {
                        (s1, Ok(1))
                    },
                    None => (s1, Ok(1)),
                }
            } else {
                match spec_amo_value(func, value, rs2) {
                    None => (s, Err(Error::InvalidInstruction(s.program_counter))),
                    Some(new) => match M::spec_store(
                        s.memory,
                        address,
                        <i32 as MemoryType>::spec_to_le(new),
                    ) {
                        Err(e) => (s, Err(e)),
                        Ok(memory) => (s.with_memory(memory), Ok(value)),
                    },
                }
            }
        },
    }
}

/// Executing a register or atomic operation: read `rs1` and `rs2`, compute the result (an
/// atomic operation works on the word at address `rs1`), write it to the destination unless that
/// is `x0`, go to the next instruction.
pub open spec fn spec_op_amo<M: Memory>(s: MachineState<M::V>, inst: TypeR) -> (
    MachineState<M::V>,
    Result<State, Error>,
) {
    match s.reg(inst.rs1) {
        Err(e) => (s, Err(e)),
        Ok(rs1) => match s.reg(inst.rs2) {
            Err(e) => (s, Err(e)),
            Ok(rs2) => {
                let (s1, result) = match spec_op_value(inst.funct10, rs1, rs2) {
                    Some(value) => (s, Ok(value)),
                    None => spec_atomic::<M>(s, inst.funct10, rs1 as u32, rs2),
                };
                match result {
                    Err(e) => (s1, Err(e)),
                    Ok(value) => if inst.rd == 0 {
                        (s1.advance(4), Ok(State::Running))
                    } else {
                        write_and_advance(s1, inst.rd, value, 4)
                    },
                }
            },
        },
    }
}

/// The upper 32 bits of the product of two signed numbers.
fn mul_high_signed(a: i64, b: i64) -> (r: i32)
    requires
        -0x8000_0000 <= a < 0x8000_0000,
        -0x8000_0000 <= b <= 0xFFFF_FFFF,
    ensures
        r == spec_high_word(a * b),
{
    assert(-0x8000_0000_0000_0000 < a * b < 0x8000_0000_0000_0000) by (nonlinear_arith)
        requires
            -0x8000_0000 <= a < 0x8000_0000,
            -0x8000_0000 <= b <= 0xFFFF_FFFF,
    ;
    let product = a * b;
    let high = match product.checked_div_euclid(0x1_0000_0000) {
        Some(high) => high,
        None => 0,
    };
    high as i32
}

/// Divide toward zero, with the results RISC-V gives for a zero divisor (all ones) and for an
/// overflowing quotient (the dividend).
fn div_signed(a: i32, b: i32) -> (r: i32)
    ensures
        r == (if b == 0 { -1i32 } else { spec_div_toward_zero(a as int, b as int) as i32 }),
{
    if b == 0 {
        return -1;
    }
    let magnitude_a: u64 = if a < 0 { (-(a as i64)) as u64 } else { a as u64 };
    let magnitude_b: u64 = if b < 0 { (-(b as i64)) as u64 } else { b as u64 };
    let quotient = (magnitude_a / magnitude_b) as i64;
    if (a < 0) == (b < 0) {
        quotient as i32
    } else {
        (-quotient) as i32
    }
}

/// The remainder of a division toward zero, with the result RISC-V gives for a zero divisor
/// (the dividend).
fn rem_signed(a: i32, b: i32) -> (r: i32)
    ensures
        r == (if b == 0 { a } else { spec_rem_toward_zero(a as int, b as int) as i32 }),
{
    if b == 0 {
        return a;
    }
    let magnitude_a: u64 = if a < 0 { (-(a as i64)) as u64 } else { a as u64 };
    let magnitude_b: u64 = if b < 0 { (-(b as i64)) as u64 } else { b as u64 };
    let remainder = (magnitude_a % magnitude_b) as i64;
    if a < 0 {
        (-remainder) as i32
    } else {
        remainder as i32
    }
}

/// A nonzero register value reads as a nonzero unsigned number.
proof fn lemma_nonzero_as_unsigned(x: i32)
    ensures
        x != 0 ==> x as u32 != 0,
{
    assert(x != 0 ==> x as u32 != 0) by (bit_vector);
}

/// Compute register operation `func` on `rs1` and `rs2`.
pub fn op_value(func: u16, rs1: i32, rs2: i32) -> (r: Option<i32>)
    ensures
        r == spec_op_value(func, rs1, rs2),
{
    if func == OpAmo::ADD_FUNC {
        Some(rs1.wrapping_add(rs2))
    } else if func == OpAmo::SUB_FUNC {
        Some(rs1.wrapping_sub(rs2))
    } else if func == OpAmo::SLL_FUNC {
        // Logical shift left, fill with zero
        Some(rs1.wrapping_shl(rs2 as u32))
    } else if func == OpAmo::SLT_FUNC {
        Some(if rs1 < rs2 { 1 } else { 0 })
    } else if func == OpAmo::SLTU_FUNC {
        Some(if (rs1 as u32) < (rs2 as u32) { 1 } else { 0 })
    } else if func == OpAmo::XOR_FUNC {
        Some(rs1 ^ rs2)
    } else if func == OpAmo::SRL_FUNC {
        // Logical shift right, fill with zero
        Some((rs1 as u32).wrapping_shr(rs2 as u32) as i32)
    } else if func == OpAmo::SRA_FUNC {
        // Arithmetic shift right, fill with sign bit
        Some(rs1.wrapping_shr(rs2 as u32))
    } else if func == OpAmo::OR_FUNC {
        Some(rs1 | rs2)
    } else if func == OpAmo::AND_FUNC {
        Some(rs1 & rs2)
    } else if func == OpAmo::MUL_FUNC {
        Some(rs1.wrapping_mul(rs2))
    } else if func == OpAmo::MULH_FUNC {
        Some(mul_high_signed(rs1 as i64, rs2 as i64))
    } else if func == OpAmo::MULHSU_FUNC {
        Some(mul_high_signed(rs1 as i64, (rs2 as u32) as i64))
    } else if func == OpAmo::MULHU_FUNC {
        let (a, b) = (rs1 as u32 as u64, rs2 as u32 as u64);
        assert(a * b <= 0xFFFF_FFFF * 0xFFFF_FFFF) by (nonlinear_arith)
            requires
                a <= 0xFFFF_FFFF,
                b <= 0xFFFF_FFFF,
        ;
        let product = a * b;
        Some((product / 0x1_0000_0000) as i32)
    } else if func == OpAmo::DIV_FUNC {
        Some(div_signed(rs1, rs2))
    } else if func == OpAmo::DIVU_FUNC {
        proof {
            lemma_nonzero_as_unsigned(rs2);
        }
        Some(
            if rs2 == 0 {
                -1
            } else {
                ((rs1 as u32) / (rs2 as u32)) as i32
            },
        )
    } else if func == OpAmo::REM_FUNC {
        Some(rem_signed(rs1, rs2))
    } else if func == OpAmo::REMU_FUNC {
        proof {
            lemma_nonzero_as_unsigned(rs2);
        }
        Some(
            if rs2 == 0 {
                rs1
            } else {
                ((rs1 as u32) % (rs2 as u32)) as i32
            },
        )
    } else {
        None
    }
}

/// Compute what atomic operation `func` writes back, from the value read and `rs2`.
pub fn amo_value(func: u16, value: i32, rs2: i32) -> (r: Option<i32>)
    ensures
        r == spec_amo_value(func, value, rs2),
{
    if func == OpAmo::AMOSWAP_FUNC {
        Some(rs2)
    } else if func == OpAmo::AMOADD_FUNC {
        Some(value.wrapping_add(rs2))
    } else if func == OpAmo::AMOXOR_FUNC {
        Some(value ^ rs2)
    } else if func == OpAmo::AMOAND_FUNC {
        Some(value & rs2)
    } else if func == OpAmo::AMOOR_FUNC {
        Some(value | rs2)
    } else if func == OpAmo::AMOMIN_FUNC {
        Some(if value <= rs2 { value } else { rs2 })
    } else if func == OpAmo::AMOMAX_FUNC {
        Some(if value >= rs2 { value } else { rs2 })
    } else if func == OpAmo::AMOMINU_FUNC {
        Some(if (value as u32) <= (rs2 as u32) { value } else { rs2 })
    } else if func == OpAmo::AMOMAXU_FUNC {
        Some(if (value as u32) >= (rs2 as u32) { value } else { rs2 })
    } else {
        None
    }
}

impl OpAmo {
    /// Run atomic operation `func` on the word at `address`.
    fn atomic<M: Memory>(interpreter: &mut Interpreter<M>, func: u16, address: u32, rs2: i32) -> (r: Result<i32, Error>)
        ensures
            final(interpreter)@ == spec_atomic::<M>(old(interpreter)@, func, address, rs2).0,
            r == spec_atomic::<M>(old(interpreter)@, func, address, rs2).1,
    {
        let value = i32::load(&mut interpreter.memory, address)?;

        if func == Self::LR_FUNC {
            // Load Reserved (rd = mem[rs1])
            interpreter.memory_reservation = Some((address, value));
            Ok(value)
        } else if func == Self::SC_FUNC {
            // Store Conditional (mem[rs1] = rs2; rd = 0 if successful, 1 otherwise)
            let reservation = interpreter.memory_reservation;
            interpreter.memory_reservation = None;
            match reservation {
                Some((addr, reserved)) => {
                    if addr == address && value == reserved {
                        rs2.store(&mut interpreter.memory, addr)?;
                        Ok(0)
                    } else {
                        // Value has changed or address is different
                        Ok(1)
                    }
                },
                // No reservation
                None => Ok(1),
            }
        } else {
            match amo_value(func, value, rs2) {
                Some(new) => {
                    new.store(&mut interpreter.memory, address)?;
                    Ok(value)
                },
                None => Err(Error::InvalidInstruction(interpreter.program_counter)),
            }
        }
    }

    /// Execute the instruction.
    ///
    /// Returns:
    /// - `Ok(State)`: Instruction executed successfully.
    /// - `Err(Error)`: Failed to execute instruction.
    #[inline(always)]
    pub fn execute<M: Memory>(&self, interpreter: &mut Interpreter<M>) -> (r: Result<State, Error>)
        ensures
            final(interpreter)@ == spec_op_amo::<M>(old(interpreter)@, self.0).0,
            r == spec_op_amo::<M>(old(interpreter)@, self.0).1,
    {
        let rs1 = interpreter.registers.cpu.get(self.0.rs1)?;
        let rs2 = interpreter.registers.cpu.get(self.0.rs2)?;

        let result = match op_value(self.0.funct10, rs1, rs2) {
            Some(value) => value,
            // Atomic operations
            None => Self::atomic(interpreter, self.0.funct10, rs1 as u32, rs2)?,
        };

        if self.0.rd != 0 {
            interpreter.registers.cpu.set(self.0.rd, result)?;
        }

        // Go to next instruction
        interpreter.program_counter = interpreter.program_counter.wrapping_add(Self::size());

        Ok(State::Running)
    }
}

/// A load-reserved, then a store-conditional to the same word (its address register unchanged)
/// with no other reservation between, on the RAM of a [`SliceMemory`]: the store-conditional
/// succeeds: its destination receives 0, the reservation is dropped and the word now holds
/// `rs2` (a load of it reads back `rs2`'s bytes).
pub proof fn lemma_lr_then_sc(s: MachineState<SliceMemoryView>, lr: TypeR, sc: TypeR)
    requires
        s.registers.len() == 32,
        lr.funct10 == OpAmo::LR_FUNC,
        sc.funct10 == OpAmo::SC_FUNC,
        spec_op_amo::<SliceMemory>(s, lr).1 is Ok,
        spec_op_amo::<SliceMemory>(s, lr).0.reg(sc.rs1) == s.reg(lr.rs1),
        sc.rs2 < 32,
        sc.rd < 32,
        s.reg(lr.rs1)->Ok_0 as u32 >= RAM_OFFSET,
        SliceMemory::spec_ram_bytes(s.memory, s.reg(lr.rs1)->Ok_0 as u32, 4) is Ok,
    ensures
        spec_op_amo::<SliceMemory>(spec_op_amo::<SliceMemory>(s, lr).0, sc).1 == Ok::<State, Error>(
            State::Running,
        ),
        spec_op_amo::<SliceMemory>(spec_op_amo::<SliceMemory>(s, lr).0, sc).0.memory_reservation
            is None,
        sc.rd != 0 ==> spec_op_amo::<SliceMemory>(spec_op_amo::<SliceMemory>(s, lr).0, sc).0.registers[sc.rd as int]
            == 0,
        SliceMemory::spec_load(
            spec_op_amo::<SliceMemory>(spec_op_amo::<SliceMemory>(s, lr).0, sc).0.memory,
            s.reg(lr.rs1)->Ok_0 as u32,
            4,
        ) == Ok::<Seq<u8>, Error>(
            <i32 as MemoryType>::spec_to_le(spec_op_amo::<SliceMemory>(s, lr).0.reg(sc.rs2)->Ok_0),
        ),
{
    let s1 = spec_op_amo::<SliceMemory>(s, lr).0;
    let rs2 = s1.reg(sc.rs2)->Ok_0;
    rs2.lemma_roundtrip();
    lemma_store_then_load(s1.memory, s.reg(lr.rs1)->Ok_0 as u32, <i32 as MemoryType>::spec_to_le(rs2));
}

/// A store-conditional with no reservation (as after another store-conditional) fails: its
/// destination receives 1 and the memory is unchanged.
pub proof fn lemma_sc_without_reservation(s: MachineState<SliceMemoryView>, sc: TypeR)
    requires
        s.registers.len() == 32,
        s.memory_reservation is None,
        sc.funct10 == OpAmo::SC_FUNC,
        sc.rs1 < 32,
        sc.rs2 < 32,
        sc.rd < 32,
        SliceMemory::spec_load(s.memory, s.reg(sc.rs1)->Ok_0 as u32, 4) is Ok,
    ensures
        spec_op_amo::<SliceMemory>(s, sc).1 == Ok::<State, Error>(State::Running),
        spec_op_amo::<SliceMemory>(s, sc).0.memory == s.memory,
        spec_op_amo::<SliceMemory>(s, sc).0.memory_reservation is None,
        sc.rd != 0 ==> spec_op_amo::<SliceMemory>(s, sc).0.registers[sc.rd as int] == 1,
{
}

/// The register operations, by what their results are:
/// - `add` and `sub` are the sum and the difference modulo 2^32;
/// - `and` keeps exactly the bits set in both operands, `or` those set in either, and `xor`
///   flips the bits of `rs1` where `rs2` has them (so `xor` with `rs2` again gives `rs1` back);
/// - `slt` and `sltu` are 1 exactly when `rs1` is below `rs2`, signed or unsigned, else 0.
pub proof fn lemma_op_values(a: i32, b: i32)
    ensures
        (a + b - spec_op_value(OpAmo::ADD_FUNC, a, b)->Some_0) % 0x1_0000_0000 == 0,
        (a - b - spec_op_value(OpAmo::SUB_FUNC, a, b)->Some_0) % 0x1_0000_0000 == 0,
        ({
            let r = spec_op_value(OpAmo::AND_FUNC, a, b)->Some_0;
            r & !a == 0 && r & !b == 0 && !r & a & b == 0
        }),
        ({
            let r = spec_op_value(OpAmo::OR_FUNC, a, b)->Some_0;
            a & !r == 0 && b & !r == 0 && r & !a & !b == 0
        }),
        spec_op_value(OpAmo::XOR_FUNC, a, b)->Some_0 ^ b == a,
        spec_op_value(OpAmo::XOR_FUNC, a, b)->Some_0 ^ a == b,
        spec_op_value(OpAmo::SLT_FUNC, a, b) == Some(if a < b { 1i32 } else { 0i32 }),
        spec_op_value(OpAmo::SLTU_FUNC, a, b) == Some(if (a as u32) < (b as u32) { 1i32 } else { 0i32 }),
{
    let (n, o, x) = (a & b, a | b, a ^ b);
    assert((n & !a == 0 && n & !b == 0 && !n & a & b == 0) && (a & !o == 0 && b & !o == 0 && o & !a
        & !b == 0) && (x ^ b == a && x ^ a == b)) by (bit_vector)
        requires
            n == a & b,
            o == a | b,
            x == a ^ b,
    ;
}

/// Signed division and remainder (rounding toward zero) fit together: for a non-zero divisor the
/// quotient times the divisor plus the remainder is the dividend (modulo 2^32, for the one
/// overflowing case), the remainder is smaller than the divisor in magnitude and has the sign of
/// the dividend. Dividing by zero gives -1 and leaves the dividend as the remainder. The same
/// holds, unsigned, of `divu` and `remu`.
pub proof fn lemma_division(a: i32, b: i32)
    ensures
        b != 0 ==> ({
            let q = spec_op_value(OpAmo::DIV_FUNC, a, b)->Some_0;
            let r = spec_op_value(OpAmo::REM_FUNC, a, b)->Some_0;
            &&& (q * b + r - a) % 0x1_0000_0000 == 0
            &&& spec_abs(r as int) < spec_abs(b as int)
            &&& r == 0 || (r < 0) == (a < 0)
        }),
        b == 0 ==> spec_op_value(OpAmo::DIV_FUNC, a, b) == Some(-1i32) && spec_op_value(
            OpAmo::REM_FUNC,
            a,
            b,
        ) == Some(a),
        b != 0 ==> ({
            let q = spec_op_value(OpAmo::DIVU_FUNC, a, b)->Some_0 as u32;
            let r = spec_op_value(OpAmo::REMU_FUNC, a, b)->Some_0 as u32;
            q * (b as u32) + r == a as u32 && r < b as u32
        }),
        b == 0 ==> spec_op_value(OpAmo::DIVU_FUNC, a, b) == Some(-1i32) && spec_op_value(
            OpAmo::REMU_FUNC,
            a,
            b,
        ) == Some(a),
{
    if b != 0 {
        let (ai, bi) = (a as int, b as int);
        let (qa, ra) = (spec_abs(ai) / spec_abs(bi), spec_abs(ai) % spec_abs(bi));
        assert(qa * spec_abs(bi) + ra == spec_abs(ai) && 0 <= ra < spec_abs(bi)) by (nonlinear_arith)
            requires
                spec_abs(bi) > 0,
                qa == spec_abs(ai) / spec_abs(bi),
                ra == spec_abs(ai) % spec_abs(bi),
        ;
        let q = spec_div_toward_zero(ai, bi);
        let r = spec_rem_toward_zero(ai, bi);
        assert(q * bi + r == ai) by (nonlinear_arith)
            requires
                qa * spec_abs(bi) + ra == spec_abs(ai),
                q == (if (ai < 0) == (bi < 0) { qa } else { -qa }),
                r == (if ai < 0 { -ra } else { ra }),
                spec_abs(ai) == (if ai < 0 { -ai } else { ai }),
                spec_abs(bi) == (if bi < 0 { -bi } else { bi }),
        ;
        assert(0 <= qa <= spec_abs(ai)) by (nonlinear_arith)
            requires
                spec_abs(bi) >= 1,
                qa == spec_abs(ai) / spec_abs(bi),
                spec_abs(ai) >= 0,
        ;
        let qc = q as i32;
        if q == 0x8000_0000 {
            assert(qc == -0x8000_0000) by (bit_vector)
                requires
                    qc == 0x8000_0000int as i32,
            ;
        }
        assert((qc * bi + r - ai) % 0x1_0000_0000 == 0) by (nonlinear_arith)
            requires
                q * bi + r == ai,
                -0x8000_0000 <= q <= 0x8000_0000,
                qc == (if q == 0x8000_0000 { -0x8000_0000 } else { q }),
        ;
        lemma_nonzero_as_unsigned(b);
        let (au, bu) = (a as u32, b as u32);
        assert((au / bu) * bu + au % bu == au && au % bu < bu) by (nonlinear_arith)
            requires
                bu > 0,
        ;
        let (qd, rd): (u32, u32) = (au / bu, au % bu);
        assert((qd as i32) as u32 == qd && (rd as i32) as u32 == rd) by (bit_vector);
    }
}

/// What the atomic memory operations leave in memory, from the word `value` read there and
/// `rs2`: `amoswap` leaves `rs2`; `amoadd` the sum modulo 2^32; `amoxor`, `amoand` and `amoor`
/// the register operations of the same name; `amomin` and `amomax` the smaller and the larger of
/// the two as signed numbers, `amominu` and `amomaxu` as unsigned numbers.
pub proof fn lemma_amo_values(value: i32, rs2: i32)
    ensures
        spec_amo_value(OpAmo::AMOSWAP_FUNC, value, rs2) == Some(rs2),
        spec_amo_value(OpAmo::AMOADD_FUNC, value, rs2) == spec_op_value(OpAmo::ADD_FUNC, value, rs2),
        spec_amo_value(OpAmo::AMOXOR_FUNC, value, rs2) == spec_op_value(OpAmo::XOR_FUNC, value, rs2),
        spec_amo_value(OpAmo::AMOAND_FUNC, value, rs2) == spec_op_value(OpAmo::AND_FUNC, value, rs2),
        spec_amo_value(OpAmo::AMOOR_FUNC, value, rs2) == spec_op_value(OpAmo::OR_FUNC, value, rs2),
        ({
            let m = spec_amo_value(OpAmo::AMOMIN_FUNC, value, rs2)->Some_0;
            m <= value && m <= rs2 && (m == value || m == rs2)
        }),
        ({
            let m = spec_amo_value(OpAmo::AMOMAX_FUNC, value, rs2)->Some_0;
            m >= value && m >= rs2 && (m == value || m == rs2)
        }),
        ({
            let m = spec_amo_value(OpAmo::AMOMINU_FUNC, value, rs2)->Some_0;
            (m as u32) <= (value as u32) && (m as u32) <= (rs2 as u32) && (m == value || m == rs2)
        }),
        ({
            let m = spec_amo_value(OpAmo::AMOMAXU_FUNC, value, rs2)->Some_0;
            (m as u32) >= (value as u32) && (m as u32) >= (rs2 as u32) && (m == value || m == rs2)
        }),
{
}

} // verus!

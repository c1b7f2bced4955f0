//! Memory Type Module
//!
//! This module defines the MemoryType trait for types that can be loaded from and stored to memory.
use vstd::prelude::*;

use super::{Memory, SliceMemory, SliceMemoryView, RAM_OFFSET, lemma_store_then_load};
use crate::interpreter::Error;

verus! {

/// The number that `bytes` spell in little-endian order (the first byte is the least significant).
pub open spec fn spec_le_value(bytes: Seq<u8>) -> u128
    decreases bytes.len(),
{
    if bytes.len() == 0 {
        0
    } else {
        spec_le_value(bytes.drop_last()) | ((bytes.last() as u128) << ((8 * (bytes.len() - 1)) as u128))
    }
}

/// The `n` least significant bytes of `value`, in little-endian order.
pub open spec fn spec_le_bytes(value: u128, n: nat) -> Seq<u8> {
    Seq::new(n, |i: int| ((value >> ((8 * i) as u128)) & 0xff) as u8)
}

/// The low `8 * n` bits of `x` (all of them from `n == 16` on).
pub open spec fn spec_low_bytes(x: u128, n: nat) -> u128 {
    x & !(0xFFFF_FFFF_FFFF_FFFF_FFFF_FFFF_FFFF_FFFFu128 << ((8 * n) as u128))
}

/// Adding the next byte of `x` to its low `k` bytes gives its low `k + 1` bytes.
proof fn lemma_next_byte(x: u128, k: u128)
    by (bit_vector)
    requires
        k < 16,
    ensures
        (x & !(0xFFFF_FFFF_FFFF_FFFF_FFFF_FFFF_FFFF_FFFFu128 << (8 * k) as u128)) | ((((x >> (8
            * k) as u128) & 0xff) as u8 as u128) << (8 * k) as u128) == x & !(
        0xFFFF_FFFF_FFFF_FFFF_FFFF_FFFF_FFFF_FFFFu128 << (8 * (k + 1)) as u128),
{
}

/// Reading back the `n` little-endian bytes of `x` gives its low `8 * n` bits.
pub proof fn lemma_le_value_of_bytes(x: u128, n: nat)
    requires
        n <= 16,
    ensures
        spec_le_value(spec_le_bytes(x, n)) == spec_low_bytes(x, n),
    decreases n,
{
    if n == 0 {
        assert(x & !(0xFFFF_FFFF_FFFF_FFFF_FFFF_FFFF_FFFF_FFFFu128 << 0u128) == 0) by (bit_vector);
        assert(spec_le_bytes(x, 0) =~= Seq::<u8>::empty());
    } else {
        lemma_le_value_of_bytes(x, (n - 1) as nat);
        assert(spec_le_bytes(x, n).drop_last() =~= spec_le_bytes(x, (n - 1) as nat));
        lemma_next_byte(x, (n - 1) as u128);
    }
}

/// Read up to 16 bytes as a little-endian number.
pub fn le_bytes_to_u128(bytes: &[u8]) -> (r: u128)
    requires
        bytes@.len() <= 16,
    ensures
        r == spec_le_value(bytes@),
{
    let mut value: u128 = 0;
    let mut i: usize = 0;
    while i < bytes.len()
        invariant
            i <= bytes@.len() <= 16,
            value == spec_le_value(bytes@.take(i as int)),
        decreases bytes@.len() - i,
    {
        assert(bytes@.take(i + 1).drop_last() =~= bytes@.take(i as int));
        value = value | ((bytes[i] as u128) << (8 * i as u128));
        i = i + 1;
    }
    assert(bytes@.take(i as int) =~= bytes@);
    value
}

/// Write the `n` least significant bytes of a number, in little-endian order.
pub fn u128_to_le_bytes(value: u128, n: usize) -> (r: Vec<u8>)
    requires
        n <= 16,
    ensures
        r@ == spec_le_bytes(value, n as nat),
{
    let mut bytes: Vec<u8> = Vec::new();
    let mut i: usize = 0;
    while i < n
        invariant
            i <= n <= 16,
            bytes@ =~= spec_le_bytes(value, i as nat),
        decreases n - i,
    {
        bytes.push(((value >> (8 * i as u128)) & 0xff) as u8);
        i = i + 1;
    }
    bytes
}

/// Memory Type Trait
///
/// This trait represents types that can be accessed to/from memory directly.
///
/// All types that implement this trait must handle conversion between native and RISC-V format
/// (e.g., endianness).
///
/// Implementations are provided for the integers (u8, u16, u32, u64, u128, i8, i16, i32, i64,
/// i128) and for `bool`.
pub trait MemoryType: Sized {
    /// How many bytes a value takes in memory.
    spec fn spec_size() -> usize;

    /// The value that bytes in memory stand for.
    spec fn spec_from_le(bytes: Seq<u8>) -> Self;

    /// The bytes that stand for the value in memory.
    spec fn spec_to_le(self) -> Seq<u8>;

    /// A value written as bytes and read back is the same value, and its bytes are as many as
    /// its size.
    proof fn lemma_roundtrip(self)
        ensures
            self.spec_to_le().len() == Self::spec_size(),
            Self::spec_from_le(self.spec_to_le()) == self,
    ;

    /// Load value from memory.
    ///
    /// Arguments:
    /// - `memory`: The memory to read.
    /// - `address`: Memory address to get (code or RAM).
    ///
    /// Returns:
    /// - `Ok(Self)`: Loaded value.
    /// - `Err(Error)`: An error occurred. Ex.: Memory address is out of bounds.
    fn load<M: Memory>(memory: &mut M, address: u32) -> (r: Result<Self, Error>)
        ensures
            final(memory)@ == old(memory)@,
            match M::spec_load(old(memory)@, address, Self::spec_size()) {
                Ok(bytes) => r matches Ok(v) && v == Self::spec_from_le(bytes),
                Err(e) => r matches Err(re) && re == e,
            },
    ;

    /// Store value to memory.
    ///
    /// Arguments:
    /// - `memory`: The memory to write.
    /// - `address`: Memory address to set (only RAM).
    ///
    /// Returns:
    /// - `Ok(())`: Value was stored successfully.
    /// - `Err(Error)`: An error occurred. Ex.: Memory address is out of bounds.
    fn store<M: Memory>(&self, memory: &mut M, address: u32) -> (r: Result<(), Error>)
        ensures
            match M::spec_store(old(memory)@, address, self.spec_to_le()) {
                Ok(mem) => r is Ok && final(memory)@ == mem,
                Err(e) => r == Err::<(), Error>(e) && final(memory)@ == old(memory)@,
            },
    ;
}

/// A value stored into the RAM of a [`SliceMemory`] is the value that a load of its type at the
/// same address gives back.
pub proof fn lemma_store_then_load_value<T: MemoryType>(mem: SliceMemoryView, address: u32, value: T)
    requires
        address >= RAM_OFFSET,
        SliceMemory::spec_store(mem, address, value.spec_to_le()) is Ok,
    ensures
        SliceMemory::spec_load(
            SliceMemory::spec_store(mem, address, value.spec_to_le())->Ok_0,
            address,
            T::spec_size(),
        ) matches Ok(bytes) && T::spec_from_le(bytes) == value,
{
    value.lemma_roundtrip();
    assert(T::spec_size() <= usize::MAX);
    lemma_store_then_load(mem, address, value.spec_to_le());
}

impl MemoryType for i8 {
    open spec fn spec_size() -> usize {
        1
    }

    open spec fn spec_from_le(bytes: Seq<u8>) -> i8 {
        spec_le_value(bytes) as i8
    }

    open spec fn spec_to_le(self) -> Seq<u8> {
        spec_le_bytes(self as u128, 1)
    }

    proof fn lemma_roundtrip(self) {
        lemma_le_value_of_bytes(self as u128, 1);
        let x = self;
        assert((x as u128 & !(0xFFFF_FFFF_FFFF_FFFF_FFFF_FFFF_FFFF_FFFFu128 << 8u128)) as i8 == x) by (bit_vector);
    }

    #[inline]
    fn load<M: Memory>(memory: &mut M, address: u32) -> (r: Result<i8, Error>) {
        let bytes = memory.load_bytes(address, 1)?;
        Ok(le_bytes_to_u128(bytes) as i8)
    }

    #[inline]
    fn store<M: Memory>(&self, memory: &mut M, address: u32) -> (r: Result<(), Error>) {
        let bytes = u128_to_le_bytes(*self as u128, 1);
        memory.store_bytes(address, bytes.as_slice())
    }
}

impl MemoryType for i16 {
    open spec fn spec_size() -> usize {
        2
    }

    open spec fn spec_from_le(bytes: Seq<u8>) -> i16 {
        spec_le_value(bytes) as i16
    }

    open spec fn spec_to_le(self) -> Seq<u8> {
        spec_le_bytes(self as u128, 2)
    }

    proof fn lemma_roundtrip(self) {
        lemma_le_value_of_bytes(self as u128, 2);
        let x = self;
        assert((x as u128 & !(0xFFFF_FFFF_FFFF_FFFF_FFFF_FFFF_FFFF_FFFFu128 << 16u128)) as i16 == x) by (bit_vector);
    }

    #[inline]
    fn load<M: Memory>(memory: &mut M, address: u32) -> (r: Result<i16, Error>) {
        let bytes = memory.load_bytes(address, 2)?;
        Ok(le_bytes_to_u128(bytes) as i16)
    }

    #[inline]
    fn store<M: Memory>(&self, memory: &mut M, address: u32) -> (r: Result<(), Error>) {
        let bytes = u128_to_le_bytes(*self as u128, 2);
        memory.store_bytes(address, bytes.as_slice())
    }
}

impl MemoryType for i32 {
    open spec fn spec_size() -> usize {
        4
    }

    open spec fn spec_from_le(bytes: Seq<u8>) -> i32 {
        spec_le_value(bytes) as i32
    }

    open spec fn spec_to_le(self) -> Seq<u8> {
        spec_le_bytes(self as u128, 4)
    }

    proof fn lemma_roundtrip(self) {
        lemma_le_value_of_bytes(self as u128, 4);
        let x = self;
        assert((x as u128 & !(0xFFFF_FFFF_FFFF_FFFF_FFFF_FFFF_FFFF_FFFFu128 << 32u128)) as i32 == x) by (bit_vector);
    }

    #[inline]
    fn load<M: Memory>(memory: &mut M, address: u32) -> (r: Result<i32, Error>) {
        let bytes = memory.load_bytes(address, 4)?;
        Ok(le_bytes_to_u128(bytes) as i32)
    }

    #[inline]
    fn store<M: Memory>(&self, memory: &mut M, address: u32) -> (r: Result<(), Error>) {
        let bytes = u128_to_le_bytes(*self as u128, 4);
        memory.store_bytes(address, bytes.as_slice())
    }
}

impl MemoryType for i64 {
    open spec fn spec_size() -> usize {
        8
    }

    open spec fn spec_from_le(bytes: Seq<u8>) -> i64 {
        spec_le_value(bytes) as i64
    }

    open spec fn spec_to_le(self) -> Seq<u8> {
        spec_le_bytes(self as u128, 8)
    }

    proof fn lemma_roundtrip(self) {
        lemma_le_value_of_bytes(self as u128, 8);
        let x = self;
        assert((x as u128 & !(0xFFFF_FFFF_FFFF_FFFF_FFFF_FFFF_FFFF_FFFFu128 << 64u128)) as i64 == x) by (bit_vector);
    }

    #[inline]
    fn load<M: Memory>(memory: &mut M, address: u32) -> (r: Result<i64, Error>) {
        let bytes = memory.load_bytes(address, 8)?;
        Ok(le_bytes_to_u128(bytes) as i64)
    }

    #[inline]
    fn store<M: Memory>(&self, memory: &mut M, address: u32) -> (r: Result<(), Error>) {
        let bytes = u128_to_le_bytes(*self as u128, 8);
        memory.store_bytes(address, bytes.as_slice())
    }
}

impl MemoryType for i128 {
    open spec fn spec_size() -> usize {
        16
    }

    open spec fn spec_from_le(bytes: Seq<u8>) -> i128 {
        spec_le_value(bytes) as i128
    }

    open spec fn spec_to_le(self) -> Seq<u8> {
        spec_le_bytes(self as u128, 16)
    }

    proof fn lemma_roundtrip(self) {
        lemma_le_value_of_bytes(self as u128, 16);
        let x = self;
        assert((x as u128 & !(0xFFFF_FFFF_FFFF_FFFF_FFFF_FFFF_FFFF_FFFFu128 << 128u128)) as i128 == x) by (bit_vector);
    }

    #[inline]
    fn load<M: Memory>(memory: &mut M, address: u32) -> (r: Result<i128, Error>) {
        let bytes = memory.load_bytes(address, 16)?;
        Ok(le_bytes_to_u128(bytes) as i128)
    }

    #[inline]
    fn store<M: Memory>(&self, memory: &mut M, address: u32) -> (r: Result<(), Error>) {
        let bytes = u128_to_le_bytes(*self as u128, 16);
        memory.store_bytes(address, bytes.as_slice())
    }
}

impl MemoryType for u8 {
    open spec fn spec_size() -> usize {
        1
    }

    open spec fn spec_from_le(bytes: Seq<u8>) -> u8 {
        spec_le_value(bytes) as u8
    }

    open spec fn spec_to_le(self) -> Seq<u8> {
        spec_le_bytes(self as u128, 1)
    }

    proof fn lemma_roundtrip(self) {
        lemma_le_value_of_bytes(self as u128, 1);
        let x = self;
        assert((x as u128 & !(0xFFFF_FFFF_FFFF_FFFF_FFFF_FFFF_FFFF_FFFFu128 << 8u128)) as u8 == x) by (bit_vector);
    }

    #[inline]
    fn load<M: Memory>(memory: &mut M, address: u32) -> (r: Result<u8, Error>) {
        let bytes = memory.load_bytes(address, 1)?;
        Ok(le_bytes_to_u128(bytes) as u8)
    }

    #[inline]
    fn store<M: Memory>(&self, memory: &mut M, address: u32) -> (r: Result<(), Error>) {
        let bytes = u128_to_le_bytes(*self as u128, 1);
        memory.store_bytes(address, bytes.as_slice())
    }
}

impl MemoryType for u16 {
    open spec fn spec_size() -> usize {
        2
    }

    open spec fn spec_from_le(bytes: Seq<u8>) -> u16 {
        spec_le_value(bytes) as u16
    }

    open spec fn spec_to_le(self) -> Seq<u8> {
        spec_le_bytes(self as u128, 2)
    }

    proof fn lemma_roundtrip(self) {
        lemma_le_value_of_bytes(self as u128, 2);
        let x = self;
        assert((x as u128 & !(0xFFFF_FFFF_FFFF_FFFF_FFFF_FFFF_FFFF_FFFFu128 << 16u128)) as u16 == x) by (bit_vector);
    }

    #[inline]
    fn load<M: Memory>(memory: &mut M, address: u32) -> (r: Result<u16, Error>) {
        let bytes = memory.load_bytes(address, 2)?;
        Ok(le_bytes_to_u128(bytes) as u16)
    }

    #[inline]
    fn store<M: Memory>(&self, memory: &mut M, address: u32) -> (r: Result<(), Error>) {
        let bytes = u128_to_le_bytes(*self as u128, 2);
        memory.store_bytes(address, bytes.as_slice())
    }
}

impl MemoryType for u32 {
    open spec fn spec_size() -> usize {
        4
    }

    open spec fn spec_from_le(bytes: Seq<u8>) -> u32 {
        spec_le_value(bytes) as u32
    }

    open spec fn spec_to_le(self) -> Seq<u8> {
        spec_le_bytes(self as u128, 4)
    }

    proof fn lemma_roundtrip(self) {
        lemma_le_value_of_bytes(self as u128, 4);
        let x = self;
        assert((x as u128 & !(0xFFFF_FFFF_FFFF_FFFF_FFFF_FFFF_FFFF_FFFFu128 << 32u128)) as u32 == x) by (bit_vector);
    }

    #[inline]
    fn load<M: Memory>(memory: &mut M, address: u32) -> (r: Result<u32, Error>) {
        let bytes = memory.load_bytes(address, 4)?;
        Ok(le_bytes_to_u128(bytes) as u32)
    }

    #[inline]
    fn store<M: Memory>(&self, memory: &mut M, address: u32) -> (r: Result<(), Error>) {
        let bytes = u128_to_le_bytes(*self as u128, 4);
        memory.store_bytes(address, bytes.as_slice())
    }
}

impl MemoryType for u64 {
    open spec fn spec_size() -> usize {
        8
    }

    open spec fn spec_from_le(bytes: Seq<u8>) -> u64 {
        spec_le_value(bytes) as u64
    }

    open spec fn spec_to_le(self) -> Seq<u8> {
        spec_le_bytes(self as u128, 8)
    }

    proof fn lemma_roundtrip(self) {
        lemma_le_value_of_bytes(self as u128, 8);
        let x = self;
        assert((x as u128 & !(0xFFFF_FFFF_FFFF_FFFF_FFFF_FFFF_FFFF_FFFFu128 << 64u128)) as u64 == x) by (bit_vector);
    }

    #[inline]
    fn load<M: Memory>(memory: &mut M, address: u32) -> (r: Result<u64, Error>) {
        let bytes = memory.load_bytes(address, 8)?;
        Ok(le_bytes_to_u128(bytes) as u64)
    }

    #[inline]
    fn store<M: Memory>(&self, memory: &mut M, address: u32) -> (r: Result<(), Error>) {
        let bytes = u128_to_le_bytes(*self as u128, 8);
        memory.store_bytes(address, bytes.as_slice())
    }
}

impl MemoryType for u128 {
    open spec fn spec_size() -> usize {
        16
    }

    open spec fn spec_from_le(bytes: Seq<u8>) -> u128 {
        spec_le_value(bytes) as u128
    }

    open spec fn spec_to_le(self) -> Seq<u8> {
        spec_le_bytes(self as u128, 16)
    }

    proof fn lemma_roundtrip(self) {
        lemma_le_value_of_bytes(self as u128, 16);
        let x = self;
        assert((x as u128 & !(0xFFFF_FFFF_FFFF_FFFF_FFFF_FFFF_FFFF_FFFFu128 << 128u128)) as u128 == x) by (bit_vector);
    }

    #[inline]
    fn load<M: Memory>(memory: &mut M, address: u32) -> (r: Result<u128, Error>) {
        let bytes = memory.load_bytes(address, 16)?;
        Ok(le_bytes_to_u128(bytes) as u128)
    }

    #[inline]
    fn store<M: Memory>(&self, memory: &mut M, address: u32) -> (r: Result<(), Error>) {
        let bytes = u128_to_le_bytes(*self as u128, 16);
        memory.store_bytes(address, bytes.as_slice())
    }
}

impl MemoryType for bool {
    open spec fn spec_size() -> usize {
        1
    }

    open spec fn spec_from_le(bytes: Seq<u8>) -> bool {
        spec_le_value(bytes) as u8 != 0
    }

    open spec fn spec_to_le(self) -> Seq<u8> {
        spec_le_bytes(if self { 1 } else { 0 }, 1)
    }

    proof fn lemma_roundtrip(self) {
        lemma_le_value_of_bytes(if self { 1 } else { 0 }, 1);
        assert(1u128 & !(0xFFFF_FFFF_FFFF_FFFF_FFFF_FFFF_FFFF_FFFFu128 << 8u128) == 1) by (bit_vector);
        assert(0u128 & !(0xFFFF_FFFF_FFFF_FFFF_FFFF_FFFF_FFFF_FFFFu128 << 8u128) == 0) by (bit_vector);
    }

    #[inline]
    fn load<M: Memory>(memory: &mut M, address: u32) -> (r: Result<bool, Error>) {
        let byte = u8::load(memory, address)?;
        Ok(byte != 0)
    }

    #[inline]
    fn store<M: Memory>(&self, memory: &mut M, address: u32) -> (r: Result<(), Error>) {
        let byte: u8 = if *self { 1 } else { 0 };
        byte.store(memory, address)
    }
}

} // verus!

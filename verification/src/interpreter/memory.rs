//! Memory Module
//!
//! This module implements the memory interface for the Embive interpreter.
use vstd::prelude::*;

mod memory_type;

use super::error::Error;

pub use memory_type::{
    le_bytes_to_u128, lemma_le_value_of_bytes, lemma_store_then_load_value, spec_le_bytes, spec_le_value,
    spec_low_bytes, u128_to_le_bytes, MemoryType,
};

verus! {

/// RAM address offset for default memory implementations.
pub const RAM_OFFSET: u32 = 0x8000_0000;

/// Where a `len`-byte access at `start` lies in a slice of `slice_len` bytes, or why it fails:
/// the end overflows, or the end lies past the slice.
pub open spec fn spec_slice_range(slice_len: nat, start: usize, len: usize) -> Result<(int, int), Error> {
    if start + len > usize::MAX {
        Err(Error::InvalidMemoryAccessLength(len))
    } else if start + len > slice_len {
        Err(Error::InvalidMemoryAddress((start + len) as u32))
    } else {
        Ok((start as int, start + len))
    }
}

/// A helper function to check if a slice range is valid.
///
/// Arguments:
/// - `slice_len`: The length of the slice to check.
/// - `start`: The start index of the range.
/// - `len`: The length of the range.
///
/// Returns:
/// - `Ok((usize, usize))`: The valid range, start (inclusive) and end (exclusive).
/// - `Err(Error)`: An error occurred. Ex.: Memory address is out of bounds.
#[inline(always)]
pub fn checked_slice_range(slice_len: usize, start: usize, len: usize) -> (r: Result<(usize, usize), Error>)
    ensures
        match spec_slice_range(slice_len as nat, start, len) {
            Ok((s, e)) => r matches Ok((rs, re)) && rs == s && re == e,
            Err(err) => r == Err::<(usize, usize), Error>(err),
        },
{
    // Check for overflow when calculating the end index.
    let end = match start.checked_add(len) {
        Some(end) => end,
        None => return Err(Error::InvalidMemoryAccessLength(len)),
    };

    // Check bounds, start is always <= end here.
    if end > slice_len {
        return Err(Error::InvalidMemoryAddress(end as u32));
    }

    Ok((start, end))
}

/// Embive Memory Trait
///
/// This trait implements the memory interface for the Embive interpreter.
/// It should support loading bytes from the code (0x00000000) region, as well as loading and
/// storing to the RAM ([`RAM_OFFSET`]).
/// RISC-V is little-endian, bytes should be loaded / stored as that.
///
/// An implementation describes its contents by its view and says, over that view, what a load
/// reads and what a store leaves.
pub trait Memory: View + Sized {
    /// The bytes that a `len`-byte load at `address` reads, or the error it fails with.
    spec fn spec_load(mem: Self::V, address: u32, len: usize) -> Result<Seq<u8>, Error>;

    /// The RAM bytes that a `len`-byte access at `address` reaches (their current values), or the
    /// error such an access fails with.
    spec fn spec_ram_bytes(mem: Self::V, address: u32, len: usize) -> Result<Seq<u8>, Error>;

    /// The contents after a store of `data` at `address`, or the error it fails with.
    spec fn spec_store(mem: Self::V, address: u32, data: Seq<u8>) -> Result<Self::V, Error>;

    /// Load `len` bytes from memory address.
    ///
    /// Arguments:
    /// - `address`: Memory address to get (code or RAM).
    /// - `len`: Number of bytes to load.
    ///
    /// Returns:
    /// - `Ok(&[u8])`: Bytes at the memory address.
    /// - `Err(Error)`: An error occurred. Ex.: Memory address is out of bounds.
    fn load_bytes(&mut self, address: u32, len: usize) -> (r: Result<&[u8], Error>)
        ensures
            final(self)@ == old(self)@,
            match Self::spec_load(old(self)@, address, len) {
                Ok(bytes) => r matches Ok(b) && b@ == bytes && bytes.len() == len,
                Err(e) => r matches Err(re) && re == e,
            },
    ;

    /// Get mutable reference to `len` bytes from memory address (only RAM).
    ///
    /// Arguments:
    /// - `address`: Memory address to get (only RAM).
    /// - `len`: Number of bytes to get.
    ///
    /// Returns:
    /// - `Ok(&mut [u8])`: Mutable bytes at the memory address. What is written through them is
    ///   what a store of them at `address` would leave (a slice keeps its length, which the
    ///   contract takes as given rather than proves).
    /// - `Err(Error)`: An error occurred. Ex.: Memory address is out of bounds.
    fn mut_bytes(&mut self, address: u32, len: usize) -> (r: Result<&mut [u8], Error>)
        ensures
            match Self::spec_ram_bytes(old(self)@, address, len) {
                Ok(bytes) => r matches Ok(b) && b@ == bytes && bytes.len() == len && (final(b)@.len()
                    == len ==> Self::spec_store(old(self)@, address, final(b)@) == Ok::<
                    Self::V,
                    Error,
                >(final(self)@)),
                Err(e) => r matches Err(re) && re == e && final(self)@ == old(self)@,
            },
    ;

    /// Store bytes to memory address (only RAM).
    ///
    /// Arguments:
    /// - `address`: The memory address to store (only RAM).
    /// - `data`: Bytes to store.
    ///
    /// Returns:
    /// - `Ok(())`: Bytes were stored successfully.
    /// - `Err(Error)`: An error occurred. Ex.: Memory address is out of bounds.
    fn store_bytes(&mut self, address: u32, data: &[u8]) -> (r: Result<(), Error>)
        ensures
            match Self::spec_store(old(self)@, address, data@) {
                Ok(mem) => r is Ok && final(self)@ == mem,
                Err(e) => r == Err::<(), Error>(e) && final(self)@ == old(self)@,
            },
    ;
}

/// The contents of a [`SliceMemory`].
pub struct SliceMemoryView {
    /// Code, mapped at address 0.
    pub code: Seq<u8>,
    /// RAM, mapped at [`RAM_OFFSET`].
    pub ram: Seq<u8>,
}

/// A simple memory implementation made of a code buffer and a RAM buffer.
///
/// Code section is mapped to address `0x00000000` and RAM to [`RAM_OFFSET`].
#[derive(Debug)]
pub struct SliceMemory {
    /// RISC-V bytecode.
    code: Vec<u8>,
    /// RAM buffer.
    ram: Vec<u8>,
}

impl View for SliceMemory {
    type V = SliceMemoryView;

    closed spec fn view(&self) -> SliceMemoryView {
        SliceMemoryView { code: self.code@, ram: self.ram@ }
    }
}

/// The RAM index that `address` names (addresses below [`RAM_OFFSET`] wrap around).
pub open spec fn spec_ram_index(address: u32) -> usize {
    vstd::wrapping::u32_specs::wrapping_sub(address, RAM_OFFSET) as usize
}

impl SliceMemory {
    /// Create a new memory space.
    ///
    /// Arguments:
    /// - `code`: Code buffer.
    /// - `ram`: RAM buffer.
    pub fn new(code: Vec<u8>, ram: Vec<u8>) -> (r: SliceMemory)
        ensures
            r@.code == code@,
            r@.ram == ram@,
    {
        SliceMemory { code, ram }
    }

    /// The code buffer.
    pub fn code(&self) -> (r: &[u8])
        ensures
            r@ == self@.code,
    {
        self.code.as_slice()
    }

    /// The RAM buffer.
    pub fn ram(&self) -> (r: &[u8])
        ensures
            r@ == self@.ram,
    {
        self.ram.as_slice()
    }
}

impl Memory for SliceMemory {
    /// Addresses from [`RAM_OFFSET`] up read the RAM, the others read the code.
    open spec fn spec_load(mem: SliceMemoryView, address: u32, len: usize) -> Result<Seq<u8>, Error> {
        if address >= RAM_OFFSET {
            match spec_slice_range(mem.ram.len(), spec_ram_index(address), len) {
                Ok((s, e)) => Ok(mem.ram.subrange(s, e)),
                Err(err) => Err(err),
            }
        } else {
            match spec_slice_range(mem.code.len(), address as usize, len) {
                Ok((s, e)) => Ok(mem.code.subrange(s, e)),
                Err(err) => Err(err),
            }
        }
    }

    /// The RAM bytes from the address's RAM index on, as long as they lie inside the RAM.
    open spec fn spec_ram_bytes(mem: SliceMemoryView, address: u32, len: usize) -> Result<Seq<u8>, Error> {
        match spec_slice_range(mem.ram.len(), spec_ram_index(address), len) {
            Ok((s, e)) => Ok(mem.ram.subrange(s, e)),
            Err(err) => Err(err),
        }
    }

    /// Only the RAM can be written; the code is read-only.
    open spec fn spec_store(mem: SliceMemoryView, address: u32, data: Seq<u8>) -> Result<SliceMemoryView, Error> {
        match spec_slice_range(mem.ram.len(), spec_ram_index(address), data.len() as usize) {
            Ok((s, e)) => Ok(
                SliceMemoryView {
                    code: mem.code,
                    ram: mem.ram.subrange(0, s) + data + mem.ram.subrange(e, mem.ram.len() as int),
                },
            ),
            Err(err) => Err(err),
        }
    }

    #[inline]
    fn load_bytes(&mut self, address: u32, len: usize) -> (r: Result<&[u8], Error>) {
        // Check if the address is in RAM or code.
        if address >= RAM_OFFSET {
            // Subtract the RAM offset to get the actual address.
            let ram_address = address.wrapping_sub(RAM_OFFSET) as usize;
            match checked_slice_range(self.ram.len(), ram_address, len) {
                Ok((start, end)) => Ok(&self.ram.as_slice()[start..end]),
                Err(e) => Err(e),
            }
        } else {
            let code_address = address as usize;
            match checked_slice_range(self.code.len(), code_address, len) {
                Ok((start, end)) => Ok(&self.code.as_slice()[start..end]),
                Err(e) => Err(e),
            }
        }
    }

    #[inline]
    fn mut_bytes(&mut self, address: u32, len: usize) -> (r: Result<&mut [u8], Error>) {
        // Subtract the RAM offset to get the actual address.
        let ram_address = address.wrapping_sub(RAM_OFFSET) as usize;
        match checked_slice_range(self.ram.len(), ram_address, len) {
            Ok((start, end)) => {
                let ghost old_ram = self.ram@;
                let ram = self.ram.as_mut_slice();
                let (before, rest) = ram.split_at_mut(start);
                let (bytes, after) = rest.split_at_mut(len);
                assert(has_resolved(before) && has_resolved(after));
                assert(final(before)@ == old_ram.subrange(0, start as int));
                assert(final(after)@ == old_ram.subrange(end as int, old_ram.len() as int));
                assert(final(before)@ + (final(bytes)@ + final(after)@) =~= (final(before)@
                    + final(bytes)@) + final(after)@);
                Ok(bytes)
            },
            Err(e) => Err(e),
        }
    }

    #[inline]
    fn store_bytes(&mut self, address: u32, data: &[u8]) -> (r: Result<(), Error>) {
        // Subtract the RAM offset to get the actual address.
        let ram_address = address.wrapping_sub(RAM_OFFSET) as usize;
        match checked_slice_range(self.ram.len(), ram_address, data.len()) {
            Ok((start, end)) => {
                let ghost old_ram = self.ram@;
                let mut i: usize = 0;
                while i < data.len()
                    invariant
                        start + data@.len() == end <= self.ram@.len(),
                        old_ram.len() == self.ram@.len(),
                        i <= data@.len(),
                        self@.code == old(self)@.code,
                        forall|k: int| 0 <= k < start ==> self.ram@[k] == old_ram[k],
                        forall|k: int| end <= k < old_ram.len() ==> self.ram@[k] == old_ram[k],
                        forall|k: int| 0 <= k < i ==> self.ram@[start + k] == data@[k],
                        forall|k: int| start + i <= k < end ==> self.ram@[k] == old_ram[k],
                    decreases data@.len() - i,
                {
                    self.ram.set(start + i, data[i]);
                    i = i + 1;
                }
                assert(self.ram@ =~= old_ram.subrange(0, start as int) + data@ + old_ram.subrange(end as int, old_ram.len() as int));
                Ok(())
            },
            Err(e) => Err(e),
        }
    }
}

/// What a store into the RAM writes, a load of as many bytes at the same address reads back.
/// (An address below [`RAM_OFFSET`] loads from the code, which a store never writes.)
pub proof fn lemma_store_then_load(mem: SliceMemoryView, address: u32, data: Seq<u8>)
    requires
        address >= RAM_OFFSET,
        data.len() <= usize::MAX,
        SliceMemory::spec_store(mem, address, data) is Ok,
    ensures
        SliceMemory::spec_load(SliceMemory::spec_store(mem, address, data)->Ok_0, address, data.len() as usize)
            == Ok::<Seq<u8>, Error>(data),
{
    let stored = SliceMemory::spec_store(mem, address, data)->Ok_0;
    let start = spec_ram_index(address) as int;
    assert(stored.ram.subrange(start, start + data.len()) =~= data);
}

/// A store into the RAM changes nothing but the bytes it writes: the code and every other RAM
/// byte keep their values.
pub proof fn lemma_store_keeps_the_rest(mem: SliceMemoryView, address: u32, data: Seq<u8>, index: int)
    requires
        data.len() <= usize::MAX,
        SliceMemory::spec_store(mem, address, data) is Ok,
        0 <= index < mem.ram.len(),
        !(spec_ram_index(address) <= index < spec_ram_index(address) + data.len()),
    ensures
        SliceMemory::spec_store(mem, address, data)->Ok_0.code == mem.code,
        SliceMemory::spec_store(mem, address, data)->Ok_0.ram.len() == mem.ram.len(),
        SliceMemory::spec_store(mem, address, data)->Ok_0.ram[index] == mem.ram[index],
{
}

} // verus!

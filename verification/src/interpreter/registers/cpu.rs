//! CPU Register Module
use vstd::prelude::*;

use crate::interpreter::Error;

verus! {

/// Number of registers available
pub const CPU_REGISTER_COUNT: u8 = 32;

/// CPU Register Enum (the register's index is its position in this list).
#[derive(Debug, PartialEq, Eq, Clone, Copy)]
pub enum CPURegister {
    /// x0 register, hardwired to 0 (read-only).
    Zero,
    /// x1 register, return address.
    RA,
    /// x2 register, stack pointer.
    SP,
    /// x3 register, global pointer.
    GP,
    /// x4 register, thread pointer.
    TP,
    /// x5 register, temporary.
    T0,
    /// x6 register, temporary.
    T1,
    /// x7 register, temporary.
    T2,
    /// x8 register, saved.
    S0,
    /// x9 register, saved.
    S1,
    /// x10 register, function argument/return.
    A0,
    /// x11 register, function argument/return.
    A1,
    /// x12 register, function argument.
    A2,
    /// x13 register, function argument.
    A3,
    /// x14 register, function argument.
    A4,
    /// x15 register, function argument.
    A5,
    /// x16 register, function argument.
    A6,
    /// x17 register, function argument.
    A7,
    /// x18 register, saved.
    S2,
    /// x19 register, saved.
    S3,
    /// x20 register, saved.
    S4,
    /// x21 register, saved.
    S5,
    /// x22 register, saved.
    S6,
    /// x23 register, saved.
    S7,
    /// x24 register, saved.
    S8,
    /// x25 register, saved.
    S9,
    /// x26 register, saved.
    S10,
    /// x27 register, saved.
    S11,
    /// x28 register, temporary.
    T3,
    /// x29 register, temporary.
    T4,
    /// x30 register, temporary.
    T5,
    /// x31 register, temporary.
    T6,
}

/// Index of the stack pointer (`x2`).
pub const SP_INDEX: u8 = 2;

/// Index of the return address register (`x1`).
pub const RA_INDEX: u8 = 1;

/// Index of the first syscall argument, and of the returned error code (`a0`).
pub const A0_INDEX: u8 = 10;

/// Index of the returned syscall value (`a1`).
pub const A1_INDEX: u8 = 11;

/// Index of the syscall number (`a7`).
pub const A7_INDEX: u8 = 17;

/// CPU Registers
#[derive(Debug, PartialEq, Copy, Clone)]
pub struct CPURegisters {
    pub(crate) inner: [i32; 32],
}

impl View for CPURegisters {
    type V = Seq<i32>;

    /// The values of `x0` .. `x31`, in order.
    closed spec fn view(&self) -> Seq<i32> {
        self.inner@
    }
}

impl Default for CPURegisters {
    fn default() -> (r: Self)
        ensures
            r@ == Seq::new(32, |i: int| 0i32),
    {
        let r = CPURegisters { inner: [0i32; 32] };
        assert(r@ =~= Seq::new(32, |i: int| 0i32));
        r
    }
}

impl CPURegisters {
    /// There are always 32 registers.
    pub proof fn lemma_len(&self)
        ensures
            self@.len() == 32,
    {
    }

    /// The registers are the values of the inner array.
    pub(crate) proof fn lemma_view(&self)
        ensures
            self@ == self.inner@,
    {
    }

    /// Get a CPU register.
    ///
    /// Arguments:
    /// - `index`: The index of the register (from [`CPURegister::Zero`] to [`CPURegister::T6`]).
    ///
    /// Returns:
    /// - `Ok(i32)`: The value of the register.
    /// - `Err(Error)`: The register index is out of bounds.
    #[inline]
    pub fn get(&self, index: u8) -> (r: Result<i32, Error>)
        ensures
            index < CPU_REGISTER_COUNT ==> r == Ok::<i32, Error>(self@[index as int]),
            index >= CPU_REGISTER_COUNT ==> r == Err::<i32, Error>(Error::InvalidCPURegister(index)),
    {
        if index >= CPU_REGISTER_COUNT {
            return Err(Error::InvalidCPURegister(index));
        }
        Ok(self.inner[index as usize])
    }

    /// Get a mutable reference to a CPU register.
    ///
    /// Arguments:
    /// - `index`: The index of the register (from [`CPURegister::Zero`] to [`CPURegister::T6`]).
    ///     - Register `0` [`CPURegister::Zero`] should be read-only, it is not guarded here.
    ///
    /// Returns:
    /// - `Ok(&mut i32)`: Mutable reference to the register.
    /// - `Err(Error)`: The register index is out of bounds.
    #[inline]
    pub fn get_mut(&mut self, index: u8) -> (r: Result<&mut i32, Error>)
        ensures
            index < CPU_REGISTER_COUNT ==> (r matches Ok(v) && *v == old(self)@[index as int]
                && final(self)@ == old(self)@.update(index as int, *final(v))),
            index >= CPU_REGISTER_COUNT ==> (r matches Err(e) && e == Error::InvalidCPURegister(
                index,
            ) && *final(self) == *old(self)),
    {
        if index >= CPU_REGISTER_COUNT {
            return Err(Error::InvalidCPURegister(index));
        }
        Ok(&mut self.inner[index as usize])
    }

    /// Set a CPU register.
    ///
    /// Arguments:
    /// - `index`: The index of the register.
    /// - `value`: The new value.
    ///
    /// Returns:
    /// - `Ok(())`: The register holds `value`.
    /// - `Err(Error)`: The register index is out of bounds (nothing changed).
    #[inline]
    pub fn set(&mut self, index: u8, value: i32) -> (r: Result<(), Error>)
        ensures
            index < CPU_REGISTER_COUNT ==> r is Ok && final(self)@ == old(self)@.update(
                index as int,
                value,
            ),
            index >= CPU_REGISTER_COUNT ==> r == Err::<(), Error>(Error::InvalidCPURegister(index))
                && *final(self) == *old(self),
    {
        if index >= CPU_REGISTER_COUNT {
            return Err(Error::InvalidCPURegister(index));
        }
        self.inner[index as usize] = value;
        Ok(())
    }
}

} // verus!

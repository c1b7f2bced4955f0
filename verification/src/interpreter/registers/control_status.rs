//! Control and Status Register Module
use vstd::prelude::*;

use crate::interpreter::{Error, EMBIVE_INTERRUPT_CODE};

verus! {

/// Machine Status Register
pub const MSTATUS_ADDR: u16 = 0x300;
/// ISA and extensions supported.
pub const MISA_ADDR: u16 = 0x301;
/// Machine Interrupt Enable
pub const MIE_ADDR: u16 = 0x304;
/// Machine Trap Vector
pub const MTVEC_ADDR: u16 = 0x305;
/// Machine Status High Register
pub const MSTATUSH_ADDR: u16 = 0x310;
/// Inhibit machine counter/timer.
pub const MCOUNTINHIBIT_ADDR: u16 = 0x320;
/// Machine Scratch Register
pub const MSCRATCH_ADDR: u16 = 0x340;
/// Machine Exception Program Counter
pub const MEPC_ADDR: u16 = 0x341;
/// Machine Cause Register
pub const MCAUSE_ADDR: u16 = 0x342;
/// Machine Trap Value
pub const MTVAL_ADDR: u16 = 0x343;
/// Machine Interrupt Pending
pub const MIP_ADDR: u16 = 0x344;
/// Machine High Performance Event 31 High
pub const MHPMEVENT31H_ADDR: u16 = 0x33F;
/// Machine cycle counter.
pub const MCYCLE_ADDR: u16 = 0xB00;
/// Machine High Performance Counter 31 High
pub const MHPMCOUNTER31H_ADDR: u16 = 0xB9F;
/// Vendor ID
pub const MVENDORID_ADDR: u16 = 0xF11;
/// Pointer to configuration data structure
pub const MCONFIGPTR_ADDR: u16 = 0xF15;

/// The value `misa` reads as: MXL = 32 bits, extensions I, M and A.
pub const MISA_VALUE: u32 = 0x4000_1101;

/// MTVEC mode bits
pub const MTVEC_MODE: u32 = 0b11;

/// MEPC bit 0
pub const MEPC_BIT0: u32 = 0b1;

/// MSTATUS MIE bit
pub const MSTATUS_MIE: u8 = 0b1000;
/// MSTATUS MPIE bit
pub const MSTATUS_MPIE: u8 = 0b1000_0000;
/// MSTATUS write mask
pub const MSTATUS_MASK: u8 = 0b1000_1000;

/// MCAUSE for an Embive interrupt: interrupt bit set (`mcause.MEI`), code 11.
pub const MCAUSE_EMBIVE_INTERRUPT: u32 = 0x8000_000B;

/// MIx (MIE and MIP) write mask for Embive Custom Interrupt
pub const MI_E_P_MASK: u32 = 0x1_0000;

/// Control and Status Operation
#[derive(Debug, PartialEq, Copy, Clone)]
pub enum CSOperation {
    /// Write value to the register.
    Write(u32),
    /// Set Bits in the register.
    SetBits(u32),
    /// Clear Bits in the register.
    ClearBits(u32),
}

/// The value that an operation leaves in a register that held `value`.
pub open spec fn spec_execute_operation(op: Option<CSOperation>, value: u32) -> u32 {
    match op {
        Some(CSOperation::Write(val)) => val,
        Some(CSOperation::SetBits(val)) => value | val,
        Some(CSOperation::ClearBits(val)) => value & !val,
        None => value,
    }
}

/// What an operation does to a register's bits: a write replaces the value with the operand;
/// setting bits sets exactly the operand's bits and keeps the others; clearing bits clears
/// exactly the operand's bits and keeps the others; no operation keeps the value. Setting or
/// clearing the same bits twice is doing it once.
pub proof fn lemma_operation_bits(value: u32, mask: u32)
    ensures
        spec_execute_operation(Some(CSOperation::Write(mask)), value) == mask,
        spec_execute_operation(None, value) == value,
        spec_execute_operation(Some(CSOperation::SetBits(mask)), value) & mask == mask,
        spec_execute_operation(Some(CSOperation::SetBits(mask)), value) & !mask == value & !mask,
        spec_execute_operation(Some(CSOperation::ClearBits(mask)), value) & mask == 0,
        spec_execute_operation(Some(CSOperation::ClearBits(mask)), value) & !mask == value & !mask,
        spec_execute_operation(
            Some(CSOperation::SetBits(mask)),
            spec_execute_operation(Some(CSOperation::SetBits(mask)), value),
        ) == spec_execute_operation(Some(CSOperation::SetBits(mask)), value),
        spec_execute_operation(
            Some(CSOperation::ClearBits(mask)),
            spec_execute_operation(Some(CSOperation::ClearBits(mask)), value),
        ) == spec_execute_operation(Some(CSOperation::ClearBits(mask)), value),
{
    let st = spec_execute_operation(Some(CSOperation::SetBits(mask)), value);
    let cl = spec_execute_operation(Some(CSOperation::ClearBits(mask)), value);
    assert((st & mask == mask) && (st & !mask == value & !mask) && (cl & mask == 0) && (cl & !mask
        == value & !mask) && (st | mask == st) && (cl & !mask == cl)) by (bit_vector)
        requires
            st == value | mask,
            cl == value & !mask,
    ;
}

/// The registers that are ignored and read as 0: `mstatush`, the counter controls
/// (`mcountinhibit` to `mhpmevent31h`), the counters (`mcycle` to `mhpmcounter31h`) and the
/// identification registers (`mvendorid` to `mconfigptr`).
pub open spec fn spec_csr_ignored(addr: u16) -> bool {
    addr == MSTATUSH_ADDR || (MCOUNTINHIBIT_ADDR <= addr <= MHPMEVENT31H_ADDR) || (MCYCLE_ADDR
        <= addr <= MHPMCOUNTER31H_ADDR) || (MVENDORID_ADDR <= addr <= MCONFIGPTR_ADDR)
}

/// The addresses that name a register: the supported ones and the ignored ones that read as 0.
pub open spec fn spec_csr_exists(addr: u16) -> bool {
    addr == MSTATUS_ADDR || addr == MISA_ADDR || addr == MIE_ADDR || addr == MTVEC_ADDR || addr
        == MSCRATCH_ADDR || addr == MEPC_ADDR || addr == MCAUSE_ADDR || addr == MTVAL_ADDR || addr
        == MIP_ADDR || addr == MSTATUSH_ADDR || (MCOUNTINHIBIT_ADDR <= addr <= MHPMEVENT31H_ADDR)
        || (MCYCLE_ADDR <= addr <= MHPMCOUNTER31H_ADDR) || (MVENDORID_ADDR <= addr
        <= MCONFIGPTR_ADDR)
}

/// What the register at `addr` reads as after `value` was written to it: `mstatus` keeps MIE and
/// MPIE only, `mie` and `mip` bit [`EMBIVE_INTERRUPT_CODE`] only, `mtvec` loses its mode bits,
/// `mepc` its bit 0; `misa` always reads as [`MISA_VALUE`] and the ignored registers as 0.
pub open spec fn spec_written_value(addr: u16, value: u32) -> u32 {
    if addr == MSTATUS_ADDR {
        value & (MSTATUS_MASK as u32)
    } else if addr == MISA_ADDR {
        MISA_VALUE
    } else if addr == MIE_ADDR || addr == MIP_ADDR {
        value & MI_E_P_MASK
    } else if addr == MTVEC_ADDR {
        value & !MTVEC_MODE
    } else if addr == MEPC_ADDR {
        value & !MEPC_BIT0
    } else if addr == MSCRATCH_ADDR || addr == MCAUSE_ADDR || addr == MTVAL_ADDR {
        value
    } else {
        0
    }
}

/// `mstatus` after a trap entry: MPIE takes the value of MIE, and MIE is cleared.
pub open spec fn spec_mstatus_on_entry(mstatus: u32) -> u32 {
    if mstatus & (MSTATUS_MIE as u32) != 0 {
        (mstatus | (MSTATUS_MPIE as u32)) & !(MSTATUS_MIE as u32)
    } else {
        mstatus & !(MSTATUS_MPIE as u32) & !(MSTATUS_MIE as u32)
    }
}

/// `mstatus` after a trap return: MIE takes the value of MPIE.
pub open spec fn spec_mstatus_on_return(mstatus: u32) -> u32 {
    if mstatus & (MSTATUS_MPIE as u32) != 0 {
        mstatus | (MSTATUS_MIE as u32)
    } else {
        mstatus & !(MSTATUS_MIE as u32)
    }
}

/// ISA and extensions supported (`misa`).
pub fn get_misa() -> (r: u32)
    ensures
        r == MISA_VALUE,
{
    MISA_VALUE
}

/// Control and Status Registers
/// Supported CSRs:
/// - MSTATUS (MIE, MPIE)
/// - MISA
/// - MIE (bit [`crate::interpreter::EMBIVE_INTERRUPT_CODE`])
/// - MTVEC (Direct mode only)
/// - MSCRATCH
/// - MEPC
/// - MCAUSE
/// - MTVAL
/// - MIP (bit [`crate::interpreter::EMBIVE_INTERRUPT_CODE`])
///
/// Ignored CSRs (read-only as 0):
/// - MSTATUSH
/// - MCOUNTINHIBIT..MHPMEVENT31
/// - MCYCLE..MHPMCOUNTER31
/// - MVENDORID..MCONFIGPTR
#[derive(Debug, PartialEq, Copy, Clone)]
pub struct CSRegisters {
    /// Machine Trap Vector
    mtvec: u32,
    /// Machine Scratch Register
    mscratch: u32,
    /// Machine Exception Program Counter
    mepc: u32,
    /// Machine Cause Register
    mcause: u32,
    /// Machine Trap Value Register
    mtval: i32,
    /// Machine Interrupt Enable (bit [`crate::interpreter::EMBIVE_INTERRUPT_CODE`])
    mie_embive: bool,
    /// Machine Interrupt Pending (bit [`crate::interpreter::EMBIVE_INTERRUPT_CODE`])
    mip_embive: bool,
    /// Machine Status Register (MIE, MPIE)
    mstatus: u8,
}

impl Default for CSRegisters {
    fn default() -> (r: Self)
        ensures
            r == Self::spec_default(),
    {
        CSRegisters {
            mtvec: 0,
            mscratch: 0,
            mepc: 0,
            mcause: 0,
            mtval: 0,
            mie_embive: false,
            mip_embive: false,
            mstatus: 0,
        }
    }
}

impl CSRegisters {
    /// Every register cleared.
    pub closed spec fn spec_default() -> Self {
        CSRegisters {
            mtvec: 0,
            mscratch: 0,
            mepc: 0,
            mcause: 0,
            mtval: 0,
            mie_embive: false,
            mip_embive: false,
            mstatus: 0,
        }
    }

    /// The registers hold only what a write can leave there: `mstatus` holds no bits but
    /// MIE and MPIE, `mtvec` is in direct mode and `mepc` is even.
    pub closed spec fn inv(self) -> bool {
        &&& self.mstatus & !MSTATUS_MASK == 0
        &&& self.mtvec & MTVEC_MODE == 0
        &&& self.mepc & MEPC_BIT0 == 0
    }

    /// What the register at `addr` reads as.
    pub closed spec fn spec_read(self, addr: u16) -> Result<u32, Error> {
        if addr == MSTATUS_ADDR {
            Ok(self.mstatus as u32)
        } else if addr == MISA_ADDR {
            Ok(MISA_VALUE)
        } else if addr == MIE_ADDR {
            Ok(if self.mie_embive { MI_E_P_MASK } else { 0 })
        } else if addr == MTVEC_ADDR {
            Ok(self.mtvec)
        } else if addr == MSCRATCH_ADDR {
            Ok(self.mscratch)
        } else if addr == MEPC_ADDR {
            Ok(self.mepc)
        } else if addr == MCAUSE_ADDR {
            Ok(self.mcause)
        } else if addr == MTVAL_ADDR {
            Ok(self.mtval as u32)
        } else if addr == MIP_ADDR {
            Ok(if self.mip_embive { MI_E_P_MASK } else { 0 })
        } else if addr == MSTATUSH_ADDR || (MCOUNTINHIBIT_ADDR <= addr <= MHPMEVENT31H_ADDR) || (
        MCYCLE_ADDR <= addr <= MHPMCOUNTER31H_ADDR) || (MVENDORID_ADDR <= addr
            <= MCONFIGPTR_ADDR) {
            Ok(0)
        } else {
            Err(Error::InvalidCSRegister(addr))
        }
    }

    /// The registers after `op` on the register at `addr` (unchanged where it cannot be written).
    pub closed spec fn spec_write(self, op: Option<CSOperation>, addr: u16) -> Self {
        if addr == MSTATUS_ADDR {
            CSRegisters {
                mstatus: (spec_execute_operation(op, self.mstatus as u32) as u8) & MSTATUS_MASK,
                ..self
            }
        } else if addr == MIE_ADDR {
            CSRegisters {
                mie_embive: spec_execute_operation(
                    op,
                    if self.mie_embive { MI_E_P_MASK } else { 0 },
                ) & MI_E_P_MASK != 0,
                ..self
            }
        } else if addr == MTVEC_ADDR {
            CSRegisters { mtvec: spec_execute_operation(op, self.mtvec) & !MTVEC_MODE, ..self }
        } else if addr == MSCRATCH_ADDR {
            CSRegisters { mscratch: spec_execute_operation(op, self.mscratch), ..self }
        } else if addr == MEPC_ADDR {
            CSRegisters { mepc: spec_execute_operation(op, self.mepc) & !MEPC_BIT0, ..self }
        } else if addr == MCAUSE_ADDR {
            CSRegisters { mcause: spec_execute_operation(op, self.mcause), ..self }
        } else if addr == MTVAL_ADDR {
            CSRegisters { mtval: spec_execute_operation(op, self.mtval as u32) as i32, ..self }
        } else if addr == MIP_ADDR {
            CSRegisters {
                mip_embive: spec_execute_operation(
                    op,
                    if self.mip_embive { MI_E_P_MASK } else { 0 },
                ) & MI_E_P_MASK != 0,
                ..self
            }
        } else {
            self
        }
    }

    /// Interrupts are enabled: `mie` bit [`EMBIVE_INTERRUPT_CODE`] and `mstatus.MIE` are set.
    pub closed spec fn spec_interrupt_enabled(self) -> bool {
        self.mie_embive && (self.mstatus & MSTATUS_MIE) != 0
    }

    /// The interrupt pending flag (`mip` bit [`EMBIVE_INTERRUPT_CODE`]) is set.
    pub closed spec fn spec_interrupt_pending(self) -> bool {
        self.mip_embive
    }

    /// The registers with the interrupt pending flag set.
    pub closed spec fn spec_set_interrupt(self) -> Self {
        CSRegisters { mip_embive: true, ..self }
    }

    /// The registers after a trap taken at program counter `pc` with trap value `value`.
    pub closed spec fn spec_trap_entry(self, pc: u32, value: i32) -> Self {
        CSRegisters {
            mstatus: if (self.mstatus & MSTATUS_MIE) != 0 {
                (self.mstatus | MSTATUS_MPIE) & !MSTATUS_MIE
            } else {
                self.mstatus & !MSTATUS_MPIE & !MSTATUS_MIE
            },
            mcause: MCAUSE_EMBIVE_INTERRUPT,
            mepc: pc,
            mtval: value,
            ..self
        }
    }

    /// Where a trap goes: the base address in `mtvec` (direct mode).
    pub closed spec fn spec_trap_target(self) -> u32 {
        self.mtvec & !MTVEC_MODE
    }

    /// The registers after a return from a trap.
    pub closed spec fn spec_trap_return(self) -> Self {
        CSRegisters {
            mstatus: if (self.mstatus & MSTATUS_MPIE) != 0 {
                self.mstatus | MSTATUS_MIE
            } else {
                self.mstatus & !MSTATUS_MIE
            },
            ..self
        }
    }

    /// The trap value register (`mtval`).
    pub closed spec fn spec_trap_value(self) -> i32 {
        self.mtval
    }

    /// Where a return from a trap goes: `mepc`.
    pub closed spec fn spec_trap_return_target(self) -> u32 {
        self.mepc
    }

    /// Writes and returns from traps keep the registers well formed.
    pub proof fn lemma_inv_kept(self)
        requires
            self.inv(),
        ensures
            forall|op: Option<CSOperation>, addr: u16| #[trigger] self.spec_write(op, addr).inv(),
            self.spec_trap_return().inv(),
            self.spec_set_interrupt().inv(),
            forall|pc: u32, value: i32|
                pc & MEPC_BIT0 == 0 ==> #[trigger] self.spec_trap_entry(pc, value).inv(),
    {
        lemma_masks();
    }

    /// An operation on a register reads back, as the register's new value, what the operation
    /// leaves masked to the register's writable bits ([`spec_written_value`]); every other
    /// register reads as before. An address that names no register changes nothing.
    pub proof fn lemma_write_then_read(self, op: Option<CSOperation>, addr: u16, other: u16)
        ensures
            spec_csr_exists(addr) ==> self.spec_write(op, addr).spec_read(addr) == Ok::<u32, Error>(
                spec_written_value(addr, spec_execute_operation(op, self.spec_read(addr)->Ok_0)),
            ),
            other != addr ==> self.spec_write(op, addr).spec_read(other) == self.spec_read(other),
            !spec_csr_exists(addr) ==> self.spec_write(op, addr) == self,
    {
        let v = spec_execute_operation(op, self.spec_read(addr)->Ok_0);
        let m = self.mtval;
        assert((((v as u8) & MSTATUS_MASK) as u32 == v & 0x88u32)
            && ((v & MI_E_P_MASK != 0 ==> MI_E_P_MASK == v & MI_E_P_MASK) && (v & MI_E_P_MASK == 0
            ==> 0u32 == v & MI_E_P_MASK))
            && (v as i32 as u32 == v)
            && (m as u32 as i32 == m)) by (bit_vector);
    }

    /// A register exists exactly where [`spec_csr_exists`] says; elsewhere a read fails with
    /// [`Error::InvalidCSRegister`].
    pub proof fn lemma_read_exists(self, addr: u16)
        ensures
            self.spec_read(addr) is Ok <==> spec_csr_exists(addr),
            !spec_csr_exists(addr) ==> self.spec_read(addr) == Err::<u32, Error>(
                Error::InvalidCSRegister(addr),
            ),
    {
    }

    /// In any state, `misa` reads as [`MISA_VALUE`] and each ignored register
    /// ([`spec_csr_ignored`]) as 0, and no operation on them changes any register.
    pub proof fn lemma_fixed_reads(self, op: Option<CSOperation>, addr: u16)
        ensures
            self.spec_read(MISA_ADDR) == Ok::<u32, Error>(MISA_VALUE),
            spec_csr_ignored(addr) ==> self.spec_read(addr) == Ok::<u32, Error>(0),
            addr == MISA_ADDR || spec_csr_ignored(addr) ==> self.spec_write(op, addr) == self,
    {
    }

    /// A read (an operation of `None`) leaves well-formed registers as they were, so that a
    /// second read gives the same value.
    pub proof fn lemma_read_keeps(self, addr: u16)
        requires
            self.inv(),
        ensures
            self.spec_write(None, addr) == self,
    {
        let x = self.mstatus;
        let t = self.mtvec;
        let e = self.mepc;
        let m = self.mtval;
        assert((x & !MSTATUS_MASK == 0 ==> (x as u32 as u8) & MSTATUS_MASK == x)
            && (t & MTVEC_MODE == 0 ==> t & !MTVEC_MODE == t)
            && (e & MEPC_BIT0 == 0 ==> e & !MEPC_BIT0 == e)
            && (m as u32 as i32 == m)
            && ((MI_E_P_MASK & MI_E_P_MASK != 0) && (0u32 & MI_E_P_MASK == 0))) by (bit_vector);
    }

    /// Registers are told apart by their reads: two sets that read alike everywhere are equal.
    pub proof fn lemma_reads_determine(self, other: Self)
        requires
            forall|addr: u16| #[trigger] self.spec_read(addr) == other.spec_read(addr),
        ensures
            self == other,
    {
        assert(self.spec_read(MSTATUS_ADDR) == other.spec_read(MSTATUS_ADDR));
        assert(self.spec_read(MIE_ADDR) == other.spec_read(MIE_ADDR));
        assert(self.spec_read(MIP_ADDR) == other.spec_read(MIP_ADDR));
        assert(self.spec_read(MTVEC_ADDR) == other.spec_read(MTVEC_ADDR));
        assert(self.spec_read(MSCRATCH_ADDR) == other.spec_read(MSCRATCH_ADDR));
        assert(self.spec_read(MEPC_ADDR) == other.spec_read(MEPC_ADDR));
        assert(self.spec_read(MCAUSE_ADDR) == other.spec_read(MCAUSE_ADDR));
        assert(self.spec_read(MTVAL_ADDR) == other.spec_read(MTVAL_ADDR));
        let (a, b) = (self.mstatus, other.mstatus);
        let (c, d) = (self.mtval, other.mtval);
        assert((a as u32 == b as u32 ==> a == b) && (c as u32 == d as u32 ==> c == d)) by (bit_vector);
    }

    /// Every register of the default set reads as zero, but `misa`; all are well formed.
    pub proof fn lemma_default_reads(addr: u16)
        ensures
            Self::spec_default().inv(),
            spec_csr_exists(addr) && addr != MISA_ADDR ==> Self::spec_default().spec_read(addr)
                == Ok::<u32, Error>(0),
    {
        assert(0u8 & !MSTATUS_MASK == 0 && 0u32 & MTVEC_MODE == 0 && 0u32 & MEPC_BIT0 == 0) by (bit_vector);
    }

    /// What the interrupt predicates and trap operations mean in terms of register reads:
    /// - interrupts are enabled when `mie` bit [`EMBIVE_INTERRUPT_CODE`] and `mstatus.MIE` read
    ///   set, and pending when `mip` bit [`EMBIVE_INTERRUPT_CODE`] reads set;
    /// - setting the interrupt sets that `mip` bit and nothing else;
    /// - a trap entry at `pc` with `value` copies `mstatus.MIE` to `mstatus.MPIE` and clears
    ///   `mstatus.MIE`, writes [`MCAUSE_EMBIVE_INTERRUPT`] to `mcause`, `pc` to `mepc` and
    ///   `value` to `mtval`, and changes nothing else; it goes to `mtvec` without its mode bits;
    /// - a trap return copies `mstatus.MPIE` to `mstatus.MIE`, changes nothing else, and goes to
    ///   `mepc`; the trap value is `mtval`.
    pub proof fn lemma_trap_reads(self, pc: u32, value: i32, addr: u16)
        ensures
            self.spec_interrupt_enabled() <==> (self.spec_read(MIE_ADDR)->Ok_0 & MI_E_P_MASK != 0
                && self.spec_read(MSTATUS_ADDR)->Ok_0 & (MSTATUS_MIE as u32) != 0),
            self.spec_interrupt_pending() <==> self.spec_read(MIP_ADDR)->Ok_0 & MI_E_P_MASK != 0,
            self.spec_set_interrupt().spec_read(MIP_ADDR) == Ok::<u32, Error>(MI_E_P_MASK),
            self.spec_set_interrupt().spec_interrupt_enabled() == self.spec_interrupt_enabled(),
            addr != MIP_ADDR ==> self.spec_set_interrupt().spec_read(addr) == self.spec_read(addr),
            self.spec_trap_entry(pc, value).spec_read(MSTATUS_ADDR) == Ok::<u32, Error>(
                spec_mstatus_on_entry(self.spec_read(MSTATUS_ADDR)->Ok_0),
            ),
            self.spec_trap_entry(pc, value).spec_read(MCAUSE_ADDR) == Ok::<u32, Error>(
                MCAUSE_EMBIVE_INTERRUPT,
            ),
            self.spec_trap_entry(pc, value).spec_read(MEPC_ADDR) == Ok::<u32, Error>(pc),
            self.spec_trap_entry(pc, value).spec_read(MTVAL_ADDR) == Ok::<u32, Error>(value as u32),
            addr != MSTATUS_ADDR && addr != MCAUSE_ADDR && addr != MEPC_ADDR && addr != MTVAL_ADDR
                ==> self.spec_trap_entry(pc, value).spec_read(addr) == self.spec_read(addr),
            self.spec_trap_target() == self.spec_read(MTVEC_ADDR)->Ok_0 & !MTVEC_MODE,
            self.spec_trap_return().spec_read(MSTATUS_ADDR) == Ok::<u32, Error>(
                spec_mstatus_on_return(self.spec_read(MSTATUS_ADDR)->Ok_0),
            ),
            addr != MSTATUS_ADDR ==> self.spec_trap_return().spec_read(addr) == self.spec_read(addr),
            self.spec_trap_return_target() == self.spec_read(MEPC_ADDR)->Ok_0,
            self.spec_trap_value() as u32 == self.spec_read(MTVAL_ADDR)->Ok_0,
    {
        let x = self.mstatus;
        assert(((x as u32) & (MSTATUS_MIE as u32) != 0 <==> x & MSTATUS_MIE != 0)
            && (((x | MSTATUS_MPIE) & !MSTATUS_MIE) as u32 == ((x as u32) | (MSTATUS_MPIE as u32))
            & !(MSTATUS_MIE as u32))
            && ((x & !MSTATUS_MPIE & !MSTATUS_MIE) as u32 == (x as u32) & !(MSTATUS_MPIE as u32)
            & !(MSTATUS_MIE as u32))
            && ((x | MSTATUS_MIE) as u32 == (x as u32) | (MSTATUS_MIE as u32))
            && ((x & !MSTATUS_MIE) as u32 == (x as u32) & !(MSTATUS_MIE as u32))
            && ((x as u32) & (MSTATUS_MPIE as u32) != 0 <==> x & MSTATUS_MPIE != 0)
            && ((MI_E_P_MASK & MI_E_P_MASK != 0) && (0u32 & MI_E_P_MASK == 0))) by (bit_vector);
    }

    /// A trap entry followed by a trap return, whether interrupts were enabled or not: the
    /// handler runs with interrupts disabled, and the return goes back to the trapped program
    /// counter with `mstatus.MIE` (and so whether interrupts are enabled) as it was before.
    pub proof fn lemma_trap_entry_then_return(self, pc: u32, value: i32)
        ensures
            !self.spec_trap_entry(pc, value).spec_interrupt_enabled(),
            self.spec_trap_entry(pc, value).spec_trap_return_target() == pc,
            self.spec_trap_entry(pc, value).spec_trap_return().spec_read(MSTATUS_ADDR)->Ok_0
                & (MSTATUS_MIE as u32) == self.spec_read(MSTATUS_ADDR)->Ok_0 & (MSTATUS_MIE as u32),
            self.spec_trap_entry(pc, value).spec_trap_return().spec_interrupt_enabled()
                == self.spec_interrupt_enabled(),
            self.spec_trap_entry(pc, value).spec_trap_return().spec_interrupt_pending()
                == self.spec_interrupt_pending(),
    {
        let x = self.mstatus;
        assert((x & MSTATUS_MIE != 0 ==> ((x | MSTATUS_MPIE) & !MSTATUS_MIE) & MSTATUS_MIE == 0
            && ((x | MSTATUS_MPIE) & !MSTATUS_MIE) & MSTATUS_MPIE != 0 && ((((x | MSTATUS_MPIE)
            & !MSTATUS_MIE) | MSTATUS_MIE) as u32) & 0x08u32 == (x as u32) & 0x08u32)
            && (x & MSTATUS_MIE == 0 ==> (x & !MSTATUS_MPIE & !MSTATUS_MIE) & MSTATUS_MIE == 0
            && (x & !MSTATUS_MPIE & !MSTATUS_MIE) & MSTATUS_MPIE == 0 && (((x & !MSTATUS_MPIE
            & !MSTATUS_MIE) & !MSTATUS_MIE) as u32) & 0x08u32 == (x as u32) & 0x08u32)) by (bit_vector);
    }

    /// Execute a control and status register operation.
    ///
    /// Arguments:
    /// - `op`: The operation to execute.
    ///     - `None`: No operation, only read the register.
    /// - `addr`: The address of the register (from 0 to 4095).
    ///
    /// Returns:
    /// - `Ok(u32)`: The register value prior to the operation.
    /// - `Err(Error)`: The register address is invalid or not supported.
    #[inline]
    pub fn operation(&mut self, op: Option<CSOperation>, addr: u16) -> (r: Result<u32, Error>)
        ensures
            r == old(self).spec_read(addr),
            *final(self) == old(self).spec_write(op, addr),
            r is Err ==> *final(self) == *old(self),
            old(self).inv() ==> final(self).inv(),
    {
        proof {
            lemma_masks();
        }
        match addr {
            MSTATUS_ADDR => {
                let ret = self.mstatus as u32;
                self.mstatus = (execute_operation(op, ret) as u8) & MSTATUS_MASK;
                Ok(ret)
            },
            MISA_ADDR => Ok(get_misa()),
            MIE_ADDR => {
                let ret = if self.mie_embive { MI_E_P_MASK } else { 0 };
                self.mie_embive = (execute_operation(op, ret) & MI_E_P_MASK) != 0;
                Ok(ret)
            },
            MTVEC_ADDR => {
                let ret = self.mtvec;
                // Only direct mode is supported
                self.mtvec = execute_operation(op, ret) & !MTVEC_MODE;
                Ok(ret)
            },
            MSTATUSH_ADDR => Ok(0),  // Ignore high mstatus
            MCOUNTINHIBIT_ADDR..=MHPMEVENT31H_ADDR => Ok(0),  // Ignore counters
            MSCRATCH_ADDR => {
                let ret = self.mscratch;
                self.mscratch = execute_operation(op, ret);
                Ok(ret)
            },
            MEPC_ADDR => {
                let ret = self.mepc;
                // Bit 0 is always 0
                self.mepc = execute_operation(op, ret) & !MEPC_BIT0;
                Ok(ret)
            },
            MCAUSE_ADDR => {
                let ret = self.mcause;
                self.mcause = execute_operation(op, ret);
                Ok(ret)
            },
            MTVAL_ADDR => {
                let ret = self.mtval as u32;
                self.mtval = execute_operation(op, ret) as i32;
                Ok(ret)
            },
            MIP_ADDR => {
                let ret = if self.mip_embive { MI_E_P_MASK } else { 0 };
                self.mip_embive = (execute_operation(op, ret) & MI_E_P_MASK) != 0;
                Ok(ret)
            },
            MCYCLE_ADDR..=MHPMCOUNTER31H_ADDR => Ok(0),  // Ignore counters
            MVENDORID_ADDR..=MCONFIGPTR_ADDR => Ok(0),  // IDs are always 0
            _ => Err(Error::InvalidCSRegister(addr)),
        }
    }

    /// Read the trap value register (`mtval`).
    #[inline(always)]
    pub fn trap_value(&self) -> (r: i32)
        ensures
            r == self.spec_trap_value(),
    {
        self.mtval
    }

    /// Set the interrupt pending flag.
    /// Set `mip` bit [`crate::interpreter::EMBIVE_INTERRUPT_CODE`] to 1.
    #[inline(always)]
    pub fn set_interrupt(&mut self)
        ensures
            *final(self) == old(self).spec_set_interrupt(),
            old(self).inv() ==> final(self).inv(),
    {
        self.mip_embive = true;
    }

    /// Check if interrupt is enabled.
    /// Returns true if `mie` bit [`crate::interpreter::EMBIVE_INTERRUPT_CODE`] and `mstatus.MIE` are set.
    #[inline(always)]
    pub fn interrupt_enabled(&self) -> (r: bool)
        ensures
            r == self.spec_interrupt_enabled(),
    {
        self.mie_embive && (self.mstatus & MSTATUS_MIE) != 0
    }

    /// Trap Entry.
    /// This function triggers an interrupt trap:
    /// - Copy `mstatus.MIE` to `mstatus.MPIE` and then clear `mstatus.MIE`.
    /// - Set `mcause.MEI` (the interrupt bit) to 1 and `mcause.code` to 11
    ///   ([`MCAUSE_EMBIVE_INTERRUPT`]).
    /// - Copy the received program counter to `mepc`.
    /// - Copy the received value to `mtval`.
    /// - Update the program counter to the value in `mtvec`.
    ///
    /// Arguments:
    /// - `pc`: Mutable reference to the program counter.
    /// - `value`: The trap value.
    pub fn trap_entry(&mut self, pc: &mut u32, value: i32)
        ensures
            *final(self) == old(self).spec_trap_entry(*old(pc), value),
            *final(pc) == old(self).spec_trap_target(),
            old(self).inv() && *old(pc) & MEPC_BIT0 == 0 ==> final(self).inv(),
    {
        proof {
            lemma_masks();
        }
        // Copy MIE to MPIE
        if (self.mstatus & MSTATUS_MIE) != 0 {
            self.mstatus = self.mstatus | MSTATUS_MPIE;
        } else {
            self.mstatus = self.mstatus & !MSTATUS_MPIE;
        }

        // Clear MIE
        self.mstatus = self.mstatus & !MSTATUS_MIE;

        // Set mcause
        self.mcause = MCAUSE_EMBIVE_INTERRUPT;

        // Copy PC to MEPC
        self.mepc = *pc;

        // Copy value to mtval
        self.mtval = value;

        // Update PC to mtvec
        *pc = self.mtvec & !MTVEC_MODE;
    }

    /// Trap Return.
    /// This function returns from an interrupt:
    /// - Restore `mstatus.MIE` from `mstatus.MPIE`.
    /// - Return the program counter from `mepc`.
    ///
    /// Returns:
    /// - `u32`: The program counter from `mepc`.
    pub fn trap_return(&mut self) -> (r: u32)
        ensures
            *final(self) == old(self).spec_trap_return(),
            r == old(self).spec_trap_return_target(),
            old(self).inv() ==> final(self).inv(),
    {
        proof {
            lemma_masks();
        }
        // Copy MPIE to MIE
        if (self.mstatus & MSTATUS_MPIE) != 0 {
            self.mstatus = self.mstatus | MSTATUS_MIE;
        } else {
            self.mstatus = self.mstatus & !MSTATUS_MIE;
        }

        // Return the PC
        self.mepc
    }
}

/// Apply a control and status operation to a register value.
#[inline]
pub fn execute_operation(op: Option<CSOperation>, value: u32) -> (r: u32)
    ensures
        r == spec_execute_operation(op, value),
{
    match op {
        Some(CSOperation::Write(val)) => val,
        Some(CSOperation::SetBits(val)) => value | val,
        Some(CSOperation::ClearBits(val)) => value & !val,
        None => value,
    }
}

/// Facts about the masks that keep the registers within their invariant.
proof fn lemma_masks()
    by (bit_vector)
    ensures
        forall|x: u32| #![trigger x & !MTVEC_MODE] (x & !MTVEC_MODE) & MTVEC_MODE == 0,
        forall|x: u32| #![trigger x & !MEPC_BIT0] (x & !MEPC_BIT0) & MEPC_BIT0 == 0,
        forall|x: u8| #![trigger x & MSTATUS_MASK] (x & MSTATUS_MASK) & !MSTATUS_MASK == 0,
        forall|x: u8|
            #![trigger x | MSTATUS_MPIE]
            x & !MSTATUS_MASK == 0 ==> ((x | MSTATUS_MPIE) & !MSTATUS_MIE) & !MSTATUS_MASK == 0,
        forall|x: u8|
            #![trigger x | MSTATUS_MIE]
            x & !MSTATUS_MASK == 0 ==> (x | MSTATUS_MIE) & !MSTATUS_MASK == 0,
        forall|x: u8|
            #![trigger x & !MSTATUS_MPIE]
            x & !MSTATUS_MASK == 0 ==> (x & !MSTATUS_MPIE & !MSTATUS_MIE) & !MSTATUS_MASK == 0,
        forall|x: u8|
            #![trigger x & !MSTATUS_MIE]
            x & !MSTATUS_MASK == 0 ==> (x & !MSTATUS_MIE) & !MSTATUS_MASK == 0,
{
}

} // verus!

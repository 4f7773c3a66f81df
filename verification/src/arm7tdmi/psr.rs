//! Processor modes and the program status registers.

use vstd::prelude::*;

use crate::bits::{self, bit};

verus! {

broadcast use bits::group_and_bounds;

/// The processor modes.
#[derive(Debug, Clone, Copy, PartialEq, Eq, Structural)]
pub enum CpuMode {
    User,
    Fiq,
    Irq,
    Supervisor,
    Abort,
    Undefined,
    System,
}

impl CpuMode {
    /// The five mode bits of this mode.
    #[verifier::allow_in_spec]
    pub fn bits(self) -> u32
        returns
            (match self {
                CpuMode::User => 0x10u32,
                CpuMode::Fiq => 0x11u32,
                CpuMode::Irq => 0x12u32,
                CpuMode::Supervisor => 0x13u32,
                CpuMode::Abort => 0x17u32,
                CpuMode::Undefined => 0x1Bu32,
                CpuMode::System => 0x1Fu32,
            }),
    {
        match self {
            CpuMode::User => 0x10,
            CpuMode::Fiq => 0x11,
            CpuMode::Irq => 0x12,
            CpuMode::Supervisor => 0x13,
            CpuMode::Abort => 0x17,
            CpuMode::Undefined => 0x1B,
            CpuMode::System => 0x1F,
        }
    }

    /// The mode with the given mode bits; an invalid pattern reads as User.
    #[verifier::allow_in_spec]
    pub fn from_bits(bits: u32) -> CpuMode
        returns
            (if bits & 0x1F == 0x11 {
                CpuMode::Fiq
            } else if bits & 0x1F == 0x12 {
                CpuMode::Irq
            } else if bits & 0x1F == 0x13 {
                CpuMode::Supervisor
            } else if bits & 0x1F == 0x17 {
                CpuMode::Abort
            } else if bits & 0x1F == 0x1B {
                CpuMode::Undefined
            } else if bits & 0x1F == 0x1F {
                CpuMode::System
            } else {
                CpuMode::User
            }),
    {
        match bits & 0x1F {
            0x10 => CpuMode::User,
            0x11 => CpuMode::Fiq,
            0x12 => CpuMode::Irq,
            0x13 => CpuMode::Supervisor,
            0x17 => CpuMode::Abort,
            0x1B => CpuMode::Undefined,
            0x1F => CpuMode::System,
            _ => CpuMode::User,
        }
    }

    /// Which SP/LR bank the mode uses. User and System share bank 0.
    #[verifier::allow_in_spec]
    pub fn bank_index(self) -> usize
        returns
            (match self {
                CpuMode::User => 0usize,
                CpuMode::System => 0usize,
                CpuMode::Fiq => 1usize,
                CpuMode::Irq => 2usize,
                CpuMode::Supervisor => 3usize,
                CpuMode::Abort => 4usize,
                CpuMode::Undefined => 5usize,
            }),
    {
        match self {
            CpuMode::User | CpuMode::System => 0,
            CpuMode::Fiq => 1,
            CpuMode::Irq => 2,
            CpuMode::Supervisor => 3,
            CpuMode::Abort => 4,
            CpuMode::Undefined => 5,
        }
    }

    /// Whether the mode has a saved program status register.
    #[verifier::allow_in_spec]
    pub fn has_spsr(self) -> bool
        returns
            !(self is User || self is System),
    {
        !matches!(self, CpuMode::User | CpuMode::System)
    }
}

/// A program status register: the flags N, Z, C, V in the top bits, then the
/// interrupt masks, the THUMB bit and the mode in the low byte.
#[derive(Debug, Clone, Copy, PartialEq, Eq, Structural)]
pub struct Psr {
    pub bits: u32,
}

impl Psr {
    /// The given mode with IRQ and FIQ masked and every flag clear.
    #[verifier::allow_in_spec]
    pub fn new(mode: CpuMode) -> Psr
        returns
            (Psr { bits: mode.bits() | (1u32 << 7) | (1u32 << 6) }),
    {
        Psr { bits: mode.bits() | (1u32 << 7) | (1u32 << 6) }
    }

    #[verifier::allow_in_spec]
    pub fn n(self) -> bool
        returns
            self.bits >> 31 != 0,
    {
        self.bits >> 31 != 0
    }

    #[verifier::allow_in_spec]
    pub fn z(self) -> bool
        returns
            (self.bits >> 30) & 1 != 0,
    {
        (self.bits >> 30) & 1 != 0
    }

    #[verifier::allow_in_spec]
    pub fn c(self) -> bool
        returns
            (self.bits >> 29) & 1 != 0,
    {
        (self.bits >> 29) & 1 != 0
    }

    #[verifier::allow_in_spec]
    pub fn v(self) -> bool
        returns
            (self.bits >> 28) & 1 != 0,
    {
        (self.bits >> 28) & 1 != 0
    }

    #[verifier::allow_in_spec]
    pub fn irq_disabled(self) -> bool
        returns
            (self.bits >> 7) & 1 != 0,
    {
        (self.bits >> 7) & 1 != 0
    }

    #[verifier::allow_in_spec]
    pub fn fiq_disabled(self) -> bool
        returns
            (self.bits >> 6) & 1 != 0,
    {
        (self.bits >> 6) & 1 != 0
    }

    #[verifier::allow_in_spec]
    pub fn thumb(self) -> bool
        returns
            (self.bits >> 5) & 1 != 0,
    {
        (self.bits >> 5) & 1 != 0
    }

    #[verifier::allow_in_spec]
    pub fn mode(self) -> CpuMode
        returns
            CpuMode::from_bits(self.bits),
    {
        CpuMode::from_bits(self.bits)
    }

    /// This register with bit `n` set to `v`.
    pub open spec fn with_bit(self, n: u32, v: bool) -> Psr {
        Psr { bits: (self.bits & !(1u32 << n)) | (bit(v) << n) }
    }

    /// This register with N and Z describing `result`.
    pub open spec fn with_nz(self, result: u32) -> Psr {
        self.with_bit(31, result >> 31 != 0).with_bit(30, result == 0)
    }

    /// This register with N, Z, C and V as the adder gave them.
    pub open spec fn with_nzcv(self, r: (u32, bool, bool)) -> Psr {
        self.with_nz(r.0).with_bit(29, r.1).with_bit(28, r.2)
    }

    /// This register with the mode field naming `mode`.
    pub open spec fn with_mode(self, mode: CpuMode) -> Psr {
        Psr { bits: (self.bits & !0x1Fu32) | mode.bits() }
    }

    pub fn set_n(&mut self, v: bool)
        ensures
            *final(self) == old(self).with_bit(31, v),
    {
        self.bits = (self.bits & !(1u32 << 31)) | (bit(v) << 31);
    }

    pub fn set_z(&mut self, v: bool)
        ensures
            *final(self) == old(self).with_bit(30, v),
    {
        self.bits = (self.bits & !(1u32 << 30)) | (bit(v) << 30);
    }

    pub fn set_c(&mut self, v: bool)
        ensures
            *final(self) == old(self).with_bit(29, v),
    {
        self.bits = (self.bits & !(1u32 << 29)) | (bit(v) << 29);
    }

    pub fn set_v(&mut self, v: bool)
        ensures
            *final(self) == old(self).with_bit(28, v),
    {
        self.bits = (self.bits & !(1u32 << 28)) | (bit(v) << 28);
    }

    pub fn set_nz(&mut self, result: u32)
        ensures
            *final(self) == old(self).with_nz(result),
    {
        self.set_n(result >> 31 != 0);
        self.set_z(result == 0);
    }

    /// Sets all four flags from an adder result.
    pub fn set_nzcv(&mut self, r: (u32, bool, bool))
        ensures
            *final(self) == old(self).with_nzcv(r),
    {
        self.set_nz(r.0);
        self.set_c(r.1);
        self.set_v(r.2);
    }

    pub fn set_thumb(&mut self, v: bool)
        ensures
            *final(self) == old(self).with_bit(5, v),
    {
        self.bits = (self.bits & !(1u32 << 5)) | (bit(v) << 5);
    }
}

/// Setting one bit of a word leaves every other bit, and reads back.
proof fn set_bit_frame(x: u32, n: u32, k: u32, b: u32)
    by (bit_vector)
    requires
        n < 32,
        k < 32,
        b <= 1,
    ensures
        ((((x & !(1u32 << n)) | (b << n)) >> n) & 1) == b,
        k != n ==> ((((x & !(1u32 << n)) | (b << n)) >> k) & 1) == ((x >> k) & 1),
        n >= 5 ==> (((x & !(1u32 << n)) | (b << n)) & 0x1F) == (x & 0x1F),
        (x >> 31) & 1 == x >> 31,
        (x & !(1u32 << n)) | (((x >> n) & 1) << n) == x,
{
}

/// Setting the carry to what it is changes nothing.
pub proof fn carry_kept(p: Psr)
    ensures
        p.with_bit(29, p.c()) == p,
{
    set_bit_frame(p.bits, 29, 0, bit(p.c()));
}

/// A flag reads back as it was set, and setting it changes no other flag, no
/// mask bit and not the mode.
pub proof fn psr_set_then_get(p: Psr, n: u32, v: bool)
    requires
        n == 31 || n == 30 || n == 29 || n == 28 || n == 7 || n == 6 || n == 5,
    ensures
        p.with_bit(n, v).n() == (if n == 31 { v } else { p.n() }),
        p.with_bit(n, v).z() == (if n == 30 { v } else { p.z() }),
        p.with_bit(n, v).c() == (if n == 29 { v } else { p.c() }),
        p.with_bit(n, v).v() == (if n == 28 { v } else { p.v() }),
        p.with_bit(n, v).irq_disabled() == (if n == 7 { v } else { p.irq_disabled() }),
        p.with_bit(n, v).fiq_disabled() == (if n == 6 { v } else { p.fiq_disabled() }),
        p.with_bit(n, v).thumb() == (if n == 5 { v } else { p.thumb() }),
        p.with_bit(n, v).mode() == p.mode(),
{
    let q = p.with_bit(n, v);
    set_bit_frame(p.bits, n, 31, bit(v));
    set_bit_frame(p.bits, n, 30, bit(v));
    set_bit_frame(p.bits, n, 29, bit(v));
    set_bit_frame(p.bits, n, 28, bit(v));
    set_bit_frame(p.bits, n, 7, bit(v));
    set_bit_frame(p.bits, n, 6, bit(v));
    set_bit_frame(p.bits, n, 5, bit(v));
    set_bit_frame(q.bits, n, 31, bit(v));
}

/// Writing the mode field stores exactly the mode and keeps flags and masks.
pub proof fn psr_mode_round_trip(p: Psr, mode: CpuMode)
    ensures
        p.with_mode(mode).mode() == mode,
        p.with_mode(mode).bits & 0xFFFF_FFE0 == p.bits & 0xFFFF_FFE0,
        CpuMode::from_bits(mode.bits()) == mode,
{
    let m = mode.bits();
    let x = p.bits;
    assert(((x & !0x1Fu32) | m) & 0x1F == m && ((x & !0x1Fu32) | m) & 0xFFFF_FFE0 == x
        & 0xFFFF_FFE0 && m & 0x1F == m) by (bit_vector)
        requires
            m <= 0x1F,
    ;
}

} // verus!

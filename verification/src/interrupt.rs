//! The interrupt controller: enable, request and master-enable registers.

use vstd::prelude::*;

use crate::bits::{self, bit16};

verus! {

/// The interrupt sources, in the order of their bits.
#[derive(Debug, Clone, Copy, PartialEq, Eq, Structural)]
pub enum Irq {
    VBlank,
    HBlank,
    VCountMatch,
    Timer0,
    Timer1,
    Timer2,
    Timer3,
    Serial,
    Dma0,
    Dma1,
    Dma2,
    Dma3,
    Keypad,
    GamePak,
}

impl Irq {
    /// The bit of this source in the IE and IF registers.
    #[verifier::allow_in_spec]
    pub fn mask(self) -> u16
        returns
            (match self {
                Irq::VBlank => 0x0001u16,
                Irq::HBlank => 0x0002u16,
                Irq::VCountMatch => 0x0004u16,
                Irq::Timer0 => 0x0008u16,
                Irq::Timer1 => 0x0010u16,
                Irq::Timer2 => 0x0020u16,
                Irq::Timer3 => 0x0040u16,
                Irq::Serial => 0x0080u16,
                Irq::Dma0 => 0x0100u16,
                Irq::Dma1 => 0x0200u16,
                Irq::Dma2 => 0x0400u16,
                Irq::Dma3 => 0x0800u16,
                Irq::Keypad => 0x1000u16,
                Irq::GamePak => 0x2000u16,
            }),
    {
        match self {
            Irq::VBlank => 0x0001,
            Irq::HBlank => 0x0002,
            Irq::VCountMatch => 0x0004,
            Irq::Timer0 => 0x0008,
            Irq::Timer1 => 0x0010,
            Irq::Timer2 => 0x0020,
            Irq::Timer3 => 0x0040,
            Irq::Serial => 0x0080,
            Irq::Dma0 => 0x0100,
            Irq::Dma1 => 0x0200,
            Irq::Dma2 => 0x0400,
            Irq::Dma3 => 0x0800,
            Irq::Keypad => 0x1000,
            Irq::GamePak => 0x2000,
        }
    }

    /// The interrupt of timer `id`.
    #[verifier::allow_in_spec]
    pub fn timer(id: usize) -> Irq
        returns
            (if id == 0 {
                Irq::Timer0
            } else if id == 1 {
                Irq::Timer1
            } else if id == 2 {
                Irq::Timer2
            } else {
                Irq::Timer3
            }),
    {
        match id {
            0 => Irq::Timer0,
            1 => Irq::Timer1,
            2 => Irq::Timer2,
            _ => Irq::Timer3,
        }
    }

    /// The interrupt of DMA channel `id`.
    #[verifier::allow_in_spec]
    pub fn dma(id: usize) -> Irq
        returns
            (if id == 0 {
                Irq::Dma0
            } else if id == 1 {
                Irq::Dma1
            } else if id == 2 {
                Irq::Dma2
            } else {
                Irq::Dma3
            }),
    {
        match id {
            0 => Irq::Dma0,
            1 => Irq::Dma1,
            2 => Irq::Dma2,
            _ => Irq::Dma3,
        }
    }
}

/// The interrupt controller.
#[derive(Debug, Clone, Copy, PartialEq, Eq, Structural)]
pub struct InterruptController {
    /// IE: which interrupts are enabled.
    pub ie: u16,
    /// IF: which interrupts were requested. Writing a 1 acknowledges.
    pub ir: u16,
    /// IME: the master enable.
    pub ime: bool,
}

impl InterruptController {
    pub fn new() -> (c: InterruptController)
        ensures
            c == (InterruptController { ie: 0, ir: 0, ime: false }),
    {
        InterruptController { ie: 0, ir: 0, ime: false }
    }

    pub open spec fn requested(self, irq: Irq) -> InterruptController {
        InterruptController { ir: self.ir | irq.mask(), ..self }
    }

    /// The controller after a request, if one was made.
    pub open spec fn requested_if(self, made: bool, irq: Irq) -> InterruptController {
        if made {
            self.requested(irq)
        } else {
            self
        }
    }

    /// Requests an interrupt.
    pub fn request_irq(&mut self, irq: Irq)
        ensures
            *final(self) == old(self).requested(irq),
    {
        self.ir = self.ir | irq.mask();
    }

    pub open spec fn acknowledged(self, value: u16) -> InterruptController {
        InterruptController { ir: self.ir & !value, ..self }
    }

    /// Withdraws the requests whose bits are set in `value`.
    pub fn acknowledge(&mut self, value: u16)
        ensures
            *final(self) == old(self).acknowledged(value),
    {
        self.ir = self.ir & !value;
    }

    /// Whether an enabled interrupt is requested while the master enable is on.
    #[verifier::allow_in_spec]
    pub fn has_pending(&self) -> bool
        returns
            self.ime && (self.ie & self.ir) != 0,
    {
        self.ime && (self.ie & self.ir) != 0
    }

    #[verifier::allow_in_spec]
    pub fn read_ie(&self) -> u16
        returns
            self.ie,
    {
        self.ie
    }

    pub fn write_ie(&mut self, value: u16)
        ensures
            *final(self) == (InterruptController { ie: value, ..*old(self) }),
    {
        self.ie = value;
    }

    #[verifier::allow_in_spec]
    pub fn read_if(&self) -> u16
        returns
            self.ir,
    {
        self.ir
    }

    /// Writing IF acknowledges.
    pub fn write_if(&mut self, value: u16)
        ensures
            *final(self) == old(self).acknowledged(value),
    {
        self.acknowledge(value);
    }

    #[verifier::allow_in_spec]
    pub fn read_ime(&self) -> u16
        returns
            bit16(self.ime),
    {
        bit16(self.ime)
    }

    pub fn write_ime(&mut self, value: u16)
        ensures
            *final(self) == (InterruptController { ime: value & 1 != 0, ..*old(self) }),
    {
        self.ime = value & 1 != 0;
    }
}

/// A requested interrupt stays requested until it is acknowledged, and a
/// request or an acknowledgement concerns no other source.
pub proof fn irq_request_then_acknowledge(c: InterruptController, irq: Irq, other: Irq)
    requires
        irq != other,
    ensures
        c.requested(irq).ir & irq.mask() != 0,
        c.requested(irq).acknowledged(irq.mask()).ir & irq.mask() == 0,
        c.requested(irq).ir & other.mask() == c.ir & other.mask(),
        c.requested(irq).acknowledged(irq.mask()).ir & other.mask() == c.ir & other.mask(),
        c.requested(irq).has_pending() <== c.ime && c.ie & irq.mask() != 0,
{
    let r = c.ir;
    let e = c.ie;
    let m = irq.mask();
    let o = other.mask();
    mask_facts(r, e, m, o);
    irq_bits(m);
    irq_bits(o);
}

proof fn mask_facts(r: u16, e: u16, m: u16, o: u16)
    by (bit_vector)
    ensures
        m != 0 ==> (r | m) & m != 0,
        ((r | m) & !m) & m == 0,
        m & o == 0 ==> (r | m) & o == r & o && ((r | m) & !m) & o == r & o,
        e & m != 0 ==> e & (r | m) != 0,
        one_bit(m) && one_bit(o) && m != o ==> m & o == 0,
        r & !0xFFFFu16 == 0,
        r & !0u16 == r,
        0xFFFFu16 & r == r,
        m == 1 || m == 2 || m == 4 || m == 8 || m == 16 || m == 32 || m == 64 || m == 128 || m
            == 256 || m == 512 || m == 1024 || m == 2048 || m == 4096 || m == 8192 ==> one_bit(m),
{
}

spec fn one_bit(m: u16) -> bool {
    m != 0 && m & ((m - 1) as u16) == 0
}

proof fn irq_bits(m: u16)
    ensures
        m == 1 || m == 2 || m == 4 || m == 8 || m == 16 || m == 32 || m == 64 || m == 128 || m
            == 256 || m == 512 || m == 1024 || m == 2048 || m == 4096 || m == 8192 ==> one_bit(m),
{
    mask_facts(0, 0, m, m);
}

/// The bits of the interrupts: blanks and line match first, each timer and each
/// transfer channel twice the one before, then keys and cartridge.
pub proof fn interrupt_bits(i: usize)
    requires
        i < 3,
    ensures
        Irq::VBlank.mask() == 1,
        Irq::HBlank.mask() == 2,
        Irq::VCountMatch.mask() == 4,
        Irq::timer(0).mask() == 8,
        Irq::timer((i + 1) as usize).mask() == 2 * Irq::timer(i).mask(),
        Irq::Serial.mask() == 2 * Irq::timer(3).mask(),
        Irq::dma(0).mask() == 2 * Irq::Serial.mask(),
        Irq::dma((i + 1) as usize).mask() == 2 * Irq::dma(i).mask(),
        Irq::Keypad.mask() == 2 * Irq::dma(3).mask(),
        Irq::GamePak.mask() == 2 * Irq::Keypad.mask(),
{
}

/// Requests and acknowledgements, and nothing else, change the requests; an
/// interrupt is pending only while the master switch is on.
pub proof fn requests_are_kept(c: InterruptController, irq: Irq, value: u16)
    ensures
        c.requested(irq).ie == c.ie && c.requested(irq).ime == c.ime,
        c.acknowledged(value).ie == c.ie && c.acknowledged(value).ime == c.ime,
        c.acknowledged(0xFFFF).ir == 0,
        c.acknowledged(0).ir == c.ir,
        !c.ime ==> !c.has_pending(),
        c.ime && c.ie == 0xFFFF ==> c.has_pending() == (c.ir != 0),
{
    mask_facts(c.ir, 0, 0, 0);
}

} // verus!

//! Writes to the bus, and the DMA transfers that they start.
//!
//! A transfer can write to the control register of a channel and so start
//! another transfer inside the first. What such a start does is a parameter of
//! the write.

use vstd::prelude::*;

use crate::bits;
use crate::dma::{DmaChannel, DmaMemory};
use crate::interrupt::InterruptController;
use crate::keypad::Keypad;

use super::io_regs::IoRegisters;
use super::{aligned_bounds, vram_addr, Bus, BusState};

verus! {

broadcast use bits::group_and_bounds;

/// How deep transfers may start one another: deeper than any stack goes, so
/// that every chain of transfers that comes to an end runs to it.
pub const DMA_NESTING: u64 = 0xFFFF_FFFF_FFFF_FFFF;

/// `m` with the halfword `val` at `i`.
pub open spec fn put_half(m: Seq<u8>, i: int, val: u16) -> Seq<u8> {
    m.update(i, val as u8).update(i + 1, (val >> 8) as u8)
}

/// `m` with the word `val` at `i`.
pub open spec fn put_word(m: Seq<u8>, i: int, val: u32) -> Seq<u8> {
    m.update(i, val as u8).update(i + 1, (val >> 8) as u8).update(i + 2, (val >> 16) as u8).update(
        i + 3,
        (val >> 24) as u8,
    )
}

/// `word` with its low half replaced.
#[verifier::allow_in_spec]
pub fn with_low(word: u32, val: u16) -> u32
    returns
        (word & 0xFFFF_0000) | (val as u32),
{
    (word & 0xFFFF_0000) | (val as u32)
}

/// `word` with its high half replaced.
#[verifier::allow_in_spec]
pub fn with_high(word: u32, val: u16) -> u32
    returns
        (word & 0x0000_FFFF) | ((val as u32) << 16),
{
    (word & 0x0000_FFFF) | ((val as u32) << 16)
}

/// Where the sprite part of video memory starts in the bitmap modes, whose
/// pictures reach up to it.
pub const BITMAP_OBJ_START: usize = 0x14000;

/// `half` with the byte at `addr` (even: low, odd: high) replaced.
#[verifier::allow_in_spec]
pub fn with_byte(half: u16, addr: u32, val: u8) -> u16
    returns
        (if addr & 1 == 0 {
            (half & 0xFF00) | (val as u16)
        } else {
            (half & 0x00FF) | ((val as u16) << 8)
        }),
{
    if addr & 1 == 0 {
        (half & 0xFF00) | (val as u16)
    } else {
        (half & 0x00FF) | ((val as u16) << 8)
    }
}

/// The clock register at cartridge address `rel`, if there is one.
#[verifier::allow_in_spec]
pub fn rtc_register(rel: u32) -> Option<u32>
    returns
        (if rel == 0xC4 {
            Some(0u32)
        } else if rel == 0xC6 {
            Some(2u32)
        } else if rel == 0xC8 {
            Some(4u32)
        } else {
            None
        }),
{
    match rel {
        0xC4 => Some(0),
        0xC6 => Some(2),
        0xC8 => Some(4),
        _ => None,
    }
}

fn store_half(m: &mut Vec<u8>, i: usize, val: u16)
    requires
        i + 1 < old(m)@.len(),
    ensures
        final(m)@ == put_half(old(m)@, i as int, val),
{
    let _len: usize = m.len();
    m[i] = val as u8;
    m[i + 1] = (val >> 8) as u8;
}

fn store_word(m: &mut Vec<u8>, i: usize, val: u32)
    requires
        i + 3 < old(m)@.len(),
    ensures
        final(m)@ == put_word(old(m)@, i as int, val),
{
    let _len: usize = m.len();
    m[i] = val as u8;
    m[i + 1] = (val >> 8) as u8;
    m[i + 2] = (val >> 16) as u8;
    m[i + 3] = (val >> 24) as u8;
}

impl DmaChannel {
    /// The channel after `val` was written to its address or count register
    /// number `field`.
    pub open spec fn field_written(self, field: u32, val: u16) -> DmaChannel {
        if field == 0 {
            DmaChannel { sad: with_low(self.sad, val), ..self }
        } else if field == 2 {
            DmaChannel { sad: with_high(self.sad, val), ..self }
        } else if field == 4 {
            DmaChannel { dad: with_low(self.dad, val), ..self }
        } else if field == 6 {
            DmaChannel { dad: with_high(self.dad, val), ..self }
        } else if field == 8 {
            DmaChannel { count: val, ..self }
        } else {
            self
        }
    }

    /// What the register at offset `field` of the channel holds.
    pub open spec fn field_held(self, field: u32) -> u16 {
        if field == 0 {
            self.sad as u16
        } else if field == 2 {
            (self.sad >> 16) as u16
        } else if field == 4 {
            self.dad as u16
        } else if field == 6 {
            (self.dad >> 16) as u16
        } else if field == 8 {
            self.count
        } else if field == 10 {
            self.control
        } else {
            0
        }
    }

    /// What the register at offset `field` of the channel holds.
    pub fn held_field(&self, field: u32) -> (val: u16)
        ensures
            val == self.field_held(field),
    {
        match field {
            0 => self.sad as u16,
            2 => (self.sad >> 16) as u16,
            4 => self.dad as u16,
            6 => (self.dad >> 16) as u16,
            8 => self.count,
            10 => self.control,
            _ => 0,
        }
    }

    /// Writes the address or count register at offset `field` of the channel.
    pub fn write_field(&mut self, field: u32, val: u16)
        ensures
            *final(self) == old(self).field_written(field, val),
    {
        match field {
            0 => {
                self.sad = with_low(self.sad, val);
            },
            2 => {
                self.sad = with_high(self.sad, val);
            },
            4 => {
                self.dad = with_low(self.dad, val);
            },
            6 => {
                self.dad = with_high(self.dad, val);
            },
            8 => {
                self.count = val;
            },
            _ => {},
        }
    }
}

/// What starting a transfer does when transfers may be nested `nesting` deep.
pub open spec fn transfers(nesting: nat) -> spec_fn(BusState, usize) -> BusState
    decreases nesting,
{
    if nesting == 0 {
        |b: BusState, id: usize| b
    } else {
        |b: BusState, id: usize| b.dma_run(id, transfers((nesting - 1) as nat)).1
    }
}

impl BusState {
    /// The bus after `val` was written to a register that starts no transfer.
    /// `off` is its offset in the register block.
    #[verifier::opaque]
    pub open spec fn plain_io_written(self, off: u32, val: u16) -> BusState {
        if off < 0x060 {
            BusState { io: self.io.display_written(off, val), ..self }
        } else if off <= 0x0A8 {
            BusState { apu: self.apu.reg_written((off - 0x060) as u16, val), ..self }
        } else if 0x0B0 <= off < 0x0E0 {
            let id = (off - 0x0B0) / 12;
            BusState {
                dma: self.dma.with_channel(
                    id,
                    self.dma.channels[id].field_written(((off - 0x0B0) % 12) as u32, val),
                ),
                ..self
            }
        } else if 0x100 <= off < 0x110 && off % 4 == 0 {
            BusState { timers: self.timers.with_reload((off - 0x100) / 4, val), ..self }
        } else if 0x100 <= off < 0x110 && off % 4 == 2 {
            BusState { timers: self.timers.with_control((off - 0x100) / 4, val), ..self }
        } else if off == 0x132 {
            BusState { keypad: Keypad { keycnt: val, ..self.keypad }, ..self }
        } else if off == 0x200 {
            BusState { interrupt: InterruptController { ie: val, ..self.interrupt }, ..self }
        } else if off == 0x202 {
            BusState { interrupt: self.interrupt.acknowledged(val), ..self }
        } else if off == 0x204 {
            BusState { io: IoRegisters { waitcnt: val, ..self.io }, ..self }
        } else if off == 0x208 {
            BusState {
                interrupt: InterruptController { ime: val & 1 != 0, ..self.interrupt },
                ..self
            }
        } else if off == 0x300 {
            BusState { io: IoRegisters { postflg: val as u8, ..self.io }, ..self }
        } else {
            self
        }
    }

    /// Whether `off` is the control register of a DMA channel.
    pub open spec fn is_dma_control(off: u32) -> bool {
        0x0B0 <= off < 0x0E0 && (off - 0x0B0) % 12 == 10
    }

    /// The bus after a control register was written, before any transfer.
    #[verifier::opaque]
    pub open spec fn dma_control_written(self, id: usize, val: u16) -> BusState {
        BusState { dma: self.dma.control_written(id, val, self.now), ..self }
    }

    /// The bus after `val` was written to the register at `addr`. A write to
    /// a DMA control register that enables an immediate transfer runs it.
    #[verifier::opaque]
    pub open spec fn io_written(
        self,
        addr: u32,
        val: u16,
        start: spec_fn(BusState, usize) -> BusState,
    ) -> BusState {
        let off = addr & 0x3FF;
        if BusState::is_dma_control(off) {
            let id = ((off - 0x0B0) / 12) as usize;
            let b = self.dma_control_written(id, val);
            if self.dma.starts(id, val) {
                start(b, id)
            } else {
                b
            }
        } else {
            self.plain_io_written(off, val)
        }
    }

    #[verifier::opaque]
    pub open spec fn cart_written16(self, addr: u32, val: u16) -> BusState {
        if self.eeprom_port(addr) {
            BusState { backup: self.backup.written(addr & 0xFFFF, val as u8), ..self }
        } else if self.rtc.enabled && rtc_register(addr & 0x01FF_FFFE) is Some {
            BusState {
                rtc: self.rtc.reg_written(rtc_register(addr & 0x01FF_FFFE)->0, val),
                ..self
            }
        } else {
            self
        }
    }

    #[verifier::opaque]
    pub open spec fn cart_written8(self, addr: u32, val: u8) -> BusState {
        if self.eeprom_port(addr) {
            BusState { backup: self.backup.written(addr & 0xFFFF, val), ..self }
        } else if self.rtc.enabled && rtc_register((addr & 0x01FF_FFFF) & !1u32) is Some {
            let off = rtc_register((addr & 0x01FF_FFFF) & !1u32)->0;
            BusState {
                rtc: self.rtc.reg_written(off, with_byte(self.rtc.read_reg(off), addr, val)),
                ..self
            }
        } else {
            self
        }
    }

    /// The bus after a halfword write to an aligned address outside the
    /// register block.
    #[verifier::opaque]
    pub open spec fn memory_written16(self, addr: u32, val: u16) -> BusState {
        let region = addr >> 24;
        if region == 0x02 {
            BusState { ewram: put_half(self.ewram, (addr & 0x3FFFF) as int, val), ..self }
        } else if region == 0x03 {
            BusState { iwram: put_half(self.iwram, (addr & 0x7FFF) as int, val), ..self }
        } else if region == 0x05 {
            BusState { palette: put_half(self.palette, (addr & 0x3FF) as int, val), ..self }
        } else if region == 0x06 {
            let i = vram_addr(addr) as int;
            if i + 1 < self.vram.len() {
                BusState { vram: put_half(self.vram, i, val), ..self }
            } else {
                self
            }
        } else if region == 0x07 {
            BusState { oam: put_half(self.oam, (addr & 0x3FF) as int, val), ..self }
        } else if 0x08 <= region <= 0x0D {
            self.cart_written16(addr, val)
        } else {
            self
        }
    }

    /// The bus after a word write to an aligned address in one of the
    /// memories.
    #[verifier::opaque]
    pub open spec fn memory_written32(self, addr: u32, val: u32) -> BusState {
        let region = addr >> 24;
        if region == 0x02 {
            BusState { ewram: put_word(self.ewram, (addr & 0x3FFFF) as int, val), ..self }
        } else if region == 0x03 {
            BusState { iwram: put_word(self.iwram, (addr & 0x7FFF) as int, val), ..self }
        } else if region == 0x05 {
            BusState { palette: put_word(self.palette, (addr & 0x3FF) as int, val), ..self }
        } else if region == 0x06 {
            let i = vram_addr(addr) as int;
            if i + 3 < self.vram.len() {
                BusState { vram: put_word(self.vram, i, val), ..self }
            } else {
                self
            }
        } else {
            BusState { oam: put_word(self.oam, (addr & 0x3FF) as int, val), ..self }
        }
    }

    /// The bus after a halfword write; the address is aligned.
    #[verifier::opaque]
    pub open spec fn stored16(
        self,
        addr: u32,
        val: u16,
        start: spec_fn(BusState, usize) -> BusState,
    ) -> BusState {
        let addr = addr & !1u32;
        if addr >> 24 == 0x04 {
            self.io_written(addr, val, start)
        } else {
            self.memory_written16(addr, val)
        }
    }

    /// The bus after a word write; the address is aligned.
    #[verifier::opaque]
    pub open spec fn stored32(
        self,
        addr: u32,
        val: u32,
        start: spec_fn(BusState, usize) -> BusState,
    ) -> BusState {
        let addr = addr & !3u32;
        let region = addr >> 24;
        let next = (addr + 2) as u32;
        if region == 0x04 {
            self.io_written(addr, val as u16, start).io_written(next, (val >> 16) as u16, start)
        } else if region == 0x02 || region == 0x03 || 0x05 <= region <= 0x07 {
            self.memory_written32(addr, val)
        } else {
            self.stored16(addr, val as u16, start).stored16(
                next,
                (val >> 16) as u16,
                start,
            )
        }
    }

    /// The bus after `n` units of a transfer from `src` to `dst`.
    #[verifier::opaque]
    pub open spec fn dma_copied(
        self,
        src: u32,
        dst: u32,
        src_step: i32,
        dst_step: i32,
        word32: bool,
        n: nat,
        start: spec_fn(BusState, usize) -> BusState,
    ) -> BusState
        decreases n,
    {
        if n == 0 {
            self
        } else {
            let m = (n - 1) as nat;
            let t = self.dma_copied(src, dst, src_step, dst_step, word32, m, start);
            let a = crate::dma::moved(src, src_step, m);
            let b = crate::dma::moved(dst, dst_step, m);
            if word32 {
                let r = t.read32(a);
                r.1.stored32(b, r.0, start)
            } else {
                let r = t.read16(a);
                r.1.stored16(b, r.0, start)
            }
        }
    }

    /// The bus with channel `id` replaced.
    #[verifier::opaque]
    pub open spec fn with_dma(self, id: usize, c: DmaChannel) -> BusState {
        BusState { dma: self.dma.with_channel(id as int, c), ..self }
    }

    /// The bus after channel `id` finished a transfer that moved its addresses
    /// to `src` and `dst`: it is rearmed if it repeats, else disabled.
    #[verifier::opaque]
    pub open spec fn dma_finished(self, id: usize, repeats: bool, src: u32, dst: u32) -> BusState {
        let c = DmaChannel {
            internal_sad: src,
            internal_dad: dst,
            ..self.dma.channels[id as int]
        };
        self.with_dma(
            id,
            if repeats {
                c.reloaded(id)
            } else {
                DmaChannel { control: c.control & !(1u16 << 15), active: false, ..c }
            },
        )
    }

    /// The bus with the EEPROM's address width set by a transfer of `count`
    /// units to its port.
    #[verifier::opaque]
    pub open spec fn eeprom_sized(self, dst: u32, count: u32) -> BusState {
        if self.eeprom_port(dst) {
            BusState { backup: self.backup.sized_by(count), ..self }
        } else {
            self
        }
    }

    /// One transfer of channel `id`: how many units it moved and whether it
    /// asks for an interrupt, and the bus after it. A sound channel moves four
    /// words to its FIFO and stays armed.
    #[verifier::opaque]
    pub open spec fn dma_run(
        self,
        id: usize,
        start: spec_fn(BusState, usize) -> BusState,
    ) -> ((u32, bool), BusState) {
        let c = self.dma.channels[id as int];
        if !c.enabled() || !c.active {
            ((0, false), self)
        } else {
            let b = self.with_dma(id, DmaChannel { run_count: c.run_count.wrapping_add(1), ..c });
            if c.feeds_fifo(id) {
                let t = b.dma_copied(c.internal_sad, c.internal_dad, 4, 0, true, 4, start);
                (
                    (4, c.irq_enabled()),
                    t.with_dma(
                        id,
                        DmaChannel {
                            internal_sad: crate::dma::moved(c.internal_sad, 4, 4),
                            ..t.dma.channels[id as int]
                        },
                    ),
                )
            } else {
                let n = c.internal_count as nat;
                let src_step = c.src_control().step(c.word_size());
                let dst_step = c.dest_control().step(c.word_size());
                let t = b.eeprom_sized(c.internal_dad, c.internal_count).dma_copied(
                    c.internal_sad,
                    c.internal_dad,
                    src_step,
                    dst_step,
                    c.word_size_32(),
                    n,
                    start,
                );
                (
                    (c.internal_count, c.irq_enabled()),
                    t.dma_finished(
                        id,
                        c.repeats(),
                        crate::dma::moved(c.internal_sad, src_step, n),
                        crate::dma::moved(c.internal_dad, dst_step, n),
                    ),
                )
            }
        }
    }

    /// What the register at `addr` holds, whether or not it can be read. A
    /// write to the interrupt request register clears the bits that it sets,
    /// so for that one it is zero.
    #[verifier::opaque]
    pub open spec fn io_held(self, addr: u32) -> u16 {
        let off = addr & 0x3FF;
        if off < 0x060 {
            self.io.display_held(off)
        } else if off <= 0x0A8 {
            self.apu.held((off - 0x060) as u16)
        } else if 0x0B0 <= off < 0x0E0 {
            self.dma.channels[(off - 0x0B0) / 12].field_held(((off - 0x0B0) % 12) as u32)
        } else if 0x100 <= off < 0x110 && off % 4 == 0 {
            self.timers.timers[(off - 0x100) / 4].reload
        } else if off == 0x202 {
            0
        } else {
            self.io16(addr)
        }
    }

    /// The bus after a byte was written to the register block: the other half
    /// of the register keeps what it holds.
    #[verifier::opaque]
    pub open spec fn io_written8(self, addr: u32, val: u8) -> BusState {
        if addr & 0x3FF == 0x301 {
            BusState { io: IoRegisters { haltcnt: val, ..self.io }, halt_requested: true, ..self }
        } else {
            self.io_written(
                addr & !1u32,
                with_byte(self.io_held(addr & !1u32), addr, val),
                transfers(DMA_NESTING as nat),
            )
        }
    }

    /// Whether a byte write to video memory at offset `i` is ignored: in the
    /// bitmap modes the sprite part takes none.
    pub open spec fn ignores_byte(self, i: int) -> bool {
        i >= BITMAP_OBJ_START && 3 <= self.io.dispcnt & 7 <= 5
    }

    /// The bus after a byte write to one of the memories. Palette and video
    /// memory take the byte twice, in both halves of the addressed halfword;
    /// object memory ignores it, as the sprite part of video memory does in
    /// the bitmap modes.
    #[verifier::opaque]
    pub open spec fn memory_written8(self, addr: u32, val: u8) -> BusState {
        let region = addr >> 24;
        if region == 0x02 {
            BusState { ewram: self.ewram.update((addr & 0x3FFFF) as int, val), ..self }
        } else if region == 0x03 {
            BusState { iwram: self.iwram.update((addr & 0x7FFF) as int, val), ..self }
        } else if region == 0x05 {
            let i = (addr & 0x3FE) as int;
            BusState { palette: self.palette.update(i, val).update(i + 1, val), ..self }
        } else if region == 0x06 {
            let i = vram_addr(addr & !1u32) as int;
            if i + 1 < self.vram.len() && !self.ignores_byte(i) {
                BusState { vram: self.vram.update(i, val).update(i + 1, val), ..self }
            } else {
                self
            }
        } else {
            self
        }
    }

    /// The bus after a byte write.
    #[verifier::opaque]
    pub open spec fn write8(self, addr: u32, val: u8) -> BusState {
        let region = addr >> 24;
        if region == 0x04 {
            self.io_written8(addr, val)
        } else if 0x08 <= region <= 0x0D {
            self.cart_written8(addr, val)
        } else if region == 0x0E || region == 0x0F {
            BusState { backup: self.backup.written(addr & 0xFFFF, val), ..self }
        } else {
            self.memory_written8(addr, val)
        }
    }

    pub open spec fn write16(self, addr: u32, val: u16) -> BusState {
        self.stored16(addr, val, transfers(DMA_NESTING as nat))
    }

    pub open spec fn write32(self, addr: u32, val: u32) -> BusState {
        self.stored32(addr, val, transfers(DMA_NESTING as nat))
    }
}

impl Bus {
    fn write_plain_io(&mut self, off: u32, val: u16)
        requires
            old(self).wf(),
            off < 0x400,
        ensures
            final(self).wf(),
            final(self)@ == old(self)@.plain_io_written(off, val),
    {
        proof {
            reveal(BusState::plain_io_written);
        }
        if off < 0x060 {
            self.io.write_display(off, val);
            return;
        }
        if off <= 0x0A8 {
            self.apu.write_reg((off - 0x060) as u16, val);
            return;
        }
        if 0x0B0 <= off && off < 0x0E0 {
            let id: usize = ((off - 0x0B0) / 12) as usize;
            self.dma.channels[id].write_field((off - 0x0B0) % 12, val);
            return;
        }
        if 0x100 <= off && off < 0x110 {
            let id: usize = ((off - 0x100) / 4) as usize;
            if off % 4 == 0 {
                self.timers.write_reload(id, val);
            } else if off % 4 == 2 {
                self.timers.write_control(id, val);
            }
            return;
        }
        match off {
            0x132 => {
                self.keypad.keycnt = val;
            },
            0x200 => self.interrupt.write_ie(val),
            0x202 => self.interrupt.write_if(val),
            0x204 => {
                self.io.waitcnt = val;
            },
            0x208 => self.interrupt.write_ime(val),
            0x300 => {
                self.io.postflg = val as u8;
            },
            _ => {},
        }
    }

    /// Writes the control register of a channel. Returns the channel if it is
    /// to transfer at once.
    pub fn write_dma_control(&mut self, channel_id: usize, value: u16) -> (start: Option<usize>)
        requires
            old(self).wf(),
            channel_id < 4,
        ensures
            final(self).wf(),
            final(self)@ == old(self)@.dma_control_written(channel_id, value),
            start == (if old(self)@.dma.starts(channel_id, value) {
                Some(channel_id)
            } else {
                None
            }),
    {
        proof {
            reveal(BusState::dma_control_written);
        }
        self.dma.write_control(channel_id, value, self.now)
    }

    fn write_io16(&mut self, addr: u32, val: u16, nesting: u64)
        requires
            old(self).wf(),
        ensures
            final(self).wf(),
            final(self)@ == old(self)@.io_written(addr, val, transfers(nesting as nat)),
        decreases nesting, 0nat, 0nat,
    {
        proof {
            reveal(BusState::io_written);
        }
        let off: u32 = addr & 0x3FF;
        if 0x0B0 <= off && off < 0x0E0 && (off - 0x0B0) % 12 == 10 {
            let id: usize = ((off - 0x0B0) / 12) as usize;
            let start = self.write_dma_control(id, val);
            if start.is_some() && nesting > 0 {
                self.run_dma_at(id, nesting - 1);
            }
        } else {
            self.write_plain_io(off, val);
        }
    }

    fn write_cart16(&mut self, addr: u32, val: u16)
        requires
            old(self).wf(),
        ensures
            final(self).wf(),
            final(self)@ == old(self)@.cart_written16(addr, val),
    {
        proof {
            reveal(BusState::cart_written16);
        }
        if self.is_eeprom_port(addr) {
            self.backup.write(addr & 0xFFFF, val as u8);
        } else if self.rtc.enabled {
            if let Some(off) = rtc_register(addr & 0x01FF_FFFE) {
                self.rtc.write_reg(off, val);
            }
        }
    }

    fn write_cart8(&mut self, addr: u32, val: u8)
        requires
            old(self).wf(),
        ensures
            final(self).wf(),
            final(self)@ == old(self)@.cart_written8(addr, val),
    {
        proof {
            reveal(BusState::cart_written8);
        }
        if self.is_eeprom_port(addr) {
            self.backup.write(addr & 0xFFFF, val);
        } else if self.rtc.enabled {
            if let Some(off) = rtc_register((addr & 0x01FF_FFFF) & !1u32) {
                let new: u16 = with_byte(self.rtc.read_reg(off), addr, val);
                self.rtc.write_reg(off, new);
            }
        }
    }

    fn write_memory16(&mut self, addr: u32, val: u16)
        requires
            old(self).wf(),
            addr == addr & !1u32,
            addr >> 24 != 0x04,
        ensures
            final(self).wf(),
            final(self)@ == old(self)@.memory_written16(addr, val),
    {
        proof {
            reveal(BusState::memory_written16);
            aligned_bounds(addr);
        }
        match addr >> 24 {
            0x02 => store_half(&mut self.ewram, (addr & 0x3FFFF) as usize, val),
            0x03 => store_half(&mut self.iwram, (addr & 0x7FFF) as usize, val),
            0x05 => store_half(&mut self.palette, (addr & 0x3FF) as usize, val),
            0x06 => {
                let offset: usize = vram_addr(addr);
                if offset + 1 < self.vram.len() {
                    store_half(&mut self.vram, offset, val);
                }
            },
            0x07 => store_half(&mut self.oam, (addr & 0x3FF) as usize, val),
            0x08..=0x0D => self.write_cart16(addr, val),
            _ => {},
        }
    }

    fn write_memory32(&mut self, addr: u32, val: u32)
        requires
            old(self).wf(),
            addr == addr & !3u32,
        ensures
            final(self).wf(),
            final(self)@ == old(self)@.memory_written32(addr, val),
    {
        proof {
            reveal(BusState::memory_written32);
            aligned_bounds(addr);
        }
        match addr >> 24 {
            0x02 => store_word(&mut self.ewram, (addr & 0x3FFFF) as usize, val),
            0x03 => store_word(&mut self.iwram, (addr & 0x7FFF) as usize, val),
            0x05 => store_word(&mut self.palette, (addr & 0x3FF) as usize, val),
            0x06 => {
                let offset: usize = vram_addr(addr);
                if offset + 3 < self.vram.len() {
                    store_word(&mut self.vram, offset, val);
                }
            },
            _ => store_word(&mut self.oam, (addr & 0x3FF) as usize, val),
        }
    }

    fn store16(&mut self, addr: u32, val: u16, nesting: u64)
        requires
            old(self).wf(),
        ensures
            final(self).wf(),
            final(self)@ == old(self)@.stored16(addr, val, transfers(nesting as nat)),
        decreases nesting, 1nat, 0nat,
    {
        proof {
            reveal(BusState::stored16);
            aligned_bounds(addr);
        }
        let aligned: u32 = addr & !1u32;
        if aligned >> 24 == 0x04 {
            self.write_io16(aligned, val, nesting);
        } else {
            self.write_memory16(aligned, val);
        }
    }

    fn store32(&mut self, addr: u32, val: u32, nesting: u64)
        requires
            old(self).wf(),
        ensures
            final(self).wf(),
            final(self)@ == old(self)@.stored32(addr, val, transfers(nesting as nat)),
        decreases nesting, 2nat, 0nat,
    {
        proof {
            reveal(BusState::stored32);
            aligned_bounds(addr);
        }
        let addr: u32 = addr & !3u32;
        match addr >> 24 {
            0x04 => {
                self.write_io16(addr, val as u16, nesting);
                self.write_io16(addr + 2, (val >> 16) as u16, nesting);
            },
            0x02 | 0x03 | 0x05..=0x07 => self.write_memory32(addr, val),
            _ => {
                self.store16(addr, val as u16, nesting);
                self.store16(addr + 2, (val >> 16) as u16, nesting);
            },
        }
    }

    fn copy_units(
        &mut self,
        src: u32,
        dst: u32,
        src_step: i32,
        dst_step: i32,
        word32: bool,
        count: u32,
        nesting: u64,
    ) -> (ends: (u32, u32))
        requires
            old(self).wf(),
        ensures
            final(self).wf(),
            final(self)@ == old(self)@.dma_copied(
                src,
                dst,
                src_step,
                dst_step,
                word32,
                count as nat,
                transfers(nesting as nat),
            ),
            ends == (
                crate::dma::moved(src, src_step, count as nat),
                crate::dma::moved(dst, dst_step, count as nat),
            ),
        decreases nesting, 3nat, 0nat,
    {
        proof {
            reveal(BusState::dma_copied);
        }
        let mut i: u32 = 0;
        let mut a: u32 = src;
        let mut b: u32 = dst;
        let ghost before = self@;
        while i < count
            invariant
                i <= count,
                self.wf(),
                a == crate::dma::moved(src, src_step, i as nat),
                b == crate::dma::moved(dst, dst_step, i as nat),
                self@ == before.dma_copied(
                    src,
                    dst,
                    src_step,
                    dst_step,
                    word32,
                    i as nat,
                    transfers(nesting as nat),
                ),
            decreases count - i,
        {
            proof {
                reveal(BusState::dma_copied);
            }
            if word32 {
                let val: u32 = self.read32(a);
                self.store32(b, val, nesting);
            } else {
                let val: u16 = self.read16(a);
                self.store16(b, val, nesting);
            }
            a = a.wrapping_add_signed(src_step);
            b = b.wrapping_add_signed(dst_step);
            i = i + 1;
        }
        (a, b)
    }

    fn set_dma(&mut self, channel_id: usize, c: DmaChannel)
        requires
            old(self).wf(),
            channel_id < 4,
        ensures
            final(self).wf(),
            final(self)@ == old(self)@.with_dma(channel_id, c),
    {
        proof {
            reveal(BusState::with_dma);
        }
        self.dma.channels[channel_id] = c;
    }

    fn size_eeprom(&mut self, dst: u32, count: u32)
        requires
            old(self).wf(),
        ensures
            final(self).wf(),
            final(self)@ == old(self)@.eeprom_sized(dst, count),
    {
        proof {
            reveal(BusState::eeprom_sized);
        }
        if self.is_eeprom_port(dst) {
            self.backup.size_from_transfer(count);
        }
    }

    fn finish_dma(&mut self, channel_id: usize, repeats: bool, src: u32, dst: u32)
        requires
            old(self).wf(),
            channel_id < 4,
        ensures
            final(self).wf(),
            final(self)@ == old(self)@.dma_finished(channel_id, repeats, src, dst),
    {
        proof {
            reveal(BusState::dma_finished);
        }
        let mut c: DmaChannel = self.dma.channels[channel_id];
        c.internal_sad = src;
        c.internal_dad = dst;
        if repeats {
            c.reload_for_repeat(channel_id);
        } else {
            c.control = c.control & !(1u16 << 15);
            c.active = false;
        }
        self.set_dma(channel_id, c);
    }

    fn run_dma_at(&mut self, channel_id: usize, nesting: u64) -> (done: (u32, bool))
        requires
            old(self).wf(),
            channel_id < 4,
        ensures
            final(self).wf(),
            (done, final(self)@) == old(self)@.dma_run(channel_id, transfers(nesting as nat)),
        decreases nesting, 4nat, 0nat,
    {
        proof {
            reveal(BusState::dma_run);
        }
        let c: DmaChannel = self.dma.channels[channel_id];
        if !c.enabled() || !c.active {
            return (0, false);
        }
        let mut counted: DmaChannel = c;
        counted.run_count = c.run_count.wrapping_add(1);
        self.set_dma(channel_id, counted);
        if c.feeds_fifo(channel_id) {
            let ends = self.copy_units(c.internal_sad, c.internal_dad, 4, 0, true, 4, nesting);
            let mut fed: DmaChannel = self.dma.channels[channel_id];
            fed.internal_sad = ends.0;
            self.set_dma(channel_id, fed);
            return (4, c.irq_enabled());
        }
        self.size_eeprom(c.internal_dad, c.internal_count);
        let size: i32 = c.word_size();
        let ends = self.copy_units(
            c.internal_sad,
            c.internal_dad,
            c.src_control().step(size),
            c.dest_control().step(size),
            c.word_size_32(),
            c.internal_count,
            nesting,
        );
        self.finish_dma(channel_id, c.repeats(), ends.0, ends.1);
        (c.internal_count, c.irq_enabled())
    }

    /// Runs one transfer of a channel that is enabled and armed. Returns how
    /// many units it moved and whether it asks for an interrupt.
    pub fn run_dma(&mut self, channel_id: usize) -> (done: (u32, bool))
        requires
            old(self).wf(),
            channel_id < 4,
        ensures
            final(self).wf(),
            (done, final(self)@) == old(self)@.dma_run(channel_id, transfers(DMA_NESTING as nat)),
    {
        self.run_dma_at(channel_id, DMA_NESTING)
    }

    fn held_io16(&self, addr: u32) -> (val: u16)
        ensures
            val == self@.io_held(addr),
    {
        proof {
            reveal(BusState::io_held);
        }
        let off: u32 = addr & 0x3FF;
        if off < 0x060 {
            return self.io.held_display(off);
        }
        if off <= 0x0A8 {
            return self.apu.held_reg((off - 0x060) as u16);
        }
        if 0x0B0 <= off && off < 0x0E0 {
            let id: usize = ((off - 0x0B0) / 12) as usize;
            return self.dma.channels[id].held_field((off - 0x0B0) % 12);
        }
        if 0x100 <= off && off < 0x110 && off % 4 == 0 {
            let id: usize = ((off - 0x100) / 4) as usize;
            return self.timers.timers[id].reload;
        }
        if off == 0x202 {
            return 0;
        }
        self.read_io16(addr)
    }

    fn write_io8(&mut self, addr: u32, val: u8)
        requires
            old(self).wf(),
        ensures
            final(self).wf(),
            final(self)@ == old(self)@.io_written8(addr, val),
    {
        proof {
            reveal(BusState::io_written8);
        }
        if addr & 0x3FF == 0x301 {
            self.io.haltcnt = val;
            self.halt_requested = true;
            return;
        }
        let aligned: u32 = addr & !1u32;
        let new: u16 = with_byte(self.held_io16(aligned), addr, val);
        self.write_io16(aligned, new, DMA_NESTING);
    }

    fn write_memory8(&mut self, addr: u32, val: u8)
        requires
            old(self).wf(),
        ensures
            final(self).wf(),
            final(self)@ == old(self)@.memory_written8(addr, val),
    {
        proof {
            reveal(BusState::memory_written8);
            aligned_bounds(addr);
        }
        match addr >> 24 {
            0x02 => {
                self.ewram[(addr & 0x3FFFF) as usize] = val;
            },
            0x03 => {
                self.iwram[(addr & 0x7FFF) as usize] = val;
            },
            0x05 => {
                let base: usize = (addr & 0x3FE) as usize;
                self.palette[base] = val;
                self.palette[base + 1] = val;
            },
            0x06 => {
                let offset: usize = vram_addr(addr & !1u32);
                let mode: u16 = self.io.dispcnt & 7;
                let ignored = offset >= BITMAP_OBJ_START && 3 <= mode && mode <= 5;
                if offset + 1 < self.vram.len() && !ignored {
                    self.vram[offset] = val;
                    self.vram[offset + 1] = val;
                }
            },
            _ => {},
        }
    }

    /// Writes a byte.
    pub fn write8(&mut self, addr: u32, val: u8)
        requires
            old(self).wf(),
        ensures
            final(self).wf(),
            final(self)@ == old(self)@.write8(addr, val),
    {
        proof {
            reveal(BusState::write8);
        }
        match addr >> 24 {
            0x04 => self.write_io8(addr, val),
            0x08..=0x0D => self.write_cart8(addr, val),
            0x0E..=0x0F => self.backup.write(addr & 0xFFFF, val),
            _ => self.write_memory8(addr, val),
        }
    }

    /// Writes a halfword to the aligned address.
    pub fn write16(&mut self, addr: u32, val: u16)
        requires
            old(self).wf(),
        ensures
            final(self).wf(),
            final(self)@ == old(self)@.write16(addr, val),
    {
        self.store16(addr, val, DMA_NESTING);
    }

    /// Writes a word to the aligned address.
    pub fn write32(&mut self, addr: u32, val: u32)
        requires
            old(self).wf(),
        ensures
            final(self).wf(),
            final(self)@ == old(self)@.write32(addr, val),
    {
        self.store32(addr, val, DMA_NESTING);
    }
}

impl DmaMemory for Bus {
    type State = BusState;

    open spec fn state(&self) -> BusState {
        self@
    }

    open spec fn ready(&self) -> bool {
        self.wf()
    }

    open spec fn reads16(s: BusState, addr: u32) -> (u16, BusState) {
        s.read16(addr)
    }

    open spec fn reads32(s: BusState, addr: u32) -> (u32, BusState) {
        s.read32(addr)
    }

    open spec fn writes16(s: BusState, addr: u32, val: u16) -> BusState {
        s.write16(addr, val)
    }

    open spec fn writes32(s: BusState, addr: u32, val: u32) -> BusState {
        s.write32(addr, val)
    }

    fn dma_read16(&mut self, addr: u32) -> u16 {
        self.read16(addr)
    }

    fn dma_read32(&mut self, addr: u32) -> u32 {
        self.read32(addr)
    }

    fn dma_write16(&mut self, addr: u32, val: u16) {
        self.write16(addr, val);
    }

    fn dma_write32(&mut self, addr: u32, val: u32) {
        self.write32(addr, val);
    }
}

} // verus!

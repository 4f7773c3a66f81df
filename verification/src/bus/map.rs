//! Where memories and registers are found, in numbers.

use vstd::prelude::*;

use crate::bits;
use crate::dma::DmaChannel;
use crate::interrupt::Irq;

use super::io_regs::IoRegisters;
use super::laws;
use super::timing::WaitTable;
use super::BusState;

verus! {

broadcast use bits::group_and_bounds;

proof fn address_parts(a: u32)
    ensures
        a >> 24 == a / 0x100_0000,
        a & 0x3FFFF == a % 0x4_0000,
        a & 0x7FFF == a % 0x8000,
        a & 0x3FF == a % 0x400,
        a & 0x3FFF == a % 0x4000,
        a & 0x1FFFF == a % 0x2_0000,
        a & 0xFFFF == a % 0x1_0000,
        a & 0x01FF_FFFF == a % 0x200_0000,
        a & 0x01FF_FFFE == a % 0x200_0000 - a % 2,
        a & !1u32 == a - a % 2,
        a & !3u32 == a - a % 4,
        (a >> 1) & 0xFF == a / 2 % 256,
{
    laws::address_bits(a, 0, 0, 0);
}

/// Where an address of video memory lies: the last 32 KB of each 128 KB repeat
/// the 32 KB before them.
pub open spec fn video_cell(addr: u32) -> int {
    let v = addr as int % 0x2_0000;
    if v >= 0x1_8000 {
        v - 0x8000
    } else {
        v
    }
}

/// The byte at an address. The region is the address in units of 16 MB, and
/// each memory repeats through its region.
#[verifier::rlimit(50)]
pub proof fn bytes_by_region(b: BusState, addr: u32)
    requires
        b.wf(),
    ensures
        ({
            let r = addr / 0x100_0000;
            let y = b.read8(addr).0;
            let rel = (addr % 0x200_0000) as int;
            &&& r == 0 && b.bios.len() == 0x4000 ==> y == b.bios[(addr % 0x4000) as int]
            &&& r == 2 ==> y == b.ewram[(addr % 0x4_0000) as int]
            &&& r == 3 ==> y == b.iwram[(addr % 0x8000) as int]
            &&& r == 5 ==> y == b.palette[(addr % 0x400) as int]
            &&& r == 6 ==> y == b.vram[video_cell(addr)]
            &&& r == 7 ==> y == b.oam[(addr % 0x400) as int]
            &&& 8 <= r <= 13 && !(b.backup is Eeprom) && !b.rtc.readable() ==> y == (if rel
                < b.rom.len() {
                b.rom[rel] as int
            } else {
                rel / 2 % 256
            })
            &&& r == 14 || r == 15 ==> y == b.backup.byte(addr % 0x1_0000)
        }),
{
    reveal(BusState::lookup8);
    address_parts(addr);
    let rel = (addr % 0x200_0000) as u32;
    address_parts(rel);
}

/// A halfword is two bytes, the low one first, at an even address.
#[verifier::rlimit(50)]
pub proof fn halves_are_bytes(b: BusState, addr: u32)
    requires
        b.wf(),
        ({
            let r = addr / 0x100_0000;
            r == 2 || r == 3 || r == 5 || r == 6 || r == 7
        }),
    ensures
        ({
            let a = (addr - addr % 2) as u32;
            b.read16(addr).0 == b.read8(a).0 + 256 * b.read8((a + 1) as u32).0
        }),
{
    let a = (addr - addr % 2) as u32;
    let c = (a + 1) as u32;
    reveal(BusState::lookup16);
    address_parts(addr);
    address_parts(a);
    assert(a - a % 2 == a);
    bytes_by_region(b, a);
    bytes_by_region(b, c);
    next_cell(a);
    bits::half_fields(0, 0, b.read8(a).0, b.read8(c).0);
}

proof fn next_cell(a: u32)
    requires
        a % 2 == 0,
    ensures
        ({
            let c = (a + 1) as u32;
            &&& c / 0x100_0000 == a / 0x100_0000
            &&& c % 0x4_0000 == a % 0x4_0000 + 1
            &&& c % 0x8000 == a % 0x8000 + 1
            &&& c % 0x400 == a % 0x400 + 1
            &&& c % 0x2_0000 == a % 0x2_0000 + 1
            &&& a % 0x2_0000 >= 0x1_8000 <==> c % 0x2_0000 >= 0x1_8000
        }),
{
}

/// A word is two halfwords, the low one first, at an address that four divides.
#[verifier::rlimit(50)]
pub proof fn words_are_halves(b: BusState, addr: u32)
    requires
        b.wf(),
        ({
            let r = addr / 0x100_0000;
            r == 2 || r == 3 || r == 4 || r == 5 || r == 6 || r == 7
        }),
    ensures
        ({
            let a = (addr - addr % 4) as u32;
            b.read32(addr).0 == b.read16(a).0 + 0x1_0000 * b.read16((a + 2) as u32).0
        }),
{
    let a = (addr - addr % 4) as u32;
    let c = (a + 2) as u32;
    reveal(BusState::lookup16);
    reveal(BusState::lookup32);
    address_parts(addr);
    address_parts(a);
    address_parts(c);
    assert(a - a % 2 == a && c - c % 2 == c && a - a % 4 == a);
    next_half(a);
    join(b.read16(a).0, b.read16(c).0);
    let r = addr / 0x100_0000;
    let i = if r == 2 {
        a % 0x4_0000
    } else if r == 3 {
        a % 0x8000
    } else {
        a % 0x400
    } as int;
    let m = if r == 2 {
        b.ewram
    } else if r == 3 {
        b.iwram
    } else if r == 5 {
        b.palette
    } else {
        b.oam
    };
    word_of_bytes(m[i], m[i + 1], m[i + 2], m[i + 3]);
}

proof fn next_half(a: u32)
    requires
        a % 4 == 0,
    ensures
        ({
            let c = (a + 2) as u32;
            &&& c / 0x100_0000 == a / 0x100_0000
            &&& c % 0x4_0000 == a % 0x4_0000 + 2
            &&& c % 0x8000 == a % 0x8000 + 2
            &&& c % 0x400 == a % 0x400 + 2
            &&& c % 0x2_0000 == a % 0x2_0000 + 2
        }),
{
}

proof fn join(lo: u16, hi: u16)
    ensures
        bits::join16(lo, hi) == lo + 0x1_0000 * hi,
{
    joined_bits(lo, hi, 0, 0, 0, 0);
}

pub(crate) proof fn joined_bits(lo: u16, hi: u16, p: u8, q: u8, r: u8, s: u8)
    by (bit_vector)
    ensures
        (lo as u32) | ((hi as u32) << 16) == (lo as u32) + 0x1_0000 * (hi as u32),
        (p as u32) | ((q as u32) << 8) | ((r as u32) << 16) | ((s as u32) << 24) == (p as u32) + 0x100
            * (q as u32) + 0x1_0000 * (r as u32) + 0x100_0000 * (s as u32),
{
}

proof fn word_of_bytes(p: u8, q: u8, r: u8, s: u8)
    ensures
        bits::le32(p, q, r, s) == bits::le16(p, q) + 0x1_0000 * bits::le16(r, s),
{
    joined_bits(0, 0, p, q, r, s);
    bits::half_fields(0, 0, p, q);
    bits::half_fields(0, 0, r, s);
}

/// The display registers by their offset. Scroll offsets keep nine bits, the
/// low three bits of the status cannot be written, nor can the line counter.
#[verifier::rlimit(50)]
pub proof fn display_registers(io: IoRegisters, v: u16, i: int)
    requires
        0 <= i < 4,
    ensures
        io.display_written(0x00, v).dispcnt == v,
        io.display_written(0x04, v).dispstat == v - v % 8 + io.dispstat % 8,
        io.display_written(0x06, v) == io,
        io.display_written((0x08 + 2 * i) as u32, v).bgcnt[i] == v,
        io.display_written((0x10 + 4 * i) as u32, v).bg_ofs[i][0] == v % 512,
        io.display_written((0x12 + 4 * i) as u32, v).bg_ofs[i][1] == v % 512,
        io.display_written((0x20 + 2 * i) as u32, v).bg2_affine[i] == v,
        io.display_written((0x30 + 2 * i) as u32, v).bg3_affine[i] == v,
        i < 2 ==> io.display_written((0x40 + 2 * i) as u32, v).winh[i] == v,
        i < 2 ==> io.display_written((0x44 + 2 * i) as u32, v).winv[i] == v,
        io.display_written(0x48, v).winin == v,
        io.display_written(0x4A, v).winout == v,
        io.display_written(0x4C, v).mosaic == v,
        io.display_written(0x50, v).bldcnt == v,
        io.display_written(0x52, v).bldalpha == v,
        io.display_written(0x54, v).bldy == v,
{
    bits::half_fields(v, 0, 0, 0);
    status_bits(v, io.dispstat, 0);
}

proof fn status_bits(v: u16, s: u16, y: u8)
    by (bit_vector)
    ensures
        (s & 0x07) | (v & !0x07u16) == v - v % 8 + s % 8,
        (v & 0xFF00) | (y as u16) == v - v % 256 + (y as u16),
        (v & 0x00FF) | ((y as u16) << 8) == v % 256 + 256 * (y as u16),
{
}

/// A byte written to a register replaces the low or the high byte of the
/// halfword.
#[verifier::rlimit(50)]
pub proof fn bytes_replace_halves(v: u16, addr: u32, y: u8)
    ensures
        addr % 2 == 0 ==> super::store::with_byte(v, addr, y) == v - v % 256 + y,
        addr % 2 == 1 ==> super::store::with_byte(v, addr, y) == v % 256 + 256 * y,
{
    status_bits(v, 0, y);
    laws::address_bits(addr, 0, 0, 0);
}

/// What the display registers read as: those that can be read at all read as
/// they were written.
#[verifier::rlimit(50)]
pub proof fn display_registers_read(io: IoRegisters, i: int)
    requires
        0 <= i < 4,
    ensures
        io.display_reg(0x00) == io.dispcnt,
        io.display_reg(0x04) == io.dispstat,
        io.display_reg(0x06) == io.vcount,
        io.display_reg((0x08 + 2 * i) as u32) == io.bgcnt[i],
        io.display_reg((0x10 + 4 * i) as u32) == 0,
        io.display_reg((0x12 + 4 * i) as u32) == 0,
        i < 2 ==> io.display_reg((0x40 + 2 * i) as u32) == io.winh[i],
        i < 2 ==> io.display_reg((0x44 + 2 * i) as u32) == io.winv[i],
        io.display_reg(0x48) == io.winin,
        io.display_reg(0x4A) == io.winout,
        io.display_reg(0x4C) == io.mosaic,
        io.display_reg(0x50) == io.bldcnt,
        io.display_reg(0x52) == io.bldalpha,
        io.display_reg(0x54) == 0,
{
}

/// The other registers that can be read, by their offset: four transfer
/// channels of twelve bytes, four timers of four, keys, interrupts, waits.
#[verifier::rlimit(50)]
pub proof fn devices_show_in_registers(b: BusState, i: int)
    requires
        0 <= i < 4,
    ensures
        b.io16((0x0400_00BA + 12 * i) as u32) == b.dma.channels[i].control,
        b.io16((0x0400_0100 + 4 * i) as u32) == b.timers.timers[i].counter,
        b.io16((0x0400_0102 + 4 * i) as u32) == b.timers.timers[i].control,
        b.io16(0x0400_0130) == b.keypad.keyinput,
        b.io16(0x0400_0132) == b.keypad.keycnt,
        b.io16(0x0400_0200) == b.interrupt.ie,
        b.io16(0x0400_0202) == b.interrupt.ir,
        b.io16(0x0400_0204) == b.io.waitcnt,
        b.io16(0x0400_0208) == (if b.interrupt.ime {
            1int
        } else {
            0int
        }),
{
    reveal(BusState::io16);
    address_parts((0x0400_00BA + 12 * i) as u32);
    address_parts((0x0400_0100 + 4 * i) as u32);
    address_parts((0x0400_0102 + 4 * i) as u32);
    address_parts(0x0400_0130);
    address_parts(0x0400_0132);
    address_parts(0x0400_0200);
    address_parts(0x0400_0202);
    address_parts(0x0400_0204);
    address_parts(0x0400_0208);
}

/// What writing those registers does.
#[verifier::rlimit(50)]
pub proof fn registers_reach_devices(b: BusState, v: u16, i: int)
    requires
        0 <= i < 4,
    ensures
        ({
            let f = |k: int| b.plain_io_written((0xB0 + 12 * i + k) as u32, v).dma.channels[i];
            &&& f(0).sad == b.dma.channels[i].sad / 0x1_0000 * 0x1_0000 + v
            &&& f(2).sad == b.dma.channels[i].sad % 0x1_0000 + 0x1_0000 * v
            &&& f(4).dad == b.dma.channels[i].dad / 0x1_0000 * 0x1_0000 + v
            &&& f(6).dad == b.dma.channels[i].dad % 0x1_0000 + 0x1_0000 * v
            &&& f(8).count == v
        }),
        b.plain_io_written((0x100 + 4 * i) as u32, v).timers == b.timers.with_reload(i, v),
        b.plain_io_written((0x102 + 4 * i) as u32, v).timers == b.timers.with_control(i, v),
        b.plain_io_written(0x132, v).keypad.keycnt == v,
        b.plain_io_written(0x132, v).keypad.keyinput == b.keypad.keyinput,
        b.plain_io_written(0x130, v) == b,
        b.plain_io_written(0x200, v).interrupt.ie == v,
        b.plain_io_written(0x202, v).interrupt == b.interrupt.acknowledged(v),
        b.plain_io_written(0x204, v).io.waitcnt == v,
        b.plain_io_written(0x208, v).interrupt.ime == (v % 2 == 1),
{
    reveal(BusState::plain_io_written);
    bits::half_fields(v, 0, 0, 0);
    let c = b.dma.channels[i];
    address_fields(c, v);
    assert((0xB0 + 12 * i - 0xB0) / 12 == i && (0xB0 + 12 * i - 0xB0) % 12 == 0);
    assert((0xB0 + 12 * i + 2 - 0xB0) / 12 == i && (0xB0 + 12 * i + 2 - 0xB0) % 12 == 2);
    assert((0xB0 + 12 * i + 4 - 0xB0) / 12 == i && (0xB0 + 12 * i + 4 - 0xB0) % 12 == 4);
    assert((0xB0 + 12 * i + 6 - 0xB0) / 12 == i && (0xB0 + 12 * i + 6 - 0xB0) % 12 == 6);
    assert((0xB0 + 12 * i + 8 - 0xB0) / 12 == i && (0xB0 + 12 * i + 8 - 0xB0) % 12 == 8);
}

proof fn address_fields(c: DmaChannel, v: u16)
    ensures
        c.field_written(0, v).sad == c.sad / 0x1_0000 * 0x1_0000 + v,
        c.field_written(2, v).sad == c.sad % 0x1_0000 + 0x1_0000 * v,
        c.field_written(4, v).dad == c.dad / 0x1_0000 * 0x1_0000 + v,
        c.field_written(6, v).dad == c.dad % 0x1_0000 + 0x1_0000 * v,
{
    replaced_halves(c.sad, v);
    replaced_halves(c.dad, v);
}

proof fn replaced_halves(w: u32, v: u16)
    ensures
        super::store::with_low(w, v) == w / 0x1_0000 * 0x1_0000 + v,
        super::store::with_high(w, v) == w % 0x1_0000 + 0x1_0000 * v,
{
    assert((w & 0xFFFF_0000) | (v as u32) == w / 0x1_0000 * 0x1_0000 + (v as u32) && (w
        & 0x0000_FFFF) | ((v as u32) << 16) == w % 0x1_0000 + 0x1_0000 * (v as u32)) by (bit_vector);
}

/// A line that begins leaves the horizontal blank, and its number matches if it
/// is the one in the high byte of the status; then the interrupt is requested
/// if bit 5 allows it.
#[verifier::rlimit(50)]
pub proof fn line_matches(b: BusState)
    requires
        b.io.vcount < 228,
    ensures
        ({
            let a = b.line_begun();
            let line = (b.io.vcount + 1) % 228;
            let s = b.io.dispstat;
            let hit = line == s / 256;
            &&& a.io.vcount == line
            &&& a.io.dispstat / 2 % 2 == 0
            &&& a.io.dispstat / 4 % 2 == (if hit {
                1int
            } else {
                0int
            })
            &&& a.io.dispstat / 8 == s / 8
            &&& a.io.dispstat % 2 == s % 2
            &&& a.interrupt == b.interrupt.requested_if(hit && s / 32 % 2 == 1, Irq::VCountMatch)
        }),
{
    reveal(BusState::line_begun);
    status_of_line(b.io.dispstat, ((b.io.vcount + 1) % 228) as u16);
}

proof fn status_of_line(s: u16, line: u16)
    ensures
        ({
            let r = BusState::status_at_line(s, line);
            &&& (s & !0x0002u16) >> 8 == s / 256
            &&& r / 2 % 2 == 0
            &&& r / 4 % 2 == (if line == s / 256 {
                1int
            } else {
                0int
            })
            &&& r / 8 == s / 8
            &&& r % 2 == s % 2
            &&& r & 0x0020 != 0 <==> s / 32 % 2 == 1
        }),
{
    let c = s & !0x0002u16;
    status_parts(s);
    cleared_bit(s);
    status_parts(c);
    cleared_bit(c);
    let r = BusState::status_at_line(s, line);
    status_parts(r);
    assert(r / 32 == r / 8 / 4 && s / 32 == s / 8 / 4);
}

proof fn cleared_bit(x: u16)
    ensures
        ({
            let c = x - x / 2 % 2 * 2;
            let d = x - x / 4 % 2 * 4;
            let e = x - x / 4 % 2 * 4 + 4;
            &&& c / 2 % 2 == 0 && c % 2 == x % 2 && c / 4 == x / 4 && c / 8 == x / 8 && c / 256
                == x / 256
            &&& d / 4 % 2 == 0 && d % 4 == x % 4 && d / 8 == x / 8 && d / 2 % 2 == x / 2 % 2 && d
                % 2 == x % 2
            &&& e / 4 % 2 == 1 && e % 4 == x % 4 && e / 8 == x / 8 && e / 2 % 2 == x / 2 % 2 && e
                % 2 == x % 2
        }),
{
}

proof fn status_parts(x: u16)
    ensures
        x | 1 == x - x % 2 + 1,
        x | 2 == x - x / 2 % 2 * 2 + 2,
        x | 4 == x - x / 4 % 2 * 4 + 4,
        x & !1u16 == x - x % 2,
        x & !2u16 == x - x / 2 % 2 * 2,
        x & !4u16 == x - x / 4 % 2 * 4,
        x & 8 != 0 <==> x / 8 % 2 == 1,
        x & 0x10 != 0 <==> x / 16 % 2 == 1,
        x & 0x20 != 0 <==> x / 32 % 2 == 1,
        x >> 8 == x / 256,
{
    bits::half_fields(x, 0, 0, 0);
}

/// The vertical blank sets and ends with bit 0 of the status; the horizontal
/// blank sets bit 1.
#[verifier::rlimit(50)]
pub proof fn blank_flags(b: BusState, picture: Seq<u16>)
    requires
        b.io.vcount >= 160,
    ensures
        b.vblank_ended().io.dispstat == b.io.dispstat - b.io.dispstat % 2,
        b.hblank_begun(picture).0.io.dispstat / 2 % 2 == 1,
        b.hblank_begun(picture).0.interrupt == b.interrupt.requested_if(
            b.io.dispstat / 16 % 2 == 1 && !b.diagnostics.no_hblank_irq,
            Irq::HBlank,
        ),
{
    reveal(BusState::hblank_begun);
    status_parts(b.io.dispstat);
    status_parts(b.io.dispstat | 2);
}

/// Cartridge waits: 3, 2, 1 or 7 cycles for a first access, by two bits for
/// each of the three copies and for the save memory; 0 instead of 1, 3 and 7
/// for the following ones if one bit is set.
#[verifier::rlimit(50)]
pub proof fn waits(w: u16)
    ensures
        ({
            let t = WaitTable::for_waitcnt(w);
            &&& t.sram == first_wait(w as int)
            &&& t.rom_n16[0] == first_wait(w as int / 4)
            &&& t.rom_n16[1] == first_wait(w as int / 32)
            &&& t.rom_n16[2] == first_wait(w as int / 256)
            &&& t.rom_s16[0] == (1 - w / 16 % 2)
            &&& t.rom_s16[1] == 3 * (1 - w / 128 % 2)
            &&& t.rom_s16[2] == 7 * (1 - w / 1024 % 2)
            &&& t.prefetch_enabled == (w / 0x4000 % 2 == 1)
        }),
{
    bits::half_fields(w, 0, 0, 0);
    bits::half_fields(w & 3, 0, 0, 0);
}

pub open spec fn first_wait(field: int) -> int {
    if field % 4 == 0 {
        3
    } else if field % 4 == 1 {
        2
    } else if field % 4 == 2 {
        1
    } else {
        7
    }
}

/// The three copies of the cartridge start 32 MB apart.
#[verifier::rlimit(50)]
pub proof fn rom_copies(addr: u32)
    requires
        0x0800_0000 <= addr < 0x0E00_0000,
    ensures
        WaitTable::rom_region(addr) == addr / 0x200_0000 - 4,
{
    address_parts(addr);
    region_nibble(addr);
}

proof fn region_nibble(addr: u32)
    ensures
        (addr >> 24) & 0x0F == addr / 0x100_0000 % 16,
{
    address_parts(addr);
    vstd::bits::lemma_u32_low_bits_mask_is_mod(addr >> 24, 4);
    vstd::bits::lemma_low_bits_mask_values();
    vstd::arithmetic::power2::lemma2_to64();
}

} // verus!

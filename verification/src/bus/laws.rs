//! What holds of the memory map as a whole.

use vstd::prelude::*;

use crate::bits;

use super::store;
use super::{aligned_bounds, vram_addr, BusState};

verus! {

broadcast use bits::group_and_bounds;

/// What alignment and splitting do to addresses, words and halfwords.
pub(crate) proof fn address_bits(a: u32, c: u32, w: u32, v: u16)
    by (bit_vector)
    ensures
        a >> 24 == a / 0x100_0000,
        a & 0x3FFFF == a % 0x4_0000,
        a & 0x7FFF == a % 0x8000,
        a & 0x3FF == a % 0x400,
        a & 0x3FE == a % 0x400 - a % 2,
        a & 0x3FFF == a % 0x4000,
        a & 0x1FFFF == a % 0x2_0000,
        a & 0xFFFF == a % 0x1_0000,
        a & 0x01FF_FFFF == a % 0x200_0000,
        a & 0x01FF_FFFE == a % 0x200_0000 - a % 2,
        a & !1u32 == a - a % 2,
        a & !3u32 == a - a % 4,
        a & 1 == a % 2,
        a & 2 != 0 <==> a / 2 % 2 == 1,
        a & 4 != 0 <==> a / 4 % 2 == 1,
        a & 8 != 0 <==> a / 8 % 2 == 1,
        a & 16 != 0 <==> a / 16 % 2 == 1,
        a & 0x1F_FFFF == a % 0x20_0000,
        a & (1u32 << 24) != 0 <==> a / 0x100_0000 % 2 == 1,
        a & (1u32 << 26) != 0 <==> a / 0x400_0000 % 2 == 1,
        a & (1u32 << 31) != 0 <==> a >= 0x8000_0000,
        a & 0x7FFF_FFFF == a % 0x8000_0000,
        (a >> 4) & 0xF == a / 16 % 16,
        (a >> 1) & 0xFF == a / 2 % 256,
        ((w as u8) as u32) | ((((w >> 8) as u8) as u32) << 8) | ((((w >> 16) as u8) as u32)
            << 16) | ((((w >> 24) as u8) as u32) << 24) == w,
        ((((w as u8) as u16) | ((((w >> 8) as u8) as u16) << 8)) as u32) | (((((w >> 16)
            as u8) as u16) | ((((w >> 24) as u8) as u16) << 8)) as u32) << 16 == w,
        ((v as u8) as u16) | ((((v >> 8) as u8) as u16) << 8) == v,
        (a & !3u32) >> 24 == a >> 24,
        (a & !1u32) >> 24 == a >> 24,
        (a & !3u32) & 0x1FFFF <= 0x1FFFC,
        (a & !1u32) & 0x1FFFF <= 0x1FFFE,
        (((a & !3u32) + 2) as u32) & 0x1FFFF == ((a & !3u32) & 0x1FFFF) + 2,
        (((a & !3u32) + 2) as u32) & !1u32 == (a & !3u32) + 2,
        (a & !3u32) & !1u32 == a & !3u32,
        (a & !1u32) & !1u32 == a & !1u32,
        ((a & !3u32) & 0x1FFFF) % 4 == 0,
        ((a & !1u32) & 0x1FFFF) % 2 == 0,
        a & 0x3FF == a & 0x3FE || a & 0x3FF == (a & 0x3FE) + 1,
        a & 0x1FFFF == (a & !1u32) & 0x1FFFF || a & 0x1FFFF == ((a & !1u32) & 0x1FFFF) + 1,
        ((a & !1u32) & 0x1FFFF) % 2 == 0,
        a & 0x3FFFF == c & 0x3FFFF ==> (a & !3u32) & 0x3FFFF == (c & !3u32) & 0x3FFFF && (a & !1u32)
            & 0x3FFFF == (c & !1u32) & 0x3FFFF,
        a & 0x7FFF == c & 0x7FFF ==> (a & !3u32) & 0x7FFF == (c & !3u32) & 0x7FFF && (a & !1u32)
            & 0x7FFF == (c & !1u32) & 0x7FFF,
        a & 0x3FF == c & 0x3FF ==> (a & !3u32) & 0x3FF == (c & !3u32) & 0x3FF && (a & !1u32) & 0x3FF
            == (c & !1u32) & 0x3FF,
        (a ^ c) & (0x3FFFFu32 & !3u32) == 0 ==> (a & !3u32) & 0x3FFFF == (c & !3u32) & 0x3FFFF,
        (a ^ c) & (0x7FFFu32 & !3u32) == 0 ==> (a & !3u32) & 0x7FFF == (c & !3u32) & 0x7FFF,
        (a ^ c) & (0x3FFu32 & !3u32) == 0 ==> (a & !3u32) & 0x3FF == (c & !3u32) & 0x3FF,
        (((c & !3u32) + 2) as u32) & 0x3FFFF == ((c & !3u32) & 0x3FFFF) + 2,
        (((c & !3u32) + 2) as u32) & 0x7FFF == ((c & !3u32) & 0x7FFF) + 2,
        (((c & !3u32) + 2) as u32) & 0x3FF == ((c & !3u32) & 0x3FF) + 2,
        (((c & !3u32) + 2) as u32) >> 24 == c >> 24,
        a & 0x3FF == 0x301 ==> (a & !1u32) & 0x3FF == 0x300,
        ((w & 0xFFFF_0000) | (v as u32)) as u16 == v,
        (((w & 0x0000_FFFF) | ((v as u32) << 16)) >> 16) as u16 == v,
{
}

pub proof fn bytes_of_word(val: u32)
    ensures
        ((val as u8) as u32) | ((((val >> 8) as u8) as u32) << 8) | ((((val >> 16) as u8) as u32)
            << 16) | ((((val >> 24) as u8) as u32) << 24) == val,
        ((((val as u8) as u16) | ((((val >> 8) as u8) as u16) << 8)) as u32) | (((((val >> 16)
            as u8) as u16) | ((((val >> 24) as u8) as u16) << 8)) as u32) << 16 == val,
{
    address_bits(0, 0, val, 0);
}

pub(crate) proof fn bytes_of_half(val: u16)
    ensures
        ((val as u8) as u16) | ((((val >> 8) as u8) as u16) << 8) == val,
{
    address_bits(0, 0, 0, val);
}

/// Alignment clears only low bits, so it keeps the region and the offsets in a
/// memory apart.
pub proof fn aligned_facts(a: u32)
    ensures
        (a & !3u32) >> 24 == a >> 24,
        (a & !1u32) >> 24 == a >> 24,
        (a & !3u32) & 0x1FFFF <= 0x1FFFC,
        (a & !1u32) & 0x1FFFF <= 0x1FFFE,
        (((a & !3u32) + 2) as u32) & 0x1FFFF == ((a & !3u32) & 0x1FFFF) + 2,
        (((a & !3u32) + 2) as u32) & !1u32 == (a & !3u32) + 2,
        (a & !3u32) & !1u32 == a & !3u32,
        (a & !1u32) & !1u32 == a & !1u32,
        ((a & !3u32) & 0x1FFFF) % 4 == 0,
        ((a & !1u32) & 0x1FFFF) % 2 == 0,
{
    address_bits(a, 0, 0, 0);
}

/// Whether addresses of this region read back what was written to them.
pub open spec fn holds_words(addr: u32) -> bool {
    let region = addr >> 24;
    region == 0x02 || region == 0x03 || region == 0x05 || region == 0x06 || region == 0x07
}

/// A word written to any of the memories reads back.
pub proof fn word_reads_back(b: BusState, addr: u32, val: u32)
    requires
        b.wf(),
        holds_words(addr),
    ensures
        b.write32(addr, val).read32(addr).0 == val,
{
    reveal(BusState::stored32);
    reveal(BusState::memory_written32);
    reveal(BusState::lookup32);
    bytes_of_word(val);
    aligned_bounds(addr);
    aligned_facts(addr);
}

/// A halfword written to any of the memories reads back.
pub proof fn half_reads_back(b: BusState, addr: u32, val: u16)
    requires
        b.wf(),
        holds_words(addr),
    ensures
        b.write16(addr, val).read16(addr).0 == val,
{
    reveal(BusState::stored16);
    reveal(BusState::memory_written16);
    reveal(BusState::lookup16);
    bytes_of_half(val);
    aligned_bounds(addr);
    aligned_facts(addr);
}

/// A byte written to work RAM, the palette or video memory reads back; object
/// memory ignores it, as the sprite part of video memory does in the bitmap
/// modes.
pub proof fn byte_reads_back(b: BusState, addr: u32, val: u8)
    requires
        b.wf(),
        holds_words(addr),
    ensures
        b.write8(addr, val).read8(addr).0 == (if addr >> 24 == 0x07 || (addr >> 24 == 0x06
            && b.ignores_byte(vram_addr(addr) as int)) {
            b.read8(addr).0
        } else {
            val
        }),
{
    reveal(BusState::write8);
    reveal(BusState::memory_written8);
    reveal(BusState::lookup8);
    palette_pair(addr);
    aligned_bounds(addr);
}

proof fn palette_pair(a: u32)
    ensures
        a & 0x3FF == a & 0x3FE || a & 0x3FF == (a & 0x3FE) + 1,
        a & 0x1FFFF == (a & !1u32) & 0x1FFFF || a & 0x1FFFF == ((a & !1u32) & 0x1FFFF) + 1,
        ((a & !1u32) & 0x1FFFF) % 2 == 0,
{
    address_bits(a, 0, 0, 0);
}

/// The offset in work RAM that a word access to `addr` touches.
pub open spec fn work_ram_offset(addr: u32) -> u32 {
    if addr >> 24 == 0x02 {
        (addr & !3u32) & 0x3FFFF
    } else {
        (addr & !3u32) & 0x7FFF
    }
}

/// A word written to work RAM changes no other word of it.
pub proof fn word_writes_are_separate(b: BusState, addr: u32, val: u32, other: u32)
    requires
        b.wf(),
        addr >> 24 == 0x02 || addr >> 24 == 0x03,
        other >> 24 == 0x02 || other >> 24 == 0x03,
        addr >> 24 != other >> 24 || work_ram_offset(addr) != work_ram_offset(other),
    ensures
        b.write32(addr, val).read32(other).0 == b.read32(other).0,
{
    reveal(BusState::stored32);
    reveal(BusState::memory_written32);
    reveal(BusState::lookup32);
    aligned_bounds(addr);
    aligned_bounds(other);
    aligned_facts(addr);
    aligned_facts(other);
    apart(addr, other);
}

proof fn apart(a: u32, c: u32)
    by (bit_vector)
    ensures
        ((a & !3u32) & 0x3FFFF) % 4 == 0,
        ((c & !3u32) & 0x3FFFF) % 4 == 0,
        ((a & !3u32) & 0x7FFF) % 4 == 0,
        ((c & !3u32) & 0x7FFF) % 4 == 0,
{
}

/// The address bits that tell the bytes of a memory apart. The other bits below
/// the region only choose between its mirrors.
pub open spec fn offset_mask(region: u32) -> u32 {
    if region == 0x02 {
        0x3FFFF
    } else if region == 0x03 {
        0x7FFF
    } else {
        0x3FF
    }
}

/// Whether the region holds work RAM, the palette or object memory, which
/// repeat all over it.
pub open spec fn repeats(region: u32) -> bool {
    region == 0x02 || region == 0x03 || region == 0x05 || region == 0x07
}

/// Memories repeat: addresses of a region that agree in their offset bits read
/// the same.
pub proof fn mirrors_read_alike(b: BusState, addr: u32, other: u32)
    requires
        addr >> 24 == other >> 24,
        repeats(addr >> 24),
        addr & offset_mask(addr >> 24) == other & offset_mask(addr >> 24),
    ensures
        b.read32(addr).0 == b.read32(other).0,
        b.read16(addr).0 == b.read16(other).0,
        b.read8(addr).0 == b.read8(other).0,
{
    reveal(BusState::lookup32);
    reveal(BusState::lookup16);
    reveal(BusState::lookup8);
    aligned_facts(addr);
    aligned_facts(other);
    mirror_offsets(addr, other);
}

proof fn mirror_offsets(a: u32, c: u32)
    ensures
        a & 0x3FFFF == c & 0x3FFFF ==> (a & !3u32) & 0x3FFFF == (c & !3u32) & 0x3FFFF && (a & !1u32)
            & 0x3FFFF == (c & !1u32) & 0x3FFFF,
        a & 0x7FFF == c & 0x7FFF ==> (a & !3u32) & 0x7FFF == (c & !3u32) & 0x7FFF && (a & !1u32)
            & 0x7FFF == (c & !1u32) & 0x7FFF,
        a & 0x3FF == c & 0x3FF ==> (a & !3u32) & 0x3FF == (c & !3u32) & 0x3FF && (a & !1u32) & 0x3FF
            == (c & !1u32) & 0x3FF,
{
    address_bits(a, c, 0, 0);
}

/// A word written to work RAM, the palette or object memory shows at every
/// mirror of its address, read as a word or as two halfwords.
pub proof fn word_shows_at_every_mirror(s: BusState, a: u32, b: u32, val: u32)
    requires
        s.wf(),
        a >> 24 == b >> 24,
        repeats(a >> 24),
        (a ^ b) & (offset_mask(a >> 24) & !3u32) == 0,
    ensures
        s.write32(a, val).read32(b).0 == val,
        (s.write32(a, val).read16(b & !3u32).0 as u32) | ((s.write32(a, val).read16(
            ((b & !3u32) + 2) as u32,
        ).0 as u32) << 16) == val,
{
    reveal(BusState::stored32);
    reveal(BusState::memory_written32);
    reveal(BusState::lookup32);
    reveal(BusState::lookup16);
    bytes_of_word(val);
    aligned_bounds(a);
    aligned_bounds(b);
    aligned_facts(a);
    aligned_facts(b);
    mirror_words(a, b);
}

proof fn mirror_words(a: u32, b: u32)
    ensures
        (a ^ b) & (0x3FFFFu32 & !3u32) == 0 ==> (a & !3u32) & 0x3FFFF == (b & !3u32) & 0x3FFFF,
        (a ^ b) & (0x7FFFu32 & !3u32) == 0 ==> (a & !3u32) & 0x7FFF == (b & !3u32) & 0x7FFF,
        (a ^ b) & (0x3FFu32 & !3u32) == 0 ==> (a & !3u32) & 0x3FF == (b & !3u32) & 0x3FF,
        (((b & !3u32) + 2) as u32) & 0x3FFFF == ((b & !3u32) & 0x3FFFF) + 2,
        (((b & !3u32) + 2) as u32) & 0x7FFF == ((b & !3u32) & 0x7FFF) + 2,
        (((b & !3u32) + 2) as u32) & 0x3FF == ((b & !3u32) & 0x3FF) + 2,
        (((b & !3u32) + 2) as u32) >> 24 == b >> 24,
{
    address_bits(a, b, 0, 0);
}

/// Whether the register at offset `off` keeps all 16 bits that are written to
/// it.
pub open spec fn keeps_every_bit(off: u32) -> bool {
    &&& off % 2 == 0
    &&& {
        ||| off == 0x000 || off == 0x002
        ||| 0x008 <= off <= 0x00E
        ||| 0x020 <= off <= 0x026
        ||| 0x030 <= off <= 0x036
        ||| 0x040 <= off <= 0x04C
        ||| 0x050 <= off <= 0x054
        ||| 0x0B0 <= off < 0x0E0 && (off - 0x0B0) % 12 < 10
        ||| 0x100 <= off < 0x110 && off % 4 == 0
        ||| off == 0x132 || off == 0x200 || off == 0x204
    }
}

/// A byte written to a register changes that byte of it and keeps the other,
/// also where the register cannot be read.
pub proof fn byte_writes_keep_the_other_half(b: BusState, addr: u32, val: u8)
    requires
        addr >> 24 == 0x04,
        keeps_every_bit((addr & !1u32) & 0x3FF),
    ensures
        b.write8(addr, val).io_held(addr & !1u32) == store::with_byte(
            b.io_held(addr & !1u32),
            addr,
            val,
        ),
{
    reveal(BusState::write8);
    reveal(BusState::io_written8);
    reveal(BusState::io_written);
    reveal(BusState::plain_io_written);
    reveal(BusState::io_held);
    reveal(BusState::io16);
    let off = (addr & !1u32) & 0x3FF;
    let half = store::with_byte(b.io_held(addr & !1u32), addr, val);
    register_bytes(addr);
    if 0x0B0 <= off && off < 0x0E0 {
        let c = b.dma.channels[(off - 0x0B0) / 12];
        halves_of_word(c.sad, half);
        halves_of_word(c.dad, half);
    }
}

proof fn register_bytes(a: u32)
    ensures
        a & 0x3FF == 0x301 ==> (a & !1u32) & 0x3FF == 0x300,
{
    address_bits(a, 0, 0, 0);
}

proof fn halves_of_word(w: u32, v: u16)
    ensures
        ((w & 0xFFFF_0000) | (v as u32)) as u16 == v,
        (((w & 0x0000_FFFF) | ((v as u32) << 16)) >> 16) as u16 == v,
{
    address_bits(0, 0, w, v);
}

/// Whether `t` has the ROMs of `b`.
pub open spec fn same_roms(b: BusState, t: BusState) -> bool {
    t.rom == b.rom && t.bios == b.bios && t.has_bios == b.has_bios
}

/// Whether starting a transfer leaves the ROMs alone.
pub open spec fn keeps_roms(start: spec_fn(BusState, usize) -> BusState) -> bool {
    forall|b: BusState, id: usize| same_roms(b, #[trigger] start(b, id))
}

proof fn half_reads_keep_roms(b: BusState, addr: u32)
    ensures
        same_roms(b, b.read16(addr).1),
{
    reveal(BusState::lookup16);
}

proof fn reads_keep_roms(b: BusState, addr: u32)
    ensures
        same_roms(b, b.read8(addr).1),
        same_roms(b, b.read16(addr).1),
        same_roms(b, b.read32(addr).1),
{
    let aligned = addr & !3u32;
    half_reads_keep_roms(b, addr);
    half_reads_keep_roms(b, aligned);
    half_reads_keep_roms(b.read16(aligned).1, (aligned + 2) as u32);
    assert(same_roms(b, b.read8(addr).1)) by {
        reveal(BusState::lookup8);
    }
    assert(same_roms(b, b.read32(addr).1)) by {
        reveal(BusState::lookup32);
    }
}

proof fn io_writes_keep_roms(
    b: BusState,
    addr: u32,
    val: u16,
    start: spec_fn(BusState, usize) -> BusState,
)
    requires
        keeps_roms(start),
    ensures
        same_roms(b, b.io_written(addr, val, start)),
{
    reveal(BusState::io_written);
    reveal(BusState::plain_io_written);
    reveal(BusState::dma_control_written);
    let off = addr & 0x3FF;
    if BusState::is_dma_control(off) {
        let id = ((off - 0x0B0) / 12) as usize;
        assert(same_roms(b.dma_control_written(id, val), start(b.dma_control_written(id, val), id)));
    }
}

proof fn half_writes_keep_roms(
    b: BusState,
    addr: u32,
    val: u16,
    start: spec_fn(BusState, usize) -> BusState,
)
    requires
        keeps_roms(start),
    ensures
        same_roms(b, b.stored16(addr, val, start)),
{
    reveal(BusState::stored16);
    reveal(BusState::memory_written16);
    reveal(BusState::cart_written16);
    io_writes_keep_roms(b, addr & !1u32, val, start);
}

proof fn word_writes_keep_roms(
    b: BusState,
    addr: u32,
    val: u32,
    start: spec_fn(BusState, usize) -> BusState,
)
    requires
        keeps_roms(start),
    ensures
        same_roms(b, b.stored32(addr, val, start)),
{
    reveal(BusState::stored32);
    reveal(BusState::memory_written32);
    let a = addr & !3u32;
    let next = (a + 2) as u32;
    io_writes_keep_roms(b, a, val as u16, start);
    io_writes_keep_roms(b.io_written(a, val as u16, start), next, (val >> 16) as u16, start);
    half_writes_keep_roms(b, a, val as u16, start);
    half_writes_keep_roms(b.stored16(a, val as u16, start), next, (val >> 16) as u16, start);
}

proof fn copies_keep_roms(
    b: BusState,
    src: u32,
    dst: u32,
    src_step: i32,
    dst_step: i32,
    word32: bool,
    n: nat,
    start: spec_fn(BusState, usize) -> BusState,
)
    requires
        keeps_roms(start),
    ensures
        same_roms(b, b.dma_copied(src, dst, src_step, dst_step, word32, n, start)),
    decreases n,
{
    reveal(BusState::dma_copied);
    if n > 0 {
        let m = (n - 1) as nat;
        copies_keep_roms(b, src, dst, src_step, dst_step, word32, m, start);
        let t = b.dma_copied(src, dst, src_step, dst_step, word32, m, start);
        let a = crate::dma::moved(src, src_step, m);
        let c = crate::dma::moved(dst, dst_step, m);
        reads_keep_roms(t, a);
        if word32 {
            word_writes_keep_roms(t.read32(a).1, c, t.read32(a).0, start);
        } else {
            half_writes_keep_roms(t.read16(a).1, c, t.read16(a).0, start);
        }
    }
}

proof fn transfer_keeps_roms(
    b: BusState,
    id: usize,
    start: spec_fn(BusState, usize) -> BusState,
)
    requires
        keeps_roms(start),
    ensures
        same_roms(b, b.dma_run(id, start).1),
{
    reveal(BusState::dma_run);
    reveal(BusState::with_dma);
    reveal(BusState::eeprom_sized);
    reveal(BusState::dma_finished);
    let c = b.dma.channels[id as int];
    let t = b.with_dma(
        id,
        crate::dma::DmaChannel { run_count: c.run_count.wrapping_add(1), ..c },
    );
    copies_keep_roms(t, c.internal_sad, c.internal_dad, 4, 0, true, 4, start);
    copies_keep_roms(
        t.eeprom_sized(c.internal_dad, c.internal_count),
        c.internal_sad,
        c.internal_dad,
        c.src_control().step(c.word_size()),
        c.dest_control().step(c.word_size()),
        c.word_size_32(),
        c.internal_count as nat,
        start,
    );
}

proof fn nested_transfers_keep_roms(nesting: nat)
    ensures
        keeps_roms(store::transfers(nesting)),
    decreases nesting,
{
    if nesting > 0 {
        nested_transfers_keep_roms((nesting - 1) as nat);
        assert forall|b: BusState, id: usize| same_roms(
            b,
            #[trigger] store::transfers(nesting)(b, id),
        ) by {
            transfer_keeps_roms(b, id, store::transfers((nesting - 1) as nat));
        }
    }
}

/// No write, and no DMA transfer that a write starts, changes the cartridge
/// ROM or the boot ROM.
pub proof fn roms_are_read_only(b: BusState, addr: u32, val: u32)
    ensures
        same_roms(b, b.write8(addr, val as u8)),
        same_roms(b, b.write16(addr, val as u16)),
        same_roms(b, b.write32(addr, val)),
{
    let start = store::transfers(store::DMA_NESTING as nat);
    nested_transfers_keep_roms(store::DMA_NESTING as nat);
    half_writes_keep_roms(b, addr, val as u16, start);
    word_writes_keep_roms(b, addr, val, start);
    reveal(BusState::write8);
    reveal(BusState::io_written8);
    reveal(BusState::cart_written8);
    reveal(BusState::memory_written8);
    io_writes_keep_roms(
        b,
        addr & !1u32,
        store::with_byte(b.io_held(addr & !1u32), addr, val as u8),
        start,
    );
}

} // verus!

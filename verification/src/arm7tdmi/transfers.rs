//! What loads, stores and status accesses do, in numbers.

use vstd::prelude::*;

use crate::bits;
use crate::bus::BusState;

use super::alu::{barrel_shift, ShiftType};
use super::arm::{self, ArmInstruction};
use super::results;
use super::Cpu;

verus! {

broadcast use bits::group_and_bounds;

proof fn loaded_bits(w: u32, a: u32, y: u8, h: u16)
    by (bit_vector)
    ensures
        a & 3 == a % 4,
        a & 1 == a % 2,
        ((a >> 4) & 0xF0) | (a & 0xF) == ((a / 0x100) % 16) * 16 + a % 16,
        (w >> 8) | (w << 24) == w / 0x100 + (w % 0x100) * 0x100_0000,
        (w >> 16) | (w << 16) == w / 0x1_0000 + (w % 0x1_0000) * 0x1_0000,
        (w >> 24) | (w << 8) == w / 0x100_0000 + (w % 0x100_0000) * 0x100,
        (y as u32) < 0x80 ==> (y as i8 as i32 as u32) == (y as u32),
        (y as u32) >= 0x80 ==> (y as i8 as i32 as u32) == (y as u32) + 0xFFFF_FF00,
        (h as u32) < 0x8000 ==> (h as i16 as i32 as u32) == (h as u32),
        (h as u32) >= 0x8000 ==> (h as i16 as i32 as u32) == (h as u32) + 0xFFFF_0000,
{
}

/// A word loaded from an unaligned address has its bytes rotated so that the
/// byte addressed is the lowest. A signed byte or halfword is widened by copies
/// of its top bit, and a signed halfword at an odd address is the byte there.
#[verifier::rlimit(50)]
pub proof fn loads_arrange_bytes(b: BusState, addr: u32)
    ensures
        ({
            let w = b.read32(addr).0;
            let r = b.load_word(addr).0;
            &&& addr % 4 == 0 ==> r == w
            &&& addr % 4 == 1 ==> r == w / 0x100 + w % 0x100 * 0x100_0000
            &&& addr % 4 == 2 ==> r == w / 0x1_0000 + w % 0x1_0000 * 0x1_0000
            &&& addr % 4 == 3 ==> r == w / 0x100_0000 + w % 0x100_0000 * 0x100
            &&& b.load_word(addr).1 == b.read32(addr).1
        }),
        ({
            let y = b.read8(addr).0;
            let r = b.load_signed_byte(addr).0;
            &&& y < 0x80 ==> r == y
            &&& y >= 0x80 ==> r == y + 0xFFFF_FF00
            &&& b.load_signed_byte(addr).1 == b.read8(addr).1
        }),
        ({
            let h = b.read16(addr).0;
            let r = b.load_signed_half(addr).0;
            &&& addr % 2 == 0 && h < 0x8000 ==> r == h
            &&& addr % 2 == 0 && h >= 0x8000 ==> r == h + 0xFFFF_0000
            &&& addr % 2 == 0 ==> b.load_signed_half(addr).1 == b.read16(addr).1
            &&& addr % 2 == 1 ==> b.load_signed_half(addr) == b.load_signed_byte(addr)
        }),
{
    loaded_bits(b.read32(addr).0, addr, b.read8(addr).0, b.read16(addr).0);
}

/// Where a transfer goes and where its base register ends, for a base and an
/// offset: bit 23 adds the offset instead of subtracting it, and bit 24 does so
/// before the access.
pub open spec fn moved_base(o: u32, base: u32, offset: u32) -> int {
    if o / 0x80_0000 % 2 == 1 {
        (base + offset) % 0x1_0000_0000
    } else {
        (base - offset) % 0x1_0000_0000
    }
}

pub open spec fn accessed(o: u32, base: u32, offset: u32) -> int {
    if o / 0x100_0000 % 2 == 1 {
        moved_base(o, base, offset)
    } else {
        base as int
    }
}

/// Whether a transfer writes its base register back.
pub open spec fn writes_back(o: u32) -> bool {
    (o / 0x100_0000 % 2 == 0 || o / 0x20_0000 % 2 == 1) && o / 0x1_0000 % 16 != 15
}

/// A processor that loaded `v` into `d` in a transfer from base `n`: a write to
/// R15 jumps to the even address, the base takes its new value last, and
/// nothing else changes.
pub open spec fn has_loaded(c: Cpu, a: Cpu, o: u32, v: u32, end: int) -> bool {
    let n = (o / 0x1_0000 % 16) as int;
    let d = (o / 0x1000 % 16) as int;
    &&& writes_back(o) ==> a.regs[n] == end
    &&& d != 15 && !(writes_back(o) && n == d) ==> a.regs[d] == v
    &&& d == 15 ==> a.regs[15] == v - v % 2 && a.pipeline_flushed
    &&& forall|i: int|
        0 <= i < 16 && i != d && !(writes_back(o) && i == n) ==> #[trigger] a.regs[i] == c.regs[i]
    &&& a.cpsr == c.cpsr
}

/// A processor that stored a register in a transfer: only the base may change.
pub open spec fn has_stored(c: Cpu, a: Cpu, o: u32, end: int) -> bool {
    let n = (o / 0x1_0000 % 16) as int;
    &&& writes_back(o) ==> a.regs[n] == end
    &&& forall|i: int|
        0 <= i < 16 && !(writes_back(o) && i == n) ==> #[trigger] a.regs[i] == c.regs[i]
    &&& a.cpsr == c.cpsr
}

/// The offset of a word or byte transfer: the low twelve bits, or a register
/// shifted by an immediate if bit 25 is set.
pub open spec fn word_offset(c: Cpu, o: u32) -> u32 {
    if o / 0x200_0000 % 2 == 0 {
        o % 0x1000
    } else {
        barrel_shift(
            c.regs[(o % 16) as int],
            ShiftType::from_u8((o / 0x20 % 4) as u8),
            (o / 0x80 % 32) as u8,
            c.cpsr.c(),
            true,
        ).0
    }
}

/// Loads and stores of words and, with bit 22, of bytes.
#[verifier::rlimit(50)]
pub proof fn word_transfers(c: Cpu, b: BusState, o: u32)
    requires
        o / 0x400_0000 % 4 == 1,
        o / 0x200_0000 % 2 == 0 || o / 0x10 % 2 == 0,
    ensures
        ({
            let out = c.arm_executed(b, o);
            let base = c.regs[(o / 0x1_0000 % 16) as int];
            let y = word_offset(c, o);
            let at = accessed(o, base, y) as u32;
            let end = moved_base(o, base, y);
            let bytes = o / 0x40_0000 % 2 == 1;
            let d = (o / 0x1000 % 16) as int;
            let val = if d == 15 {
                ((c.regs[15] + 4) % 0x1_0000_0000) as u32
            } else {
                c.regs[d]
            };
            &&& o / 0x10_0000 % 2 == 1 && bytes ==> out.1 == b.read8(at).1 && has_loaded(
                c,
                out.0,
                o,
                b.read8(at).0 as u32,
                end,
            )
            &&& o / 0x10_0000 % 2 == 1 && !bytes ==> out.1 == b.load_word(at).1 && has_loaded(
                c,
                out.0,
                o,
                b.load_word(at).0,
                end,
            )
            &&& o / 0x10_0000 % 2 == 0 && bytes ==> out.1 == b.write8(at, val as u8)
            &&& o / 0x10_0000 % 2 == 0 && !bytes ==> out.1 == b.write32(at, val)
            &&& o / 0x10_0000 % 2 == 0 ==> has_stored(c, out.0, o, end)
        }),
{
    transfer_fields(o);
    word_transfer_class(o);
    word_offsets(c, o);
    reveal(Cpu::single_transferred);
    let base = c.regs[(o / 0x1_0000 % 16) as int];
    let y = word_offset(c, o);
    transfer_addresses(c, o, y);
    let at = accessed(o, base, y) as u32;
    if o / 0x10_0000 % 2 == 1 {
        let v = if o / 0x40_0000 % 2 == 1 {
            b.read8(at).0 as u32
        } else {
            b.load_word(at).0
        };
        loaded_register(c, o, v, c.indexed(o, y));
    } else {
        stored_base(c, o, c.indexed(o, y));
    }
}

proof fn transfer_fields(o: u32)
    ensures
        arm::field(o, 0) == o % 16,
        arm::field(o, 12) == o / 0x1000 % 16,
        arm::field(o, 16) == o / 0x1_0000 % 16,
        arm::field(o, 0) & 0xF == arm::field(o, 0),
        arm::field(o, 12) & 0xF == arm::field(o, 12),
        arm::field(o, 16) & 0xF == arm::field(o, 16),
        arm::flag(o, 20) == (o / 0x10_0000 % 2 == 1),
        arm::flag(o, 21) == (o / 0x20_0000 % 2 == 1),
        arm::flag(o, 22) == (o / 0x40_0000 % 2 == 1),
        arm::flag(o, 23) == (o / 0x80_0000 % 2 == 1),
        arm::flag(o, 24) == (o / 0x100_0000 % 2 == 1),
        arm::flag(o, 25) == (o / 0x200_0000 % 2 == 1),
        (o >> 5) & 3 == o / 0x20 % 4,
{
    results::opcode_fields(o);
}

proof fn word_offsets(c: Cpu, o: u32)
    ensures
        c.transfer_offset(o) == word_offset(c, o),
{
    results::opcode_fields(o);
}

proof fn transfer_addresses(c: Cpu, o: u32, y: u32)
    ensures
        c.indexed(o, y) == moved_base(o, c.regs[(o / 0x1_0000 % 16) as int], y),
        0 <= accessed(o, c.regs[(o / 0x1_0000 % 16) as int], y) <= 0xFFFF_FFFF,
{
    transfer_fields(o);
}

proof fn loaded_register(c: Cpu, o: u32, v: u32, end: u32)
    ensures
        has_loaded(c, c.written(arm::field(o, 12), v).base_updated(o, end), o, v, end as int),
{
    transfer_fields(o);
    results::complement(v, 0);
}

proof fn stored_base(c: Cpu, o: u32, end: u32)
    ensures
        has_stored(c, c.base_updated(o, end), o, end as int),
{
    transfer_fields(o);
}

proof fn word_transfer_class(o: u32)
    requires
        o / 0x400_0000 % 4 == 1,
        o / 0x200_0000 % 2 == 0 || o / 0x10 % 2 == 0,
    ensures
        ArmInstruction::decode(o) is SingleTransfer,
{
    results::opcode_fields(o);
    results::opcode_classes(o);
}

proof fn half_transfer_class(o: u32)
    requires
        o / 0x200_0000 % 8 == 0,
        o / 0x80 % 2 == 1,
        o / 0x10 % 2 == 1,
        o / 0x20 % 4 != 0,
    ensures
        ArmInstruction::decode(o) is HalfwordTransfer,
{
    results::opcode_classes(o);
}

/// The offset of a halfword transfer: eight bits in two halves if bit 22 is
/// set, and else a register.
pub open spec fn half_offset(c: Cpu, o: u32) -> u32 {
    if o / 0x40_0000 % 2 == 1 {
        (o / 0x100 % 16 * 16 + o % 16) as u32
    } else {
        c.regs[(o % 16) as int]
    }
}

/// Loads and stores of halfwords and loads of signed bytes and halfwords.
#[verifier::rlimit(50)]
pub proof fn half_transfers(c: Cpu, b: BusState, o: u32)
    requires
        o / 0x200_0000 % 8 == 0,
        o / 0x80 % 2 == 1,
        o / 0x10 % 2 == 1,
        o / 0x20 % 4 != 0,
    ensures
        ({
            let out = c.arm_executed(b, o);
            let base = c.regs[(o / 0x1_0000 % 16) as int];
            let y = half_offset(c, o);
            let at = accessed(o, base, y) as u32;
            let end = moved_base(o, base, y);
            let load = o / 0x10_0000 % 2 == 1;
            let kind = o / 0x20 % 4;
            &&& load && kind == 1 ==> out.1 == b.read16(at).1 && has_loaded(
                c,
                out.0,
                o,
                b.read16(at).0 as u32,
                end,
            )
            &&& load && kind == 2 ==> out.1 == b.load_signed_byte(at).1 && has_loaded(
                c,
                out.0,
                o,
                b.load_signed_byte(at).0,
                end,
            )
            &&& load && kind == 3 ==> out.1 == b.load_signed_half(at).1 && has_loaded(
                c,
                out.0,
                o,
                b.load_signed_half(at).0,
                end,
            )
            &&& !load ==> out.1 == b.write16(at, c.regs[(o / 0x1000 % 16) as int] as u16)
                && has_stored(c, out.0, o, end)
        }),
{
    transfer_fields(o);
    half_transfer_class(o);
    loaded_bits(0, o, 0, 0);
    reveal(Cpu::half_transferred);
    let base = c.regs[(o / 0x1_0000 % 16) as int];
    let y = half_offset(c, o);
    transfer_addresses(c, o, y);
    let at = accessed(o, base, y) as u32;
    let kind = o / 0x20 % 4;
    if o / 0x10_0000 % 2 == 1 {
        let v = if kind == 1 {
            b.read16(at).0 as u32
        } else if kind == 2 {
            b.load_signed_byte(at).0
        } else {
            b.load_signed_half(at).0
        };
        loaded_register(c, o, v, c.indexed(o, y));
    } else {
        stored_base(c, o, c.indexed(o, y));
    }
}

/// A swap loads from an address and stores there what another register held.
#[verifier::rlimit(50)]
pub proof fn swaps(c: Cpu, b: BusState, o: u32)
    requires
        o / 0x80_0000 % 32 == 2,
        o / 0x10_0000 % 4 == 0,
        o / 0x10 % 16 == 9,
    ensures
        ({
            let out = c.arm_executed(b, o);
            let at = c.regs[(o / 0x1_0000 % 16) as int];
            let val = c.regs[(o % 16) as int];
            let d = (o / 0x1000 % 16) as int;
            &&& o / 0x40_0000 % 2 == 1 ==> out.0.regs[d] == b.read8(at).0 && out.1 == b.read8(
                at,
            ).1.write8(at, val as u8)
            &&& o / 0x40_0000 % 2 == 0 ==> out.0.regs[d] == b.load_word(at).0 && out.1
                == b.load_word(at).1.write32(at, val)
            &&& forall|i: int| 0 <= i < 16 && i != d ==> #[trigger] out.0.regs[i] == c.regs[i]
            &&& out.0.cpsr == c.cpsr
        }),
{
    results::opcode_fields(o);
    results::opcode_classes(o);
    reveal(Cpu::swapped);
    assert(ArmInstruction::decode(o) is Swap);
}

/// A status read copies the current status, or the saved one if bit 22 is set.
#[verifier::rlimit(50)]
pub proof fn status_reads(c: Cpu, b: BusState, o: u32)
    requires
        o / 0x80_0000 % 32 == 2,
        o / 0x10_0000 % 4 == 0,
        o / 0x10 % 16 == 0,
    ensures
        ({
            let a = c.arm_executed(b, o).0;
            let d = (o / 0x1000 % 16) as int;
            &&& a.regs[d] == (if o / 0x40_0000 % 2 == 1 {
                c.spsr().bits
            } else {
                c.cpsr.bits
            })
            &&& forall|i: int| 0 <= i < 16 && i != d ==> #[trigger] a.regs[i] == c.regs[i]
            &&& a.cpsr == c.cpsr
        }),
{
    results::opcode_fields(o);
    results::opcode_classes(o);
    assert(ArmInstruction::decode(o) is StatusRead);
}

proof fn masked_bytes(f: u32, m: u32, user: bool, old_bits: u32, val: u32)
    by (bit_vector)
    requires
        ({
            let all = (if f & 1 != 0 {
                0x0000_00FFu32
            } else {
                0u32
            }) | (if f & 2 != 0 {
                0x0000_FF00u32
            } else {
                0u32
            }) | (if f & 4 != 0 {
                0x00FF_0000u32
            } else {
                0u32
            }) | (if f & 8 != 0 {
                0xFF00_0000u32
            } else {
                0u32
            });
            m == (if user {
                all & 0xFF00_0000u32
            } else {
                all
            })
        }),
    ensures
        ({
            let r = (old_bits & !m) | (val & m);
            &&& f % 2 == 1 && !user ==> r % 0x100 == val % 0x100
            &&& f % 2 == 0 || user ==> r % 0x100 == old_bits % 0x100
            &&& f / 2 % 2 == 1 && !user ==> r / 0x100 % 0x100 == val / 0x100 % 0x100
            &&& f / 2 % 2 == 0 || user ==> r / 0x100 % 0x100 == old_bits / 0x100 % 0x100
            &&& f / 4 % 2 == 1 && !user ==> r / 0x1_0000 % 0x100 == val / 0x1_0000 % 0x100
            &&& f / 4 % 2 == 0 || user ==> r / 0x1_0000 % 0x100 == old_bits / 0x1_0000 % 0x100
            &&& f / 8 % 2 == 1 ==> r / 0x100_0000 == val / 0x100_0000
            &&& f / 8 % 2 == 0 ==> r / 0x100_0000 == old_bits / 0x100_0000
        }),
{
}

/// Whether a status `r` is `s` with the bytes of `v` that bits 16 to 19 of an
/// opcode select; in user mode only the flags can be written.
pub open spec fn takes_bytes(o: u32, user: bool, s: u32, v: u32, r: u32) -> bool {
    let f = o / 0x1_0000 % 16;
    &&& r % 0x100 == (if f % 2 == 1 && !user {
        v % 0x100
    } else {
        s % 0x100
    })
    &&& r / 0x100 % 0x100 == (if f / 2 % 2 == 1 && !user {
        v / 0x100 % 0x100
    } else {
        s / 0x100 % 0x100
    })
    &&& r / 0x1_0000 % 0x100 == (if f / 4 % 2 == 1 && !user {
        v / 0x1_0000 % 0x100
    } else {
        s / 0x1_0000 % 0x100
    })
    &&& r / 0x100_0000 == (if f / 8 % 2 == 1 {
        v / 0x100_0000
    } else {
        s / 0x100_0000
    })
}

/// A status write changes the bytes that it selects, of the current status or,
/// with bit 22, of the saved one. Writing the current status switches to the
/// mode that it then names.
#[verifier::rlimit(50)]
pub proof fn status_writes(c: Cpu, b: BusState, o: u32)
    requires
        o / 0x80_0000 % 32 == 2,
        o / 0x10_0000 % 4 == 2,
        o / 0x10 % 16 == 0,
    ensures
        ({
            let a = c.arm_executed(b, o).0;
            let v = c.regs[(o % 16) as int];
            let user = c.cpsr.mode() is User;
            &&& o / 0x40_0000 % 2 == 0 ==> {
                &&& takes_bytes(o, user, c.cpsr.bits, v, a.cpsr.bits)
                &&& a.regs == c.switched(a.cpsr.mode()).regs
                &&& a.banked == c.switched(a.cpsr.mode()).banked
            }
            &&& o / 0x40_0000 % 2 == 1 ==> {
                &&& a.cpsr == c.cpsr
                &&& a.regs == c.regs
                &&& c.cpsr.mode().has_spsr() ==> takes_bytes(
                    o,
                    user,
                    c.spsr().bits,
                    v,
                    a.spsr().bits,
                )
            }
        }),
{
    results::opcode_fields(o);
    results::opcode_classes(o);
    reveal(Cpu::status_written);
    assert(ArmInstruction::decode(o) is StatusWrite);
    let user = c.cpsr.mode() is User;
    let m = arm::status_mask(o, user);
    let v = c.regs[(o % 16) as int];
    let f = (o >> 16) & 0xF;
    masked_bytes(f, m, user, c.cpsr.bits, v);
    masked_bytes(f, m, user, c.spsr().bits, v);
    status_value(c, o);
}

proof fn status_value(c: Cpu, o: u32)
    requires
        o / 0x80_0000 % 32 == 2,
    ensures
        !arm::flag(o, 25),
{
    results::opcode_fields(o);
}

} // verus!

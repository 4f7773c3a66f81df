//! What holds of the processor across several operations.

use vstd::prelude::*;

use crate::bits;
use crate::bus::{self, BusState};

use super::access::{self, listed};
use super::psr;
use super::thumb::flag16;
use super::{Cpu, CpuMode};

verus! {

broadcast use bits::group_and_bounds;

/// Switching to another mode and back restores every register.
pub proof fn mode_round_trip(c: Cpu, m: CpuMode)
    ensures
        c.switched(m).cpsr.mode() == m,
        c.switched(m).switched(c.cpsr.mode()).regs == c.regs,
        c.switched(m).switched(c.cpsr.mode()).cpsr.mode() == c.cpsr.mode(),
{
    psr::psr_mode_round_trip(c.cpsr, m);
    psr::psr_mode_round_trip(c.switched(m).cpsr, c.cpsr.mode());
    assert(c.switched(m).switched(c.cpsr.mode()).regs =~= c.regs);
}

/// The stack pointer and link register of a mode survive whatever a mode with
/// another bank does to its own.
pub proof fn banked_registers_are_kept(c: Cpu, m: CpuMode, sp: u32, lr: u32)
    requires
        m.bank_index() != c.cpsr.mode().bank_index(),
    ensures
        c.switched(m).with_reg(13, sp).with_reg(14, lr).switched(c.cpsr.mode()).regs[13]
            == c.regs[13],
        c.switched(m).with_reg(13, sp).with_reg(14, lr).switched(c.cpsr.mode()).regs[14]
            == c.regs[14],
{
    psr::psr_mode_round_trip(c.cpsr, m);
}

proof fn masked_status(x: u32)
    ensures
        (x | (1u32 << 7)) & 0x1F == x & 0x1F,
        ((x | (1u32 << 7)) >> 7) & 1 == 1,
        ((x | (1u32 << 7)) >> 5) & 1 == (x >> 5) & 1,
{
    word_bits(x, 0, 0, 0);
}

proof fn word_bits(a: u32, c: u32, d: u32, i: u8)
    by (bit_vector)
    ensures
        (a | (1u32 << 7)) & 0x1F == a & 0x1F,
        ((a | (1u32 << 7)) >> 7) & 1 == 1,
        ((a | (1u32 << 7)) >> 5) & 1 == (a >> 5) & 1,
        a <= c <= d && a >> 24 == d >> 24 ==> c >> 24 == a >> 24,
        a < c && c - a < 64 && a % 4 == 0 && c % 4 == 0 ==> (a & !3u32) & 0x3FFFF != (c & !3u32)
            & 0x3FFFF && (a & !3u32) & 0x7FFF != (c & !3u32) & 0x7FFF,
        (a & !3u32) >> 24 == a >> 24,
        i < 16 ==> i & 0xF == i,
        15u8 & 0xFu8 == 15u8,
{
}

/// Entering an exception masks IRQs, continues in ARM state at the vector in
/// the exception's mode, and saves the status.
pub proof fn exception_entry(c: Cpu, mode: CpuMode, return_addr: u32, vector: u32)
    requires
        mode.has_spsr(),
    ensures
        ({
            let e = c.exception(mode, return_addr, vector);
            &&& e.cpsr.mode() == mode
            &&& e.cpsr.irq_disabled()
            &&& !e.cpsr.thumb()
            &&& e.regs[15] == vector
            &&& e.regs[14] == return_addr
            &&& e.spsr() == c.cpsr
        }),
{
    psr::psr_mode_round_trip(c.cpsr, mode);
    let d = c.switched(mode).with_spsr(c.cpsr);
    psr::psr_set_then_get(d.cpsr, 5, false);
    masked_status(d.cpsr.with_bit(5, false).bits);
}

/// Returning from an exception restores the status and every register of the
/// interrupted mode, and continues at `target`.
pub proof fn exception_return(c: Cpu, mode: CpuMode, return_addr: u32, vector: u32, target: u32)
    requires
        mode.has_spsr(),
        c.cpsr.mode() != mode,
    ensures
        ({
            let r = c.exception(mode, return_addr, vector).written_with_flags(15, target, true);
            &&& r.cpsr == c.cpsr
            &&& r.regs[15] == target & !1u32
            &&& forall|i: int| 0 <= i < 15 ==> #[trigger] r.regs[i] == c.regs[i]
        }),
{
    exception_entry(c, mode, return_addr, vector);
    psr::psr_mode_round_trip(c.cpsr, mode);
    word_bits(0, 0, 0, 0);
    let e = c.exception(mode, return_addr, vector);
    let r = e.written_with_flags(15, target, true);
    let d = c.switched(mode);
    assert(e.banked.sp == d.banked.sp && e.banked.lr == d.banked.lr);
    assert forall|i: int| 0 <= i < 15 implies #[trigger] r.regs[i] == c.regs[i] by {
        assert(e.regs[i] == d.regs[i] || i == 14);
    }
}

/// An interrupt is invisible to the program it interrupts: `SUBS PC, LR, #4`
/// in the handler restores the status and all registers, and resumes the
/// instruction that had not executed yet.
pub proof fn interrupt_returns(c: Cpu)
    requires
        c.cpsr.mode() != CpuMode::Irq,
    ensures
        ({
            let e = c.interrupted();
            let r = e.written_with_flags(15, e.regs[14].wrapping_sub(4), true);
            &&& r.cpsr == c.cpsr
            &&& r.regs[15] == c.executing_pc() & !1u32
            &&& forall|i: int| 0 <= i < 15 ==> #[trigger] r.regs[i] == c.regs[i]
        }),
{
    let lr = if c.cpsr.thumb() {
        c.regs[15]
    } else {
        c.regs[15].wrapping_sub(4)
    };
    exception_entry(c, CpuMode::Irq, lr, 0x18);
    exception_return(c, CpuMode::Irq, lr, 0x18, lr.wrapping_sub(4));
}

/// Whether a word access to `addr` goes to work RAM.
pub open spec fn in_work_ram(addr: u32) -> bool {
    addr >> 24 == 0x02 || addr >> 24 == 0x03
}

/// Whether a stack of `n` words from `addr` up lies in one work RAM, aligned.
pub open spec fn stack_fits(addr: u32, n: nat) -> bool {
    &&& addr + 4 * n <= 0xFFFF_FFFF
    &&& addr % 4 == 0
    &&& in_work_ram(addr)
    &&& n > 0 ==> ((addr + 4 * n - 4) as u32) >> 24 == addr >> 24
}

pub(crate) proof fn words_up_is_sum(addr: u32, n: nat)
    requires
        addr + 4 * n <= 0xFFFF_FFFF,
    ensures
        access::words_up(addr, n) == addr + 4 * n,
    decreases n,
{
    if n > 0 {
        words_up_is_sum(addr, (n - 1) as nat);
    }
}

proof fn region_is_monotone(a: u32, c: u32, d: u32)
    requires
        a <= c <= d,
        a >> 24 == d >> 24,
    ensures
        c >> 24 == a >> 24,
{
    word_bits(a, c, d, 0);
}

proof fn near_offsets_differ(a: u32, c: u32)
    requires
        a < c,
        c - a < 64,
        a % 4 == 0,
        c % 4 == 0,
    ensures
        (a & !3u32) & 0x3FFFF != (c & !3u32) & 0x3FFFF,
        (a & !3u32) & 0x7FFF != (c & !3u32) & 0x7FFF,
{
    word_bits(a, c, c, 0);
}

/// Words `j` and `k` of a stack are in the same work RAM and do not overlap.
pub(crate) proof fn stack_words_are_separate(addr: u32, n: nat, j: nat, k: nat)
    requires
        stack_fits(addr, n),
        n <= 16,
        j < n,
        k < n,
    ensures
        access::words_up(addr, j) >> 24 == addr >> 24,
        j != k ==> bus::laws::work_ram_offset(access::words_up(addr, j))
            != bus::laws::work_ram_offset(access::words_up(addr, k)),
{
    words_up_is_sum(addr, j);
    words_up_is_sum(addr, k);
    let a = access::words_up(addr, j);
    let c = access::words_up(addr, k);
    let last = (addr + 4 * n - 4) as u32;
    region_is_monotone(addr, a, last);
    region_is_monotone(addr, c, last);
    if j < k {
        near_offsets_differ(a, c);
    } else if k < j {
        near_offsets_differ(c, a);
    }
}

pub(crate) proof fn listed_below_is_monotone(rlist: u16, m: nat, n: nat)
    requires
        m <= n,
    ensures
        access::listed_below(rlist, m) <= access::listed_below(rlist, n),
        access::listed_below(rlist, n) <= n,
        m < n && listed(rlist, m as u8) ==> access::listed_below(rlist, m)
            < access::listed_below(rlist, n),
    decreases n,
{
    if m < n {
        listed_below_is_monotone(rlist, m, (n - 1) as nat);
    } else if n > 0 {
        listed_below_is_monotone(rlist, (n - 1) as nat, (n - 1) as nat);
    }
}

pub(crate) proof fn ram_write_keeps_wf(b: BusState, addr: u32, val: u32)
    requires
        b.wf(),
        in_work_ram(addr),
    ensures
        b.write32(addr, val).wf(),
{
    reveal(BusState::stored32);
    reveal(BusState::memory_written32);
    bus::aligned_bounds(addr);
    region_of_aligned(addr);
}

proof fn region_of_aligned(a: u32)
    ensures
        (a & !3u32) >> 24 == a >> 24,
{
    word_bits(a, 0, 0, 0);
}

/// After a block store to the stack, the word of each stored register reads
/// as its value.
pub(crate) proof fn stored_block_reads_back(
    b: BusState,
    vals: spec_fn(int) -> u32,
    rlist: u16,
    addr: u32,
    n: nat,
    size: nat,
)
    requires
        b.wf(),
        n <= 16,
        size <= 16,
        access::listed_below(rlist, n) <= size,
        stack_fits(addr, size),
    ensures
        access::block_stored(b, vals, rlist, addr, n).wf(),
        forall|m: int|
            0 <= m < n && listed(rlist, m as u8) ==> access::block_stored(
                b,
                vals,
                rlist,
                addr,
                n,
            ).read32(access::words_up(addr, #[trigger] access::listed_below(rlist, m as nat))).0
                == vals(m),
    decreases n,
{
    if n > 0 {
        let p = (n - 1) as nat;
        listed_below_is_monotone(rlist, p, n);
        stored_block_reads_back(b, vals, rlist, addr, p, size);
        let t = access::block_stored(b, vals, rlist, addr, p);
        if listed(rlist, p as u8) {
            let k = access::listed_below(rlist, p);
            let a = access::words_up(addr, k);
            stack_words_are_separate(addr, size, k, k);
            ram_write_keeps_wf(t, a, vals(p as int));
            bus::laws::word_reads_back(t, a, vals(p as int));
            assert forall|m: int| 0 <= m < n && listed(rlist, m as u8) implies access::block_stored(
                b,
                vals,
                rlist,
                addr,
                n,
            ).read32(access::words_up(addr, #[trigger] access::listed_below(rlist, m as nat))).0
                == vals(m) by {
                if m < p {
                    listed_below_is_monotone(rlist, m as nat, p);
                    let j = access::listed_below(rlist, m as nat);
                    stack_words_are_separate(addr, size, j, k);
                    bus::laws::word_writes_are_separate(
                        t,
                        a,
                        vals(p as int),
                        access::words_up(addr, j),
                    );
                }
            }
        }
    }
}

/// Reading work RAM gives the same in states with the same work RAM, and
/// changes none of it.
pub(crate) proof fn ram_reads_agree(b: BusState, t: BusState, addr: u32)
    requires
        in_work_ram(addr),
        b.ewram == t.ewram,
        b.iwram == t.iwram,
    ensures
        b.read32(addr).0 == t.read32(addr).0,
        b.read32(addr).1.ewram == b.ewram,
        b.read32(addr).1.iwram == b.iwram,
{
    reveal(BusState::lookup32);
    region_of_aligned(addr);
}

/// A block load from the stack gives each listed low register the word that
/// belongs to it, and leaves the other registers alone.
pub(crate) proof fn loaded_block_holds_words(c: Cpu, b: BusState, rlist: u16, addr: u32, n: nat, size: nat)
    requires
        n <= 16,
        size <= 16,
        access::listed_below(rlist, n) <= size,
        stack_fits(addr, size),
    ensures
        ({
            let put = |c: Cpu, i: int, val: u32| c.with_reg(i, val);
            let r = access::block_loaded(c, b, put, rlist, addr, n);
            &&& r.1.ewram == b.ewram
            &&& r.1.iwram == b.iwram
            &&& forall|i: int|
                0 <= i < 16 ==> #[trigger] r.0.regs[i] == (if i < n && listed(rlist, i as u8) {
                    b.read32(access::words_up(addr, access::listed_below(rlist, i as nat))).0
                } else {
                    c.regs[i]
                })
        }),
    decreases n,
{
    if n > 0 {
        let p = (n - 1) as nat;
        listed_below_is_monotone(rlist, p, n);
        loaded_block_holds_words(c, b, rlist, addr, p, size);
        let put = |c: Cpu, i: int, val: u32| c.with_reg(i, val);
        let t = access::block_loaded(c, b, put, rlist, addr, p);
        if listed(rlist, p as u8) {
            let k = access::listed_below(rlist, p);
            stack_words_are_separate(addr, size, k, k);
            ram_reads_agree(t.1, b, access::words_up(addr, k));
        }
    }
}

/// A PUSH of low registers followed by a POP of the same list, whatever the
/// low registers hold in between, restores them and the stack pointer.
pub proof fn push_then_pop(c: Cpu, b: BusState, push: u16, d: Cpu, pop: u16)
    requires
        b.wf(),
        !flag16(push, 8) && !flag16(pop, 8),
        push & 0xFF == pop & 0xFF,
        c.regs[13] >= 4 * access::listed_below(push & 0xFF, 8),
        stack_fits(
            (c.regs[13] - 4 * access::listed_below(push & 0xFF, 8)) as u32,
            access::listed_below(push & 0xFF, 8),
        ),
        d.regs[13] == c.pushed(b, push).0.regs[13],
    ensures
        ({
            let r = d.popped(c.pushed(b, push).1, pop).0;
            &&& r.regs[13] == c.regs[13]
            &&& forall|i: int|
                0 <= i < 8 ==> #[trigger] r.regs[i] == (if listed(push & 0xFF, i as u8) {
                    c.regs[i]
                } else {
                    d.regs[i]
                })
        }),
{
    reveal(Cpu::pushed);
    reveal(Cpu::popped);
    let rlist = push & 0xFF;
    let n = access::listed_below(rlist, 8);
    listed_below_is_monotone(rlist, 8, 8);
    let addr = (c.regs[13] - 4 * n) as u32;
    assert(c.regs[13].wrapping_sub((4 * n) as u32) == addr);
    let vals = |i: int| c.reg(i as u8);
    stored_block_reads_back(b, vals, rlist, addr, 8, n);
    let t = access::block_stored(b, vals, rlist, addr, 8);
    loaded_block_holds_words(d, t, rlist, addr, 8, n);
    words_up_is_sum(addr, n);
    let r = d.popped(c.pushed(b, push).1, pop).0;
    assert forall|i: int| 0 <= i < 8 implies #[trigger] r.regs[i] == (if listed(rlist, i as u8) {
        c.regs[i]
    } else {
        d.regs[i]
    }) by {
        low_index(i as u8);
        assert(access::listed_below(rlist, i as nat) >= 0);
    }
}

pub(crate) proof fn low_index(i: u8)
    ensures
        i < 16 ==> i & 0xF == i,
{
    word_bits(0, 0, 0, i);
}

} // verus!

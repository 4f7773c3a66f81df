//! CpuSet and CpuFastSet: memory copies and fills.

use vstd::prelude::*;

use crate::arm7tdmi::Cpu;
use crate::bits;
use crate::bus::{copies, store, Bus, BusState};
use crate::dma;

verus! {

broadcast use bits::group_and_bounds;

/// `addr` plus `k` times `size`, modulo 2^32.
pub open spec fn element(addr: u32, size: u32, k: int) -> u32 {
    addr.wrapping_add((k * size) as u32)
}

/// The bus after `n` words were set from `dst` up: to `fill` if it is given,
/// else to the words from `src` up.
pub open spec fn words_set(b: BusState, src: u32, dst: u32, fill: Option<u32>, n: nat) -> BusState
    decreases n,
{
    if n == 0 {
        b
    } else {
        let t = words_set(b, src, dst, fill, (n - 1) as nat);
        let r = match fill {
            Some(v) => (v, t),
            None => t.read32(element(src, 4, n - 1)),
        };
        r.1.write32(element(dst, 4, n - 1), r.0)
    }
}

/// The bus after `n` halfwords were set from `dst` up.
pub open spec fn halves_set(b: BusState, src: u32, dst: u32, fill: Option<u16>, n: nat) -> BusState
    decreases n,
{
    if n == 0 {
        b
    } else {
        let t = halves_set(b, src, dst, fill, (n - 1) as nat);
        let r = match fill {
            Some(v) => (v, t),
            None => t.read16(element(src, 2, n - 1)),
        };
        r.1.write16(element(dst, 2, n - 1), r.0)
    }
}

fn set_words(bus: &mut Bus, src: u32, dst: u32, fill: Option<u32>, n: u32)
    requires
        old(bus).wf(),
        n <= 0x20_0000,
    ensures
        final(bus).wf(),
        final(bus)@ == words_set(old(bus)@, src, dst, fill, n as nat),
{
    let ghost b0 = bus@;
    let mut i: u32 = 0;
    while i < n
        invariant
            i <= n <= 0x20_0000,
            bus.wf(),
            bus@ == words_set(b0, src, dst, fill, i as nat),
        decreases n - i,
    {
        let val: u32 = match fill {
            Some(v) => v,
            None => bus.read32(src.wrapping_add(i * 4)),
        };
        bus.write32(dst.wrapping_add(i * 4), val);
        i = i + 1;
    }
}

fn set_halves(bus: &mut Bus, src: u32, dst: u32, fill: Option<u16>, n: u32)
    requires
        old(bus).wf(),
        n <= 0x20_0000,
    ensures
        final(bus).wf(),
        final(bus)@ == halves_set(old(bus)@, src, dst, fill, n as nat),
{
    let ghost b0 = bus@;
    let mut i: u32 = 0;
    while i < n
        invariant
            i <= n <= 0x20_0000,
            bus.wf(),
            bus@ == halves_set(b0, src, dst, fill, i as nat),
        decreases n - i,
    {
        let val: u16 = match fill {
            Some(v) => v,
            None => bus.read16(src.wrapping_add(i * 2)),
        };
        bus.write16(dst.wrapping_add(i * 2), val);
        i = i + 1;
    }
}

/// The bus after `n` words were copied from `src` to `dst`, or filled with the
/// word at `src`.
pub open spec fn words_moved(b: BusState, src: u32, dst: u32, fixed: bool, n: nat) -> BusState {
    if fixed {
        words_set(b.read32(src).1, src, dst, Some(b.read32(src).0), n)
    } else {
        words_set(b, src, dst, None, n)
    }
}

pub open spec fn halves_moved(b: BusState, src: u32, dst: u32, fixed: bool, n: nat) -> BusState {
    if fixed {
        halves_set(b.read16(src).1, src, dst, Some(b.read16(src).0), n)
    } else {
        halves_set(b, src, dst, None, n)
    }
}

/// CpuSet: from R0 to R1, as many units as the low 21 bits of R2 say; bit 24
/// fills with the first unit, bit 26 moves words instead of halfwords.
pub open spec fn cpu_set(c: Cpu, b: BusState) -> BusState {
    let n = (c.regs[2] & 0x1F_FFFF) as nat;
    let fixed = c.regs[2] & (1u32 << 24) != 0;
    if c.regs[2] & (1u32 << 26) != 0 {
        words_moved(b, c.regs[0], c.regs[1], fixed, n)
    } else {
        halves_moved(b, c.regs[0], c.regs[1], fixed, n)
    }
}

pub fn swi_cpu_set(cpu: &Cpu, bus: &mut Bus)
    requires
        old(bus).wf(),
    ensures
        final(bus).wf(),
        final(bus)@ == cpu_set(*cpu, old(bus)@),
{
    let src: u32 = cpu.regs[0];
    let dst: u32 = cpu.regs[1];
    let ctrl: u32 = cpu.regs[2];
    let count: u32 = ctrl & 0x1F_FFFF;
    let fixed = ctrl & (1u32 << 24) != 0;
    if ctrl & (1u32 << 26) != 0 {
        let fill: Option<u32> = if fixed {
            Some(bus.read32(src))
        } else {
            None
        };
        set_words(bus, src, dst, fill, count);
    } else {
        let fill: Option<u16> = if fixed {
            Some(bus.read16(src))
        } else {
            None
        };
        set_halves(bus, src, dst, fill, count);
    }
}

/// CpuFastSet: words only, the count rounded up to a multiple of eight.
pub open spec fn cpu_fast_set(c: Cpu, b: BusState) -> BusState {
    let n = (((c.regs[2] & 0x1F_FFFF) + 7) / 8 * 8) as nat;
    words_moved(b, c.regs[0], c.regs[1], c.regs[2] & (1u32 << 24) != 0, n)
}

pub fn swi_cpu_fast_set(cpu: &Cpu, bus: &mut Bus)
    requires
        old(bus).wf(),
    ensures
        final(bus).wf(),
        final(bus)@ == cpu_fast_set(*cpu, old(bus)@),
{
    let src: u32 = cpu.regs[0];
    let ctrl: u32 = cpu.regs[2];
    let count: u32 = ((ctrl & 0x1F_FFFF) + 7) / 8 * 8;
    let fill: Option<u32> = if ctrl & (1u32 << 24) != 0 {
        Some(bus.read32(src))
    } else {
        None
    };
    set_words(bus, src, cpu.regs[1], fill, count);
}

proof fn elements_are_steps(addr: u32, k: nat)
    requires
        k < 0x4000_0000,
    ensures
        element(addr, 4, k as int) == dma::moved(addr, 4, k),
    decreases k,
{
    if k > 0 {
        elements_are_steps(addr, (k - 1) as nat);
    }
}

proof fn words_set_is_a_transfer(b: BusState, src: u32, dst: u32, n: nat)
    requires
        n <= 0x20_0000,
    ensures
        words_set(b, src, dst, None, n) == b.dma_copied(
            src,
            dst,
            4,
            4,
            true,
            n,
            store::transfers(store::DMA_NESTING as nat),
        ),
    decreases n,
{
    reveal(BusState::dma_copied);
    if n > 0 {
        words_set_is_a_transfer(b, src, dst, (n - 1) as nat);
        elements_are_steps(src, (n - 1) as nat);
        elements_are_steps(dst, (n - 1) as nat);
    }
}

/// Copying words into work RAM, by either call, leaves each source word at its
/// destination and changes no other word of work RAM.
pub proof fn words_are_copied(b: BusState, src: u32, dst: u32, n: nat)
    requires
        b.wf(),
        n <= 0x20_0000,
        copies::separate(src, dst, 4, 4, n),
    ensures
        forall|k: nat|
            k < n ==> (#[trigger] words_moved(b, src, dst, false, n).read32(
                dma::moved(dst, 4, k),
            )).0 == b.read32(dma::moved(src, 4, k)).0,
        forall|x: u32|
            copies::in_work_ram(x) && (forall|k: nat|
                k < n ==> copies::cell(#[trigger] dma::moved(dst, 4, k)) != copies::cell(x)) ==> (
            #[trigger] words_moved(b, src, dst, false, n).read32(x)).0 == b.read32(x).0,
{
    words_set_is_a_transfer(b, src, dst, n);
    copies::words_are_copied(
        b,
        src,
        dst,
        4,
        4,
        n,
        store::transfers(store::DMA_NESTING as nat),
    );
}

/// Filling words of work RAM, by either call, leaves the word at the source in
/// each of them and changes no other word of work RAM.
pub proof fn words_are_filled(b: BusState, src: u32, dst: u32, n: nat)
    requires
        b.wf(),
        n <= 0x20_0000,
        copies::separate(src, dst, 0, 4, n),
    ensures
        forall|k: nat|
            k < n ==> (#[trigger] words_moved(b, src, dst, true, n).read32(
                dma::moved(dst, 4, k),
            )).0 == b.read32(src).0,
        forall|x: u32|
            n > 0 && copies::in_work_ram(x) && (forall|k: nat|
                k < n ==> copies::cell(#[trigger] dma::moved(dst, 4, k)) != copies::cell(x)) ==> (
            #[trigger] words_moved(b, src, dst, true, n).read32(x)).0 == b.read32(x).0,
{
    if n > 0 {
        assert(copies::readable(dma::moved(src, 0, 0)));
        filled_so_far(b, src, dst, n, n);
    }
}

proof fn filled_so_far(b: BusState, src: u32, dst: u32, n: nat, all: nat)
    requires
        b.wf(),
        n <= all <= 0x20_0000,
        copies::readable(src),
        copies::separate(src, dst, 0, 4, all),
    ensures
        ({
            let v = b.read32(src).0;
            let t = words_set(b.read32(src).1, src, dst, Some(v), n);
            &&& t.wf()
            &&& forall|k: nat| k < n ==> (#[trigger] t.read32(dma::moved(dst, 4, k))).0 == v
            &&& forall|x: u32|
                copies::in_work_ram(x) && (forall|k: nat|
                    k < n ==> copies::cell(#[trigger] dma::moved(dst, 4, k)) != copies::cell(x))
                    ==> (#[trigger] t.read32(x)).0 == b.read32(x).0
        }),
    decreases n,
{
    let v = b.read32(src).0;
    let b1 = b.read32(src).1;
    if n == 0 {
        copies::reading_changes_nothing(b, src, src);
        assert forall|x: u32| copies::in_work_ram(x) implies (#[trigger] b1.read32(x)).0
            == b.read32(x).0 by {
            copies::reading_changes_nothing(b, src, x);
        }
    } else {
        let m = (n - 1) as nat;
        filled_so_far(b, src, dst, m, all);
        elements_are_steps(dst, m);
        let t = words_set(b1, src, dst, Some(v), m);
        let d = dma::moved(dst, 4, m);
        let end = t.write32(d, v);
        copies::word_stored(t, d, v, store::transfers(store::DMA_NESTING as nat));
        assert forall|k: nat| k < n implies (#[trigger] end.read32(dma::moved(dst, 4, k))).0
            == v by {
            if k < m {
                let x = dma::moved(dst, 4, k);
                assert(copies::in_work_ram(x) && copies::cell(x) != copies::cell(d));
                assert(t.read32(x).0 == v);
            }
        }
        assert forall|x: u32|
            copies::in_work_ram(x) && (forall|k: nat|
                k < n ==> copies::cell(#[trigger] dma::moved(dst, 4, k)) != copies::cell(
                    x,
                )) implies (#[trigger] end.read32(x)).0 == b.read32(x).0 by {
            assert(copies::cell(x) != copies::cell(d));
            assert(t.read32(x).0 == b.read32(x).0);
        }
    }
}

} // verus!

//! What transfers into work RAM leave there.

use vstd::prelude::*;

use crate::bits;
use crate::dma;

use super::laws;
use super::BusState;

verus! {

broadcast use bits::group_and_bounds;

/// Whether `addr` is in work RAM.
pub open spec fn in_work_ram(addr: u32) -> bool {
    addr >> 24 == 0x02 || addr >> 24 == 0x03
}

/// The word of work RAM that a word access to `addr` touches.
pub open spec fn cell(addr: u32) -> (u32, u32) {
    (addr >> 24, laws::work_ram_offset(addr))
}

/// Whether `addr` is in a memory or in the cartridge below its topmost region,
/// where reading changes nothing.
pub open spec fn readable(addr: u32) -> bool {
    let region = addr >> 24;
    laws::holds_words(addr) || 0x08 <= region <= 0x0C
}

/// Whether `n` words can be moved from `src` to `dst` one after the other: from
/// readable addresses to different words of work RAM, none of which is read.
pub open spec fn separate(src: u32, dst: u32, src_step: i32, dst_step: i32, n: nat) -> bool {
    &&& forall|k: nat| k < n ==> readable(#[trigger] dma::moved(src, src_step, k))
    &&& forall|k: nat| k < n ==> in_work_ram(#[trigger] dma::moved(dst, dst_step, k))
    &&& forall|j: nat, k: nat|
        j < n && k < n ==> cell(#[trigger] dma::moved(src, src_step, j)) != cell(
            #[trigger] dma::moved(dst, dst_step, k),
        )
    &&& forall|j: nat, k: nat|
        j < k < n ==> cell(#[trigger] dma::moved(dst, dst_step, j)) != cell(
            #[trigger] dma::moved(dst, dst_step, k),
        )
}

/// Whether `t` is `b` but for work RAM and the last value read.
pub(crate) closed spec fn alike(b: BusState, t: BusState) -> bool {
    t == (BusState { ewram: t.ewram, iwram: t.iwram, last_read: t.last_read, ..b })
}

pub(crate) proof fn word_stored(
    b: BusState,
    addr: u32,
    val: u32,
    start: spec_fn(BusState, usize) -> BusState,
)
    requires
        b.wf(),
        in_work_ram(addr),
    ensures
        b.stored32(addr, val, start).wf(),
        alike(b, b.stored32(addr, val, start)),
        b.stored32(addr, val, start).read32(addr).0 == val,
        forall|x: u32|
            in_work_ram(x) && cell(x) != cell(addr) ==> (#[trigger] b.stored32(
                addr,
                val,
                start,
            ).read32(x)).0 == b.read32(x).0,
{
    let t = b.stored32(addr, val, start);
    laws::aligned_facts(addr);
    assert(t == b.write32(addr, val)) by {
        reveal(BusState::stored32);
    }
    assert(alike(b, t)) by {
        reveal(BusState::stored32);
        reveal(BusState::memory_written32);
    }
    assert(t.wf()) by {
        super::aligned_bounds(addr);
        reveal(BusState::stored32);
        reveal(BusState::memory_written32);
    }
    laws::word_reads_back(b, addr, val);
    assert forall|x: u32| in_work_ram(x) && cell(x) != cell(addr) implies (#[trigger] t.read32(x)).0
        == b.read32(x).0 by {
        laws::word_writes_are_separate(b, addr, val, x);
    }
}

pub(crate) proof fn reading_changes_nothing(b: BusState, a: u32, x: u32)
    requires
        b.wf(),
        readable(a),
        readable(x),
    ensures
        b.read32(a).1.wf(),
        alike(b, b.read32(a).1),
        b.read32(a).1.read32(x).0 == b.read32(x).0,
{
    reveal(BusState::lookup32);
    laws::aligned_facts(a);
    laws::aligned_facts(x);
    next_half(a);
    next_half(x);
}

pub(crate) proof fn next_half(a: u32)
    by (bit_vector)
    ensures
        (((a & !3u32) + 2) as u32) >> 24 == a >> 24,
{
}

proof fn alike_elsewhere(b: BusState, t: BusState, x: u32)
    requires
        alike(b, t),
        readable(x),
        !in_work_ram(x),
    ensures
        t.read32(x).0 == b.read32(x).0,
{
    reveal(BusState::lookup32);
    laws::aligned_facts(x);
    next_half(x);
}

/// A transfer of words into work RAM leaves each source word at its
/// destination and changes no other word there, whatever its direction.
pub proof fn words_are_copied(
    b: BusState,
    src: u32,
    dst: u32,
    src_step: i32,
    dst_step: i32,
    n: nat,
    start: spec_fn(BusState, usize) -> BusState,
)
    requires
        b.wf(),
        separate(src, dst, src_step, dst_step, n),
    ensures
        b.dma_copied(src, dst, src_step, dst_step, true, n, start).wf(),
        forall|k: nat|
            k < n ==> (#[trigger] b.dma_copied(src, dst, src_step, dst_step, true, n, start).read32(
                dma::moved(dst, dst_step, k),
            )).0 == b.read32(dma::moved(src, src_step, k)).0,
        forall|x: u32|
            in_work_ram(x) && (forall|k: nat|
                k < n ==> cell(#[trigger] dma::moved(dst, dst_step, k)) != cell(x)) ==> (
            #[trigger] b.dma_copied(src, dst, src_step, dst_step, true, n, start).read32(x)).0
                == b.read32(x).0,
{
    copied_so_far(b, src, dst, src_step, dst_step, n, start);
}

proof fn copied_so_far(
    b: BusState,
    src: u32,
    dst: u32,
    src_step: i32,
    dst_step: i32,
    n: nat,
    start: spec_fn(BusState, usize) -> BusState,
)
    requires
        b.wf(),
        separate(src, dst, src_step, dst_step, n),
    ensures
        ({
            let t = b.dma_copied(src, dst, src_step, dst_step, true, n, start);
            &&& t.wf()
            &&& alike(b, t)
            &&& forall|k: nat|
                k < n ==> (#[trigger] t.read32(dma::moved(dst, dst_step, k))).0 == b.read32(
                    dma::moved(src, src_step, k),
                ).0
            &&& forall|x: u32|
                in_work_ram(x) && (forall|k: nat|
                    k < n ==> cell(#[trigger] dma::moved(dst, dst_step, k)) != cell(x)) ==> (
                #[trigger] t.read32(x)).0 == b.read32(x).0
        }),
    decreases n,
{
    reveal(BusState::dma_copied);
    if n > 0 {
        let m = (n - 1) as nat;
        copied_so_far(b, src, dst, src_step, dst_step, m, start);
        let t = b.dma_copied(src, dst, src_step, dst_step, true, m, start);
        let a = dma::moved(src, src_step, m);
        let d = dma::moved(dst, dst_step, m);
        assert(readable(a) && in_work_ram(d));
        let r = t.read32(a);
        assert(r.0 == b.read32(a).0) by {
            if !in_work_ram(a) {
                alike_elsewhere(b, t, a);
            }
        }
        reading_changes_nothing(t, a, a);
        word_stored(r.1, d, r.0, start);
        let end = r.1.stored32(d, r.0, start);
        assert forall|k: nat| k < n implies (#[trigger] end.read32(dma::moved(dst, dst_step, k))).0
            == b.read32(dma::moved(src, src_step, k)).0 by {
            if k < m {
                let x = dma::moved(dst, dst_step, k);
                assert(in_work_ram(x) && cell(x) != cell(d));
                reading_changes_nothing(t, a, x);
                assert(t.read32(x).0 == b.read32(dma::moved(src, src_step, k)).0);
            }
        }
        assert forall|x: u32|
            in_work_ram(x) && (forall|k: nat|
                k < n ==> cell(#[trigger] dma::moved(dst, dst_step, k)) != cell(x)) implies (
        #[trigger] end.read32(x)).0 == b.read32(x).0 by {
            assert(cell(x) != cell(d));
            reading_changes_nothing(t, a, x);
            assert(t.read32(x).0 == b.read32(x).0);
        }
    }
}

proof fn channels_do_not_show(b: BusState, id: usize, c: dma::DmaChannel, x: u32)
    requires
        readable(x),
    ensures
        b.wf() ==> b.with_dma(id, c).wf(),
        b.with_dma(id, c).read32(x).0 == b.read32(x).0,
{
    reveal(BusState::with_dma);
    reveal(BusState::lookup32);
    laws::aligned_facts(x);
    next_half(x);
}

proof fn sizing_does_not_show(b: BusState, dst: u32, count: u32, x: u32)
    requires
        in_work_ram(x),
    ensures
        b.eeprom_sized(dst, count).read32(x).0 == b.read32(x).0,
{
    reveal(BusState::eeprom_sized);
    reveal(BusState::lookup32);
    laws::aligned_facts(x);
}

/// A channel that moves words into work RAM leaves each of them there, and
/// every other word as it was.
pub proof fn channels_copy_words(
    b: BusState,
    id: usize,
    start: spec_fn(BusState, usize) -> BusState,
)
    requires
        b.wf(),
        id < 4,
        ({
            let c = b.dma.channels[id as int];
            &&& c.enabled() && c.active && c.word_size_32() && !c.feeds_fifo(id)
            &&& separate(
                c.internal_sad,
                c.internal_dad,
                c.src_control().step(4),
                c.dest_control().step(4),
                c.internal_count as nat,
            )
        }),
    ensures
        ({
            let c = b.dma.channels[id as int];
            let t = b.dma_run(id, start).1;
            &&& forall|k: nat|
                k < c.internal_count ==> (#[trigger] t.read32(
                    dma::moved(c.internal_dad, c.dest_control().step(4), k),
                )).0 == b.read32(dma::moved(c.internal_sad, c.src_control().step(4), k)).0
            &&& forall|x: u32|
                in_work_ram(x) && (forall|k: nat|
                    k < c.internal_count ==> cell(
                        #[trigger] dma::moved(c.internal_dad, c.dest_control().step(4), k),
                    ) != cell(x)) ==> (#[trigger] t.read32(x)).0 == b.read32(x).0
        }),
{
    let c = b.dma.channels[id as int];
    let n = c.internal_count as nat;
    let src_step = c.src_control().step(4);
    let dst_step = c.dest_control().step(4);
    let counted = dma::DmaChannel { run_count: c.run_count.wrapping_add(1), ..c };
    let b1 = b.with_dma(id, counted);
    if n > 0 {
        assert(in_work_ram(dma::moved(c.internal_dad, dst_step, 0)));
    }
    let b2 = b1.eeprom_sized(c.internal_dad, c.internal_count);
    assert(b1.wf()) by {
        reveal(BusState::with_dma);
    }
    if n > 0 {
        assert(b2 == b1) by {
            reveal(BusState::eeprom_sized);
        }
    }
    let t = b2.dma_copied(c.internal_sad, c.internal_dad, src_step, dst_step, true, n, start);
    let end = b.dma_run(id, start).1;
    let fin = dma::DmaChannel {
        internal_sad: dma::moved(c.internal_sad, src_step, n),
        internal_dad: dma::moved(c.internal_dad, dst_step, n),
        ..t.dma.channels[id as int]
    };
    let last = if c.repeats() {
        fin.reloaded(id)
    } else {
        dma::DmaChannel { control: fin.control & !(1u16 << 15), active: false, ..fin }
    };
    assert(end == t.with_dma(id, last)) by {
        reveal(BusState::dma_run);
        reveal(BusState::dma_finished);
    }
    if n > 0 {
        copied_so_far(b1, c.internal_sad, c.internal_dad, src_step, dst_step, n, start);
        assert forall|k: nat| k < n implies (#[trigger] end.read32(
            dma::moved(c.internal_dad, dst_step, k),
        )).0 == b.read32(dma::moved(c.internal_sad, src_step, k)).0 by {
            let x = dma::moved(c.internal_dad, dst_step, k);
            let s = dma::moved(c.internal_sad, src_step, k);
            channels_do_not_show(t, id, last, x);
            channels_do_not_show(b, id, counted, s);
            assert(t.read32(x).0 == b1.read32(s).0);
        }
        assert forall|x: u32|
            in_work_ram(x) && (forall|k: nat|
                k < n ==> cell(#[trigger] dma::moved(c.internal_dad, dst_step, k)) != cell(
                    x,
                )) implies (#[trigger] end.read32(x)).0 == b.read32(x).0 by {
            channels_do_not_show(t, id, last, x);
            channels_do_not_show(b, id, counted, x);
            assert(t.read32(x).0 == b1.read32(x).0);
        }
    } else {
        assert forall|x: u32| in_work_ram(x) implies (#[trigger] end.read32(x)).0 == b.read32(
            x,
        ).0 by {
            channels_do_not_show(t, id, last, x);
            channels_do_not_show(b, id, counted, x);
            assert(t == b2) by {
                reveal(BusState::dma_copied);
            }
            sizing_does_not_show(b1, c.internal_dad, c.internal_count, x);
        }
    }
}

} // verus!

//! The four DMA channels.

use vstd::prelude::*;

use crate::bits;

verus! {

broadcast use bits::group_and_bounds;

/// When a channel transfers.
#[derive(Debug, Clone, Copy, PartialEq, Eq, Structural)]
pub enum DmaTiming {
    Immediate,
    VBlank,
    HBlank,
    /// Sound FIFO on channels 1 and 2, video capture on channel 3.
    Special,
}

/// How an address moves from one unit to the next.
#[derive(Debug, Clone, Copy, PartialEq, Eq, Structural)]
pub enum AddrControl {
    Increment,
    Decrement,
    Fixed,
    /// Increments, and starts over on each repeat. Destinations only.
    IncrementReload,
}

impl AddrControl {
    /// The distance from one unit of `word_size` bytes to the next.
    #[verifier::allow_in_spec]
    pub fn step(self, word_size: i32) -> i32
        requires
            0 <= word_size <= 4,
        returns
            (match self {
                AddrControl::Increment => word_size,
                AddrControl::IncrementReload => word_size,
                AddrControl::Decrement => (-word_size) as i32,
                AddrControl::Fixed => 0i32,
            }),
    {
        match self {
            AddrControl::Increment | AddrControl::IncrementReload => word_size,
            AddrControl::Decrement => -word_size,
            AddrControl::Fixed => 0,
        }
    }
}

/// One DMA channel: the registers as written, and the working copies that are
/// latched when the channel is enabled.
#[derive(Debug, Clone, Copy, PartialEq, Eq, Structural)]
pub struct DmaChannel {
    pub sad: u32,
    pub dad: u32,
    pub count: u16,
    pub control: u16,
    pub internal_sad: u32,
    pub internal_dad: u32,
    pub internal_count: u32,
    /// Enabled and waiting for its timing.
    pub active: bool,
    /// How often the channel ran.
    pub run_count: u64,
    /// The time of the last latch.
    pub last_latch_cycle: u64,
}

/// The part of an address that channel `id` can reach.
#[verifier::allow_in_spec]
pub fn reachable(channel_id: usize, addr: u32) -> u32
    returns
        (if channel_id <= 2 {
            addr & 0x07FF_FFFF
        } else if channel_id == 3 {
            addr & 0x0FFF_FFFF
        } else {
            addr
        }),
{
    match channel_id {
        0..=2 => addr & 0x07FF_FFFF,
        3 => addr & 0x0FFF_FFFF,
        _ => addr,
    }
}

/// How many units a count register stands for. Channels 0 to 2 have 14 bits
/// of count and channel 3 has 16; zero is the maximum.
#[verifier::allow_in_spec]
pub fn unit_count(channel_id: usize, count: u16) -> u32
    returns
        (if channel_id <= 2 {
            if count & 0x3FFF == 0 {
                0x4000u32
            } else {
                (count & 0x3FFF) as u32
            }
        } else if count == 0 {
            0x10000u32
        } else {
            count as u32
        }),
{
    match channel_id {
        0..=2 => {
            if count & 0x3FFF == 0 {
                0x4000
            } else {
                (count & 0x3FFF) as u32
            }
        },
        _ => {
            if count == 0 {
                0x10000
            } else {
                count as u32
            }
        },
    }
}

impl DmaChannel {
    pub open spec fn idle() -> DmaChannel {
        DmaChannel {
            sad: 0,
            dad: 0,
            count: 0,
            control: 0,
            internal_sad: 0,
            internal_dad: 0,
            internal_count: 0,
            active: false,
            run_count: 0,
            last_latch_cycle: 0,
        }
    }

    pub fn new() -> (c: DmaChannel)
        ensures
            c == DmaChannel::idle(),
    {
        DmaChannel {
            sad: 0,
            dad: 0,
            count: 0,
            control: 0,
            internal_sad: 0,
            internal_dad: 0,
            internal_count: 0,
            active: false,
            run_count: 0,
            last_latch_cycle: 0,
        }
    }

    #[verifier::allow_in_spec]
    pub fn enabled(&self) -> bool
        returns
            self.control & (1u16 << 15) != 0,
    {
        self.control & (1u16 << 15) != 0
    }

    #[verifier::allow_in_spec]
    pub fn timing(&self) -> DmaTiming
        returns
            (if (self.control >> 12) & 3 == 0 {
                DmaTiming::Immediate
            } else if (self.control >> 12) & 3 == 1 {
                DmaTiming::VBlank
            } else if (self.control >> 12) & 3 == 2 {
                DmaTiming::HBlank
            } else {
                DmaTiming::Special
            }),
    {
        match (self.control >> 12) & 3 {
            0 => DmaTiming::Immediate,
            1 => DmaTiming::VBlank,
            2 => DmaTiming::HBlank,
            _ => DmaTiming::Special,
        }
    }

    /// Whether the channel moves words; otherwise halfwords.
    #[verifier::allow_in_spec]
    pub fn word_size_32(&self) -> bool
        returns
            self.control & (1u16 << 10) != 0,
    {
        self.control & (1u16 << 10) != 0
    }

    #[verifier::allow_in_spec]
    pub fn repeat(&self) -> bool
        returns
            self.control & (1u16 << 9) != 0,
    {
        self.control & (1u16 << 9) != 0
    }

    #[verifier::allow_in_spec]
    pub fn irq_enabled(&self) -> bool
        returns
            self.control & (1u16 << 14) != 0,
    {
        self.control & (1u16 << 14) != 0
    }

    #[verifier::allow_in_spec]
    pub fn dest_control(&self) -> AddrControl
        returns
            (if (self.control >> 5) & 3 == 0 {
                AddrControl::Increment
            } else if (self.control >> 5) & 3 == 1 {
                AddrControl::Decrement
            } else if (self.control >> 5) & 3 == 2 {
                AddrControl::Fixed
            } else {
                AddrControl::IncrementReload
            }),
    {
        match (self.control >> 5) & 3 {
            0 => AddrControl::Increment,
            1 => AddrControl::Decrement,
            2 => AddrControl::Fixed,
            _ => AddrControl::IncrementReload,
        }
    }

    /// The prohibited source setting counts as increment.
    #[verifier::allow_in_spec]
    pub fn src_control(&self) -> AddrControl
        returns
            (if (self.control >> 7) & 3 == 1 {
                AddrControl::Decrement
            } else if (self.control >> 7) & 3 == 2 {
                AddrControl::Fixed
            } else {
                AddrControl::Increment
            }),
    {
        match (self.control >> 7) & 3 {
            0 => AddrControl::Increment,
            1 => AddrControl::Decrement,
            2 => AddrControl::Fixed,
            _ => AddrControl::Increment,
        }
    }

    /// Bytes per unit.
    #[verifier::allow_in_spec]
    pub fn word_size(&self) -> i32
        returns
            (if self.word_size_32() { 4i32 } else { 2i32 }),
    {
        if self.word_size_32() {
            4
        } else {
            2
        }
    }

    /// Whether the channel feeds a sound FIFO.
    #[verifier::allow_in_spec]
    pub fn feeds_fifo(&self, channel_id: usize) -> bool
        returns
            (channel_id == 1 || channel_id == 2) && self.timing() == DmaTiming::Special,
    {
        (channel_id == 1 || channel_id == 2) && self.timing() == DmaTiming::Special
    }

    /// Whether the channel stays enabled after a transfer.
    #[verifier::allow_in_spec]
    pub fn repeats(&self) -> bool
        returns
            self.repeat() && self.timing() != DmaTiming::Immediate,
    {
        self.repeat() && self.timing() != DmaTiming::Immediate
    }

    pub open spec fn latched(self, channel_id: usize) -> DmaChannel {
        DmaChannel {
            internal_sad: reachable(channel_id, self.sad),
            internal_dad: reachable(channel_id, self.dad),
            internal_count: unit_count(channel_id, self.count),
            ..self
        }
    }

    /// Copies the written registers to the working ones.
    pub fn latch(&mut self, channel_id: usize)
        ensures
            *final(self) == old(self).latched(channel_id),
    {
        self.internal_sad = reachable(channel_id, self.sad);
        self.internal_dad = reachable(channel_id, self.dad);
        self.internal_count = unit_count(channel_id, self.count);
    }

    pub open spec fn reloaded(self, channel_id: usize) -> DmaChannel {
        DmaChannel {
            internal_dad: if self.dest_control() is IncrementReload {
                reachable(channel_id, self.dad)
            } else {
                self.internal_dad
            },
            internal_count: unit_count(channel_id, self.count),
            ..self
        }
    }

    /// Prepares the next repetition: the count starts over, and so does the
    /// destination if it is set to reload.
    pub fn reload_for_repeat(&mut self, channel_id: usize)
        ensures
            *final(self) == old(self).reloaded(channel_id),
    {
        if let AddrControl::IncrementReload = self.dest_control() {
            self.internal_dad = reachable(channel_id, self.dad);
        }
        self.internal_count = unit_count(channel_id, self.count);
    }

    /// The channel after a transfer that moved its addresses to `src` and
    /// `dst`.
    pub open spec fn finished(self, channel_id: usize, src: u32, dst: u32) -> DmaChannel {
        let c = DmaChannel { internal_sad: src, internal_dad: dst, ..self };
        if self.repeats() {
            c.reloaded(channel_id)
        } else {
            DmaChannel { control: c.control & !(1u16 << 15), active: false, ..c }
        }
    }
}

/// The four channels.
#[derive(Debug, Clone, Copy)]
#[verifier::ext_equal]
pub struct DmaController {
    pub channels: [DmaChannel; 4],
}

impl DmaController {
    pub open spec fn all_idle() -> DmaController {
        DmaController {
            channels: [DmaChannel::idle(), DmaChannel::idle(), DmaChannel::idle(), DmaChannel::idle()],
        }
    }

    pub fn new() -> (d: DmaController)
        ensures
            d == DmaController::all_idle(),
    {
        DmaController {
            channels: [DmaChannel::new(), DmaChannel::new(), DmaChannel::new(), DmaChannel::new()],
        }
    }

    pub open spec fn with_channel(self, id: int, c: DmaChannel) -> DmaController {
        DmaController { channels: bits::upd(self.channels, id, c) }
    }

    pub open spec fn control_written(self, id: usize, value: u16, now: u64) -> DmaController {
        let before = self.channels[id as int];
        let c = DmaChannel { control: value, ..before };
        self.with_channel(
            id as int,
            if !before.enabled() && c.enabled() {
                DmaChannel { active: true, last_latch_cycle: now, ..c.latched(id) }
            } else if !c.enabled() {
                DmaChannel { active: false, ..c }
            } else {
                c
            },
        )
    }

    /// Whether writing `value` to the control register starts a transfer at
    /// once.
    pub open spec fn starts(self, id: usize, value: u16) -> bool {
        let before = self.channels[id as int];
        let c = DmaChannel { control: value, ..before };
        !before.enabled() && c.enabled() && c.timing() is Immediate
    }

    /// Writes the control register of a channel at time `now`. Enabling a
    /// disabled channel latches its registers; disabling it deactivates it.
    /// Returns the channel if it is to transfer at once.
    pub fn write_control(&mut self, channel_id: usize, value: u16, now: u64) -> (start: Option<
        usize,
    >)
        requires
            channel_id < 4,
        ensures
            *final(self) == old(self).control_written(channel_id, value, now),
            start == (if old(self).starts(channel_id, value) {
                Some(channel_id)
            } else {
                None
            }),
    {
        let old_enabled = self.channels[channel_id].enabled();
        self.channels[channel_id].control = value;
        let new_enabled = self.channels[channel_id].enabled();
        if !old_enabled && new_enabled {
            self.channels[channel_id].latch(channel_id);
            self.channels[channel_id].active = true;
            self.channels[channel_id].last_latch_cycle = now;
            if self.channels[channel_id].timing() == DmaTiming::Immediate {
                return Some(channel_id);
            }
        } else if !new_enabled {
            self.channels[channel_id].active = false;
        }
        None
    }

    /// Whether channel `i` is waiting for `timing`.
    pub open spec fn waits_for(self, i: int, timing: DmaTiming) -> bool {
        &&& self.channels[i].enabled()
        &&& self.channels[i].active
        &&& self.channels[i].timing() == timing
    }

    /// The channels below `n` that wait for `timing`, lowest first.
    pub open spec fn waiting(self, timing: DmaTiming, n: nat) -> Seq<usize>
        decreases n,
    {
        if n == 0 {
            Seq::empty()
        } else {
            let s = self.waiting(timing, (n - 1) as nat);
            if self.waits_for(n - 1, timing) {
                s.push((n - 1) as usize)
            } else {
                s
            }
        }
    }

    /// The channels that wait for `timing`, in priority order.
    pub fn channels_for_timing(&self, timing: DmaTiming) -> (result: Vec<usize>)
        ensures
            result@ == self.waiting(timing, 4),
    {
        let mut result: Vec<usize> = Vec::new();
        let mut i: usize = 0;
        while i < 4
            invariant
                i <= 4,
                result@ == self.waiting(timing, i as nat),
            decreases 4 - i,
        {
            if self.channels[i].enabled() && self.channels[i].active && self.channels[i].timing()
                == timing {
                result.push(i);
            }
            i = i + 1;
        }
        result
    }
}

/// Exactly the waiting channels are listed, each once, lowest first.
pub proof fn waiting_is_priority_order(d: DmaController, timing: DmaTiming, n: nat)
    requires
        n <= 4,
    ensures
        forall|i: int|
            #![trigger d.waits_for(i, timing)]
            0 <= i < n ==> (d.waits_for(i, timing) <==> d.waiting(timing, n).contains(i as usize)),
        forall|k: int|
            0 <= k < d.waiting(timing, n).len() ==> (#[trigger] d.waiting(timing, n)[k]) < n,
        forall|j: int, k: int|
            0 <= j < k < d.waiting(timing, n).len() ==> d.waiting(timing, n)[j] < d.waiting(
                timing,
                n,
            )[k],
    decreases n,
{
    if n > 0 {
        let m = (n - 1) as nat;
        waiting_is_priority_order(d, timing, m);
        let s = d.waiting(timing, m);
        let t = d.waiting(timing, n);
        assert forall|i: int| #![trigger d.waits_for(i, timing)] 0 <= i < n implies (d.waits_for(
            i,
            timing,
        ) <==> t.contains(i as usize)) by {
            if d.waits_for(n - 1, timing) {
                assert(t[s.len() as int] == n - 1);
                if i < m && s.contains(i as usize) {
                    let k = s.index_of(i as usize);
                    assert(t[k] == i);
                }
                if i < m && t.contains(i as usize) {
                    let k = t.index_of(i as usize);
                    assert(s[k] == i);
                }
            } else if i == m && t.contains(i as usize) {
                let k = t.index_of(i as usize);
                assert(s[k] < m);
            }
        }
    }
}

/// What one transfer amounted to.
#[derive(Debug, Clone, Copy, PartialEq, Eq, Structural)]
pub struct DmaTransferResult {
    pub cycles: u32,
    pub irq: bool,
    pub channel_disabled: bool,
}

/// Memory as a transfer sees it: reads and writes of halfwords and words, each
/// a function of the memory's state.
pub trait DmaMemory {
    type State;

    spec fn state(&self) -> Self::State;

    /// Whether the memory can be accessed.
    spec fn ready(&self) -> bool;

    spec fn reads16(s: Self::State, addr: u32) -> (u16, Self::State);

    spec fn reads32(s: Self::State, addr: u32) -> (u32, Self::State);

    spec fn writes16(s: Self::State, addr: u32, val: u16) -> Self::State;

    spec fn writes32(s: Self::State, addr: u32, val: u32) -> Self::State;

    fn dma_read16(&mut self, addr: u32) -> (val: u16)
        requires
            old(self).ready(),
        ensures
            final(self).ready(),
            (val, final(self).state()) == Self::reads16(old(self).state(), addr),
    ;

    fn dma_read32(&mut self, addr: u32) -> (val: u32)
        requires
            old(self).ready(),
        ensures
            final(self).ready(),
            (val, final(self).state()) == Self::reads32(old(self).state(), addr),
    ;

    fn dma_write16(&mut self, addr: u32, val: u16)
        requires
            old(self).ready(),
        ensures
            final(self).ready(),
            final(self).state() == Self::writes16(old(self).state(), addr, val),
    ;

    fn dma_write32(&mut self, addr: u32, val: u32)
        requires
            old(self).ready(),
        ensures
            final(self).ready(),
            final(self).state() == Self::writes32(old(self).state(), addr, val),
    ;
}

/// `addr` moved by `step` bytes `n` times, modulo 2^32.
pub open spec fn moved(addr: u32, step: i32, n: nat) -> u32
    decreases n,
{
    if n == 0 {
        addr
    } else {
        moved(addr, step, (n - 1) as nat).wrapping_add_signed(step)
    }
}

/// Memory after `n` units of a transfer from `src` to `dst`. Units are aligned
/// to their size.
pub open spec fn copied<M: DmaMemory>(
    s: M::State,
    src: u32,
    dst: u32,
    src_step: i32,
    dst_step: i32,
    word32: bool,
    n: nat,
) -> M::State
    decreases n,
{
    if n == 0 {
        s
    } else {
        let m = (n - 1) as nat;
        let t = copied::<M>(s, src, dst, src_step, dst_step, word32, m);
        let a = moved(src, src_step, m);
        let b = moved(dst, dst_step, m);
        if word32 {
            let r = M::reads32(t, a & !3u32);
            M::writes32(r.1, b & !3u32, r.0)
        } else {
            let r = M::reads16(t, a & !1u32);
            M::writes16(r.1, b & !1u32, r.0)
        }
    }
}

/// Memory after `n` words from `src` went to the FIFO at `dst`.
pub open spec fn fed<M: DmaMemory>(s: M::State, src: u32, dst: u32, n: nat) -> M::State
    decreases n,
{
    if n == 0 {
        s
    } else {
        let m = (n - 1) as nat;
        let r = M::reads32(fed::<M>(s, src, dst, m), moved(src, 4, m));
        M::writes32(r.1, dst, r.0)
    }
}

/// Runs one transfer of `channel` through `memory`. A sound channel moves four
/// words to its FIFO and stays enabled. Any other channel moves its count; it
/// is then rearmed if it repeats, else disabled.
pub fn execute_dma_transfer<M: DmaMemory>(
    channel: &mut DmaChannel,
    channel_id: usize,
    memory: &mut M,
) -> (result: DmaTransferResult)
    requires
        old(memory).ready(),
    ensures
        final(memory).ready(),
        ({
            let c = *old(channel);
            let size = c.word_size();
            if c.feeds_fifo(channel_id) {
                &&& final(memory).state() == fed::<M>(
                    old(memory).state(),
                    c.internal_sad,
                    c.internal_dad,
                    4,
                )
                &&& *final(channel) == (DmaChannel {
                    internal_sad: moved(c.internal_sad, 4, 4),
                    ..c
                })
                &&& result == (DmaTransferResult {
                    cycles: 4,
                    irq: c.irq_enabled(),
                    channel_disabled: false,
                })
            } else {
                let n = c.internal_count as nat;
                let src_step = c.src_control().step(size);
                let dst_step = c.dest_control().step(size);
                &&& final(memory).state() == copied::<M>(
                    old(memory).state(),
                    c.internal_sad,
                    c.internal_dad,
                    src_step,
                    dst_step,
                    c.word_size_32(),
                    n,
                )
                &&& *final(channel) == c.finished(
                    channel_id,
                    moved(c.internal_sad, src_step, n),
                    moved(c.internal_dad, dst_step, n),
                )
                &&& result == (DmaTransferResult {
                    cycles: c.internal_count,
                    irq: c.irq_enabled(),
                    channel_disabled: !c.repeats(),
                })
            }
        }),
{
    let word32 = channel.word_size_32();
    let size: i32 = channel.word_size();
    let count: u32 = channel.internal_count;
    let src_step: i32 = channel.src_control().step(size);
    let dst_step: i32 = channel.dest_control().step(size);
    let irq = channel.irq_enabled();
    let mut src: u32 = channel.internal_sad;
    let mut dst: u32 = channel.internal_dad;
    let ghost c = *channel;
    let ghost s = memory.state();
    if channel.feeds_fifo(channel_id) {
        let mut i: u32 = 0;
        while i < 4
            invariant
                i <= 4,
                memory.ready(),
                src == moved(c.internal_sad, 4, i as nat),
                dst == c.internal_dad,
                memory.state() == fed::<M>(s, c.internal_sad, c.internal_dad, i as nat),
            decreases 4 - i,
        {
            let val: u32 = memory.dma_read32(src);
            memory.dma_write32(dst, val);
            src = src.wrapping_add_signed(4);
            i = i + 1;
        }
        channel.internal_sad = src;
        return DmaTransferResult { cycles: 4, irq, channel_disabled: false };
    }
    let mut i: u32 = 0;
    while i < count
        invariant
            i <= count,
            memory.ready(),
            src == moved(c.internal_sad, src_step, i as nat),
            dst == moved(c.internal_dad, dst_step, i as nat),
            memory.state() == copied::<M>(
                s,
                c.internal_sad,
                c.internal_dad,
                src_step,
                dst_step,
                word32,
                i as nat,
            ),
        decreases count - i,
    {
        if word32 {
            let val: u32 = memory.dma_read32(src & !3u32);
            memory.dma_write32(dst & !3u32, val);
        } else {
            let val: u16 = memory.dma_read16(src & !1u32);
            memory.dma_write16(dst & !1u32, val);
        }
        src = src.wrapping_add_signed(src_step);
        dst = dst.wrapping_add_signed(dst_step);
        i = i + 1;
    }
    let repeats = channel.repeats();
    channel.internal_sad = src;
    channel.internal_dad = dst;
    if repeats {
        channel.reload_for_repeat(channel_id);
    } else {
        channel.control = channel.control & !(1u16 << 15);
        channel.active = false;
    }
    DmaTransferResult { cycles: count, irq, channel_disabled: !repeats }
}

/// The fields of a control register, by division: the motion of destination
/// and source, repeat, size, timing, interrupt and enable.
pub proof fn control_settings(c: DmaChannel)
    ensures
        ({
            let v = c.control;
            &&& c.enabled() == (v / 0x8000 == 1)
            &&& c.irq_enabled() == (v / 0x4000 % 2 == 1)
            &&& c.word_size() == (if v / 0x400 % 2 == 1 {
                4int
            } else {
                2int
            })
            &&& c.repeats() == (v / 0x200 % 2 == 1 && v / 0x1000 % 4 != 0)
            &&& v / 0x1000 % 4 == 0 <==> c.timing() is Immediate
            &&& v / 0x1000 % 4 == 1 <==> c.timing() is VBlank
            &&& v / 0x1000 % 4 == 2 <==> c.timing() is HBlank
            &&& v / 0x1000 % 4 == 3 <==> c.timing() is Special
            &&& c.dest_control().step(c.word_size()) == (if v / 32 % 4 == 1 {
                -c.word_size()
            } else if v / 32 % 4 == 2 {
                0
            } else {
                c.word_size() as int
            })
            &&& c.src_control().step(c.word_size()) == (if v / 128 % 4 == 1 {
                -c.word_size()
            } else if v / 128 % 4 == 2 {
                0
            } else {
                c.word_size() as int
            })
            &&& v / 32 % 4 == 3 <==> c.dest_control() is IncrementReload
        }),
{
    bits::half_fields(c.control, 0, 0, 0);
    assert(c.control / 0x8000 == 1 <==> c.control / 0x8000 % 2 == 1);
}

/// Channels 0 to 2 reach 128 MB and move up to 2^14 units; channel 3 reaches
/// 256 MB and moves up to 2^16.
pub proof fn channel_limits(addr: u32, count: u16, id: usize)
    requires
        id < 4,
    ensures
        reachable(id, addr) == (if id < 3 {
            addr % 0x800_0000
        } else {
            addr % 0x1000_0000
        }),
        ({
            let limit: int = if id < 3 {
                0x4000
            } else {
                0x1_0000
            };
            &&& 1 <= unit_count(id, count) <= limit
            &&& unit_count(id, count) as int % limit == count as int % limit
        }),
{
    bits::half_fields(count, 0, 0, 0);
    vstd::bits::lemma_u32_low_bits_mask_is_mod(addr, 27);
    vstd::bits::lemma_u32_low_bits_mask_is_mod(addr, 28);
    vstd::bits::lemma_low_bits_mask_values();
    vstd::arithmetic::power2::lemma2_to64();
}

/// After `n` units an address has moved `n` steps, modulo 2^32.
pub proof fn addresses_move(addr: u32, step: i32, n: nat)
    ensures
        (moved(addr, step, n) - (addr + n * step)) % 0x1_0000_0000 == 0,
    decreases n,
{
    if n > 0 {
        addresses_move(addr, step, (n - 1) as nat);
        assert(n * step == (n - 1) * step + step) by (nonlinear_arith);
    } else {
        assert(0 * step == 0);
    }
}

/// Enabling a channel takes over its addresses and its count, and starts it at
/// once if its timing says so. Writing the control of a channel that is enabled
/// takes over nothing, and other channels stay as they are.
pub proof fn enabling_latches(d: DmaController, id: usize, value: u16, now: u64)
    requires
        id < 4,
    ensures
        ({
            let before = d.channels[id as int];
            let c = d.control_written(id, value, now).channels[id as int];
            let rises = before.control / 0x8000 == 0 && value / 0x8000 == 1;
            &&& c.control == value
            &&& rises ==> c.internal_sad == reachable(id, before.sad) && c.internal_dad
                == reachable(id, before.dad) && c.internal_count == unit_count(id, before.count)
                && c.active && c.last_latch_cycle == now
            &&& !rises ==> c.internal_sad == before.internal_sad && c.internal_dad
                == before.internal_dad && c.internal_count == before.internal_count
            &&& value / 0x8000 == 0 ==> !c.active
            &&& d.starts(id, value) == (rises && value / 0x1000 % 4 == 0)
            &&& forall|k: int|
                0 <= k < 4 && k != id ==> #[trigger] d.control_written(id, value, now).channels[k]
                    == d.channels[k]
        }),
{
    let before = d.channels[id as int];
    control_settings(before);
    control_settings(DmaChannel { control: value, ..before });
}

/// A finished transfer leaves the addresses it reached. A repeating channel
/// takes its count over again, and its destination if that is to be reloaded;
/// any other channel is disabled.
pub proof fn transfers_finish(c: DmaChannel, id: usize, src: u32, dst: u32)
    ensures
        ({
            let f = c.finished(id, src, dst);
            let repeats = c.control / 0x200 % 2 == 1 && c.control / 0x1000 % 4 != 0;
            &&& f.internal_sad == src
            &&& repeats ==> f.control == c.control && f.active == c.active && f.internal_count
                == unit_count(id, c.count)
            &&& repeats ==> f.internal_dad == (if c.control / 32 % 4 == 3 {
                reachable(id, c.dad)
            } else {
                dst
            })
            &&& !repeats ==> f.control == c.control % 0x8000 && !f.active && f.internal_dad == dst
        }),
{
    control_settings(c);
    bits::half_fields(c.control, 0, 0, 0);
}

} // verus!

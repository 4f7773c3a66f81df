//! Time in the sound unit: the frame sequencer, the mixer, and the decimation
//! of one mixed sample per CPU cycle to the output rate.

use vstd::prelude::*;

use crate::bits::{self, div_i32, div_i64};

use super::psg::Channel1;
use super::{
    Apu, ApuState, CPU_CLOCK_HZ, CYCLES_PER_FRAME_SEQ, MIX_LIMIT, OUTPUT_SAMPLE_RATE,
};

verus! {

/// `x` where `on` holds, else 0.
pub open spec fn gated(on: bool, x: int) -> int {
    if on {
        x
    } else {
        0
    }
}

/// `x` clamped to the range of an output sample.
pub open spec fn clamp16(x: int) -> int {
    if x < -32768 {
        -32768
    } else if x > 32767 {
        32767
    } else {
        x
    }
}

impl ApuState {
    /// Whether any programmable channel is on.
    pub open spec fn psg_active(self) -> bool {
        self.ch1.enabled || self.ch2.enabled || self.ch3.enabled || self.ch4.enabled
    }

    /// The programmable channels on one side, at the volume of that side and
    /// the master ratio.
    pub open spec fn psg_mix(self, enable: [bool; 4], volume: u8) -> int {
        let sum = gated(enable[0], self.ch1.level()) + gated(enable[1], self.ch2.level()) + gated(
            enable[2],
            self.ch3.level(),
        ) + gated(enable[3], self.ch4.level());
        let scaled = bits::div_toward_zero(sum * (volume + 1), 8);
        let ratio: int = if self.psg_master_volume == 0 {
            1
        } else if self.psg_master_volume == 1 {
            2
        } else {
            4
        };
        bits::div_toward_zero(scaled * ratio, 4)
    }

    pub open spec fn mix_left(self) -> int {
        self.psg_mix(self.psg_enable_left, self.psg_volume_left) + gated(
            self.fifo_a.enable_left,
            self.fifo_a.sample(),
        ) + gated(self.fifo_b.enable_left, self.fifo_b.sample())
    }

    pub open spec fn mix_right(self) -> int {
        self.psg_mix(self.psg_enable_right, self.psg_volume_right) + gated(
            self.fifo_a.enable_right,
            self.fifo_a.sample(),
        ) + gated(self.fifo_b.enable_right, self.fifo_b.sample())
    }

    /// The four programmable channels one cycle later.
    pub open spec fn channels_ticked(self) -> ApuState {
        ApuState {
            ch1: self.ch1.after_tick(),
            ch2: self.ch2.after_tick(),
            ch3: self.ch3.after_tick(),
            ch4: self.ch4.after_tick(),
            ..self
        }
    }

    pub open spec fn lengths_clocked(self) -> ApuState {
        ApuState {
            ch1: self.ch1.after_length(),
            ch2: self.ch2.after_length(),
            ch3: self.ch3.after_length(),
            ch4: self.ch4.after_length(),
            ..self
        }
    }

    /// One step of the frame sequencer: lengths on the even steps, the sweep
    /// on steps 2 and 6, the envelopes on step 7.
    pub open spec fn sequencer_stepped(self) -> ApuState {
        let step = self.frame_seq_step;
        let a = if step == 0 || step == 4 {
            self.lengths_clocked()
        } else if step == 2 || step == 6 {
            let b = self.lengths_clocked();
            ApuState { ch1: b.ch1.sweep_clocked(), ..b }
        } else if step == 7 {
            ApuState {
                ch1: self.ch1.after_envelope(),
                ch2: self.ch2.after_envelope(),
                ch4: self.ch4.after_envelope(),
                ..self
            }
        } else {
            self
        };
        ApuState { frame_seq_step: ((step + 1) % 8) as u8, ..a }
    }

    /// The frame sequencer one CPU cycle later.
    pub open spec fn sequencer_cycle(self) -> ApuState {
        if self.frame_seq_counter + 1 >= CYCLES_PER_FRAME_SEQ {
            ApuState { frame_seq_counter: 0, ..self }.sequencer_stepped()
        } else {
            ApuState { frame_seq_counter: (self.frame_seq_counter + 1) as u32, ..self }
        }
    }

    /// One stereo pair appended to the output, unless the buffer is full.
    pub open spec fn pair_pushed(self, left: i16, right: i16) -> ApuState {
        if self.sample_buffer.len() < self.sample_buffer_max {
            ApuState { sample_buffer: self.sample_buffer.push(left).push(right), ..self }
        } else {
            self
        }
    }

    /// One output sample: the average of the accumulated cycles, times 200,
    /// clamped.
    pub open spec fn emitted(self) -> ApuState {
        if self.accum_count == 0 {
            self.pair_pushed(0, 0)
        } else {
            let n = self.accum_count as int;
            ApuState { accum_left: 0, accum_right: 0, accum_count: 0, ..self }.pair_pushed(
                clamp16(bits::div_toward_zero(self.accum_left as int, n) * 200) as i16,
                clamp16(bits::div_toward_zero(self.accum_right as int, n) * 200) as i16,
            )
        }
    }

    /// The decimator one cycle later, with `l` and `r` as the mixed sample.
    pub open spec fn decimator_cycle(self, l: int, r: int) -> ApuState {
        let frac = self.sample_frac + OUTPUT_SAMPLE_RATE;
        let a = ApuState {
            accum_left: (self.accum_left + l) as i64,
            accum_right: (self.accum_right + r) as i64,
            accum_count: (self.accum_count + 1) as u32,
            ..self
        };
        if frac >= CPU_CLOCK_HZ {
            ApuState { sample_frac: (frac - CPU_CLOCK_HZ) as u64, ..a }.emitted()
        } else {
            ApuState { sample_frac: frac as u64, ..a }
        }
    }

    /// The whole unit one CPU cycle later.
    pub open spec fn cycle(self) -> ApuState {
        let a = self.channels_ticked().sequencer_cycle();
        a.decimator_cycle(
            gated(a.master_enable, a.mix_left()),
            gated(a.master_enable, a.mix_right()),
        )
    }

    /// The whole unit `n` CPU cycles later.
    pub open spec fn after_cycles(self, n: nat) -> ApuState
        decreases n,
    {
        if n == 0 {
            self
        } else {
            self.after_cycles((n - 1) as nat).cycle()
        }
    }

    /// The decimator alone, `n` cycles later, under a constant sample.
    pub open spec fn decimated(self, l: int, r: int, n: nat) -> ApuState
        decreases n,
    {
        if n == 0 {
            self
        } else {
            self.decimated(l, r, (n - 1) as nat).decimator_cycle(l, r)
        }
    }

    /// The frame sequencer alone, `n` cycles later.
    pub open spec fn sequenced(self, n: nat) -> ApuState
        decreases n,
    {
        if n == 0 {
            self
        } else {
            self.sequenced((n - 1) as nat).sequencer_cycle()
        }
    }
}

/// A mixed sample stays within the mixing limit.
proof fn mix_bounded(a: ApuState)
    ensures
        -MIX_LIMIT <= a.mix_left() <= MIX_LIMIT,
        -MIX_LIMIT <= a.mix_right() <= MIX_LIMIT,
{
    psg_mix_bounded(a, a.psg_enable_left, a.psg_volume_left);
    psg_mix_bounded(a, a.psg_enable_right, a.psg_volume_right);
}

proof fn psg_mix_bounded(a: ApuState, enable: [bool; 4], volume: u8)
    ensures
        -30_000 <= a.psg_mix(enable, volume) <= 30_000,
{
    broadcast use bits::group_and_bounds;

    let s3 = a.ch3.nibble();
    bits::shr_le(0, 0, s3, 1);
    bits::shr_le(0, 0, s3, 2);
    assert(s3 <= 0xF);
    let sum = gated(enable[0], a.ch1.level()) + gated(enable[1], a.ch2.level()) + gated(
        enable[2],
        a.ch3.level(),
    ) + gated(enable[3], a.ch4.level());
    assert(-800 <= sum <= 800);
    let v = volume + 1;
    assert(-800 * 256 <= sum * v <= 800 * 256) by (nonlinear_arith)
        requires
            -800 <= sum <= 800,
            1 <= v <= 256,
    ;
}

/// The sequencer and the channels keep their ranges.
proof fn sequencer_wf(a: ApuState)
    requires
        a.wf(),
    ensures
        a.sequencer_cycle().wf(),
        a.channels_ticked().wf(),
        !a.psg_active() ==> !a.sequencer_cycle().psg_active(),
        a.sequencer_cycle().sample_frac == a.sample_frac,
{
    let c = a.ch1.after_length();
    sweep_wf(a.ch1);
    sweep_wf(c);
}

proof fn sweep_wf(c: Channel1)
    requires
        c.wf(),
    ensures
        c.sweep_clocked().wf(),
        !c.enabled ==> !c.sweep_clocked().enabled,
{
    bits::shr_le(c.sweep_shadow, c.sweep_shift, 0, 0);
}

/// The decimator keeps its ranges under a bounded sample.
proof fn decimator_wf(a: ApuState, l: int, r: int)
    requires
        a.wf(),
        -MIX_LIMIT <= l <= MIX_LIMIT,
        -MIX_LIMIT <= r <= MIX_LIMIT,
    ensures
        a.decimator_cycle(l, r).wf(),
        a.accum_count <= 349,
{
}

impl Apu {
    /// The mixed sample of this cycle, left and right.
    fn current_mix(&self) -> (mix: (i32, i32))
        requires
            self.wf(),
        ensures
            mix.0 == self@.mix_left(),
            mix.1 == self@.mix_right(),
    {
        let left: i32 = self.psg_side(&self.psg_enable_left, self.psg_volume_left);
        let right: i32 = self.psg_side(&self.psg_enable_right, self.psg_volume_right);
        proof {
            psg_mix_bounded(self@, self.psg_enable_left, self.psg_volume_left);
            psg_mix_bounded(self@, self.psg_enable_right, self.psg_volume_right);
        }
        let fifo_a: i32 = self.fifo_a.output() as i32;
        let fifo_b: i32 = self.fifo_b.output() as i32;
        let mut l: i32 = left;
        let mut r: i32 = right;
        if self.fifo_a.enable_left {
            l = l + fifo_a;
        }
        if self.fifo_a.enable_right {
            r = r + fifo_a;
        }
        if self.fifo_b.enable_left {
            l = l + fifo_b;
        }
        if self.fifo_b.enable_right {
            r = r + fifo_b;
        }
        (l, r)
    }

    fn psg_side(&self, enable: &[bool; 4], volume: u8) -> (mix: i32)
        requires
            self.wf(),
        ensures
            mix == self@.psg_mix(*enable, volume),
    {
        let ch1: i32 = self.ch1.output() as i32;
        let ch2: i32 = self.ch2.output() as i32;
        let ch3: i32 = self.ch3.output() as i32;
        let ch4: i32 = self.ch4.output() as i32;
        let mut sum: i32 = 0;
        if enable[0] {
            sum = sum + ch1;
        }
        if enable[1] {
            sum = sum + ch2;
        }
        if enable[2] {
            sum = sum + ch3;
        }
        if enable[3] {
            sum = sum + ch4;
        }
        proof {
            psg_mix_bounded(self@, *enable, volume);
            let v = volume + 1;
            let s = sum as int;
            assert(-200_000 * 256 <= s * v <= 200_000 * 256) by (nonlinear_arith)
                requires
                    -200_000 <= s <= 200_000,
                    1 <= v <= 256,
            ;
        }
        let scaled: i32 = div_i32(sum * (volume as i32 + 1), 8);
        let ratio: i32 = match self.psg_master_volume {
            0 => 1,
            1 => 2,
            _ => 4,
        };
        div_i32(scaled * ratio, 4)
    }

    fn push_pair(&mut self, left: i16, right: i16)
        requires
            old(self).wf(),
        ensures
            final(self).wf(),
            final(self)@ == old(self)@.pair_pushed(left, right),
    {
        if self.sample_buffer.len() < self.sample_buffer_max {
            self.sample_buffer.push(left);
            self.sample_buffer.push(right);
        }
    }

    fn emit_sample(&mut self)
        requires
            old(self).fifo_a.wf(),
            old(self).fifo_b.wf(),
            (ApuState { accum_left: 0, accum_right: 0, accum_count: 0, ..old(self)@ }).wf(),
            -(old(self).accum_count * MIX_LIMIT) <= old(self).accum_left <= old(self).accum_count
                * MIX_LIMIT,
            -(old(self).accum_count * MIX_LIMIT) <= old(self).accum_right <= old(self).accum_count
                * MIX_LIMIT,
        ensures
            final(self).wf(),
            final(self)@ == old(self)@.emitted(),
    {
        if self.accum_count == 0 {
            self.push_pair(0, 0);
            return ;
        }
        let n: i64 = self.accum_count as i64;
        let left: i64 = self.accum_left;
        let right: i64 = self.accum_right;
        proof {
            average_bounded(left as int, n as int);
            average_bounded(right as int, n as int);
        }
        let avg_left: i32 = div_i64(left, n) as i32;
        let avg_right: i32 = div_i64(right, n) as i32;
        self.accum_left = 0;
        self.accum_right = 0;
        self.accum_count = 0;
        self.push_pair(clamp_sample(avg_left * 200), clamp_sample(avg_right * 200));
    }

    /// One step of the 512 Hz frame sequencer.
    fn clock_frame_sequencer(&mut self)
        requires
            old(self).wf(),
        ensures
            final(self).wf(),
            final(self)@ == old(self)@.sequencer_stepped(),
    {
        match self.frame_seq_step {
            0 | 4 => self.clock_lengths(),
            2 | 6 => {
                self.clock_lengths();
                self.ch1.clock_sweep();
            },
            7 => {
                self.ch1.clock_envelope();
                self.ch2.clock_envelope();
                self.ch4.clock_envelope();
            },
            _ => {},
        }
        self.frame_seq_step = (self.frame_seq_step + 1) % 8;
    }

    fn clock_lengths(&mut self)
        requires
            old(self).wf(),
        ensures
            final(self).wf(),
            final(self)@ == old(self)@.lengths_clocked(),
    {
        self.ch1.clock_length();
        self.ch2.clock_length();
        self.ch3.clock_length();
        self.ch4.clock_length();
    }

    /// Feeds the decimator one cycle of the mixed sample `l`, `r`.
    fn decimate(&mut self, l: i32, r: i32)
        requires
            old(self).wf(),
            -MIX_LIMIT <= l <= MIX_LIMIT,
            -MIX_LIMIT <= r <= MIX_LIMIT,
        ensures
            final(self).wf(),
            final(self)@ == old(self)@.decimator_cycle(l as int, r as int),
    {
        self.accum_left = self.accum_left + l as i64;
        self.accum_right = self.accum_right + r as i64;
        self.accum_count = self.accum_count + 1;
        self.sample_frac = self.sample_frac + OUTPUT_SAMPLE_RATE as u64;
        if self.sample_frac >= CPU_CLOCK_HZ as u64 {
            self.sample_frac = self.sample_frac - CPU_CLOCK_HZ as u64;
            self.emit_sample();
        }
    }

    /// Advances the unit by `cycles` CPU cycles. The refill flags that it
    /// returns are always clear: refills are asked for on timer overflows.
    pub fn tick(&mut self, cycles: u32) -> (refills: (bool, bool))
        requires
            old(self).wf(),
        ensures
            final(self).wf(),
            final(self)@ == old(self)@.after_cycles(cycles as nat),
            refills == (false, false),
    {
        let psg_active = self.ch1.enabled || self.ch2.enabled || self.ch3.enabled
            || self.ch4.enabled;
        if !psg_active {
            self.tick_fast(cycles);
            return (false, false);
        }
        let mut i: u32 = 0;
        while i < cycles
            invariant
                i <= cycles,
                self.wf(),
                self@ == old(self)@.after_cycles(i as nat),
            decreases cycles - i,
        {
            self.tick_cycle();
            i = i + 1;
        }
        (false, false)
    }

    fn tick_cycle(&mut self)
        requires
            old(self).wf(),
        ensures
            final(self).wf(),
            final(self)@ == old(self)@.cycle(),
    {
        proof {
            sequencer_wf(self@);
        }
        self.ch1.tick();
        self.ch2.tick();
        self.ch3.tick();
        self.ch4.tick();
        assert(self@ == old(self)@.channels_ticked());
        self.frame_seq_counter = self.frame_seq_counter + 1;
        if self.frame_seq_counter >= CYCLES_PER_FRAME_SEQ {
            self.frame_seq_counter = self.frame_seq_counter - CYCLES_PER_FRAME_SEQ;
            self.clock_frame_sequencer();
        }
        assert(self@ == old(self)@.channels_ticked().sequencer_cycle());
        let (l, r) = if self.master_enable {
            self.current_mix()
        } else {
            (0, 0)
        };
        proof {
            mix_bounded(self@);
        }
        self.decimate(l, r);
    }

    /// The same advance while every programmable channel is off: the mixed
    /// sample is then constant, and whole stretches of cycles are taken at
    /// once.
    fn tick_fast(&mut self, cycles: u32)
        requires
            old(self).wf(),
            !old(self)@.psg_active(),
        ensures
            final(self).wf(),
            final(self)@ == old(self)@.after_cycles(cycles as nat),
    {
        let ghost start = self@;
        let (l, r) = if self.master_enable {
            self.current_mix()
        } else {
            (0, 0)
        };
        proof {
            mix_bounded(self@);
            idle_cycles_split(start, l as int, r as int, cycles as nat);
        }
        let mut remaining: u64 = cycles as u64;
        while remaining > 0
            invariant
                remaining <= cycles,
                self.wf(),
                start.wf(),
                self@ == start.decimated(l as int, r as int, (cycles - remaining) as nat),
                -MIX_LIMIT <= l <= MIX_LIMIT,
                -MIX_LIMIT <= r <= MIX_LIMIT,
            decreases remaining,
        {
            let to_next_emit: u64 = (CPU_CLOCK_HZ as u64 - self.sample_frac
                + OUTPUT_SAMPLE_RATE as u64 - 1) / OUTPUT_SAMPLE_RATE as u64;
            let chunk: u64 = if remaining <= to_next_emit {
                remaining
            } else {
                to_next_emit
            };
            proof {
                decimated_adds(
                    start,
                    l as int,
                    r as int,
                    (cycles - remaining) as nat,
                    chunk as nat,
                );
            }
            self.decimate_many(l, r, chunk);
            remaining = remaining - chunk;
        }
        let ghost mixed = self@;
        let mut total: u64 = self.frame_seq_counter as u64 + cycles as u64;
        let ghost counter = self.frame_seq_counter;
        self.frame_seq_counter = 0;
        proof {
            sequencer_counts(self@, counter as nat);
            sequenced_adds(self@, counter as nat, cycles as nat);
            assert(self@.sequenced(counter as nat) == mixed);
        }
        while total >= CYCLES_PER_FRAME_SEQ as u64
            invariant
                self.wf(),
                self.frame_seq_counter == 0,
                mixed.sequenced(cycles as nat) == self@.sequenced(total as nat),
            decreases total,
        {
            proof {
                let y = self@;
                let k = (CYCLES_PER_FRAME_SEQ - 1) as nat;
                sequencer_counts(y, k);
                sequenced_adds(y, CYCLES_PER_FRAME_SEQ as nat, (total - CYCLES_PER_FRAME_SEQ) as nat);
                assert(y.sequenced(CYCLES_PER_FRAME_SEQ as nat) == y.sequenced(
                    k,
                ).sequencer_cycle());
                assert(ApuState { frame_seq_counter: 0, ..y.sequenced(k) } == y);
            }
            total = total - CYCLES_PER_FRAME_SEQ as u64;
            self.clock_frame_sequencer();
        }
        proof {
            sequencer_counts(self@, total as nat);
        }
        self.frame_seq_counter = total as u32;
    }

    /// Feeds the decimator `chunk` cycles of a constant sample, at most up to
    /// the next output sample.
    fn decimate_many(&mut self, l: i32, r: i32, chunk: u64)
        requires
            old(self).wf(),
            -MIX_LIMIT <= l <= MIX_LIMIT,
            -MIX_LIMIT <= r <= MIX_LIMIT,
            chunk > 0,
            old(self).sample_frac + OUTPUT_SAMPLE_RATE * (chunk - 1) < CPU_CLOCK_HZ,
        ensures
            final(self).wf(),
            final(self)@ == old(self)@.decimated(l as int, r as int, chunk as nat),
    {
        proof {
            let k = (chunk - 1) as nat;
            decimator_counts(self@, l as int, r as int, k);
            assert(chunk <= 350);
            assert(OUTPUT_SAMPLE_RATE as u64 * chunk <= 48_000 * 350) by (nonlinear_arith)
                requires
                    chunk <= 350,
                    OUTPUT_SAMPLE_RATE == 48_000,
            ;
            product_bounded(l as int, chunk as int);
            product_bounded(r as int, chunk as int);
            product_bounded(l as int, k as int);
            product_bounded(r as int, k as int);
            assert(l * chunk == l * k + l && r * chunk == r * k + r) by (nonlinear_arith)
                requires
                    k == chunk - 1,
            ;
            assert(self@.decimated(l as int, r as int, chunk as nat) == self@.decimated(
                l as int,
                r as int,
                k,
            ).decimator_cycle(l as int, r as int));
        }
        self.accum_left = self.accum_left + l as i64 * chunk as i64;
        self.accum_right = self.accum_right + r as i64 * chunk as i64;
        self.accum_count = self.accum_count + chunk as u32;
        self.sample_frac = self.sample_frac + OUTPUT_SAMPLE_RATE as u64 * chunk;
        if self.sample_frac >= CPU_CLOCK_HZ as u64 {
            self.sample_frac = self.sample_frac - CPU_CLOCK_HZ as u64;
            self.emit_sample();
        }
    }
}

proof fn product_bounded(x: int, n: int)
    by (nonlinear_arith)
    requires
        -40_000 <= x <= 40_000,
        0 <= n <= 350,
    ensures
        -(n * 40_000) <= x * n <= n * 40_000,
{
}

/// Up to the next output sample the decimator only adds up.
proof fn decimator_counts(a: ApuState, l: int, r: int, k: nat)
    requires
        a.wf(),
        a.sample_frac + OUTPUT_SAMPLE_RATE * k < CPU_CLOCK_HZ,
        -MIX_LIMIT <= l <= MIX_LIMIT,
        -MIX_LIMIT <= r <= MIX_LIMIT,
    ensures
        a.decimated(l, r, k) == (ApuState {
            accum_left: (a.accum_left + l * k) as i64,
            accum_right: (a.accum_right + r * k) as i64,
            accum_count: (a.accum_count + k) as u32,
            sample_frac: (a.sample_frac + OUTPUT_SAMPLE_RATE * k) as u64,
            ..a
        }),
    decreases k,
{
    if k > 0 {
        let j = (k - 1) as nat;
        decimator_counts(a, l, r, j);
        product_bounded(l, k as int);
        product_bounded(r, k as int);
        product_bounded(l, j as int);
        product_bounded(r, j as int);
        assert(l * k == l * j + l && r * k == r * j + r) by (nonlinear_arith)
            requires
                j == k - 1,
        ;
    } else {
        assert(l * 0 == 0 && r * 0 == 0);
        assert(l * k == 0 && r * k == 0) by (nonlinear_arith)
            requires
                k == 0,
        ;
    }
}

proof fn decimated_adds(a: ApuState, l: int, r: int, m: nat, n: nat)
    ensures
        a.decimated(l, r, m + n) == a.decimated(l, r, m).decimated(l, r, n),
    decreases n,
{
    if n > 0 {
        decimated_adds(a, l, r, m, (n - 1) as nat);
        assert((m + n - 1) as nat == m + (n - 1) as nat);
    }
}

/// Up to the next sequencer step only the counter moves.
proof fn sequencer_counts(a: ApuState, k: nat)
    requires
        a.frame_seq_counter + k < CYCLES_PER_FRAME_SEQ,
    ensures
        a.sequenced(k) == (ApuState {
            frame_seq_counter: (a.frame_seq_counter + k) as u32,
            ..a
        }),
    decreases k,
{
    if k > 0 {
        sequencer_counts(a, (k - 1) as nat);
    }
}

proof fn sequenced_adds(a: ApuState, m: nat, n: nat)
    ensures
        a.sequenced(m + n) == a.sequenced(m).sequenced(n),
    decreases n,
{
    if n > 0 {
        sequenced_adds(a, m, (n - 1) as nat);
        assert((m + n - 1) as nat == m + (n - 1) as nat);
    }
}

/// `a` with the channels and the sequencer of `o`.
spec fn with_sequencer_of(a: ApuState, o: ApuState) -> ApuState {
    ApuState {
        ch1: o.ch1,
        ch2: o.ch2,
        ch3: o.ch3,
        ch4: o.ch4,
        frame_seq_step: o.frame_seq_step,
        frame_seq_counter: o.frame_seq_counter,
        ..a
    }
}

proof fn decimator_ignores_sequencer(a: ApuState, o: ApuState, l: int, r: int)
    ensures
        with_sequencer_of(a, o).decimator_cycle(l, r) == with_sequencer_of(
            a.decimator_cycle(l, r),
            o,
        ),
        with_sequencer_of(a.decimator_cycle(l, r), a) == a.decimator_cycle(l, r),
{
}

/// The sequencer acts on the channels and its own fields alone.
proof fn sequencer_is_local(a: ApuState, d: ApuState)
    ensures
        with_sequencer_of(d, a).sequencer_stepped() == with_sequencer_of(d, a.sequencer_stepped()),
{
    let s = a.frame_seq_step;
    if s == 0 || s == 4 {
    } else if s == 2 || s == 6 {
        let b = a.lengths_clocked();
        let c = with_sequencer_of(d, a).lengths_clocked();
        assert(c == with_sequencer_of(d, b));
    } else if s == 7 {
    }
}

/// The sequencer and the decimator touch different parts of the unit.
proof fn sequencer_and_decimator_commute(a: ApuState, l: int, r: int)
    ensures
        a.sequencer_cycle().decimator_cycle(l, r) == a.decimator_cycle(l, r).sequencer_cycle(),
{
    let d = a.decimator_cycle(l, r);
    decimator_ignores_sequencer(a, a.sequencer_cycle(), l, r);
    let z = ApuState { frame_seq_counter: 0, ..a };
    sequencer_is_local(z, a);
    sequencer_is_local(z, d);
    assert(with_sequencer_of(a, z) == z);
    assert(with_sequencer_of(d, z) == ApuState { frame_seq_counter: 0, ..d });
    assert(a.sequencer_cycle() == with_sequencer_of(a, a.sequencer_cycle()));
    assert(d.sequencer_cycle() == with_sequencer_of(d, a.sequencer_cycle()));
}

proof fn sequenced_decimator_commute(a: ApuState, l: int, r: int, n: nat)
    ensures
        a.sequenced(n).decimator_cycle(l, r) == a.decimator_cycle(l, r).sequenced(n),
    decreases n,
{
    if n > 0 {
        let m = (n - 1) as nat;
        sequenced_decimator_commute(a, l, r, m);
        sequencer_and_decimator_commute(a.sequenced(m), l, r);
    }
}

/// What neither the decimator nor, while the programmable channels are off,
/// the sequencer changes.
spec fn same_idle_mix(a: ApuState, b: ApuState) -> bool {
    &&& b.wf()
    &&& !b.psg_active()
    &&& b.fifo_a == a.fifo_a
    &&& b.fifo_b == a.fifo_b
    &&& b.master_enable == a.master_enable
}

proof fn idle_mix_constant(a: ApuState, b: ApuState)
    requires
        !a.psg_active(),
        same_idle_mix(a, b),
    ensures
        b.mix_left() == a.mix_left(),
        b.mix_right() == a.mix_right(),
{
    idle_psg_silent(a, a.psg_enable_left, a.psg_volume_left);
    idle_psg_silent(a, a.psg_enable_right, a.psg_volume_right);
    idle_psg_silent(b, b.psg_enable_left, b.psg_volume_left);
    idle_psg_silent(b, b.psg_enable_right, b.psg_volume_right);
}

proof fn idle_psg_silent(a: ApuState, enable: [bool; 4], volume: u8)
    requires
        !a.psg_active(),
    ensures
        a.psg_mix(enable, volume) == 0,
{
    let v = volume + 1;
    assert(0 * v == 0);
}

proof fn idle_sequencer_cycle(a: ApuState, x: ApuState)
    requires
        same_idle_mix(a, x),
    ensures
        x.channels_ticked() == x,
        same_idle_mix(a, x.sequencer_cycle()),
{
    sequencer_wf(x);
}

proof fn idle_decimator_cycle(a: ApuState, b: ApuState, l: int, r: int)
    requires
        same_idle_mix(a, b),
        -MIX_LIMIT <= l <= MIX_LIMIT,
        -MIX_LIMIT <= r <= MIX_LIMIT,
    ensures
        same_idle_mix(a, b.decimator_cycle(l, r)),
{
    decimator_wf(b, l, r);
}

/// One idle cycle is a decimator cycle and a sequencer cycle.
proof fn idle_cycle_splits(a: ApuState, x: ApuState, l: int, r: int)
    requires
        !a.psg_active(),
        same_idle_mix(a, x),
        l == gated(a.master_enable, a.mix_left()),
        r == gated(a.master_enable, a.mix_right()),
    ensures
        x.cycle() == x.decimator_cycle(l, r).sequencer_cycle(),
        same_idle_mix(a, x.cycle()),
{
    mix_bounded(a);
    idle_sequencer_cycle(a, x);
    let b = x.sequencer_cycle();
    idle_mix_constant(a, b);
    idle_decimator_cycle(a, b, l, r);
    assert(x.cycle() == b.decimator_cycle(l, r));
    sequencer_and_decimator_commute(x, l, r);
}

/// While the programmable channels are off, `n` cycles of the whole unit are
/// `n` cycles of the decimator under the constant sample, then `n` cycles of
/// the sequencer.
proof fn idle_cycles_split(a: ApuState, l: int, r: int, n: nat)
    requires
        a.wf(),
        !a.psg_active(),
        l == gated(a.master_enable, a.mix_left()),
        r == gated(a.master_enable, a.mix_right()),
    ensures
        a.after_cycles(n) == a.decimated(l, r, n).sequenced(n),
        same_idle_mix(a, a.after_cycles(n)),
    decreases n,
{
    if n > 0 {
        let m = (n - 1) as nat;
        idle_cycles_split(a, l, r, m);
        idle_cycle_splits(a, a.after_cycles(m), l, r);
        sequenced_decimator_commute(a.decimated(l, r, m), l, r, m);
    }
}

/// One decimator cycle emits a pair exactly if the fractional counter passes
/// the CPU clock.
proof fn decimator_emits(b: ApuState, l: int, r: int)
    requires
        b.wf(),
    ensures
        ({
            let c = b.decimator_cycle(l, r);
            let frac = b.sample_frac + OUTPUT_SAMPLE_RATE;
            &&& c.sample_buffer_max == b.sample_buffer_max
            &&& c.sample_frac == (if frac >= CPU_CLOCK_HZ {
                frac - CPU_CLOCK_HZ
            } else {
                frac
            })
            &&& c.sample_buffer.len() == b.sample_buffer.len() + (if frac >= CPU_CLOCK_HZ
                && b.sample_buffer.len() < b.sample_buffer_max {
                2int
            } else {
                0
            })
        }),
{
}

pub(crate) proof fn cycle_emits(x: ApuState)
    requires
        x.wf(),
    ensures
        ({
            let c = x.cycle();
            let frac = x.sample_frac + OUTPUT_SAMPLE_RATE;
            &&& c.wf()
            &&& c.sample_buffer_max == x.sample_buffer_max
            &&& c.sample_frac == (if frac >= CPU_CLOCK_HZ {
                frac - CPU_CLOCK_HZ
            } else {
                frac
            })
            &&& c.sample_buffer.len() == x.sample_buffer.len() + (if frac >= CPU_CLOCK_HZ
                && x.sample_buffer.len() < x.sample_buffer_max {
                2int
            } else {
                0
            })
        }),
{
    sequencer_wf(x);
    let y = x.channels_ticked();
    sequencer_wf(y);
    let b = y.sequencer_cycle();
    mix_bounded(b);
    let l = gated(b.master_enable, b.mix_left());
    let r = gated(b.master_enable, b.mix_right());
    decimator_wf(b, l, r);
    decimator_emits(b, l, r);
    assert(b.sample_buffer == x.sample_buffer && b.sample_buffer_max == x.sample_buffer_max);
}

/// How the output grows: after `n` cycles one stereo pair was emitted for each
/// time the fractional counter passed the CPU clock, as long as the buffer has
/// room.
pub proof fn output_rate(a: ApuState, n: nat)
    requires
        a.wf(),
        a.sample_buffer.len() + 2 * ((a.sample_frac + OUTPUT_SAMPLE_RATE * n) / (CPU_CLOCK_HZ as int))
            <= a.sample_buffer_max,
    ensures
        a.after_cycles(n).wf(),
        a.after_cycles(n).sample_buffer_max == a.sample_buffer_max,
        a.after_cycles(n).sample_frac == (a.sample_frac + OUTPUT_SAMPLE_RATE * n) % (
        CPU_CLOCK_HZ as int),
        a.after_cycles(n).sample_buffer.len() == a.sample_buffer.len() + 2 * ((a.sample_frac
            + OUTPUT_SAMPLE_RATE * n) / (CPU_CLOCK_HZ as int)),
    decreases n,
{
    if n > 0 {
        let m = (n - 1) as nat;
        output_rate(a, m);
        cycle_emits(a.after_cycles(m));
    }
}

/// One emulated second gives exactly 48000 output samples, if the buffer has
/// room for them.
pub proof fn output_rate_is_48_khz(a: ApuState)
    requires
        a.wf(),
        a.sample_buffer.len() + 2 * OUTPUT_SAMPLE_RATE <= a.sample_buffer_max,
    ensures
        a.after_cycles(CPU_CLOCK_HZ as nat).sample_buffer.len() == a.sample_buffer.len() + 2
            * OUTPUT_SAMPLE_RATE,
        a.after_cycles(CPU_CLOCK_HZ as nat).sample_frac == a.sample_frac,
{
    output_rate(a, CPU_CLOCK_HZ as nat);
}

proof fn average_bounded(x: int, n: int)
    by (nonlinear_arith)
    requires
        n > 0,
        -(n * 40_000) <= x <= n * 40_000,
    ensures
        -40_000 <= bits::div_toward_zero(x, n) <= 40_000,
{
    if x >= 0 {
        assert(x / n <= 40_000);
        assert(x / n >= 0);
    } else {
        assert((-x) / n <= 40_000);
        assert((-x) / n >= 0);
    }
}

fn clamp_sample(x: i32) -> (s: i16)
    ensures
        s == clamp16(x as int),
{
    if x < -32768 {
        -32768
    } else if x > 32767 {
        32767
    } else {
        x as i16
    }
}

} // verus!

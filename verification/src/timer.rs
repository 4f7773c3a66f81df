//! The four hardware timers.

use vstd::prelude::*;

use crate::bits;

verus! {

broadcast use bits::group_and_bounds;

/// One timer. Writing the counter register sets `reload`; reading it gives
/// `counter`.
#[derive(Debug, Clone, Copy, PartialEq, Eq, Structural)]
pub struct Timer {
    pub reload: u16,
    pub counter: u16,
    pub control: u16,
    /// CPU cycles since the last tick of the prescaler.
    pub prescaler_counter: u32,
}

impl Timer {
    pub open spec fn stopped() -> Timer {
        Timer { reload: 0, counter: 0, control: 0, prescaler_counter: 0 }
    }

    pub fn new() -> (t: Timer)
        ensures
            t == Timer::stopped(),
    {
        Timer { reload: 0, counter: 0, control: 0, prescaler_counter: 0 }
    }

    #[verifier::allow_in_spec]
    pub fn enabled(&self) -> bool
        returns
            self.control & (1u16 << 7) != 0,
    {
        self.control & (1u16 << 7) != 0
    }

    /// Whether the timer counts overflows of the one below it.
    #[verifier::allow_in_spec]
    pub fn cascade(&self) -> bool
        returns
            self.control & (1u16 << 2) != 0,
    {
        self.control & (1u16 << 2) != 0
    }

    #[verifier::allow_in_spec]
    pub fn irq_enabled(&self) -> bool
        returns
            self.control & (1u16 << 6) != 0,
    {
        self.control & (1u16 << 6) != 0
    }

    /// CPU cycles per tick.
    #[verifier::allow_in_spec]
    pub fn prescaler(&self) -> u32
        returns
            (if self.control & 3 == 0 {
                1u32
            } else if self.control & 3 == 1 {
                64u32
            } else if self.control & 3 == 2 {
                256u32
            } else {
                1024u32
            }),
    {
        match self.control & 3 {
            0 => 1,
            1 => 64,
            2 => 256,
            _ => 1024,
        }
    }

    /// The timer after `ticks` ticks: it counts up to 0xFFFF and continues at
    /// the reload value.
    pub open spec fn advanced(self, ticks: int) -> Timer {
        let total = self.counter + ticks;
        let range = 0x10000 - self.reload;
        Timer {
            counter: if total < 0x10000 {
                total as u16
            } else {
                (self.reload + (total - 0x10000) % range) as u16
            },
            ..self
        }
    }

    /// How often those ticks make it overflow.
    pub open spec fn overflows(self, ticks: int) -> int {
        let total = self.counter + ticks;
        let range = 0x10000 - self.reload;
        if total < 0x10000 {
            0
        } else {
            1 + (total - 0x10000) / range
        }
    }

    /// How often the timer ticks in `cycles` CPU cycles, in which the timer
    /// below it overflows `below` times.
    pub open spec fn ticks_in(self, cycles: int, cascaded: bool, below: int) -> int {
        if !self.enabled() {
            0
        } else if cascaded && self.cascade() {
            below
        } else {
            (self.prescaler_counter + cycles) / (self.prescaler() as int)
        }
    }

    /// The timer after `cycles` CPU cycles, in which the timer below it
    /// overflows `below` times.
    pub open spec fn after(self, cycles: int, cascaded: bool, below: int) -> Timer {
        let t = self.advanced(self.ticks_in(cycles, cascaded, below));
        if !self.enabled() || (cascaded && self.cascade()) {
            t
        } else {
            Timer {
                prescaler_counter: ((self.prescaler_counter + cycles) % (
                self.prescaler() as int)) as u32,
                ..t
            }
        }
    }

    fn increment(&mut self, ticks: u64) -> (overflows: u64)
        requires
            ticks <= 0x1_0000_0400,
        ensures
            *final(self) == old(self).advanced(ticks as int),
            overflows == old(self).overflows(ticks as int),
            overflows <= ticks,
    {
        let total: u64 = self.counter as u64 + ticks;
        if total >= 0x10000 {
            let range: u64 = 0x10000 - self.reload as u64;
            let remaining: u64 = total - 0x10000;
            self.counter = (self.reload as u64 + remaining % range) as u16;
            assert(remaining / range <= remaining) by (nonlinear_arith)
                requires
                    range >= 1,
            ;
            1 + remaining / range
        } else {
            self.counter = total as u16;
            0
        }
    }

    fn step(&mut self, cycles: u32, cascaded: bool, below: u64) -> (overflows: u64)
        requires
            old(self).prescaler_counter < 1024,
            below <= 0x1_0000_0400,
        ensures
            *final(self) == old(self).after(cycles as int, cascaded, below as int),
            overflows == old(self).overflows(
                old(self).ticks_in(cycles as int, cascaded, below as int),
            ),
            overflows <= 0x1_0000_0400,
            final(self).prescaler_counter < 1024,
    {
        if !self.enabled() {
            return 0;
        }
        if cascaded && self.cascade() {
            return self.increment(below);
        }
        let prescaler: u64 = self.prescaler() as u64;
        let acc: u64 = self.prescaler_counter as u64 + cycles as u64;
        let ticks: u64 = acc / prescaler;
        self.prescaler_counter = (acc % prescaler) as u32;
        assert(ticks <= acc) by (nonlinear_arith)
            requires
                ticks == acc / prescaler,
                prescaler >= 1,
        ;
        self.increment(ticks)
    }
}

/// The four timers.
#[derive(Debug, Clone, Copy)]
#[verifier::ext_equal]
pub struct Timers {
    pub timers: [Timer; 4],
}

/// What a tick of the timers caused.
#[derive(Debug, Clone, Copy)]
#[verifier::ext_equal]
pub struct TimerTickResult {
    /// Which timer interrupts are due.
    pub irqs: [bool; 4],
    pub timer0_overflow: bool,
    pub timer1_overflow: bool,
}

impl Timers {
    /// The prescaler counters are below the largest divider.
    pub open spec fn wf(self) -> bool {
        &&& self.timers[0].prescaler_counter < 1024
        &&& self.timers[1].prescaler_counter < 1024
        &&& self.timers[2].prescaler_counter < 1024
        &&& self.timers[3].prescaler_counter < 1024
    }

    pub open spec fn all_stopped() -> Timers {
        Timers { timers: [Timer::stopped(), Timer::stopped(), Timer::stopped(), Timer::stopped()] }
    }

    pub fn new() -> (t: Timers)
        ensures
            t == Timers::all_stopped(),
            t.wf(),
    {
        Timers { timers: [Timer::new(), Timer::new(), Timer::new(), Timer::new()] }
    }

    /// The counter of timer `id`.
    pub fn read_counter(&self, id: usize) -> (c: u16)
        requires
            id < 4,
        ensures
            c == self.timers[id as int].counter,
    {
        self.timers[id].counter
    }

    pub open spec fn with_reload(self, id: int, value: u16) -> Timers {
        Timers {
            timers: bits::upd(self.timers, id, Timer { reload: value, ..self.timers[id] }),
        }
    }

    /// Sets the reload value of timer `id`.
    pub fn write_reload(&mut self, id: usize, value: u16)
        requires
            id < 4,
        ensures
            *final(self) == old(self).with_reload(id as int, value),
            old(self).wf() ==> final(self).wf(),
    {
        self.timers[id].reload = value;
    }

    pub open spec fn with_control(self, id: int, value: u16) -> Timers {
        let t = Timer { control: value, ..self.timers[id] };
        Timers {
            timers: bits::upd(
                self.timers,
                id,
                if !self.timers[id].enabled() && t.enabled() {
                    Timer { counter: t.reload, prescaler_counter: 0, ..t }
                } else {
                    t
                },
            ),
        }
    }

    /// Sets the control register of timer `id`. Starting a stopped timer loads
    /// its counter.
    pub fn write_control(&mut self, id: usize, value: u16)
        requires
            id < 4,
        ensures
            *final(self) == old(self).with_control(id as int, value),
            old(self).wf() ==> final(self).wf(),
    {
        let old_enabled = self.timers[id].enabled();
        self.timers[id].control = value;
        let new_enabled = self.timers[id].enabled();
        if !old_enabled && new_enabled {
            self.timers[id].counter = self.timers[id].reload;
            self.timers[id].prescaler_counter = 0;
        }
    }

    /// How often timer `i` overflows within `cycles` CPU cycles.
    pub open spec fn overflow_count(self, i: int, cycles: int) -> int
        decreases i + 1,
    {
        if 0 <= i < 4 {
            self.timers[i].overflows(
                self.timers[i].ticks_in(cycles, i > 0, self.overflow_count(i - 1, cycles)),
            )
        } else {
            0
        }
    }

    /// Whether timer `i` overflows within `cycles` CPU cycles.
    pub open spec fn overflowed(self, i: int, cycles: int) -> bool {
        self.overflow_count(i, cycles) > 0
    }

    /// Timer `i` after `cycles` CPU cycles.
    pub open spec fn timer_after(self, i: int, cycles: int) -> Timer {
        self.timers[i].after(cycles, i > 0, self.overflow_count(i - 1, cycles))
    }

    pub open spec fn after(self, cycles: int) -> Timers {
        Timers {
            timers: [
                self.timer_after(0, cycles),
                self.timer_after(1, cycles),
                self.timer_after(2, cycles),
                self.timer_after(3, cycles),
            ],
        }
    }

    pub open spec fn irq_due(self, i: int, cycles: int) -> bool {
        self.overflowed(i, cycles) && self.timers[i].irq_enabled()
    }

    pub open spec fn tick_result(self, cycles: int) -> TimerTickResult {
        TimerTickResult {
            irqs: [
                self.irq_due(0, cycles),
                self.irq_due(1, cycles),
                self.irq_due(2, cycles),
                self.irq_due(3, cycles),
            ],
            timer0_overflow: self.overflowed(0, cycles),
            timer1_overflow: self.overflowed(1, cycles),
        }
    }

    /// Advances all timers by `cycles` CPU cycles, lowest first: a cascaded
    /// timer counts every overflow of the timer below it.
    pub fn tick(&mut self, cycles: u32) -> (result: TimerTickResult)
        requires
            old(self).wf(),
        ensures
            *final(self) == old(self).after(cycles as int),
            result == old(self).tick_result(cycles as int),
            final(self).wf(),
    {
        reveal_with_fuel(Timers::overflow_count, 5);
        let n0: u64 = self.timers[0].step(cycles, false, 0);
        let n1: u64 = self.timers[1].step(cycles, true, n0);
        let n2: u64 = self.timers[2].step(cycles, true, n1);
        let n3: u64 = self.timers[3].step(cycles, true, n2);
        TimerTickResult {
            irqs: [
                n0 > 0 && self.timers[0].irq_enabled(),
                n1 > 0 && self.timers[1].irq_enabled(),
                n2 > 0 && self.timers[2].irq_enabled(),
                n3 > 0 && self.timers[3].irq_enabled(),
            ],
            timer0_overflow: n0 > 0,
            timer1_overflow: n1 > 0,
        }
    }

    /// CPU cycles until timer `i` overflows by itself.
    pub open spec fn cycles_to_overflow(self, i: int) -> int {
        let t = self.timers[i];
        if !t.enabled() || (i > 0 && t.cascade()) {
            u32::MAX as int
        } else {
            let c = (0x10000 - t.counter) * t.prescaler() - t.prescaler_counter;
            if c < 0 {
                0
            } else {
                c
            }
        }
    }

    pub open spec fn next_fifo_overflow(self) -> int {
        if self.cycles_to_overflow(1) < self.cycles_to_overflow(0) {
            self.cycles_to_overflow(1)
        } else {
            self.cycles_to_overflow(0)
        }
    }

    /// CPU cycles until timer 0 or 1 overflows, whichever is sooner;
    /// `u32::MAX` if neither runs.
    pub fn cycles_to_next_fifo_overflow(&self) -> (cycles: u32)
        requires
            self.wf(),
        ensures
            cycles == self.next_fifo_overflow(),
    {
        let a: u32 = self.cycles_to(0);
        let b: u32 = self.cycles_to(1);
        if b < a {
            b
        } else {
            a
        }
    }

    fn cycles_to(&self, i: usize) -> (cycles: u32)
        requires
            self.wf(),
            i < 2,
        ensures
            cycles == self.cycles_to_overflow(i as int),
    {
        let t = self.timers[i];
        if !t.enabled() || (t.cascade() && i > 0) {
            return u32::MAX;
        }
        let prescaler: u32 = t.prescaler();
        let ticks: u32 = 0x10000 - t.counter as u32;
        assert(0 <= ticks * prescaler <= 0x10000 * 1024) by (nonlinear_arith)
            requires
                0 <= ticks <= 0x10000,
                0 <= prescaler <= 1024,
        ;
        let total: u32 = ticks * prescaler;
        if total < t.prescaler_counter {
            0
        } else {
            total - t.prescaler_counter
        }
    }
}

/// A free-running timer overflows within `cycles` exactly if the cycles to its
/// next overflow have passed.
pub proof fn overflow_is_on_time(t: Timers, i: int, cycles: int)
    requires
        t.wf(),
        0 <= i < 4,
        t.timers[i].enabled(),
        i > 0 ==> !t.timers[i].cascade(),
        cycles >= 0,
    ensures
        t.overflowed(i, cycles) <==> cycles >= t.cycles_to_overflow(i),
{
    let x = t.timers[i];
    let p = x.prescaler() as int;
    let acc = x.prescaler_counter + cycles;
    let need = 0x10000 - x.counter;
    let ticks = acc / p;
    let rem = (x.counter + ticks) - 0x10000;
    let range = 0x10000 - x.reload;
    assert(rem >= 0 ==> rem / range >= 0) by (nonlinear_arith)
        requires
            range >= 1,
    ;
    assert(ticks >= need <==> acc >= need * p) by (nonlinear_arith)
        requires
            ticks == acc / p,
            p >= 1,
            acc >= 0,
            need >= 0,
    ;
}

/// Ticking in two portions is ticking once by their sum: the counters agree
/// and the overflows add up.
pub proof fn ticks_add(t: Timer, a: int, b: int)
    requires
        a >= 0,
        b >= 0,
    ensures
        t.advanced(a).advanced(b) == t.advanced(a + b),
        t.overflows(a) + t.advanced(a).overflows(b) == t.overflows(a + b),
        t.overflows(a) >= 0,
{
    let range = 0x10000 - t.reload;
    let rem = t.counter + a - 0x10000;
    if rem >= 0 {
        let q = rem / range;
        let r = rem % range;
        split_division(rem, b, range);
        if r + b >= range {
            split_division(range, r + b - range, range);
            assert(range / range == 1 && range % range == 0) by (nonlinear_arith)
                requires
                    range >= 1,
            ;
        } else {
            assert((r + b) / range == 0 && (r + b) % range == r + b) by (nonlinear_arith)
                requires
                    0 <= r + b < range,
            ;
        }
    } else if rem + b >= 0 {
        assert((rem + b) / range >= 0) by (nonlinear_arith)
            requires
                range >= 1,
                rem + b >= 0,
        ;
    }
}

/// A sum divides as its second part does on top of the first part's remainder.
proof fn split_division(x: int, y: int, d: int)
    requires
        d >= 1,
        x >= 0,
        y >= 0,
    ensures
        x / d >= 0,
        0 <= x % d < d,
        (x + y) / d == x / d + (x % d + y) / d,
        (x + y) % d == (x % d + y) % d,
        (x % d + y) / d >= 0,
{
    let q = x / d;
    let r = x % d;
    assert(x == q * d + r && 0 <= r < d && q >= 0) by (nonlinear_arith)
        requires
            d >= 1,
            x >= 0,
            q == x / d,
            r == x % d,
    ;
    assert((q * d + (r + y)) / d == q + (r + y) / d && (q * d + (r + y)) % d == (r + y) % d && (r
        + y) / d >= 0) by (nonlinear_arith)
        requires
            d >= 1,
            r >= 0,
            y >= 0,
    ;
}

/// Advancing the timers by two spans, one after the other, is advancing them
/// once by both: all four timers end up the same, each overflows as often in
/// all, and what the longer tick reports is what either of the two reports.
pub proof fn spans_add(t: Timers, a: int, b: int)
    requires
        a >= 0,
        b >= 0,
    ensures
        t.after(a).after(b) == t.after(a + b),
        forall|i: int|
            0 <= i < 4 ==> #[trigger] t.overflow_count(i, a + b) == t.overflow_count(i, a)
                + t.after(a).overflow_count(i, b),
        forall|i: int|
            0 <= i < 4 ==> #[trigger] t.tick_result(a + b).irqs[i] == (t.tick_result(a).irqs[i]
                || t.after(a).tick_result(b).irqs[i]),
        t.tick_result(a + b).timer0_overflow == (t.tick_result(a).timer0_overflow || t.after(
            a,
        ).tick_result(b).timer0_overflow),
        t.tick_result(a + b).timer1_overflow == (t.tick_result(a).timer1_overflow || t.after(
            a,
        ).tick_result(b).timer1_overflow),
{
    timer_spans_add(t, 0, a, b);
    timer_spans_add(t, 1, a, b);
    timer_spans_add(t, 2, a, b);
    timer_spans_add(t, 3, a, b);
    assert(t.after(a).after(b).timers =~= t.after(a + b).timers);
}

proof fn timer_spans_add(t: Timers, i: int, a: int, b: int)
    requires
        0 <= i < 4,
        a >= 0,
        b >= 0,
    ensures
        t.after(a).timer_after(i, b) == t.timer_after(i, a + b),
        t.overflow_count(i, a + b) == t.overflow_count(i, a) + t.after(a).overflow_count(i, b),
        t.overflow_count(i, a) >= 0,
        t.after(a).overflow_count(i, b) >= 0,
    decreases i,
{
    let x = t.timers[i];
    let y = t.after(a).timers[i];
    assert(y == t.timer_after(i, a));
    if i > 0 {
        timer_spans_add(t, i - 1, a, b);
    }
    let below = t.overflow_count(i - 1, a);
    let below2 = t.after(a).overflow_count(i - 1, b);
    let p = x.prescaler() as int;
    split_division(x.prescaler_counter + a, b, p);
    let n = x.ticks_in(a, i > 0, below);
    let m = y.ticks_in(b, i > 0, below2);
    assert(x.ticks_in(a + b, i > 0, t.overflow_count(i - 1, a + b)) == n + m);
    ticks_add(x, n, m);
    ticks_add(y, m, 0);
    assert(y.overflows(m) == x.advanced(n).overflows(m));
}

/// The counter stays at or above the reload value once it has passed through
/// it, and a reload value of 0xFFFF overflows on every tick.
pub proof fn overflow_reloads(t: Timer, ticks: int)
    requires
        ticks >= 1,
    ensures
        t.overflows(ticks) > 0 ==> t.advanced(ticks).counter >= t.reload,
        t.reload == 0xFFFF && t.counter == 0xFFFF ==> t.overflows(ticks) == ticks && t.advanced(
            ticks,
        ).counter == 0xFFFF,
{
    let range = 0x10000 - t.reload;
    let rem = t.counter + ticks - 0x10000;
    assert(0 <= rem % range < range) by (nonlinear_arith)
        requires
            range >= 1,
    ;
    if rem >= 0 {
        assert(rem / range >= 0) by (nonlinear_arith)
            requires
                range >= 1,
                rem >= 0,
        ;
    }
    assert(range == 1 ==> rem / range == rem && rem % range == 0) by (nonlinear_arith);
}

/// A tick counts up by one, and from 0xFFFF to the reload value with one
/// overflow.
pub proof fn one_tick(t: Timer)
    ensures
        t.counter < 0xFFFF ==> t.advanced(1) == (Timer { counter: (t.counter + 1) as u16, ..t })
            && t.overflows(1) == 0,
        t.counter == 0xFFFF ==> t.advanced(1) == (Timer { counter: t.reload, ..t }) && t.overflows(
            1,
        ) == 1,
        t.advanced(0) == t,
{
    let range = 0x10000 - t.reload;
    assert(0int % range == 0 && 0int / range == 0) by (nonlinear_arith)
        requires
            range >= 1,
    ;
}

/// The fields of a control register, by division, and how often a timer ticks:
/// once in 1, 64, 256 or 1024 cycles, or with each overflow of the timer below,
/// and not at all while it is off.
pub proof fn timer_settings(t: Timer, cycles: int, cascaded: bool, below: int)
    requires
        cycles >= 0,
    ensures
        ({
            let v = t.control;
            let per = if v % 4 == 0 {
                1int
            } else if v % 4 == 1 {
                64
            } else if v % 4 == 2 {
                256
            } else {
                1024
            };
            let n = t.ticks_in(cycles, cascaded, below);
            let on = v / 128 % 2 == 1;
            let chained = cascaded && v / 4 % 2 == 1;
            &&& t.enabled() == on
            &&& t.irq_enabled() == (v / 64 % 2 == 1)
            &&& !on ==> n == 0 && t.after(cycles, cascaded, below) == t
            &&& on && chained ==> n == below
            &&& on && !chained ==> {
                let rest = t.after(cycles, cascaded, below).prescaler_counter;
                t.prescaler_counter + cycles == n * per + rest && 0 <= rest < per
            }
        }),
{
    control_bits(t.control);
    let p = t.prescaler() as int;
    let acc = t.prescaler_counter + cycles;
    vstd::arithmetic::div_mod::lemma_fundamental_div_mod(acc, p);
    vstd::arithmetic::mul::lemma_mul_is_commutative(p, acc / p);
    vstd::arithmetic::div_mod::lemma_mod_bound(acc, p);
    one_tick(t);
}

proof fn control_bits(v: u16)
    ensures
        v & 3 == v % 4,
        v & (1u16 << 2) != 0 <==> v / 4 % 2 == 1,
        v & (1u16 << 6) != 0 <==> v / 64 % 2 == 1,
        v & (1u16 << 7) != 0 <==> v / 128 % 2 == 1,
{
    bits::half_fields(v, 0, 0, 0);
}

/// Starting a timer loads its counter and clears its prescaler. Writing the
/// control of a running timer keeps the counter, and the others are untouched.
pub proof fn starting_loads(t: Timers, id: int, value: u16)
    requires
        0 <= id < 4,
    ensures
        ({
            let b = t.timers[id];
            let a = t.with_control(id, value).timers[id];
            let starts = b.control / 128 % 2 == 0 && value / 128 % 2 == 1;
            &&& a.control == value
            &&& a.reload == b.reload
            &&& starts ==> a.counter == b.reload && a.prescaler_counter == 0
            &&& !starts ==> a.counter == b.counter && a.prescaler_counter == b.prescaler_counter
            &&& forall|k: int|
                0 <= k < 4 && k != id ==> #[trigger] t.with_control(id, value).timers[k]
                    == t.timers[k]
        }),
{
    control_bits(t.timers[id].control);
    control_bits(value);
}

/// An overflow asks for the timer's interrupt if its control allows it, and
/// the first two timers report theirs to the sound unit.
pub proof fn overflows_interrupt(t: Timers, cycles: int)
    ensures
        ({
            let r = t.tick_result(cycles);
            &&& forall|i: int|
                0 <= i < 4 ==> #[trigger] r.irqs[i] == (t.overflow_count(i, cycles) > 0
                    && t.timers[i].irq_enabled())
            &&& r.timer0_overflow == (t.overflow_count(0, cycles) > 0)
            &&& r.timer1_overflow == (t.overflow_count(1, cycles) > 0)
        }),
{
}

} // verus!

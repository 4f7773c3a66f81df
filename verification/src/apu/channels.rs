//! What the four programmable channels play.

use vstd::arithmetic::power2::pow2;
use vstd::prelude::*;

use crate::bits;

use super::psg::{self, Channel1, Channel2, Channel3, Channel4};

verus! {

broadcast use bits::group_and_bounds;

proof fn quotient(x: u16, k: u8)
    requires
        k < 16,
    ensures
        x >> k == x as nat / pow2(k as nat),
        pow2(k as nat) >= 1,
        k > 0 ==> pow2(k as nat) >= 2,
        0 <= x as nat / pow2(k as nat) <= x,
        k > 0 ==> 2 * (x as nat / pow2(k as nat)) <= x,
        k == 0 ==> x as nat / pow2(k as nat) == x,
{
    vstd::bits::lemma_u16_shr_is_div(x, k as u16);
    vstd::arithmetic::power2::lemma_pow2_pos(k as nat);
    vstd::arithmetic::power2::lemma2_to64();
    let p = pow2(k as nat) as int;
    if k > 0 {
        vstd::arithmetic::power2::lemma_pow2_unfold(k as nat);
        vstd::arithmetic::power2::lemma_pow2_pos((k - 1) as nat);
    }
    let q = x as int / p;
    vstd::arithmetic::div_mod::lemma_fundamental_div_mod(x as int, p);
    vstd::arithmetic::div_mod::lemma_div_pos_is_pos(x as int, p);
    assert(p * q >= q) by (nonlinear_arith)
        requires
            p >= 1,
            q >= 0,
    ;
    if k > 0 {
        assert(p * q >= 2 * q) by (nonlinear_arith)
            requires
                p >= 2,
                q >= 0,
        ;
    } else {
        vstd::arithmetic::div_mod::lemma_div_basics(x as int);
    }
}

/// Whether a clock of the sweep computes a frequency.
pub open spec fn sweep_is_due(c: Channel1) -> bool {
    c.sweep_timer <= 1 && c.sweep_enabled && c.sweep_period > 0
}

/// A downward sweep lowers the frequency by its 2^shift-th part each time that
/// it is due, never raises it and never turns the channel off.
#[verifier::rlimit(50)]
pub proof fn sweep_falls(c: Channel1)
    requires
        c.wf(),
        c.sweep_negate,
        c.sweep_shadow <= 2047,
    ensures
        ({
            let d = c.sweep_clocked();
            let part = c.sweep_shadow as nat / pow2(c.sweep_shift as nat);
            &&& d.enabled == c.enabled
            &&& d.sweep_shadow <= c.sweep_shadow
            &&& sweep_is_due(c) && c.sweep_shift > 0 ==> d.frequency == c.sweep_shadow - part
                && d.sweep_shadow == d.frequency
            &&& !(sweep_is_due(c) && c.sweep_shift > 0) ==> d.frequency == c.frequency
                && d.sweep_shadow == c.sweep_shadow
        }),
{
    quotient(c.sweep_shadow, c.sweep_shift);
    let part = c.sweep_shadow as nat / pow2(c.sweep_shift as nat);
    quotient((c.sweep_shadow - part) as u16, c.sweep_shift);
}

/// An upward sweep raises the frequency by its 2^shift-th part each time that
/// it is due. It turns the channel off once that would pass 2047, now or with
/// the frequency it has just reached.
#[verifier::rlimit(50)]
pub proof fn sweep_rises(c: Channel1)
    requires
        c.wf(),
        !c.sweep_negate,
        c.sweep_shadow <= 2047,
    ensures
        ({
            let d = c.sweep_clocked();
            let part = c.sweep_shadow as nat / pow2(c.sweep_shift as nat);
            let next = c.sweep_shadow + part;
            &&& !sweep_is_due(c) ==> d.enabled == c.enabled && d.frequency == c.frequency
                && d.sweep_shadow == c.sweep_shadow
            &&& sweep_is_due(c) && next > 2047 ==> !d.enabled && d.frequency == c.frequency
            &&& sweep_is_due(c) && next <= 2047 && c.sweep_shift == 0 ==> d.enabled == c.enabled
                && d.frequency == c.frequency
            &&& sweep_is_due(c) && next <= 2047 && c.sweep_shift > 0 ==> {
                &&& d.frequency == next
                &&& d.sweep_shadow == next
                &&& d.enabled == (c.enabled && next + next as nat / pow2(c.sweep_shift as nat)
                    <= 2047)
            }
        }),
{
    quotient(c.sweep_shadow, c.sweep_shift);
    let part = c.sweep_shadow as nat / pow2(c.sweep_shift as nat);
    if c.sweep_shadow + part <= 2047 {
        quotient((c.sweep_shadow + part) as u16, c.sweep_shift);
    }
}

/// The sweep's timer counts down to the next due clock and starts over from the
/// period, or from 8 if that is zero.
#[verifier::rlimit(50)]
pub proof fn sweep_timer_counts(c: Channel1)
    ensures
        c.sweep_timer > 1 ==> c.sweep_clocked() == (Channel1 {
            sweep_timer: (c.sweep_timer - 1) as u8,
            ..c
        }),
        c.sweep_timer <= 1 ==> c.sweep_clocked().sweep_timer == (if c.sweep_period == 0 {
            8
        } else {
            c.sweep_period
        }),
{
}

/// How many of the eight steps of a duty cycle are high.
pub open spec fn high_steps(duty: u8) -> int {
    let h = |p: u8|
        if psg::duty_high(duty, p) {
            1int
        } else {
            0int
        };
    h(0) + h(1) + h(2) + h(3) + h(4) + h(5) + h(6) + h(7)
}

/// The duty cycles are high for one, two, four and six of eight steps. The
/// first three end at the end of the period or one step later, without gaps,
/// and the last is the second upside down.
#[verifier::rlimit(50)]
pub proof fn duty_cycles(duty: u8, p: u8)
    requires
        p < 8,
    ensures
        duty % 4 == 0 ==> high_steps(duty) == 1,
        duty % 4 == 1 ==> high_steps(duty) == 2,
        duty % 4 == 2 ==> high_steps(duty) == 4,
        duty % 4 == 3 ==> high_steps(duty) == 6,
        psg::duty_high(0, 7),
        psg::duty_high(0, p) ==> psg::duty_high(1, p),
        psg::duty_high(1, p) ==> psg::duty_high(2, p),
        psg::duty_high(3, p) == !psg::duty_high(1, p),
        psg::duty_high(1, 0) && !psg::duty_high(1, 1),
        p < 7 && psg::duty_high(2, p) && p > 0 ==> psg::duty_high(2, (p + 1) as u8),
        psg::duty_high(duty, p) == psg::duty_high((duty % 4) as u8, p),
{
    duty_number(duty);
    duty_number((duty % 4) as u8);
    duty_number(0);
    duty_number(1);
    duty_number(2);
    duty_number(3);
}

proof fn duty_number(d: u8)
    ensures
        d & 3 == d % 4,
{
    bits::byte_fields(d, 0);
}

/// The length counter and whether the channel is on, after `n` clocks.
pub open spec fn after_lengths(on: bool, counting: bool, counter: u16, n: nat) -> (bool, u16)
    decreases n,
{
    if n == 0 {
        (on, counter)
    } else {
        let r = after_lengths(on, counting, counter, (n - 1) as nat);
        psg::length_clocked(r.0, counting, r.1)
    }
}

/// With its length counter on, a channel stays on for as many clocks as the
/// counter holds less one, and is off from the last on. With the counter off it
/// stays as it is.
#[verifier::rlimit(50)]
pub proof fn lengths_run_out(on: bool, counter: u16, n: nat)
    requires
        counter > 0,
    ensures
        after_lengths(on, true, counter, n).0 == (on && n < counter),
        n <= counter ==> after_lengths(on, true, counter, n).1 == counter - n,
        n > counter ==> after_lengths(on, true, counter, n).1 == 0,
        after_lengths(on, false, counter, n) == (on, counter),
    decreases n,
{
    if n > 0 {
        lengths_run_out(on, counter, (n - 1) as nat);
    }
}

/// Each channel's length clock counts its own counter.
#[verifier::rlimit(50)]
pub proof fn channels_count_lengths(c1: Channel1, c2: Channel2, c3: Channel3, c4: Channel4)
    ensures
        (c1.after_length().enabled, c1.after_length().length_counter) == after_lengths(
            c1.enabled,
            c1.length_enabled,
            c1.length_counter,
            1,
        ),
        (c2.after_length().enabled, c2.after_length().length_counter) == after_lengths(
            c2.enabled,
            c2.length_enabled,
            c2.length_counter,
            1,
        ),
        (c3.after_length().enabled, c3.after_length().length_counter) == after_lengths(
            c3.enabled,
            c3.length_enabled,
            c3.length_counter,
            1,
        ),
        (c4.after_length().enabled, c4.after_length().length_counter) == after_lengths(
            c4.enabled,
            c4.length_enabled,
            c4.length_counter,
            1,
        ),
        c1.after_length().frequency == c1.frequency,
        c2.after_length().frequency == c2.frequency,
        c3.after_length().frequency == c3.frequency,
{
    reveal_with_fuel(after_lengths, 2);
}

/// An envelope's timer and volume after `n` clocks.
pub open spec fn after_envelopes(period: u8, rising: bool, timer: u8, volume: u8, n: nat) -> (
    u8,
    u8,
)
    decreases n,
{
    if n == 0 {
        (timer, volume)
    } else {
        let r = after_envelopes(period, rising, timer, volume, (n - 1) as nat);
        psg::envelope_clocked(period, rising, r.0, r.1)
    }
}

/// An envelope holds its volume for `period` clocks and then moves it by one,
/// up to 15 or down to 0. With period 0 it never moves.
#[verifier::rlimit(50)]
pub proof fn envelopes_move(period: u8, rising: bool, volume: u8, n: nat)
    requires
        volume <= 15,
        n <= period,
    ensures
        n < period ==> after_envelopes(period, rising, period, volume, n) == (
            (period - n) as u8,
            volume,
        ),
        period > 0 ==> after_envelopes(period, rising, period, volume, period as nat) == (
            period,
            (if rising && volume < 15 {
                volume + 1
            } else if !rising && volume > 0 {
                volume - 1
            } else {
                volume as int
            }) as u8,
        ),
        psg::envelope_clocked(0, rising, period, volume) == (period, volume),
    decreases period - n,
{
    envelope_holds(period, rising, volume, n);
    if period > 0 {
        envelope_holds(period, rising, volume, (period - 1) as nat);
    }
}

proof fn envelope_holds(period: u8, rising: bool, volume: u8, n: nat)
    ensures
        n < period ==> after_envelopes(period, rising, period, volume, n) == (
            (period - n) as u8,
            volume,
        ),
    decreases n,
{
    if n > 0 {
        envelope_holds(period, rising, volume, (n - 1) as nat);
    }
}

/// A note of a square channel starts with its first volume, a full envelope
/// period and a full period of the wave, for 64 clocks of length if none was
/// set. It stays silent if its envelope starts at nothing and falls, and
/// channel 1 also if its upward sweep would pass 2047 at once.
#[verifier::rlimit(50)]
pub proof fn notes_start(c1: Channel1, c2: Channel2, c3: Channel3, c4: Channel4)
    requires
        c1.wf(),
        c1.frequency <= 2047,
        c4.wf(),
    ensures
        ({
            let n = c1.triggered();
            let part = c1.frequency as nat / pow2(c1.sweep_shift as nat);
            &&& n.enabled == ((c1.envelope_init > 0 || c1.envelope_dir) && (c1.sweep_shift == 0
                || c1.sweep_negate || c1.frequency + part <= 2047))
            &&& n.envelope_volume == c1.envelope_init
            &&& n.envelope_timer == c1.envelope_period
            &&& n.timer == 16 * (2048 - c1.frequency)
            &&& n.frequency == c1.frequency
            &&& n.sweep_shadow == c1.frequency
            &&& n.sweep_enabled == (c1.sweep_period > 0 || c1.sweep_shift > 0)
            &&& n.sweep_timer == (if c1.sweep_period == 0 {
                8
            } else {
                c1.sweep_period
            })
            &&& n.length_counter == (if c1.length_counter == 0 {
                64
            } else {
                c1.length_counter
            })
        }),
        ({
            let n = c2.triggered();
            &&& n.enabled == (c2.envelope_init > 0 || c2.envelope_dir)
            &&& n.envelope_volume == c2.envelope_init
            &&& n.envelope_timer == c2.envelope_period
            &&& c2.frequency <= 2048 ==> n.timer == 16 * (2048 - c2.frequency)
            &&& n.length_counter == (if c2.length_counter == 0 {
                64
            } else {
                c2.length_counter
            })
        }),
        ({
            let n = c3.triggered();
            &&& n.enabled == c3.dac_enabled
            &&& n.sample_pos == 0
            &&& c3.frequency <= 2048 ==> n.timer == 8 * (2048 - c3.frequency)
            &&& n.length_counter == (if c3.length_counter == 0 {
                256
            } else {
                c3.length_counter
            })
        }),
        ({
            let n = c4.triggered();
            &&& n.enabled == (c4.envelope_init > 0 || c4.envelope_dir)
            &&& n.envelope_volume == c4.envelope_init
            &&& n.envelope_timer == c4.envelope_period
            &&& n.lfsr == 0x7FFF
            &&& n.length_counter == (if c4.length_counter == 0 {
                64
            } else {
                c4.length_counter
            })
        }),
{
    quotient(c1.frequency, c1.sweep_shift);
}

proof fn noise_bits(l: u16, next: u16)
    by (bit_vector)
    ensures
        l & 1 == l % 2,
        (l >> 1) & 1 == (l / 2) % 2,
        l % 2 == (l / 2) % 2 ==> (l & 1) ^ ((l >> 1) & 1) == 0,
        l % 2 != (l / 2) % 2 ==> (l & 1) ^ ((l >> 1) & 1) == 1,
        l < 0x8000 ==> (l >> 1) | (0u16 << 14) == l / 2,
        l < 0x8000 ==> (l >> 1) | (1u16 << 14) == (l / 2) + 0x4000,
        (next & !(1u16 << 6)) | (0u16 << 6) == next - ((next / 64) % 2) * 64,
        (next & !(1u16 << 6)) | (1u16 << 6) == next - ((next / 64) % 2) * 64 + 64,
{
}

/// The noise register moves down one place; the new top bit, and bit 6 in the
/// short mode, is the sum of the two lowest modulo 2. The channel is high while
/// the lowest bit is clear.
#[verifier::rlimit(50)]
pub proof fn noise_register_moves(c: Channel4)
    requires
        c.lfsr < 0x8000,
    ensures
        ({
            let l = c.lfsr as int;
            let fed = (l % 2 + l / 2 % 2) % 2;
            let next = l / 2 + 0x4000 * fed;
            &&& c.lfsr_stepped() < 0x8000
            &&& !c.width_mode ==> c.lfsr_stepped() == next
            &&& c.width_mode ==> c.lfsr_stepped() == next - 64 * (next / 64 % 2) + 64 * fed
            &&& c.level() == (if !c.enabled {
                0
            } else if l % 2 == 0 {
                c.envelope_volume as int
            } else {
                -(c.envelope_volume as int)
            })
        }),
{
    let l = c.lfsr;
    let fed = (l & 1) ^ ((l >> 1) & 1);
    let next = (l >> 1) | (fed << 14);
    noise_bits(l, next);
}

/// The noise register moves once in four times the divisor, which is 8 for code
/// 0 and else 16 times the code, shifted.
#[verifier::rlimit(50)]
pub proof fn noise_periods(c: Channel4)
    requires
        c.wf(),
    ensures
        ({
            let n = c.divisor_code as int % 8;
            let d = if n == 0 {
                8
            } else {
                16 * n
            };
            &&& c.period() == 4 * (d * pow2(c.clock_shift as nat))
            &&& c.enabled && c.timer <= 1 ==> c.after_tick().timer == c.period()
                && c.after_tick().lfsr == c.lfsr_stepped()
            &&& c.enabled && c.timer > 1 ==> c.after_tick().timer == c.timer - 1
                && c.after_tick().lfsr == c.lfsr
        }),
{
    bits::byte_fields(c.divisor_code, 0);
    let d = c.divisor();
    let s = c.clock_shift as nat;
    vstd::arithmetic::power2::lemma2_to64();
    if s < 15 {
        vstd::arithmetic::power2::lemma_pow2_strictly_increases(s, 15);
    }
    assert(0 <= d * pow2(s) <= 112 * 32768) by (nonlinear_arith)
        requires
            0 <= d <= 112,
            0 <= pow2(s) <= 32768,
    ;
    vstd::bits::lemma_u32_shl_is_mul(d, s as u32);
}

/// The wave channel plays the high half of each byte before the low half, from
/// its bank of 32 samples or from both. A sample is heard whole, at half, at a
/// quarter or not at all by the volume code, or at three quarters, around a
/// middle of 8.
#[verifier::rlimit(50)]
pub proof fn wave_samples(c: Channel3, k: int)
    requires
        c.wf(),
        c.enabled,
        c.dac_enabled,
        0 <= k < 16,
    ensures
        c.dimension && c.sample_pos == 2 * k ==> c.nibble() == c.wave_ram[k] / 16,
        c.dimension && c.sample_pos == 2 * k + 1 ==> c.nibble() == c.wave_ram[k] % 16,
        c.dimension && c.sample_pos == 2 * k + 32 ==> c.nibble() == c.wave_ram[k + 16] / 16,
        c.dimension && c.sample_pos == 2 * k + 33 ==> c.nibble() == c.wave_ram[k + 16] % 16,
        !c.dimension && c.bank_select == 0 && c.sample_pos == 2 * k ==> c.nibble() == c.wave_ram[k]
            / 16,
        !c.dimension && c.bank_select == 0 && c.sample_pos == 2 * k + 1 ==> c.nibble()
            == c.wave_ram[k] % 16,
        !c.dimension && c.bank_select == 1 && c.sample_pos == 2 * k ==> c.nibble() == c.wave_ram[k
            + 16] / 16,
        !c.dimension && c.bank_select == 1 && c.sample_pos == 2 * k + 1 ==> c.nibble()
            == c.wave_ram[k + 16] % 16,
        c.force_75 ==> c.level() + 8 == 3 * c.nibble() / 4,
        !c.force_75 && c.volume_code == 0 ==> c.level() == -8,
        !c.force_75 && c.volume_code == 1 ==> c.level() + 8 == c.nibble(),
        !c.force_75 && c.volume_code == 2 ==> c.level() + 8 == c.nibble() / 2,
        !c.force_75 && c.volume_code == 3 ==> c.level() + 8 == c.nibble() / 4,
{
    wave_halves(c);
    wave_volume(c);
}

proof fn wave_halves(c: Channel3)
    ensures
        ({
            let b = c.wave_ram[c.nibble_index() / 2];
            c.nibble() == (if c.nibble_index() % 2 == 0 {
                b / 16
            } else {
                b % 16
            })
        }),
{
    let b = c.wave_ram[c.nibble_index() / 2];
    bits::byte_fields(b, 0);
    bits::byte_fields(b >> 4, 0);
}

proof fn wave_volume(c: Channel3)
    ensures
        c.nibble() >> 1 == c.nibble() / 2,
        c.nibble() >> 2 == c.nibble() / 4,
{
    vstd::bits::lemma_u8_shr_is_div(c.nibble(), 1);
    vstd::bits::lemma_u8_shr_is_div(c.nibble(), 2);
    vstd::arithmetic::power2::lemma2_to64();
}

} // verus!

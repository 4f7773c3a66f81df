//! What holds of the sound unit's registers and output.

use vstd::prelude::*;

use super::psg::{square_period, wave_period, Channel1, Channel2, Channel3};
use super::ApuState;

verus! {

/// Fields of the mixing registers put together again.
proof fn register_bits(v: u16)
    by (bit_vector)
    ensures
        ((((v & 7) as u8) as u16) & 7) | ((((((v >> 4) & 7) as u8) as u16) & 7) << 4) | ((if v & (
        1u16 << 8) != 0 {
            1u16
        } else {
            0u16
        }) << 8) | ((if v & (1u16 << 9) != 0 {
            1u16
        } else {
            0u16
        }) << 9) | ((if v & (1u16 << 10) != 0 {
            1u16
        } else {
            0u16
        }) << 10) | ((if v & (1u16 << 11) != 0 {
            1u16
        } else {
            0u16
        }) << 11) | ((if v & (1u16 << 12) != 0 {
            1u16
        } else {
            0u16
        }) << 12) | ((if v & (1u16 << 13) != 0 {
            1u16
        } else {
            0u16
        }) << 13) | ((if v & (1u16 << 14) != 0 {
            1u16
        } else {
            0u16
        }) << 14) | ((if v & (1u16 << 15) != 0 {
            1u16
        } else {
            0u16
        }) << 15) == v & 0xFF77,
        ((((v & 3) as u8) as u16) & 3) | ((if v & (1u16 << 2) != 0 {
            1u16
        } else {
            0u16
        }) << 2) | ((if v & (1u16 << 3) != 0 {
            1u16
        } else {
            0u16
        }) << 3) | ((if v & (1u16 << 8) != 0 {
            1u16
        } else {
            0u16
        }) << 8) | ((if v & (1u16 << 9) != 0 {
            1u16
        } else {
            0u16
        }) << 9) | ((((((v >> 10) & 1) as u8) as u16) & 1) << 10) | ((if v & (1u16 << 12) != 0 {
            1u16
        } else {
            0u16
        }) << 12) | ((if v & (1u16 << 13) != 0 {
            1u16
        } else {
            0u16
        }) << 13) | ((((((v >> 14) & 1) as u8) as u16) & 1) << 14) == v & 0x770F,
        0u16 | (0u16 << 1) | (0u16 << 2) | (0u16 << 3) | (0u16 << 7) == 0,
{
}

proof fn panning_bits(v: u16)
    ensures
        ((((v & 7) as u8) as u16) & 7) | ((((((v >> 4) & 7) as u8) as u16) & 7) << 4) | ((if v & (
        1u16 << 8) != 0 {
            1u16
        } else {
            0u16
        }) << 8) | ((if v & (1u16 << 9) != 0 {
            1u16
        } else {
            0u16
        }) << 9) | ((if v & (1u16 << 10) != 0 {
            1u16
        } else {
            0u16
        }) << 10) | ((if v & (1u16 << 11) != 0 {
            1u16
        } else {
            0u16
        }) << 11) | ((if v & (1u16 << 12) != 0 {
            1u16
        } else {
            0u16
        }) << 12) | ((if v & (1u16 << 13) != 0 {
            1u16
        } else {
            0u16
        }) << 13) | ((if v & (1u16 << 14) != 0 {
            1u16
        } else {
            0u16
        }) << 14) | ((if v & (1u16 << 15) != 0 {
            1u16
        } else {
            0u16
        }) << 15) == v & 0xFF77,
{
    register_bits(v);
}

proof fn dma_sound_bits(v: u16)
    ensures
        ((((v & 3) as u8) as u16) & 3) | ((if v & (1u16 << 2) != 0 {
            1u16
        } else {
            0u16
        }) << 2) | ((if v & (1u16 << 3) != 0 {
            1u16
        } else {
            0u16
        }) << 3) | ((if v & (1u16 << 8) != 0 {
            1u16
        } else {
            0u16
        }) << 8) | ((if v & (1u16 << 9) != 0 {
            1u16
        } else {
            0u16
        }) << 9) | ((((((v >> 10) & 1) as u8) as u16) & 1) << 10) | ((if v & (1u16 << 12) != 0 {
            1u16
        } else {
            0u16
        }) << 12) | ((if v & (1u16 << 13) != 0 {
            1u16
        } else {
            0u16
        }) << 13) | ((((((v >> 14) & 1) as u8) as u16) & 1) << 14) == v & 0x770F,
{
    register_bits(v);
}

/// The mixing registers read back what was written to them; unused bits and
/// the two reset bits read as zero.
pub proof fn mixing_registers_read_back(a: ApuState, v: u16)
    ensures
        a.reg_written(0x20, v).reg(0x20) == v & 0xFF77,
        a.reg_written(0x22, v).reg(0x22) == v & 0x770F,
        a.reg_written(0x28, v).reg(0x28) == v & 0x03FF,
{
    panning_bits(v);
    dma_sound_bits(v);
}

/// Switching the sound off stops the four programmable channels, and the status
/// register then reads zero.
pub proof fn master_switch_stops_channels(a: ApuState, v: u16)
    requires
        v & (1u16 << 7) == 0,
    ensures
        ({
            let off = a.reg_written(0x24, v);
            &&& !off.master_enable && !off.ch1.enabled && !off.ch2.enabled && !off.ch3.enabled
                && !off.ch4.enabled
            &&& off.reg(0x24) == 0
        }),
{
    register_bits(0);
}

/// The output buffer never holds more than one pair past its limit, however
/// long nobody fetches samples.
pub proof fn output_is_bounded(a: ApuState, n: nat)
    requires
        a.wf(),
        a.sample_buffer.len() <= a.sample_buffer_max + 1,
    ensures
        a.after_cycles(n).wf(),
        a.after_cycles(n).sample_buffer_max == a.sample_buffer_max,
        a.after_cycles(n).sample_buffer.len() <= a.sample_buffer_max + 1,
    decreases n,
{
    if n > 0 {
        let m = (n - 1) as nat;
        output_is_bounded(a, m);
        super::mixing::cycle_emits(a.after_cycles(m));
    }
}

/// A division by `p` and the one after the next number.
proof fn counted(n: int, p: int)
    requires
        p >= 1,
        n >= 0,
    ensures
        0 <= n % p < p,
        n / p >= 0,
        n % p == p - 1 ==> (n + 1) % p == 0 && (n + 1) / p == n / p + 1,
        n % p < p - 1 ==> (n + 1) % p == n % p + 1 && (n + 1) / p == n / p,
        0int % p == 0,
        0int / p == 0,
{
    let q = n / p;
    let r = n % p;
    vstd::arithmetic::div_mod::lemma_fundamental_div_mod(n, p);
    assert(0 <= r < p && q >= 0 && 0int % p == 0 && 0int / p == 0) by (nonlinear_arith)
        requires
            p >= 1,
            n >= 0,
            q == n / p,
            r == n % p,
    ;
    if r == p - 1 {
        assert(n + 1 == (q + 1) * p + 0) by (nonlinear_arith)
            requires
                n == p * q + r,
                r == p - 1,
        ;
        vstd::arithmetic::div_mod::lemma_fundamental_div_mod_converse(n + 1, p, q + 1, 0);
    } else {
        assert(n + 1 == q * p + (r + 1)) by (nonlinear_arith)
            requires
                n == p * q + r,
        ;
        vstd::arithmetic::div_mod::lemma_fundamental_div_mod_converse(n + 1, p, q, r + 1);
    }
}

/// What whole periods do to a division by the period.
proof fn periods_add(n: int, p: int)
    requires
        p >= 1,
        n >= 0,
    ensures
        p / p == 1,
        p % p == 0,
        (p * 8) / p == 8,
        (p * 8) % p == 0,
        (n + p * 8) / p == n / p + 8,
        (n + p * 8) % p == n % p,
        n / p >= 0,
{
    vstd::arithmetic::div_mod::lemma_fundamental_div_mod(n, p);
    let q = n / p;
    let r = n % p;
    counted(n, p);
    assert(p == 1 * p + 0 && p * 8 == 8 * p + 0 && n + p * 8 == (q + 8) * p + r) by (
    nonlinear_arith)
        requires
            n == p * q + r,
    ;
    vstd::arithmetic::div_mod::lemma_fundamental_div_mod_converse(p, p, 1, 0);
    vstd::arithmetic::div_mod::lemma_fundamental_div_mod_converse(p * 8, p, 8, 0);
    vstd::arithmetic::div_mod::lemma_fundamental_div_mod_converse(n + p * 8, p, q + 8, r);
}

/// The waveform of a restarted square channel 1: the duty position moves on by
/// one every (2048 - f) * 16 cycles and not in between, so that after eight
/// times as many the channel is where it was, and from every cycle on the
/// waveform repeats.
pub proof fn square_1_keeps_its_period(c: Channel1, n: nat)
    requires
        c.wf(),
        c.frequency <= 2047,
        c.triggered().enabled,
    ensures
        ({
            let t = c.triggered();
            let period = (2048 - c.frequency) * 16;
            &&& t.after_ticks(n).duty_pos == (t.duty_pos + n as int / period) % 8
            &&& t.after_ticks(period as nat) == (Channel1 {
                duty_pos: ((t.duty_pos + 1) % 8) as u8,
                ..t
            })
            &&& t.after_ticks((period * 8) as nat) == t
            &&& t.after_ticks((n + period * 8) as nat) == t.after_ticks(n)
            &&& t.after_ticks((n + period * 8) as nat).level() == t.after_ticks(n).level()
        }),
{
    let t = c.triggered();
    let period = (2048 - c.frequency) * 16;
    square_1_after(t, n);
    square_1_after(t, period as nat);
    square_1_after(t, (period * 8) as nat);
    square_1_after(t, (n + period * 8) as nat);
    periods_add(n as int, period);
}

proof fn square_1_after(t: Channel1, n: nat)
    requires
        t.enabled,
        t.frequency <= 2047,
        t.duty_pos < 8,
        t.timer == square_period(t.frequency),
    ensures
        t.after_ticks(n) == (Channel1 {
            timer: (t.timer - n as int % t.timer as int) as u32,
            duty_pos: ((t.duty_pos + n as int / t.timer as int) % 8) as u8,
            ..t
        }),
    decreases n,
{
    let p = t.timer as int;
    counted(n as int, p);
    if n > 0 {
        square_1_after(t, (n - 1) as nat);
        counted(n - 1, p);
    }
}

/// The waveform of a restarted square channel 2: the duty position moves on by
/// one every (2048 - f) * 16 cycles and not in between, so that after eight
/// times as many the channel is where it was, and from every cycle on the
/// waveform repeats.
pub proof fn square_2_keeps_its_period(c: Channel2, n: nat)
    requires
        c.wf(),
        c.frequency <= 2047,
        c.triggered().enabled,
    ensures
        ({
            let t = c.triggered();
            let period = (2048 - c.frequency) * 16;
            &&& t.after_ticks(n).duty_pos == (t.duty_pos + n as int / period) % 8
            &&& t.after_ticks(period as nat) == (Channel2 {
                duty_pos: ((t.duty_pos + 1) % 8) as u8,
                ..t
            })
            &&& t.after_ticks((period * 8) as nat) == t
            &&& t.after_ticks((n + period * 8) as nat) == t.after_ticks(n)
            &&& t.after_ticks((n + period * 8) as nat).level() == t.after_ticks(n).level()
        }),
{
    let t = c.triggered();
    let period = (2048 - c.frequency) * 16;
    square_2_after(t, n);
    square_2_after(t, period as nat);
    square_2_after(t, (period * 8) as nat);
    square_2_after(t, (n + period * 8) as nat);
    periods_add(n as int, period);
}

proof fn square_2_after(t: Channel2, n: nat)
    requires
        t.enabled,
        t.frequency <= 2047,
        t.duty_pos < 8,
        t.timer == square_period(t.frequency),
    ensures
        t.after_ticks(n) == (Channel2 {
            timer: (t.timer - n as int % t.timer as int) as u32,
            duty_pos: ((t.duty_pos + n as int / t.timer as int) % 8) as u8,
            ..t
        }),
    decreases n,
{
    let p = t.timer as int;
    counted(n as int, p);
    if n > 0 {
        square_2_after(t, (n - 1) as nat);
        counted(n - 1, p);
    }
}

/// A restarted wave channel moves on by one sample every (2048 - f) * 8 cycles
/// and not in between; after its 32 or, with both banks, 64 samples it starts
/// over.
pub proof fn wave_keeps_its_period(c: Channel3, n: nat)
    requires
        c.wf(),
        c.frequency <= 2047,
        c.dac_enabled,
    ensures
        ({
            let samples = if c.dimension {
                64int
            } else {
                32int
            };
            c.triggered().after_ticks(n).sample_pos == (n as int / ((2048 - c.frequency) * 8))
                % samples
        }),
{
    wave_after(c.triggered(), n);
    counted(n as int, (2048 - c.frequency) * 8);
}

proof fn wave_after(t: Channel3, n: nat)
    requires
        t.enabled,
        t.dac_enabled,
        t.frequency <= 2047,
        t.sample_pos == 0,
        t.timer == wave_period(t.frequency),
    ensures
        t.after_ticks(n) == (Channel3 {
            timer: (t.timer - n as int % t.timer as int) as u32,
            sample_pos: wave_pos(t.dimension, n as int / t.timer as int),
            ..t
        }),
    decreases n,
{
    let p = t.timer as int;
    counted(n as int, p);
    if n > 0 {
        wave_after(t, (n - 1) as nat);
        counted(n - 1, p);
        wave_pos_moves(t.dimension, (n - 1) / p);
    }
}

/// Where a table is after `k` samples.
spec fn wave_pos(dimension: bool, k: int) -> u8 {
    if dimension {
        (k % 64) as u8
    } else {
        (k % 32) as u8
    }
}

proof fn wave_pos_moves(dimension: bool, k: int)
    requires
        k >= 0,
    ensures
        wave_pos(dimension, k + 1) == (wave_pos(dimension, k) + 1) % (if dimension {
            64int
        } else {
            32int
        }),
{
}

} // verus!

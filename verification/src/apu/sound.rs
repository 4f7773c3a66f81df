//! What the sound registers set and how the channels are mixed.

use vstd::prelude::*;

use crate::bits;

use super::fifo::FifoState;
use super::mixing::gated;
use super::psg::{Channel1, Channel2, Channel3, Channel4};
use super::{ApuState, CPU_CLOCK_HZ, CYCLES_PER_FRAME_SEQ};

verus! {

broadcast use bits::group_and_bounds;

proof fn channel_fields(v: u16)
    ensures
        v & 7 == v % 8,
        v & 3 == v % 4,
        (v >> 4) & 7 == v / 16 % 8,
        (v >> 4) & 0xF == v / 16 % 16,
        v & 0x3F == v % 64,
        v & 0xFF == v % 256,
        v & 0x7FF == v % 2048,
        (v >> 6) & 3 == v / 64 % 4,
        (v >> 6) & 1 == v / 64 % 2,
        (v >> 8) & 7 == v / 256 % 8,
        (v >> 12) & 0xF == v / 4096,
        (v >> 13) & 3 == v / 0x2000 % 4,
        v & (1u16 << 3) != 0 <==> v / 8 % 2 == 1,
        v & (1u16 << 5) != 0 <==> v / 32 % 2 == 1,
        v & (1u16 << 7) != 0 <==> v / 128 % 2 == 1,
        v & (1u16 << 11) != 0 <==> v / 2048 % 2 == 1,
        v & (1u16 << 14) != 0 <==> v / 0x4000 % 2 == 1,
        v & (1u16 << 15) != 0 <==> v / 0x8000 % 2 == 1,
{
    bits::half_fields(v, 0, 0, 0);
}

/// Which numbers the registers of channel 1 hold: the sweep's shift, direction
/// and period; length, duty and envelope; the frequency and whether the length
/// counts. The top bit of the last starts a note.
#[verifier::rlimit(50)]
pub proof fn channel_1_registers(a: ApuState, v: u16)
    ensures
        ({
            let s = a.reg_written(0x00, v);
            &&& s.ch1 == (Channel1 {
                sweep_shift: (v % 8) as u8,
                sweep_negate: v / 8 % 2 == 1,
                sweep_period: (v / 16 % 8) as u8,
                ..a.ch1
            })
            &&& s == (ApuState { ch1: s.ch1, ..a })
        }),
        ({
            let s = a.reg_written(0x02, v);
            &&& s.ch1 == (Channel1 {
                length_load: (v % 64) as u8,
                duty: (v / 64 % 4) as u8,
                envelope_period: (v / 256 % 8) as u8,
                envelope_dir: v / 2048 % 2 == 1,
                envelope_init: (v / 4096) as u8,
                ..a.ch1
            })
            &&& s == (ApuState { ch1: s.ch1, ..a })
        }),
        ({
            let s = a.reg_written(0x04, v);
            let c = Channel1 {
                frequency: (v % 2048) as u16,
                length_enabled: v / 0x4000 % 2 == 1,
                ..a.ch1
            };
            &&& s.ch1 == (if v / 0x8000 % 2 == 1 {
                c.triggered()
            } else {
                c
            })
            &&& s == (ApuState { ch1: s.ch1, ..a })
        }),
{
    channel_fields(v);
}

/// The registers of channel 2, as those of channel 1 without the sweep.
#[verifier::rlimit(50)]
pub proof fn channel_2_registers(a: ApuState, v: u16)
    ensures
        ({
            let s = a.reg_written(0x08, v);
            &&& s.ch2 == (Channel2 {
                length_load: (v % 64) as u8,
                duty: (v / 64 % 4) as u8,
                envelope_period: (v / 256 % 8) as u8,
                envelope_dir: v / 2048 % 2 == 1,
                envelope_init: (v / 4096) as u8,
                ..a.ch2
            })
            &&& s == (ApuState { ch2: s.ch2, ..a })
        }),
        ({
            let s = a.reg_written(0x0C, v);
            let c = Channel2 {
                frequency: (v % 2048) as u16,
                length_enabled: v / 0x4000 % 2 == 1,
                ..a.ch2
            };
            &&& s.ch2 == (if v / 0x8000 % 2 == 1 {
                c.triggered()
            } else {
                c
            })
            &&& s == (ApuState { ch2: s.ch2, ..a })
        }),
{
    channel_fields(v);
}

/// The registers of channel 3: both banks or one, which bank, whether it plays;
/// length and volume; frequency.
#[verifier::rlimit(50)]
pub proof fn channel_3_registers(a: ApuState, v: u16)
    ensures
        ({
            let s = a.reg_written(0x10, v);
            &&& s.ch3 == (Channel3 {
                dimension: v / 32 % 2 == 1,
                bank_select: (v / 64 % 2) as u8,
                dac_enabled: v / 128 % 2 == 1,
                ..a.ch3
            })
            &&& s == (ApuState { ch3: s.ch3, ..a })
        }),
        ({
            let s = a.reg_written(0x12, v);
            &&& s.ch3 == (Channel3 {
                length_load: (v % 256) as u16,
                volume_code: (v / 0x2000 % 4) as u8,
                force_75: v / 0x8000 % 2 == 1,
                ..a.ch3
            })
            &&& s == (ApuState { ch3: s.ch3, ..a })
        }),
        ({
            let s = a.reg_written(0x14, v);
            let c = Channel3 {
                frequency: (v % 2048) as u16,
                length_enabled: v / 0x4000 % 2 == 1,
                ..a.ch3
            };
            &&& s.ch3 == (if v / 0x8000 % 2 == 1 {
                c.triggered()
            } else {
                c
            })
            &&& s == (ApuState { ch3: s.ch3, ..a })
        }),
{
    channel_fields(v);
}

/// The registers of channel 4: length and envelope; divisor, width and shift of
/// the noise clock.
#[verifier::rlimit(50)]
pub proof fn channel_4_registers(a: ApuState, v: u16)
    ensures
        ({
            let s = a.reg_written(0x18, v);
            &&& s.ch4 == (Channel4 {
                length_load: (v % 64) as u8,
                envelope_period: (v / 256 % 8) as u8,
                envelope_dir: v / 2048 % 2 == 1,
                envelope_init: (v / 4096) as u8,
                ..a.ch4
            })
            &&& s == (ApuState { ch4: s.ch4, ..a })
        }),
        ({
            let s = a.reg_written(0x1C, v);
            let c = Channel4 {
                divisor_code: (v % 8) as u8,
                width_mode: v / 8 % 2 == 1,
                clock_shift: (v / 16 % 16) as u8,
                length_enabled: v / 0x4000 % 2 == 1,
                ..a.ch4
            };
            &&& s.ch4 == (if v / 0x8000 % 2 == 1 {
                c.triggered()
            } else {
                c
            })
            &&& s == (ApuState { ch4: s.ch4, ..a })
        }),
{
    channel_fields(v);
}

/// The mixing registers: volumes and switches of the four channels on the right
/// and on the left; volume, switches and timer of the two sample queues, and
/// whether they are emptied.
#[verifier::rlimit(50)]
pub proof fn mixing_registers(a: ApuState, v: u16)
    ensures
        ({
            let s = a.reg_written(0x20, v);
            &&& s.psg_volume_right == v % 8
            &&& s.psg_volume_left == v / 16 % 8
            &&& s.psg_enable_right[0] == (v / 256 % 2 == 1)
            &&& s.psg_enable_right[1] == (v / 512 % 2 == 1)
            &&& s.psg_enable_right[2] == (v / 1024 % 2 == 1)
            &&& s.psg_enable_right[3] == (v / 2048 % 2 == 1)
            &&& s.psg_enable_left[0] == (v / 4096 % 2 == 1)
            &&& s.psg_enable_left[1] == (v / 0x2000 % 2 == 1)
            &&& s.psg_enable_left[2] == (v / 0x4000 % 2 == 1)
            &&& s.psg_enable_left[3] == (v / 0x8000 % 2 == 1)
        }),
        ({
            let s = a.reg_written(0x22, v);
            &&& s.psg_master_volume == v % 4
            &&& s.fifo_a.volume_full == (v / 4 % 2 == 1)
            &&& s.fifo_b.volume_full == (v / 8 % 2 == 1)
            &&& s.fifo_a.enable_right == (v / 256 % 2 == 1)
            &&& s.fifo_a.enable_left == (v / 512 % 2 == 1)
            &&& s.fifo_a.timer_select == v / 1024 % 2
            &&& s.fifo_b.enable_right == (v / 4096 % 2 == 1)
            &&& s.fifo_b.enable_left == (v / 0x2000 % 2 == 1)
            &&& s.fifo_b.timer_select == v / 0x4000 % 2
            &&& v / 2048 % 2 == 1 ==> s.fifo_a.queue.len() == 0
            &&& v / 2048 % 2 == 0 ==> s.fifo_a.queue == a.fifo_a.queue
            &&& v / 0x8000 % 2 == 1 ==> s.fifo_b.queue.len() == 0
            &&& v / 0x8000 % 2 == 0 ==> s.fifo_b.queue == a.fifo_b.queue
        }),
        a.reg_written(0x24, v).master_enable == (v / 128 % 2 == 1),
        a.reg_written(0x28, v).bias_level == v % 1024,
{
    bits::half_fields(v, 0, 0, 0);
}

/// Wave memory is written two bytes at a time, the first byte in the low half,
/// and takes effect nowhere else.
#[verifier::rlimit(50)]
pub proof fn wave_memory(c: Channel3, idx: int, v: u16, k: int)
    requires
        0 <= idx < 31,
        0 <= k < 32,
    ensures
        ({
            let w = c.with_wave(idx, v).wave_ram;
            &&& w[idx] + 256 * w[idx + 1] == v
            &&& k != idx && k != idx + 1 ==> w[k] == c.wave_ram[k]
        }),
{
    crate::bus::laws::bytes_of_half(v);
    bits::half_fields(0, 0, v as u8, (v >> 8) as u8);
}

/// What goes to the left depends on nothing that is set for the right, and the
/// other way round.
#[verifier::rlimit(50)]
pub proof fn sides_are_separate(a: ApuState, b: ApuState)
    requires
        a.ch1 == b.ch1,
        a.ch2 == b.ch2,
        a.ch3 == b.ch3,
        a.ch4 == b.ch4,
        a.psg_master_volume == b.psg_master_volume,
        a.fifo_a.sample() == b.fifo_a.sample(),
        a.fifo_b.sample() == b.fifo_b.sample(),
    ensures
        a.psg_volume_left == b.psg_volume_left && a.psg_enable_left == b.psg_enable_left
            && a.fifo_a.enable_left == b.fifo_a.enable_left && a.fifo_b.enable_left
            == b.fifo_b.enable_left ==> a.mix_left() == b.mix_left(),
        a.psg_volume_right == b.psg_volume_right && a.psg_enable_right == b.psg_enable_right
            && a.fifo_a.enable_right == b.fifo_a.enable_right && a.fifo_b.enable_right
            == b.fifo_b.enable_right ==> a.mix_right() == b.mix_right(),
{
}

/// On a side with no channel on, only the sample queues that are on are heard,
/// each with its sample.
#[verifier::rlimit(50)]
pub proof fn queues_are_heard(a: ApuState)
    ensures
        (forall|i: int| 0 <= i < 4 ==> !#[trigger] a.psg_enable_left[i]) ==> {
            &&& a.fifo_a.enable_left && a.fifo_b.enable_left ==> a.mix_left()
                == a.fifo_a.sample() + a.fifo_b.sample()
            &&& a.fifo_a.enable_left && !a.fifo_b.enable_left ==> a.mix_left()
                == a.fifo_a.sample()
            &&& !a.fifo_a.enable_left && a.fifo_b.enable_left ==> a.mix_left()
                == a.fifo_b.sample()
        },
        (forall|i: int| 0 <= i < 4 ==> !#[trigger] a.psg_enable_right[i]) ==> {
            &&& a.fifo_a.enable_right && a.fifo_b.enable_right ==> a.mix_right()
                == a.fifo_a.sample() + a.fifo_b.sample()
            &&& a.fifo_a.enable_right && !a.fifo_b.enable_right ==> a.mix_right()
                == a.fifo_a.sample()
            &&& !a.fifo_a.enable_right && a.fifo_b.enable_right ==> a.mix_right()
                == a.fifo_b.sample()
        },
{
    let v = (a.psg_volume_left + 1) as int;
    let w = (a.psg_volume_right + 1) as int;
    assert(0 * v == 0 && 0 * w == 0);
}

/// The channels that are on add up. The side's volume takes one to eight
/// eighths of the sum and the master volume a quarter, a half or all of that,
/// each rounded toward zero.
#[verifier::rlimit(50)]
pub proof fn channels_add_up(a: ApuState, enable: [bool; 4], volume: u8)
    requires
        a.psg_master_volume <= 2,
    ensures
        ({
            let sum = gated(enable[0], a.ch1.level()) + gated(enable[1], a.ch2.level()) + gated(
                enable[2],
                a.ch3.level(),
            ) + gated(enable[3], a.ch4.level());
            let side = bits::div_toward_zero(sum * (volume + 1), 8);
            let r = a.psg_mix(enable, volume);
            &&& a.psg_master_volume == 2 ==> r == side
            &&& a.psg_master_volume == 1 ==> r == bits::div_toward_zero(side, 2)
            &&& a.psg_master_volume == 0 ==> r == bits::div_toward_zero(side, 4)
        }),
{
    let sum = gated(enable[0], a.ch1.level()) + gated(enable[1], a.ch2.level()) + gated(
        enable[2],
        a.ch3.level(),
    ) + gated(enable[3], a.ch4.level());
    let side = bits::div_toward_zero(sum * (volume + 1), 8);
    assert(bits::div_toward_zero(side * 4, 4) == side);
    assert(bits::div_toward_zero(side * 2, 4) == bits::div_toward_zero(side, 2));
}

/// The sequencer steps 512 times a second through eight steps: lengths are
/// clocked on every other step, the sweep on every fourth and the envelopes on
/// one of the eight.
#[verifier::rlimit(50)]
pub proof fn sequencer_rates(a: ApuState)
    requires
        a.frame_seq_step < 8,
    ensures
        512 * CYCLES_PER_FRAME_SEQ == CPU_CLOCK_HZ,
        ({
            let b = a.sequencer_stepped();
            let s = a.frame_seq_step;
            &&& b.frame_seq_step == (s + 1) % 8
            &&& s % 2 == 0 ==> b.ch2 == a.ch2.after_length() && b.ch3 == a.ch3.after_length()
                && b.ch4 == a.ch4.after_length()
            &&& s % 4 == 0 ==> b.ch1 == a.ch1.after_length()
            &&& s % 4 == 2 ==> b.ch1 == a.ch1.after_length().sweep_clocked()
            &&& s == 7 ==> b.ch1 == a.ch1.after_envelope() && b.ch2 == a.ch2.after_envelope()
                && b.ch3 == a.ch3 && b.ch4 == a.ch4.after_envelope()
            &&& s % 2 == 1 && s != 7 ==> b.ch1 == a.ch1 && b.ch2 == a.ch2 && b.ch3 == a.ch3
                && b.ch4 == a.ch4
        }),
{
}

/// A queue's sample is heard whole or, rounded toward zero, at half.
#[verifier::rlimit(50)]
pub proof fn queue_volume(f: FifoState)
    ensures
        f.volume_full ==> f.sample() == f.current_sample,
        !f.volume_full ==> f.sample() == bits::div_toward_zero(f.current_sample as int, 2),
{
}

/// A timer's overflow plays the next sample of the queues that listen to it,
/// and a queue that is then at most half full asks for more.
#[verifier::rlimit(50)]
pub proof fn timers_play_samples(a: ApuState, id: u8)
    ensures
        ({
            let b = a.timer_overflowed(id);
            &&& a.fifo_a.timer_select == id ==> b.fifo_a == a.fifo_a.popped()
            &&& a.fifo_a.timer_select != id ==> b.fifo_a == a.fifo_a
            &&& a.fifo_b.timer_select == id ==> b.fifo_b == a.fifo_b.popped()
            &&& a.fifo_b.timer_select != id ==> b.fifo_b == a.fifo_b
            &&& a.refills(id).0 == (a.fifo_a.timer_select == id && 2 * b.fifo_a.queue.len() <= 32)
            &&& a.refills(id).1 == (a.fifo_b.timer_select == id && 2 * b.fifo_b.queue.len() <= 32)
        }),
{
}

/// A sample that goes out is the mean of what was mixed since the last one,
/// rounded toward zero, times 200, within 16 bits; the sums start over.
pub proof fn samples_are_means(a: ApuState)
    requires
        a.accum_count > 0,
        a.sample_buffer.len() < a.sample_buffer_max,
    ensures
        ({
            let e = a.emitted();
            let n = a.accum_count as int;
            let k = a.sample_buffer.len() as int;
            let l = 200 * bits::div_toward_zero(a.accum_left as int, n);
            let r = 200 * bits::div_toward_zero(a.accum_right as int, n);
            &&& e.sample_buffer.len() == k + 2
            &&& -0x8000 <= l <= 0x7FFF ==> e.sample_buffer[k] == l
            &&& l > 0x7FFF ==> e.sample_buffer[k] == 0x7FFF
            &&& l < -0x8000 ==> e.sample_buffer[k] == -0x8000
            &&& -0x8000 <= r <= 0x7FFF ==> e.sample_buffer[k + 1] == r
            &&& r > 0x7FFF ==> e.sample_buffer[k + 1] == 0x7FFF
            &&& r < -0x8000 ==> e.sample_buffer[k + 1] == -0x8000
            &&& e.accum_left == 0 && e.accum_right == 0 && e.accum_count == 0
        }),
{
}

} // verus!

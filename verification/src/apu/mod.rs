//! The sound unit: four programmable channels, two DMA channels, the mixer and
//! the decimation to the output sample rate.

use vstd::prelude::*;

use crate::bits::{self, bit16, le16};

use self::fifo::{FifoChannel, FifoState};
use self::psg::{Channel1, Channel2, Channel3, Channel4};

pub mod channels;
pub mod fifo;
pub mod laws;
pub mod mixing;
pub mod psg;
pub mod sound;

verus! {

broadcast use bits::group_and_bounds;

/// Output sample rate.
pub const OUTPUT_SAMPLE_RATE: u32 = 48_000;

/// The CPU clock. One APU tick is one CPU cycle.
pub const CPU_CLOCK_HZ: u32 = 16_777_216;

/// The frame sequencer runs at 512 Hz.
pub const CYCLES_PER_FRAME_SEQ: u32 = 32_768;

/// A bound on the magnitude of one mixed sample.
pub const MIX_LIMIT: i64 = 40_000;

/// The sound unit.
#[derive(Debug)]
pub struct Apu {
    pub ch1: Channel1,
    pub ch2: Channel2,
    pub ch3: Channel3,
    pub ch4: Channel4,
    pub fifo_a: FifoChannel,
    pub fifo_b: FifoChannel,
    pub master_enable: bool,
    pub psg_volume_right: u8,
    pub psg_volume_left: u8,
    pub psg_enable_right: [bool; 4],
    pub psg_enable_left: [bool; 4],
    /// 0 is a quarter, 1 half, anything else full volume.
    pub psg_master_volume: u8,
    pub bias_level: u16,
    pub frame_seq_step: u8,
    pub frame_seq_counter: u32,
    /// Grows by the output rate each cycle; one output sample is due each time
    /// it reaches the CPU clock.
    pub sample_frac: u64,
    pub accum_left: i64,
    pub accum_right: i64,
    pub accum_count: u32,
    pub lpf_left: [i32; 1],
    pub lpf_right: [i32; 1],
    /// Interleaved stereo output.
    pub sample_buffer: Vec<i16>,
    pub sample_buffer_max: usize,
}

/// What the sound unit holds.
#[verifier::ext_equal]
pub struct ApuState {
    pub ch1: Channel1,
    pub ch2: Channel2,
    pub ch3: Channel3,
    pub ch4: Channel4,
    pub fifo_a: FifoState,
    pub fifo_b: FifoState,
    pub master_enable: bool,
    pub psg_volume_right: u8,
    pub psg_volume_left: u8,
    pub psg_enable_right: [bool; 4],
    pub psg_enable_left: [bool; 4],
    pub psg_master_volume: u8,
    pub bias_level: u16,
    pub frame_seq_step: u8,
    pub frame_seq_counter: u32,
    pub sample_frac: u64,
    pub accum_left: i64,
    pub accum_right: i64,
    pub accum_count: u32,
    pub lpf_left: [i32; 1],
    pub lpf_right: [i32; 1],
    pub sample_buffer: Seq<i16>,
    pub sample_buffer_max: usize,
}

impl View for Apu {
    type V = ApuState;

    open spec fn view(&self) -> ApuState {
        ApuState {
            ch1: self.ch1,
            ch2: self.ch2,
            ch3: self.ch3,
            ch4: self.ch4,
            fifo_a: self.fifo_a@,
            fifo_b: self.fifo_b@,
            master_enable: self.master_enable,
            psg_volume_right: self.psg_volume_right,
            psg_volume_left: self.psg_volume_left,
            psg_enable_right: self.psg_enable_right,
            psg_enable_left: self.psg_enable_left,
            psg_master_volume: self.psg_master_volume,
            bias_level: self.bias_level,
            frame_seq_step: self.frame_seq_step,
            frame_seq_counter: self.frame_seq_counter,
            sample_frac: self.sample_frac,
            accum_left: self.accum_left,
            accum_right: self.accum_right,
            accum_count: self.accum_count,
            lpf_left: self.lpf_left,
            lpf_right: self.lpf_right,
            sample_buffer: self.sample_buffer@,
            sample_buffer_max: self.sample_buffer_max,
        }
    }
}

impl ApuState {
    /// The counters are in range, and the accumulators hold no more than the
    /// cycles since the last output sample can have added.
    pub open spec fn wf(self) -> bool {
        &&& self.ch1.wf()
        &&& self.ch2.wf()
        &&& self.ch3.wf()
        &&& self.ch4.wf()
        &&& self.frame_seq_step < 8
        &&& self.frame_seq_counter < CYCLES_PER_FRAME_SEQ
        &&& self.sample_frac < CPU_CLOCK_HZ
        &&& self.accum_count * OUTPUT_SAMPLE_RATE <= self.sample_frac
        &&& -(self.accum_count * MIX_LIMIT) <= self.accum_left <= self.accum_count * MIX_LIMIT
        &&& -(self.accum_count * MIX_LIMIT) <= self.accum_right <= self.accum_count * MIX_LIMIT
    }

    pub open spec fn power_on() -> ApuState {
        let quiet = FifoState {
            queue: Seq::empty(),
            current_sample: 0,
            timer_select: 0,
            enable_left: false,
            enable_right: false,
            volume_full: false,
        };
        ApuState {
            ch1: Channel1::silent(),
            ch2: Channel2::silent(),
            ch3: Channel3::silent(),
            ch4: Channel4::silent(),
            fifo_a: quiet,
            fifo_b: quiet,
            master_enable: false,
            psg_volume_right: 7,
            psg_volume_left: 7,
            psg_enable_right: bits::filled(false),
            psg_enable_left: bits::filled(false),
            psg_master_volume: 2,
            bias_level: 0x200,
            frame_seq_step: 0,
            frame_seq_counter: 0,
            sample_frac: 0,
            accum_left: 0,
            accum_right: 0,
            accum_count: 0,
            lpf_left: bits::filled(0),
            lpf_right: bits::filled(0),
            sample_buffer: Seq::empty(),
            sample_buffer_max: 16384,
        }
    }

    /// A timer overflow plays the next sample of the DMA channels on that
    /// timer.
    pub open spec fn timer_overflowed(self, timer_id: u8) -> ApuState {
        ApuState {
            fifo_a: if self.fifo_a.timer_select == timer_id {
                self.fifo_a.popped()
            } else {
                self.fifo_a
            },
            fifo_b: if self.fifo_b.timer_select == timer_id {
                self.fifo_b.popped()
            } else {
                self.fifo_b
            },
            ..self
        }
    }

    /// Which DMA channels a timer overflow leaves in need of a refill.
    pub open spec fn refills(self, timer_id: u8) -> (bool, bool) {
        let after = self.timer_overflowed(timer_id);
        (
            self.fifo_a.timer_select == timer_id && after.fifo_a.queue.len() <= 16,
            self.fifo_b.timer_select == timer_id && after.fifo_b.queue.len() <= 16,
        )
    }

    /// The unit after `value` was written to the sound register at `offset`
    /// from 0x0400_0060.
    pub open spec fn reg_written(self, offset: u16, value: u16) -> ApuState {
        if offset == 0x00 {
            ApuState { ch1: self.ch1.with_sweep(value), ..self }
        } else if offset == 0x02 {
            ApuState { ch1: self.ch1.with_duty(value), ..self }
        } else if offset == 0x04 {
            ApuState { ch1: self.ch1.with_control(value), ..self }
        } else if offset == 0x08 {
            ApuState { ch2: self.ch2.with_duty(value), ..self }
        } else if offset == 0x0C {
            ApuState { ch2: self.ch2.with_control(value), ..self }
        } else if offset == 0x10 {
            ApuState { ch3: self.ch3.with_bank(value), ..self }
        } else if offset == 0x12 {
            ApuState { ch3: self.ch3.with_volume(value), ..self }
        } else if offset == 0x14 {
            ApuState { ch3: self.ch3.with_control(value), ..self }
        } else if offset == 0x18 {
            ApuState { ch4: self.ch4.with_envelope(value), ..self }
        } else if offset == 0x1C {
            ApuState { ch4: self.ch4.with_control(value), ..self }
        } else if offset == 0x20 {
            self.with_panning(value)
        } else if offset == 0x22 {
            self.with_dma_sound(value)
        } else if offset == 0x24 {
            self.with_master(value)
        } else if offset == 0x28 {
            ApuState { bias_level: value & 0x3FF, ..self }
        } else if 0x30 <= offset <= 0x3F {
            ApuState { ch3: self.ch3.with_wave((offset - 0x30) * 2, value), ..self }
        } else if offset == 0x40 || offset == 0x42 {
            ApuState { fifo_a: self.fifo_a.pushed16(value), ..self }
        } else if offset == 0x44 || offset == 0x46 {
            ApuState { fifo_b: self.fifo_b.pushed16(value), ..self }
        } else {
            self
        }
    }

    /// SOUNDCNT_L: volume and panning of the four programmable channels.
    pub open spec fn with_panning(self, value: u16) -> ApuState {
        ApuState {
            psg_volume_right: (value & 7) as u8,
            psg_volume_left: ((value >> 4) & 7) as u8,
            psg_enable_right: [
                value & (1u16 << 8) != 0,
                value & (1u16 << 9) != 0,
                value & (1u16 << 10) != 0,
                value & (1u16 << 11) != 0,
            ],
            psg_enable_left: [
                value & (1u16 << 12) != 0,
                value & (1u16 << 13) != 0,
                value & (1u16 << 14) != 0,
                value & (1u16 << 15) != 0,
            ],
            ..self
        }
    }

    /// SOUNDCNT_H: volume, panning, timer and reset of the two DMA channels.
    pub open spec fn with_dma_sound(self, value: u16) -> ApuState {
        let a = FifoState {
            volume_full: value & (1u16 << 2) != 0,
            enable_right: value & (1u16 << 8) != 0,
            enable_left: value & (1u16 << 9) != 0,
            timer_select: ((value >> 10) & 1) as u8,
            ..self.fifo_a
        };
        let b = FifoState {
            volume_full: value & (1u16 << 3) != 0,
            enable_right: value & (1u16 << 12) != 0,
            enable_left: value & (1u16 << 13) != 0,
            timer_select: ((value >> 14) & 1) as u8,
            ..self.fifo_b
        };
        ApuState {
            psg_master_volume: (value & 3) as u8,
            fifo_a: if value & (1u16 << 11) != 0 {
                a.emptied()
            } else {
                a
            },
            fifo_b: if value & (1u16 << 15) != 0 {
                b.emptied()
            } else {
                b
            },
            ..self
        }
    }

    /// SOUNDCNT_X: the master switch. Turning it off stops the four
    /// programmable channels.
    pub open spec fn with_master(self, value: u16) -> ApuState {
        if value & (1u16 << 7) != 0 {
            ApuState { master_enable: true, ..self }
        } else {
            ApuState {
                master_enable: false,
                ch1: self.ch1.stopped(),
                ch2: self.ch2.stopped(),
                ch3: self.ch3.stopped(),
                ch4: self.ch4.stopped(),
                ..self
            }
        }
    }

    /// What the sound register at `offset` reads. Write-only fields read as
    /// zero.
    pub open spec fn reg(self, offset: u16) -> u16 {
        if offset == 0x00 {
            (self.ch1.sweep_shift as u16) | (bit16(self.ch1.sweep_negate) << 3) | ((
            self.ch1.sweep_period as u16) << 4)
        } else if offset == 0x02 {
            ((self.ch1.duty as u16) << 6) | ((self.ch1.envelope_period as u16) << 8) | (bit16(
                self.ch1.envelope_dir,
            ) << 11) | ((self.ch1.envelope_init as u16) << 12)
        } else if offset == 0x04 {
            self.ch1.frequency | (bit16(self.ch1.length_enabled) << 14)
        } else if offset == 0x08 {
            ((self.ch2.duty as u16) << 6) | ((self.ch2.envelope_period as u16) << 8) | (bit16(
                self.ch2.envelope_dir,
            ) << 11) | ((self.ch2.envelope_init as u16) << 12)
        } else if offset == 0x0C {
            self.ch2.frequency | (bit16(self.ch2.length_enabled) << 14)
        } else if offset == 0x20 {
            (self.psg_volume_right as u16 & 7) | ((self.psg_volume_left as u16 & 7) << 4) | (bit16(
                self.psg_enable_right[0],
            ) << 8) | (bit16(self.psg_enable_right[1]) << 9) | (bit16(self.psg_enable_right[2])
                << 10) | (bit16(self.psg_enable_right[3]) << 11) | (bit16(self.psg_enable_left[0])
                << 12) | (bit16(self.psg_enable_left[1]) << 13) | (bit16(self.psg_enable_left[2])
                << 14) | (bit16(self.psg_enable_left[3]) << 15)
        } else if offset == 0x22 {
            (self.psg_master_volume as u16 & 3) | (bit16(self.fifo_a.volume_full) << 2) | (bit16(
                self.fifo_b.volume_full,
            ) << 3) | (bit16(self.fifo_a.enable_right) << 8) | (bit16(self.fifo_a.enable_left)
                << 9) | ((self.fifo_a.timer_select as u16 & 1) << 10) | (bit16(
                self.fifo_b.enable_right,
            ) << 12) | (bit16(self.fifo_b.enable_left) << 13) | ((self.fifo_b.timer_select as u16
                & 1) << 14)
        } else if offset == 0x24 {
            bit16(self.ch1.enabled) | (bit16(self.ch2.enabled) << 1) | (bit16(self.ch3.enabled)
                << 2) | (bit16(self.ch4.enabled) << 3) | (bit16(self.master_enable) << 7)
        } else if offset == 0x28 {
            self.bias_level
        } else {
            0
        }
    }

    /// What the sound register at `offset` holds, whether or not it can be
    /// read; restart bits are not kept.
    pub open spec fn held(self, offset: u16) -> u16 {
        if offset == 0x02 {
            self.reg(0x02) | (self.ch1.length_load as u16 & 0x3F)
        } else if offset == 0x08 {
            self.reg(0x08) | (self.ch2.length_load as u16 & 0x3F)
        } else if offset == 0x10 {
            self.ch3.bank_held()
        } else if offset == 0x12 {
            self.ch3.volume_held()
        } else if offset == 0x14 {
            self.ch3.frequency | (bit16(self.ch3.length_enabled) << 14)
        } else if offset == 0x18 {
            self.ch4.envelope_held()
        } else if offset == 0x1C {
            self.ch4.control_held()
        } else if 0x30 <= offset <= 0x3E {
            self.ch3.wave_held((offset - 0x30) * 2)
        } else {
            self.reg(offset)
        }
    }
}

impl Apu {
    pub open spec fn wf(self) -> bool {
        &&& self@.wf()
        &&& self.fifo_a.wf()
        &&& self.fifo_b.wf()
    }

    /// Everything off, with room for 16384 output values.
    pub fn new() -> (apu: Apu)
        ensures
            apu.wf(),
            apu@ == ApuState::power_on(),
    {
        Apu {
            ch1: Channel1::new(),
            ch2: Channel2::new(),
            ch3: Channel3::new(),
            ch4: Channel4::new(),
            fifo_a: FifoChannel::new(),
            fifo_b: FifoChannel::new(),
            master_enable: false,
            psg_volume_right: 7,
            psg_volume_left: 7,
            psg_enable_right: [false;4],
            psg_enable_left: [false;4],
            psg_master_volume: 2,
            bias_level: 0x200,
            frame_seq_step: 0,
            frame_seq_counter: 0,
            sample_frac: 0,
            accum_left: 0,
            accum_right: 0,
            accum_count: 0,
            lpf_left: [0;1],
            lpf_right: [0;1],
            sample_buffer: Vec::with_capacity(8192),
            sample_buffer_max: 16384,
        }
    }

    /// Advances the DMA channels that timer `timer_id` drives. Returns which
    /// of the two need a refill.
    pub fn on_timer_overflow(&mut self, timer_id: u8) -> (refills: (bool, bool))
        requires
            old(self).wf(),
        ensures
            final(self).wf(),
            final(self)@ == old(self)@.timer_overflowed(timer_id),
            refills == old(self)@.refills(timer_id),
    {
        let mut fifo_a_refill = false;
        let mut fifo_b_refill = false;
        if self.fifo_a.timer_select == timer_id {
            fifo_a_refill = self.fifo_a.pop_sample();
        }
        if self.fifo_b.timer_select == timer_id {
            fifo_b_refill = self.fifo_b.pop_sample();
        }
        (fifo_a_refill, fifo_b_refill)
    }

    /// Moves as many output values as fit into `out`, oldest first. Returns
    /// how many.
    pub fn drain_samples(&mut self, out: &mut [i16]) -> (n: usize)
        requires
            old(self).wf(),
        ensures
            final(self).wf(),
            n == (if old(self)@.sample_buffer.len() <= old(out)@.len() {
                old(self)@.sample_buffer.len()
            } else {
                old(out)@.len()
            }),
            final(out)@ == old(self)@.sample_buffer.take(n as int) + old(out)@.skip(n as int),
            final(self)@ == (ApuState {
                sample_buffer: old(self)@.sample_buffer.skip(n as int),
                ..old(self)@
            }),
    {
        let available: usize = if self.sample_buffer.len() <= out.len() {
            self.sample_buffer.len()
        } else {
            out.len()
        };
        let ghost before = self.sample_buffer@;
        let ghost out_before = out@;
        let mut i: usize = 0;
        while i < available
            invariant
                i <= available <= before.len(),
                available <= out_before.len(),
                before == self.sample_buffer@,
                out@ == before.take(i as int) + out_before.skip(i as int),
            decreases available - i,
        {
            out[i] = self.sample_buffer[i];
            i = i + 1;
        }
        let rest = self.sample_buffer.split_off(available);
        self.sample_buffer = rest;
        available
    }

    fn write_panning(&mut self, value: u16)
        requires
            old(self).wf(),
        ensures
            final(self).wf(),
            final(self)@ == old(self)@.with_panning(value),
    {
        self.psg_volume_right = (value & 7) as u8;
        self.psg_volume_left = ((value >> 4) & 7) as u8;
        self.psg_enable_right =
        [
            value & (1u16 << 8) != 0,
            value & (1u16 << 9) != 0,
            value & (1u16 << 10) != 0,
            value & (1u16 << 11) != 0,
        ];
        self.psg_enable_left =
        [
            value & (1u16 << 12) != 0,
            value & (1u16 << 13) != 0,
            value & (1u16 << 14) != 0,
            value & (1u16 << 15) != 0,
        ];
    }

    fn write_dma_sound(&mut self, value: u16)
        requires
            old(self).wf(),
        ensures
            final(self).wf(),
            final(self)@ == old(self)@.with_dma_sound(value),
    {
        self.psg_master_volume = (value & 3) as u8;
        self.fifo_a.volume_full = value & (1u16 << 2) != 0;
        self.fifo_b.volume_full = value & (1u16 << 3) != 0;
        self.fifo_a.enable_right = value & (1u16 << 8) != 0;
        self.fifo_a.enable_left = value & (1u16 << 9) != 0;
        self.fifo_a.timer_select = ((value >> 10) & 1) as u8;
        if value & (1u16 << 11) != 0 {
            self.fifo_a.reset();
        }
        self.fifo_b.enable_right = value & (1u16 << 12) != 0;
        self.fifo_b.enable_left = value & (1u16 << 13) != 0;
        self.fifo_b.timer_select = ((value >> 14) & 1) as u8;
        if value & (1u16 << 15) != 0 {
            self.fifo_b.reset();
        }
    }

    fn write_master(&mut self, value: u16)
        requires
            old(self).wf(),
        ensures
            final(self).wf(),
            final(self)@ == old(self)@.with_master(value),
    {
        self.master_enable = value & (1u16 << 7) != 0;
        if !self.master_enable {
            self.ch1.stop();
            self.ch2.stop();
            self.ch3.stop();
            self.ch4.stop();
        }
    }

    /// Writes a sound register.
    pub fn write_reg(&mut self, offset: u16, value: u16)
        requires
            old(self).wf(),
        ensures
            final(self).wf(),
            final(self)@ == old(self)@.reg_written(offset, value),
    {
        match offset {
            0x00 => self.ch1.write_sweep(value),
            0x02 => self.ch1.write_duty(value),
            0x04 => self.ch1.write_control(value),
            0x08 => self.ch2.write_duty(value),
            0x0C => self.ch2.write_control(value),
            0x10 => self.ch3.write_bank(value),
            0x12 => self.ch3.write_volume(value),
            0x14 => self.ch3.write_control(value),
            0x18 => self.ch4.write_envelope(value),
            0x1C => self.ch4.write_control(value),
            0x20 => self.write_panning(value),
            0x22 => self.write_dma_sound(value),
            0x24 => self.write_master(value),
            0x28 => {
                self.bias_level = value & 0x3FF;
            },
            0x30..=0x3F => self.ch3.write_wave((offset - 0x30) as usize * 2, value),
            0x40 => self.fifo_a.write16(value),
            0x42 => self.fifo_a.write16(value),
            0x44 => self.fifo_b.write16(value),
            0x46 => self.fifo_b.write16(value),
            _ => {},
        }
    }

    /// What a sound register holds.
    pub fn held_reg(&self, offset: u16) -> (value: u16)
        ensures
            value == self@.held(offset),
    {
        match offset {
            0x02 => self.read_reg(0x02) | (self.ch1.length_load as u16 & 0x3F),
            0x08 => self.read_reg(0x08) | (self.ch2.length_load as u16 & 0x3F),
            0x10 => self.ch3.bank_held(),
            0x12 => self.ch3.volume_held(),
            0x14 => self.ch3.frequency | (bit16(self.ch3.length_enabled) << 14),
            0x18 => self.ch4.envelope_held(),
            0x1C => self.ch4.control_held(),
            0x30..=0x3E => {
                let idx: usize = (offset - 0x30) as usize * 2;
                le16(self.ch3.wave_ram[idx], self.ch3.wave_ram[idx + 1])
            },
            _ => self.read_reg(offset),
        }
    }

    /// Reads a sound register.
    pub fn read_reg(&self, offset: u16) -> (value: u16)
        ensures
            value == self@.reg(offset),
    {
        match offset {
            0x00 => {
                (self.ch1.sweep_shift as u16) | (bit16(self.ch1.sweep_negate) << 3) | ((
                self.ch1.sweep_period as u16) << 4)
            },
            0x02 => {
                ((self.ch1.duty as u16) << 6) | ((self.ch1.envelope_period as u16) << 8) | (bit16(
                    self.ch1.envelope_dir,
                ) << 11) | ((self.ch1.envelope_init as u16) << 12)
            },
            0x04 => self.ch1.frequency | (bit16(self.ch1.length_enabled) << 14),
            0x08 => {
                ((self.ch2.duty as u16) << 6) | ((self.ch2.envelope_period as u16) << 8) | (bit16(
                    self.ch2.envelope_dir,
                ) << 11) | ((self.ch2.envelope_init as u16) << 12)
            },
            0x0C => self.ch2.frequency | (bit16(self.ch2.length_enabled) << 14),
            0x20 => {
                (self.psg_volume_right as u16 & 7) | ((self.psg_volume_left as u16 & 7) << 4) | (
                bit16(self.psg_enable_right[0]) << 8) | (bit16(self.psg_enable_right[1]) << 9) | (
                bit16(self.psg_enable_right[2]) << 10) | (bit16(self.psg_enable_right[3]) << 11) | (
                bit16(self.psg_enable_left[0]) << 12) | (bit16(self.psg_enable_left[1]) << 13) | (
                bit16(self.psg_enable_left[2]) << 14) | (bit16(self.psg_enable_left[3]) << 15)
            },
            0x22 => {
                (self.psg_master_volume as u16 & 3) | (bit16(self.fifo_a.volume_full) << 2) | (
                bit16(self.fifo_b.volume_full) << 3) | (bit16(self.fifo_a.enable_right) << 8) | (
                bit16(self.fifo_a.enable_left) << 9) | ((self.fifo_a.timer_select as u16 & 1) << 10)
                    | (bit16(self.fifo_b.enable_right) << 12) | (bit16(self.fifo_b.enable_left)
                    << 13) | ((self.fifo_b.timer_select as u16 & 1) << 14)
            },
            0x24 => {
                bit16(self.ch1.enabled) | (bit16(self.ch2.enabled) << 1) | (bit16(
                    self.ch3.enabled,
                ) << 2) | (bit16(self.ch4.enabled) << 3) | (bit16(self.master_enable) << 7)
            },
            0x28 => self.bias_level,
            _ => 0,
        }
    }
}

} // verus!

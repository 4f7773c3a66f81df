//! The four programmable sound channels.
//!
//! Channel 1 is a square wave with frequency sweep and volume envelope,
//! channel 2 a square wave with envelope, channel 3 plays a sample table and
//! channel 4 is shift-register noise. A 512 Hz sequencer clocks the length
//! counters, the sweep and the envelopes.

use vstd::prelude::*;

use crate::bits;

verus! {

broadcast use bits::group_and_bounds;

/// Whether a square wave of the given duty (12.5%, 25%, 50%, 75%) is high at
/// step `pos` of its eight steps.
pub open spec fn duty_high(duty: u8, pos: u8) -> bool {
    let d = duty & 3;
    if d == 0 {
        pos == 7
    } else if d == 1 {
        pos == 0 || pos == 7
    } else if d == 2 {
        pos == 0 || 5 <= pos <= 7
    } else {
        1 <= pos <= 6
    }
}

fn duty_wave(duty: u8, pos: u8) -> (high: bool)
    ensures
        high == duty_high(duty, pos),
{
    match duty & 3 {
        0 => pos == 7,
        1 => pos == 0 || pos == 7,
        2 => pos == 0 || (5 <= pos && pos <= 7),
        _ => 1 <= pos && pos <= 6,
    }
}

/// A length counter after one clock: whether the channel is still enabled, and
/// the counter. The channel stops when a running counter reaches zero.
pub open spec fn length_clocked(enabled: bool, length_enabled: bool, counter: u16) -> (bool, u16) {
    if length_enabled && counter > 0 {
        (enabled && counter != 1, (counter - 1) as u16)
    } else {
        (enabled, counter)
    }
}

fn length_step(enabled: bool, length_enabled: bool, counter: u16) -> (r: (bool, u16))
    ensures
        r == length_clocked(enabled, length_enabled, counter),
{
    if length_enabled && counter > 0 {
        (enabled && counter != 1, counter - 1)
    } else {
        (enabled, counter)
    }
}

/// A volume envelope after one clock: timer and volume. The volume moves one
/// step, within 0 to 15, each time the timer runs out; period 0 holds it.
pub open spec fn envelope_clocked(period: u8, rising: bool, timer: u8, volume: u8) -> (u8, u8) {
    if period == 0 {
        (timer, volume)
    } else if timer > 1 {
        ((timer - 1) as u8, volume)
    } else if rising && volume < 15 {
        (period, (volume + 1) as u8)
    } else if !rising && volume > 0 {
        (period, (volume - 1) as u8)
    } else {
        (period, volume)
    }
}

fn envelope_step(period: u8, rising: bool, timer: u8, volume: u8) -> (r: (u8, u8))
    ensures
        r == envelope_clocked(period, rising, timer, volume),
{
    if period == 0 {
        (timer, volume)
    } else if timer > 1 {
        (timer - 1, volume)
    } else if rising && volume < 15 {
        (period, volume + 1)
    } else if !rising && volume > 0 {
        (period, volume - 1)
    } else {
        (period, volume)
    }
}

/// CPU cycles per duty step of a square channel: its audio frequency is
/// 131072 / (2048 - f) Hz in eight steps.
pub open spec fn square_period(frequency: u16) -> u32 {
    ((2048 - frequency) * 16) as u32
}

/// CPU cycles per sample of the wave channel: it plays 2097152 / (2048 - f)
/// samples per second.
pub open spec fn wave_period(frequency: u16) -> u32 {
    ((2048 - frequency) * 8) as u32
}

/// A square channel's timer and duty position after one cycle.
pub open spec fn square_clocked(frequency: u16, timer: u32, duty_pos: u8) -> (u32, u8) {
    if timer > 1 {
        ((timer - 1) as u32, duty_pos)
    } else {
        (square_period(frequency), ((duty_pos + 1) % 8) as u8)
    }
}

fn square_step(frequency: u16, timer: u32, duty_pos: u8) -> (r: (u32, u8))
    requires
        frequency <= 2048,
        duty_pos < 8,
    ensures
        r == square_clocked(frequency, timer, duty_pos),
{
    if timer > 1 {
        (timer - 1, duty_pos)
    } else {
        ((2048 - frequency as u32) * 16, (duty_pos + 1) % 8)
    }
}

/// Channel 1: square wave with sweep and envelope.
#[derive(Debug, Clone, Copy)]
pub struct Channel1 {
    pub enabled: bool,
    pub sweep_period: u8,
    pub sweep_negate: bool,
    pub sweep_shift: u8,
    pub sweep_timer: u8,
    pub sweep_shadow: u16,
    pub sweep_enabled: bool,
    pub duty: u8,
    pub length_load: u8,
    pub length_counter: u16,
    pub length_enabled: bool,
    pub envelope_init: u8,
    /// The envelope rises.
    pub envelope_dir: bool,
    pub envelope_period: u8,
    pub envelope_volume: u8,
    pub envelope_timer: u8,
    /// 11 bits.
    pub frequency: u16,
    pub timer: u32,
    pub duty_pos: u8,
}

impl Channel1 {
    pub open spec fn wf(self) -> bool {
        &&& self.frequency <= 2048
        &&& self.sweep_shadow <= 2048
        &&& self.sweep_shift < 16
        &&& self.duty_pos < 8
    }

    pub open spec fn silent() -> Channel1 {
        Channel1 {
            enabled: false,
            sweep_period: 0,
            sweep_negate: false,
            sweep_shift: 0,
            sweep_timer: 0,
            sweep_shadow: 0,
            sweep_enabled: false,
            duty: 0,
            length_load: 0,
            length_counter: 0,
            length_enabled: false,
            envelope_init: 0,
            envelope_dir: false,
            envelope_period: 0,
            envelope_volume: 0,
            envelope_timer: 0,
            frequency: 0,
            timer: 0,
            duty_pos: 0,
        }
    }

    pub fn new() -> (c: Channel1)
        ensures
            c == Channel1::silent(),
            c.wf(),
    {
        Channel1 {
            enabled: false,
            sweep_period: 0,
            sweep_negate: false,
            sweep_shift: 0,
            sweep_timer: 0,
            sweep_shadow: 0,
            sweep_enabled: false,
            duty: 0,
            length_load: 0,
            length_counter: 0,
            length_enabled: false,
            envelope_init: 0,
            envelope_dir: false,
            envelope_period: 0,
            envelope_volume: 0,
            envelope_timer: 0,
            frequency: 0,
            timer: 0,
            duty_pos: 0,
        }
    }

    /// The next sweep frequency: the shadow plus or minus its own shift. It
    /// counts modulo 2^16; above 2047 it is out of range.
    pub open spec fn next_frequency(self) -> int {
        let delta = self.sweep_shadow >> self.sweep_shift;
        if self.sweep_negate {
            (self.sweep_shadow - delta) % 0x1_0000
        } else {
            self.sweep_shadow + delta
        }
    }

    /// The channel after the range check of the sweep: out of range stops it.
    pub open spec fn sweep_checked(self) -> Channel1 {
        Channel1 { enabled: self.enabled && self.next_frequency() <= 2047, ..self }
    }

    fn calc_sweep_freq(&mut self) -> (new_freq: u16)
        requires
            old(self).wf(),
        ensures
            *final(self) == old(self).sweep_checked(),
            new_freq == old(self).next_frequency(),
            final(self).wf(),
    {
        let shadow: u16 = self.sweep_shadow;
        let shift: u8 = self.sweep_shift;
        let delta: u16 = shadow >> shift;
        proof {
            bits::shr_le(shadow, shift, 0, 0);
        }
        let new_freq: u16 = if self.sweep_negate {
            shadow.wrapping_sub(delta)
        } else {
            shadow + delta
        };
        if new_freq > 2047 {
            self.enabled = false;
        }
        new_freq
    }

    pub open spec fn triggered(self) -> Channel1 {
        let c = Channel1 {
            enabled: true,
            length_counter: if self.length_counter == 0 {
                64
            } else {
                self.length_counter
            },
            timer: square_period(self.frequency),
            envelope_volume: self.envelope_init,
            envelope_timer: self.envelope_period,
            sweep_shadow: self.frequency,
            sweep_timer: if self.sweep_period > 0 {
                self.sweep_period
            } else {
                8
            },
            sweep_enabled: self.sweep_period > 0 || self.sweep_shift > 0,
            ..self
        };
        let d = if c.sweep_shift > 0 {
            c.sweep_checked()
        } else {
            c
        };
        Channel1 { enabled: d.enabled && (d.envelope_init != 0 || d.envelope_dir), ..d }
    }

    /// Restarts the channel. An initial volume of zero on a falling envelope,
    /// and a first sweep step that is out of range, leave it off.
    pub fn trigger(&mut self)
        requires
            old(self).wf(),
        ensures
            *final(self) == old(self).triggered(),
            final(self).wf(),
    {
        self.enabled = true;
        if self.length_counter == 0 {
            self.length_counter = 64;
        }
        self.timer = (2048 - self.frequency as u32) * 16;
        self.envelope_volume = self.envelope_init;
        self.envelope_timer = self.envelope_period;
        self.sweep_shadow = self.frequency;
        self.sweep_timer = if self.sweep_period > 0 {
            self.sweep_period
        } else {
            8
        };
        self.sweep_enabled = self.sweep_period > 0 || self.sweep_shift > 0;
        if self.sweep_shift > 0 {
            let _ = self.calc_sweep_freq();
        }
        if self.envelope_init == 0 && !self.envelope_dir {
            self.enabled = false;
        }
    }

    pub open spec fn sweep_clocked(self) -> Channel1 {
        if self.sweep_timer > 1 {
            Channel1 { sweep_timer: (self.sweep_timer - 1) as u8, ..self }
        } else {
            let c = Channel1 {
                sweep_timer: if self.sweep_period > 0 {
                    self.sweep_period
                } else {
                    8
                },
                ..self
            };
            if c.sweep_enabled && c.sweep_period > 0 {
                let d = c.sweep_checked();
                let f = c.next_frequency();
                if f <= 2047 && c.sweep_shift > 0 {
                    Channel1 { sweep_shadow: f as u16, frequency: f as u16, ..d }.sweep_checked()
                } else {
                    d
                }
            } else {
                c
            }
        }
    }

    /// One sweep clock: each time its timer runs out the frequency takes the
    /// next sweep value, and the one after that is range-checked.
    pub fn clock_sweep(&mut self)
        requires
            old(self).wf(),
        ensures
            *final(self) == old(self).sweep_clocked(),
            final(self).wf(),
    {
        if self.sweep_timer > 0 {
            self.sweep_timer = self.sweep_timer - 1;
        }
        if self.sweep_timer == 0 {
            self.sweep_timer = if self.sweep_period > 0 {
                self.sweep_period
            } else {
                8
            };
            if self.sweep_enabled && self.sweep_period > 0 {
                let new_freq: u16 = self.calc_sweep_freq();
                if new_freq <= 2047 && self.sweep_shift > 0 {
                    self.sweep_shadow = new_freq;
                    self.frequency = new_freq;
                    let _ = self.calc_sweep_freq();
                }
            }
        }
    }

    pub open spec fn with_sweep(self, value: u16) -> Channel1 {
        Channel1 {
            sweep_shift: (value & 7) as u8,
            sweep_negate: value & (1u16 << 3) != 0,
            sweep_period: ((value >> 4) & 7) as u8,
            ..self
        }
    }

    /// The sweep register.
    pub fn write_sweep(&mut self, value: u16)
        requires
            old(self).wf(),
        ensures
            *final(self) == old(self).with_sweep(value),
            final(self).wf(),
    {
        self.sweep_shift = (value & 7) as u8;
        self.sweep_negate = value & (1u16 << 3) != 0;
        self.sweep_period = ((value >> 4) & 7) as u8;
    }

    pub open spec fn with_duty(self, value: u16) -> Channel1 {
        Channel1 {
            length_load: (value & 0x3F) as u8,
            duty: ((value >> 6) & 3) as u8,
            envelope_period: ((value >> 8) & 7) as u8,
            envelope_dir: value & (1u16 << 11) != 0,
            envelope_init: ((value >> 12) & 0xF) as u8,
            ..self
        }
    }

    /// The duty, length and envelope register.
    pub fn write_duty(&mut self, value: u16)
        ensures
            *final(self) == old(self).with_duty(value),
    {
        self.length_load = (value & 0x3F) as u8;
        self.duty = ((value >> 6) & 3) as u8;
        self.envelope_period = ((value >> 8) & 7) as u8;
        self.envelope_dir = value & (1u16 << 11) != 0;
        self.envelope_init = ((value >> 12) & 0xF) as u8;
    }

    pub open spec fn with_control(self, value: u16) -> Channel1 {
        let c = Channel1 {
            frequency: value & 0x7FF,
            length_enabled: value & (1u16 << 14) != 0,
            ..self
        };
        if value & (1u16 << 15) != 0 {
            c.triggered()
        } else {
            c
        }
    }

    /// The frequency and control register. Bit 15 restarts the channel.
    pub fn write_control(&mut self, value: u16)
        requires
            old(self).wf(),
        ensures
            *final(self) == old(self).with_control(value),
            final(self).wf(),
    {
        self.frequency = value & 0x7FF;
        self.length_enabled = value & (1u16 << 14) != 0;
        if value & (1u16 << 15) != 0 {
            self.trigger();
        }
    }

    pub open spec fn stopped(self) -> Channel1 {
        Channel1 { enabled: false, ..self }
    }

    /// Turns the channel off.
    pub fn stop(&mut self)
        ensures
            *final(self) == old(self).stopped(),
    {
        self.enabled = false;
    }

    pub open spec fn after_length(self) -> Channel1 {
        let r = length_clocked(self.enabled, self.length_enabled, self.length_counter);
        Channel1 { enabled: r.0, length_counter: r.1, ..self }
    }

    pub fn clock_length(&mut self)
        ensures
            *final(self) == old(self).after_length(),
    {
        let (enabled, counter) = length_step(
            self.enabled,
            self.length_enabled,
            self.length_counter,
        );
        self.enabled = enabled;
        self.length_counter = counter;
    }

    pub open spec fn after_envelope(self) -> Channel1 {
        let r = envelope_clocked(
            self.envelope_period,
            self.envelope_dir,
            self.envelope_timer,
            self.envelope_volume,
        );
        Channel1 { envelope_timer: r.0, envelope_volume: r.1, ..self }
    }

    pub fn clock_envelope(&mut self)
        ensures
            *final(self) == old(self).after_envelope(),
    {
        let (timer, volume) = envelope_step(
            self.envelope_period,
            self.envelope_dir,
            self.envelope_timer,
            self.envelope_volume,
        );
        self.envelope_timer = timer;
        self.envelope_volume = volume;
    }

    pub open spec fn after_tick(self) -> Channel1 {
        if self.enabled {
            let r = square_clocked(self.frequency, self.timer, self.duty_pos);
            Channel1 { timer: r.0, duty_pos: r.1, ..self }
        } else {
            self
        }
    }

    /// The channel after `n` CPU cycles.
    pub open spec fn after_ticks(self, n: nat) -> Channel1
        decreases n,
    {
        if n == 0 {
            self
        } else {
            self.after_ticks((n - 1) as nat).after_tick()
        }
    }

    /// Advances the channel by one CPU cycle and returns its sample.
    pub fn tick(&mut self) -> (sample: i16)
        requires
            old(self).wf(),
        ensures
            *final(self) == old(self).after_tick(),
            sample == final(self).level(),
            final(self).wf(),
    {
        if !self.enabled {
            return 0;
        }
        let (timer, duty_pos) = square_step(self.frequency, self.timer, self.duty_pos);
        self.timer = timer;
        self.duty_pos = duty_pos;
        self.output()
    }

    /// The channel's sample: plus or minus the envelope volume.
    pub open spec fn level(self) -> int {
        if !self.enabled {
            0
        } else if duty_high(self.duty, self.duty_pos) {
            self.envelope_volume as int
        } else {
            -(self.envelope_volume as int)
        }
    }

    pub fn output(&self) -> (sample: i16)
        ensures
            sample == self.level(),
    {
        if !self.enabled {
            return 0;
        }
        if duty_wave(self.duty, self.duty_pos) {
            self.envelope_volume as i16
        } else {
            -(self.envelope_volume as i16)
        }
    }
}

/// Channel 2: square wave with envelope.
#[derive(Debug, Clone, Copy)]
pub struct Channel2 {
    pub enabled: bool,
    pub duty: u8,
    pub length_load: u8,
    pub length_counter: u16,
    pub length_enabled: bool,
    pub envelope_init: u8,
    pub envelope_dir: bool,
    pub envelope_period: u8,
    pub envelope_volume: u8,
    pub envelope_timer: u8,
    pub frequency: u16,
    pub timer: u32,
    pub duty_pos: u8,
}

impl Channel2 {
    pub open spec fn wf(self) -> bool {
        &&& self.frequency <= 2048
        &&& self.duty_pos < 8
    }

    pub open spec fn silent() -> Channel2 {
        Channel2 {
            enabled: false,
            duty: 0,
            length_load: 0,
            length_counter: 0,
            length_enabled: false,
            envelope_init: 0,
            envelope_dir: false,
            envelope_period: 0,
            envelope_volume: 0,
            envelope_timer: 0,
            frequency: 0,
            timer: 0,
            duty_pos: 0,
        }
    }

    pub fn new() -> (c: Channel2)
        ensures
            c == Channel2::silent(),
            c.wf(),
    {
        Channel2 {
            enabled: false,
            duty: 0,
            length_load: 0,
            length_counter: 0,
            length_enabled: false,
            envelope_init: 0,
            envelope_dir: false,
            envelope_period: 0,
            envelope_volume: 0,
            envelope_timer: 0,
            frequency: 0,
            timer: 0,
            duty_pos: 0,
        }
    }

    pub open spec fn triggered(self) -> Channel2 {
        Channel2 {
            enabled: self.envelope_init != 0 || self.envelope_dir,
            length_counter: if self.length_counter == 0 {
                64
            } else {
                self.length_counter
            },
            timer: square_period(self.frequency),
            envelope_volume: self.envelope_init,
            envelope_timer: self.envelope_period,
            ..self
        }
    }

    pub fn trigger(&mut self)
        requires
            old(self).wf(),
        ensures
            *final(self) == old(self).triggered(),
            final(self).wf(),
    {
        self.enabled = true;
        if self.length_counter == 0 {
            self.length_counter = 64;
        }
        self.timer = (2048 - self.frequency as u32) * 16;
        self.envelope_volume = self.envelope_init;
        self.envelope_timer = self.envelope_period;
        if self.envelope_init == 0 && !self.envelope_dir {
            self.enabled = false;
        }
    }

    pub open spec fn with_duty(self, value: u16) -> Channel2 {
        Channel2 {
            length_load: (value & 0x3F) as u8,
            duty: ((value >> 6) & 3) as u8,
            envelope_period: ((value >> 8) & 7) as u8,
            envelope_dir: value & (1u16 << 11) != 0,
            envelope_init: ((value >> 12) & 0xF) as u8,
            ..self
        }
    }

    /// The duty, length and envelope register.
    pub fn write_duty(&mut self, value: u16)
        ensures
            *final(self) == old(self).with_duty(value),
    {
        self.length_load = (value & 0x3F) as u8;
        self.duty = ((value >> 6) & 3) as u8;
        self.envelope_period = ((value >> 8) & 7) as u8;
        self.envelope_dir = value & (1u16 << 11) != 0;
        self.envelope_init = ((value >> 12) & 0xF) as u8;
    }

    pub open spec fn with_control(self, value: u16) -> Channel2 {
        let c = Channel2 {
            frequency: value & 0x7FF,
            length_enabled: value & (1u16 << 14) != 0,
            ..self
        };
        if value & (1u16 << 15) != 0 {
            c.triggered()
        } else {
            c
        }
    }

    /// The frequency and control register. Bit 15 restarts the channel.
    pub fn write_control(&mut self, value: u16)
        requires
            old(self).wf(),
        ensures
            *final(self) == old(self).with_control(value),
            final(self).wf(),
    {
        self.frequency = value & 0x7FF;
        self.length_enabled = value & (1u16 << 14) != 0;
        if value & (1u16 << 15) != 0 {
            self.trigger();
        }
    }

    pub open spec fn stopped(self) -> Channel2 {
        Channel2 { enabled: false, ..self }
    }

    /// Turns the channel off.
    pub fn stop(&mut self)
        ensures
            *final(self) == old(self).stopped(),
    {
        self.enabled = false;
    }

    pub open spec fn after_length(self) -> Channel2 {
        let r = length_clocked(self.enabled, self.length_enabled, self.length_counter);
        Channel2 { enabled: r.0, length_counter: r.1, ..self }
    }

    pub fn clock_length(&mut self)
        ensures
            *final(self) == old(self).after_length(),
    {
        let (enabled, counter) = length_step(
            self.enabled,
            self.length_enabled,
            self.length_counter,
        );
        self.enabled = enabled;
        self.length_counter = counter;
    }

    pub open spec fn after_envelope(self) -> Channel2 {
        let r = envelope_clocked(
            self.envelope_period,
            self.envelope_dir,
            self.envelope_timer,
            self.envelope_volume,
        );
        Channel2 { envelope_timer: r.0, envelope_volume: r.1, ..self }
    }

    pub fn clock_envelope(&mut self)
        ensures
            *final(self) == old(self).after_envelope(),
    {
        let (timer, volume) = envelope_step(
            self.envelope_period,
            self.envelope_dir,
            self.envelope_timer,
            self.envelope_volume,
        );
        self.envelope_timer = timer;
        self.envelope_volume = volume;
    }

    pub open spec fn after_tick(self) -> Channel2 {
        if self.enabled {
            let r = square_clocked(self.frequency, self.timer, self.duty_pos);
            Channel2 { timer: r.0, duty_pos: r.1, ..self }
        } else {
            self
        }
    }

    /// The channel after `n` CPU cycles.
    pub open spec fn after_ticks(self, n: nat) -> Channel2
        decreases n,
    {
        if n == 0 {
            self
        } else {
            self.after_ticks((n - 1) as nat).after_tick()
        }
    }

    /// Advances the channel by one CPU cycle and returns its sample.
    pub fn tick(&mut self) -> (sample: i16)
        requires
            old(self).wf(),
        ensures
            *final(self) == old(self).after_tick(),
            sample == final(self).level(),
            final(self).wf(),
    {
        if !self.enabled {
            return 0;
        }
        let (timer, duty_pos) = square_step(self.frequency, self.timer, self.duty_pos);
        self.timer = timer;
        self.duty_pos = duty_pos;
        self.output()
    }

    /// The channel's sample: plus or minus the envelope volume.
    pub open spec fn level(self) -> int {
        if !self.enabled {
            0
        } else if duty_high(self.duty, self.duty_pos) {
            self.envelope_volume as int
        } else {
            -(self.envelope_volume as int)
        }
    }

    pub fn output(&self) -> (sample: i16)
        ensures
            sample == self.level(),
    {
        if !self.enabled {
            return 0;
        }
        if duty_wave(self.duty, self.duty_pos) {
            self.envelope_volume as i16
        } else {
            -(self.envelope_volume as i16)
        }
    }
}

/// Channel 3: a table of 4-bit samples in two banks of 16 bytes.
#[derive(Debug, Clone, Copy)]
#[verifier::ext_equal]
pub struct Channel3 {
    pub enabled: bool,
    pub dac_enabled: bool,
    pub length_load: u16,
    pub length_counter: u16,
    pub length_enabled: bool,
    /// 0 is mute, 1 full volume, 2 half, 3 a quarter.
    pub volume_code: u8,
    /// Three quarters volume, whatever the code.
    pub force_75: bool,
    pub frequency: u16,
    pub wave_ram: [u8; 32],
    pub bank_select: u8,
    /// Play both banks as one table of 64 samples.
    pub dimension: bool,
    pub timer: u32,
    pub sample_pos: u8,
}

impl Channel3 {
    pub open spec fn wf(self) -> bool {
        &&& self.frequency <= 2048
        &&& self.sample_pos < 64
    }

    pub open spec fn silent() -> Channel3 {
        Channel3 {
            enabled: false,
            dac_enabled: false,
            length_load: 0,
            length_counter: 0,
            length_enabled: false,
            volume_code: 0,
            force_75: false,
            frequency: 0,
            wave_ram: bits::filled(0),
            bank_select: 0,
            dimension: false,
            timer: 0,
            sample_pos: 0,
        }
    }

    pub fn new() -> (c: Channel3)
        ensures
            c == Channel3::silent(),
            c.wf(),
    {
        Channel3 {
            enabled: false,
            dac_enabled: false,
            length_load: 0,
            length_counter: 0,
            length_enabled: false,
            volume_code: 0,
            force_75: false,
            frequency: 0,
            wave_ram: [0;32],
            bank_select: 0,
            dimension: false,
            timer: 0,
            sample_pos: 0,
        }
    }

    pub open spec fn triggered(self) -> Channel3 {
        Channel3 {
            enabled: self.dac_enabled,
            length_counter: if self.length_counter == 0 {
                256
            } else {
                self.length_counter
            },
            timer: wave_period(self.frequency),
            sample_pos: 0,
            ..self
        }
    }

    pub fn trigger(&mut self)
        requires
            old(self).wf(),
        ensures
            *final(self) == old(self).triggered(),
            final(self).wf(),
    {
        self.enabled = self.dac_enabled;
        if self.length_counter == 0 {
            self.length_counter = 256;
        }
        self.timer = (2048 - self.frequency as u32) * 8;
        self.sample_pos = 0;
    }

    pub open spec fn after_tick(self) -> Channel3 {
        if !self.enabled || !self.dac_enabled {
            self
        } else if self.timer > 1 {
            Channel3 { timer: (self.timer - 1) as u32, ..self }
        } else {
            Channel3 {
                timer: wave_period(self.frequency),
                sample_pos: ((self.sample_pos + 1) % (if self.dimension {
                    64int
                } else {
                    32int
                })) as u8,
                ..self
            }
        }
    }

    /// The channel after `n` CPU cycles.
    pub open spec fn after_ticks(self, n: nat) -> Channel3
        decreases n,
    {
        if n == 0 {
            self
        } else {
            self.after_ticks((n - 1) as nat).after_tick()
        }
    }

    /// Advances the channel by one CPU cycle and returns its sample.
    pub fn tick(&mut self) -> (sample: i16)
        requires
            old(self).wf(),
        ensures
            *final(self) == old(self).after_tick(),
            sample == final(self).level(),
            final(self).wf(),
    {
        if !self.enabled || !self.dac_enabled {
            return 0;
        }
        if self.timer > 0 {
            self.timer = self.timer - 1;
        }
        if self.timer == 0 {
            self.timer = (2048 - self.frequency as u32) * 8;
            let total_samples: u8 = if self.dimension {
                64
            } else {
                32
            };
            self.sample_pos = (self.sample_pos + 1) % total_samples;
        }
        self.output()
    }

    /// Which nibble of the table plays: of the selected bank's 32, or of all 64
    /// when both banks play. Positions past the end wrap around.
    pub open spec fn nibble_index(self) -> int {
        if self.dimension {
            self.sample_pos as int % 64
        } else if self.bank_select == 0 {
            self.sample_pos as int % 32
        } else {
            32 + self.sample_pos as int % 32
        }
    }

    pub open spec fn nibble(self) -> u8 {
        let byte = self.wave_ram[self.nibble_index() / 2];
        if self.nibble_index() % 2 == 0 {
            (byte >> 4) & 0xF
        } else {
            byte & 0xF
        }
    }

    /// The channel's sample: the nibble at the channel's volume, centred.
    pub open spec fn level(self) -> int {
        let s = self.nibble();
        if !self.enabled || !self.dac_enabled {
            0
        } else if self.force_75 {
            (s * 3) / 4 - 8
        } else if self.volume_code == 0 {
            -8
        } else if self.volume_code == 2 {
            (s >> 1) - 8
        } else if self.volume_code == 3 {
            (s >> 2) - 8
        } else {
            s - 8
        }
    }

    pub fn output(&self) -> (sample: i16)
        requires
            self.wf(),
        ensures
            sample == self.level(),
    {
        if !self.enabled || !self.dac_enabled {
            return 0;
        }
        let pos: usize = if self.dimension {
            self.sample_pos as usize % 64
        } else if self.bank_select == 0 {
            self.sample_pos as usize % 32
        } else {
            32 + self.sample_pos as usize % 32
        };
        let byte: u8 = self.wave_ram[pos / 2];
        let sample: u8 = if pos % 2 == 0 {
            (byte >> 4) & 0xF
        } else {
            byte & 0xF
        };
        let shifted: u8 = match self.volume_code {
            0 => 0,
            1 => sample,
            2 => sample >> 1,
            3 => sample >> 2,
            _ => sample,
        };
        let shifted: u8 = if self.force_75 {
            (sample * 3) / 4
        } else {
            shifted
        };
        shifted as i16 - 8
    }

    pub open spec fn with_bank(self, value: u16) -> Channel3 {
        Channel3 {
            dimension: value & (1u16 << 5) != 0,
            bank_select: ((value >> 6) & 1) as u8,
            dac_enabled: value & (1u16 << 7) != 0,
            ..self
        }
    }

    /// The bank and enable register.
    pub fn write_bank(&mut self, value: u16)
        ensures
            *final(self) == old(self).with_bank(value),
    {
        self.dimension = value & (1u16 << 5) != 0;
        self.bank_select = ((value >> 6) & 1) as u8;
        self.dac_enabled = value & (1u16 << 7) != 0;
    }

    /// What the bank and enable register holds.
    #[verifier::allow_in_spec]
    pub fn bank_held(&self) -> u16
        returns
            (bits::bit16(self.dimension) << 5) | ((self.bank_select as u16 & 1) << 6) | (bits::bit16(
                self.dac_enabled,
            ) << 7),
    {
        (bits::bit16(self.dimension) << 5) | ((self.bank_select as u16 & 1) << 6) | (bits::bit16(
            self.dac_enabled,
        ) << 7)
    }

    /// What the length and volume register holds.
    #[verifier::allow_in_spec]
    pub fn volume_held(&self) -> u16
        returns
            (self.length_load & 0xFF) | ((self.volume_code as u16 & 3) << 13) | (bits::bit16(
                self.force_75,
            ) << 15),
    {
        (self.length_load & 0xFF) | ((self.volume_code as u16 & 3) << 13) | (bits::bit16(
            self.force_75,
        ) << 15)
    }

    pub open spec fn with_volume(self, value: u16) -> Channel3 {
        Channel3 {
            length_load: value & 0xFF,
            volume_code: ((value >> 13) & 3) as u8,
            force_75: value & (1u16 << 15) != 0,
            ..self
        }
    }

    /// The length and volume register.
    pub fn write_volume(&mut self, value: u16)
        ensures
            *final(self) == old(self).with_volume(value),
    {
        self.length_load = value & 0xFF;
        self.volume_code = ((value >> 13) & 3) as u8;
        self.force_75 = value & (1u16 << 15) != 0;
    }

    /// The two bytes of the table at `idx`.
    pub open spec fn wave_held(self, idx: int) -> u16 {
        bits::le16(self.wave_ram[idx], self.wave_ram[idx + 1])
    }

    pub open spec fn with_wave(self, idx: int, value: u16) -> Channel3 {
        if 0 <= idx < 31 {
            Channel3 {
                wave_ram: bits::upd(
                    bits::upd(self.wave_ram, idx, value as u8),
                    idx + 1,
                    (value >> 8) as u8,
                ),
                ..self
            }
        } else {
            self
        }
    }

    /// Two bytes of the sample table. Indices past its end are ignored.
    pub fn write_wave(&mut self, idx: usize, value: u16)
        ensures
            *final(self) == old(self).with_wave(idx as int, value),
    {
        if idx < 31 {
            self.wave_ram[idx] = value as u8;
            self.wave_ram[idx + 1] = (value >> 8) as u8;
        }
    }

    pub open spec fn with_control(self, value: u16) -> Channel3 {
        let c = Channel3 {
            frequency: value & 0x7FF,
            length_enabled: value & (1u16 << 14) != 0,
            ..self
        };
        if value & (1u16 << 15) != 0 {
            c.triggered()
        } else {
            c
        }
    }

    /// The frequency and control register. Bit 15 restarts the channel.
    pub fn write_control(&mut self, value: u16)
        requires
            old(self).wf(),
        ensures
            *final(self) == old(self).with_control(value),
            final(self).wf(),
    {
        self.frequency = value & 0x7FF;
        self.length_enabled = value & (1u16 << 14) != 0;
        if value & (1u16 << 15) != 0 {
            self.trigger();
        }
    }

    pub open spec fn stopped(self) -> Channel3 {
        Channel3 { enabled: false, ..self }
    }

    /// Turns the channel off.
    pub fn stop(&mut self)
        ensures
            *final(self) == old(self).stopped(),
    {
        self.enabled = false;
    }

    pub open spec fn after_length(self) -> Channel3 {
        let r = length_clocked(self.enabled, self.length_enabled, self.length_counter);
        Channel3 { enabled: r.0, length_counter: r.1, ..self }
    }

    pub fn clock_length(&mut self)
        ensures
            *final(self) == old(self).after_length(),
    {
        let (enabled, counter) = length_step(
            self.enabled,
            self.length_enabled,
            self.length_counter,
        );
        self.enabled = enabled;
        self.length_counter = counter;
    }
}

/// Channel 4: noise from a linear-feedback shift register.
#[derive(Debug, Clone, Copy)]
pub struct Channel4 {
    pub enabled: bool,
    pub length_load: u8,
    pub length_counter: u16,
    pub length_enabled: bool,
    pub envelope_init: u8,
    pub envelope_dir: bool,
    pub envelope_period: u8,
    pub envelope_volume: u8,
    pub envelope_timer: u8,
    pub clock_shift: u8,
    /// 7-bit register; otherwise 15-bit.
    pub width_mode: bool,
    pub divisor_code: u8,
    pub timer: u32,
    pub lfsr: u16,
}

proof fn noise_period_fits(d: u32, s: u8)
    by (bit_vector)
    requires
        d <= 112,
        s < 16,
    ensures
        d << s <= 112u32 << 15u32,
        112u32 << 15u32 == 3_670_016,
{
}

impl Channel4 {
    pub open spec fn wf(self) -> bool {
        self.clock_shift < 16
    }

    pub open spec fn silent() -> Channel4 {
        Channel4 {
            enabled: false,
            length_load: 0,
            length_counter: 0,
            length_enabled: false,
            envelope_init: 0,
            envelope_dir: false,
            envelope_period: 0,
            envelope_volume: 0,
            envelope_timer: 0,
            clock_shift: 0,
            width_mode: false,
            divisor_code: 0,
            timer: 0,
            lfsr: 0x7FFF,
        }
    }

    pub fn new() -> (c: Channel4)
        ensures
            c == Channel4::silent(),
            c.wf(),
    {
        Channel4 {
            enabled: false,
            length_load: 0,
            length_counter: 0,
            length_enabled: false,
            envelope_init: 0,
            envelope_dir: false,
            envelope_period: 0,
            envelope_volume: 0,
            envelope_timer: 0,
            clock_shift: 0,
            width_mode: false,
            divisor_code: 0,
            timer: 0,
            lfsr: 0x7FFF,
        }
    }

    #[verifier::allow_in_spec]
    pub fn divisor(&self) -> u32
        returns
            (if self.divisor_code & 7 == 0 {
                8u32
            } else {
                ((self.divisor_code & 7) * 16) as u32
            }),
    {
        match self.divisor_code & 7 {
            0 => 8,
            n => (n as u32) * 16,
        }
    }

    /// CPU cycles between two steps of the shift register.
    pub open spec fn period(self) -> u32 {
        ((self.divisor() << self.clock_shift) * 4) as u32
    }

    fn reload(&self) -> (timer: u32)
        requires
            self.wf(),
        ensures
            timer == self.period(),
    {
        let d: u32 = self.divisor();
        proof {
            noise_period_fits(d, self.clock_shift);
        }
        (d << self.clock_shift) * 4
    }

    pub open spec fn triggered(self) -> Channel4 {
        Channel4 {
            enabled: self.envelope_init != 0 || self.envelope_dir,
            length_counter: if self.length_counter == 0 {
                64
            } else {
                self.length_counter
            },
            timer: self.period(),
            envelope_volume: self.envelope_init,
            envelope_timer: self.envelope_period,
            lfsr: 0x7FFF,
            ..self
        }
    }

    pub fn trigger(&mut self)
        requires
            old(self).wf(),
        ensures
            *final(self) == old(self).triggered(),
            final(self).wf(),
    {
        self.enabled = true;
        if self.length_counter == 0 {
            self.length_counter = 64;
        }
        self.timer = self.reload();
        self.envelope_volume = self.envelope_init;
        self.envelope_timer = self.envelope_period;
        self.lfsr = 0x7FFF;
        if self.envelope_init == 0 && !self.envelope_dir {
            self.enabled = false;
        }
    }

    /// The shift register after one step: the two lowest bits feed bit 14 and,
    /// in 7-bit mode, bit 6.
    pub open spec fn lfsr_stepped(self) -> u16 {
        let feedback = (self.lfsr & 1) ^ ((self.lfsr >> 1) & 1);
        let next = (self.lfsr >> 1) | (feedback << 14);
        if self.width_mode {
            (next & !(1u16 << 6)) | (feedback << 6)
        } else {
            next
        }
    }

    pub open spec fn after_tick(self) -> Channel4 {
        if !self.enabled {
            self
        } else if self.timer > 1 {
            Channel4 { timer: (self.timer - 1) as u32, ..self }
        } else {
            Channel4 { timer: self.period(), lfsr: self.lfsr_stepped(), ..self }
        }
    }

    /// Advances the channel by one CPU cycle and returns its sample.
    pub fn tick(&mut self) -> (sample: i16)
        requires
            old(self).wf(),
        ensures
            *final(self) == old(self).after_tick(),
            sample == final(self).level(),
            final(self).wf(),
    {
        if !self.enabled {
            return 0;
        }
        if self.timer > 0 {
            self.timer = self.timer - 1;
        }
        if self.timer == 0 {
            self.timer = self.reload();
            let feedback: u16 = (self.lfsr & 1) ^ ((self.lfsr >> 1) & 1);
            let mut next: u16 = (self.lfsr >> 1) | (feedback << 14);
            if self.width_mode {
                next = (next & !(1u16 << 6)) | (feedback << 6);
            }
            self.lfsr = next;
        }
        self.output()
    }

    /// The channel's sample: plus or minus the envelope volume.
    pub open spec fn level(self) -> int {
        if !self.enabled {
            0
        } else if self.lfsr & 1 == 0 {
            self.envelope_volume as int
        } else {
            -(self.envelope_volume as int)
        }
    }

    pub fn output(&self) -> (sample: i16)
        ensures
            sample == self.level(),
    {
        if !self.enabled {
            return 0;
        }
        if self.lfsr & 1 == 0 {
            self.envelope_volume as i16
        } else {
            -(self.envelope_volume as i16)
        }
    }

    /// What the length and envelope register holds.
    #[verifier::allow_in_spec]
    pub fn envelope_held(&self) -> u16
        returns
            (self.length_load as u16 & 0x3F) | ((self.envelope_period as u16 & 7) << 8) | (
            bits::bit16(self.envelope_dir) << 11) | ((self.envelope_init as u16 & 0xF) << 12),
    {
        (self.length_load as u16 & 0x3F) | ((self.envelope_period as u16 & 7) << 8) | (bits::bit16(
            self.envelope_dir,
        ) << 11) | ((self.envelope_init as u16 & 0xF) << 12)
    }

    /// What the noise and control register holds.
    #[verifier::allow_in_spec]
    pub fn control_held(&self) -> u16
        returns
            (self.divisor_code as u16 & 7) | (bits::bit16(self.width_mode) << 3) | ((
            self.clock_shift as u16 & 0xF) << 4) | (bits::bit16(self.length_enabled) << 14),
    {
        (self.divisor_code as u16 & 7) | (bits::bit16(self.width_mode) << 3) | ((
        self.clock_shift as u16 & 0xF) << 4) | (bits::bit16(self.length_enabled) << 14)
    }

    pub open spec fn with_envelope(self, value: u16) -> Channel4 {
        Channel4 {
            length_load: (value & 0x3F) as u8,
            envelope_period: ((value >> 8) & 7) as u8,
            envelope_dir: value & (1u16 << 11) != 0,
            envelope_init: ((value >> 12) & 0xF) as u8,
            ..self
        }
    }

    /// The length and envelope register.
    pub fn write_envelope(&mut self, value: u16)
        ensures
            *final(self) == old(self).with_envelope(value),
    {
        self.length_load = (value & 0x3F) as u8;
        self.envelope_period = ((value >> 8) & 7) as u8;
        self.envelope_dir = value & (1u16 << 11) != 0;
        self.envelope_init = ((value >> 12) & 0xF) as u8;
    }

    pub open spec fn with_control(self, value: u16) -> Channel4 {
        let c = Channel4 {
            divisor_code: (value & 7) as u8,
            width_mode: value & (1u16 << 3) != 0,
            clock_shift: ((value >> 4) & 0xF) as u8,
            length_enabled: value & (1u16 << 14) != 0,
            ..self
        };
        if value & (1u16 << 15) != 0 {
            c.triggered()
        } else {
            c
        }
    }

    /// The noise and control register. Bit 15 restarts the channel.
    pub fn write_control(&mut self, value: u16)
        ensures
            *final(self) == old(self).with_control(value),
            final(self).wf(),
    {
        self.divisor_code = (value & 7) as u8;
        self.width_mode = value & (1u16 << 3) != 0;
        self.clock_shift = ((value >> 4) & 0xF) as u8;
        self.length_enabled = value & (1u16 << 14) != 0;
        if value & (1u16 << 15) != 0 {
            self.trigger();
        }
    }

    pub open spec fn stopped(self) -> Channel4 {
        Channel4 { enabled: false, ..self }
    }

    /// Turns the channel off.
    pub fn stop(&mut self)
        ensures
            *final(self) == old(self).stopped(),
    {
        self.enabled = false;
    }

    pub open spec fn after_length(self) -> Channel4 {
        let r = length_clocked(self.enabled, self.length_enabled, self.length_counter);
        Channel4 { enabled: r.0, length_counter: r.1, ..self }
    }

    pub fn clock_length(&mut self)
        ensures
            *final(self) == old(self).after_length(),
    {
        let (enabled, counter) = length_step(
            self.enabled,
            self.length_enabled,
            self.length_counter,
        );
        self.enabled = enabled;
        self.length_counter = counter;
    }

    pub open spec fn after_envelope(self) -> Channel4 {
        let r = envelope_clocked(
            self.envelope_period,
            self.envelope_dir,
            self.envelope_timer,
            self.envelope_volume,
        );
        Channel4 { envelope_timer: r.0, envelope_volume: r.1, ..self }
    }

    pub fn clock_envelope(&mut self)
        ensures
            *final(self) == old(self).after_envelope(),
    {
        let (timer, volume) = envelope_step(
            self.envelope_period,
            self.envelope_dir,
            self.envelope_timer,
            self.envelope_volume,
        );
        self.envelope_timer = timer;
        self.envelope_volume = volume;
    }
}

} // verus!

//! Checks on a machine that was put together from outside, such as one
//! restored from a save state: whether everything in it is in range.

use vstd::prelude::*;

use crate::apu::fifo::FifoChannel;
use crate::apu::{self, Apu};
use crate::backup::eeprom::{Eeprom, State};
use crate::backup::BackupMedia;
use crate::bus::Bus;
use crate::gba::{Gba, CLOCK_LIMIT};
use crate::rtc::Rtc;
use crate::timer::Timers;
use crate::trace::{Diagnostics, TRACE_RING_SIZE};

verus! {

impl FifoChannel {
    fn is_valid(&self) -> (b: bool)
        ensures
            b == self.wf(),
    {
        self.read_pos < 32 && self.count <= 32 && self.write_pos == (self.read_pos + self.count)
            % 32
    }
}

impl Apu {
    fn channels_valid(&self) -> (b: bool)
        ensures
            b == (self.ch1.wf() && self.ch2.wf() && self.ch3.wf() && self.ch4.wf()),
    {
        self.ch1.frequency <= 2048 && self.ch1.sweep_shadow <= 2048 && self.ch1.sweep_shift < 16
            && self.ch1.duty_pos < 8 && self.ch2.frequency <= 2048 && self.ch2.duty_pos < 8
            && self.ch3.frequency <= 2048 && self.ch3.sample_pos < 64 && self.ch4.clock_shift < 16
    }

    fn is_valid(&self) -> (b: bool)
        ensures
            b == self.wf(),
    {
        let count: u64 = self.accum_count as u64;
        assert(count * apu::OUTPUT_SAMPLE_RATE <= u64::MAX) by (nonlinear_arith)
            requires
                count <= 0xFFFF_FFFF,
                apu::OUTPUT_SAMPLE_RATE == 48_000,
        ;
        if self.sample_frac >= apu::CPU_CLOCK_HZ as u64 || count * apu::OUTPUT_SAMPLE_RATE as u64
            > self.sample_frac {
            return false;
        }
        let bound: i64 = self.accum_count as i64 * apu::MIX_LIMIT;
        self.channels_valid() && self.frame_seq_step < 8 && self.frame_seq_counter
            < apu::CYCLES_PER_FRAME_SEQ && -bound <= self.accum_left && self.accum_left <= bound
            && -bound <= self.accum_right && self.accum_right <= bound && self.fifo_a.is_valid()
            && self.fifo_b.is_valid()
    }
}

impl Eeprom {
    fn is_valid(&self) -> (b: bool)
        ensures
            b == self.wf(),
    {
        let framed = match self.state {
            State::CmdType => self.bits_in == 1,
            State::Address => self.bits_in < 63,
            _ => true,
        };
        self.addr_width < 64 && self.bits_in <= 64 && self.read_bits_left <= 68 && framed
    }
}

impl BackupMedia {
    fn is_valid(&self) -> (b: bool)
        ensures
            b == self.wf(),
    {
        match self {
            BackupMedia::Flash(f) => f.bank <= 1,
            BackupMedia::Eeprom(e) => e.is_valid(),
            _ => true,
        }
    }
}

impl Timers {
    fn is_valid(&self) -> (b: bool)
        ensures
            b == self.wf(),
    {
        self.timers[0].prescaler_counter < 1024 && self.timers[1].prescaler_counter < 1024
            && self.timers[2].prescaler_counter < 1024 && self.timers[3].prescaler_counter < 1024
    }
}

impl Rtc {
    fn is_valid(&self) -> (b: bool)
        ensures
            b == self.wf(),
    {
        self.in_bit_count < 8 && self.out_bit_count <= 8 && self.data_len <= 8 && self.data_idx <= 8
    }
}

impl Diagnostics {
    fn is_valid(&self) -> (b: bool)
        ensures
            b == self.wf(),
    {
        match &self.trace {
            Some(ring) => ring.entries.len() == TRACE_RING_SIZE && ring.head < TRACE_RING_SIZE,
            None => true,
        }
    }
}

impl Bus {
    /// Whether every memory has its size and the devices are in range.
    pub fn is_valid(&self) -> (b: bool)
        ensures
            b == self.wf(),
    {
        self.ewram.len() == 0x40000 && self.iwram.len() == 0x8000 && self.palette.len() == 0x400
            && self.vram.len() == 0x18000 && self.oam.len() == 0x400 && self.apu.is_valid()
            && self.backup.is_valid() && self.timers.is_valid() && self.rtc.is_valid()
            && self.diagnostics.is_valid()
    }
}

impl Gba {
    /// Whether the machine can run.
    pub fn is_valid(&self) -> (b: bool)
        ensures
            b == self.wf(),
    {
        self.bus.is_valid() && self.frame_buffer.len() == 38400 && self.target <= CLOCK_LIMIT
            && self.scheduler.timestamp() <= CLOCK_LIMIT + 64
    }
}

} // verus!

//! The DMA sound channels A and B.
//!
//! Each channel queues up to 32 signed 8-bit samples. A timer overflow plays
//! the next one; at half capacity or below the channel asks for a DMA refill.

use vstd::prelude::*;

verus! {

pub const FIFO_CAPACITY: usize = 32;

/// One DMA sound channel.
#[derive(Debug, Clone, Copy)]
pub struct FifoChannel {
    /// Circular buffer of samples.
    pub buffer: [i8; 32],
    pub read_pos: usize,
    pub write_pos: usize,
    pub count: usize,
    /// The sample being played, latched on a timer overflow.
    pub current_sample: i8,
    /// Which timer drives the channel: 0 or 1.
    pub timer_select: u8,
    pub enable_left: bool,
    pub enable_right: bool,
    /// Full volume; otherwise half.
    pub volume_full: bool,
}

/// What a channel holds: the queued samples in playing order, and its settings.
#[verifier::ext_equal]
pub struct FifoState {
    pub queue: Seq<i8>,
    pub current_sample: i8,
    pub timer_select: u8,
    pub enable_left: bool,
    pub enable_right: bool,
    pub volume_full: bool,
}

impl FifoState {
    /// The channel with `sample` queued, unless the queue is full.
    pub open spec fn pushed(self, sample: i8) -> FifoState {
        if self.queue.len() < FIFO_CAPACITY {
            FifoState { queue: self.queue.push(sample), ..self }
        } else {
            self
        }
    }

    pub open spec fn pushed16(self, value: u16) -> FifoState {
        self.pushed((value as u8) as i8).pushed(((value >> 8) as u8) as i8)
    }

    pub open spec fn pushed32(self, value: u32) -> FifoState {
        self.pushed((value as u8) as i8).pushed(((value >> 8) as u8) as i8).pushed(
            ((value >> 16) as u8) as i8,
        ).pushed(((value >> 24) as u8) as i8)
    }

    /// The channel after a timer overflow: the oldest sample plays, and an
    /// empty queue repeats the last one.
    pub open spec fn popped(self) -> FifoState {
        if self.queue.len() > 0 {
            FifoState { queue: self.queue.drop_first(), current_sample: self.queue[0], ..self }
        } else {
            self
        }
    }

    pub open spec fn emptied(self) -> FifoState {
        FifoState { queue: Seq::empty(), current_sample: 0, ..self }
    }

    /// The sample at the channel's volume. Halving rounds toward zero.
    pub open spec fn sample(self) -> int {
        if self.volume_full {
            self.current_sample as int
        } else if self.current_sample >= 0 {
            self.current_sample as int / 2
        } else {
            -((-(self.current_sample as int)) / 2)
        }
    }
}

impl View for FifoChannel {
    type V = FifoState;

    open spec fn view(&self) -> FifoState {
        FifoState {
            queue: Seq::new(
                self.count as nat,
                |i: int| self.buffer[(self.read_pos + i) % 32],
            ),
            current_sample: self.current_sample,
            timer_select: self.timer_select,
            enable_left: self.enable_left,
            enable_right: self.enable_right,
            volume_full: self.volume_full,
        }
    }
}

impl FifoChannel {
    pub open spec fn wf(self) -> bool {
        &&& self.read_pos < 32
        &&& self.count <= 32
        &&& self.write_pos == (self.read_pos + self.count) % 32
    }

    /// An empty, disabled channel.
    pub fn new() -> (f: FifoChannel)
        ensures
            f.wf(),
            f@ == (FifoState {
                queue: Seq::empty(),
                current_sample: 0,
                timer_select: 0,
                enable_left: false,
                enable_right: false,
                volume_full: false,
            }),
    {
        FifoChannel {
            buffer: [0;32],
            read_pos: 0,
            write_pos: 0,
            count: 0,
            current_sample: 0,
            timer_select: 0,
            enable_left: false,
            enable_right: false,
            volume_full: false,
        }
    }

    /// Empties the queue and silences the channel.
    pub fn reset(&mut self)
        ensures
            final(self).wf(),
            final(self)@ == old(self)@.emptied(),
    {
        self.read_pos = 0;
        self.write_pos = 0;
        self.count = 0;
        self.current_sample = 0;
    }

    fn push(&mut self, sample: i8)
        requires
            old(self).wf(),
        ensures
            final(self).wf(),
            final(self)@ == old(self)@.pushed(sample),
    {
        if self.count < FIFO_CAPACITY {
            self.buffer[self.write_pos] = sample;
            self.write_pos = (self.write_pos + 1) % FIFO_CAPACITY;
            self.count = self.count + 1;
        }
    }

    /// Queues the two samples of a halfword, low byte first.
    pub fn write16(&mut self, value: u16)
        requires
            old(self).wf(),
        ensures
            final(self).wf(),
            final(self)@ == old(self)@.pushed16(value),
    {
        self.push((value as u8) as i8);
        self.push(((value >> 8) as u8) as i8);
    }

    /// Queues the four samples of a word, low byte first. Samples that find
    /// the queue full are dropped.
    pub fn write32(&mut self, value: u32)
        requires
            old(self).wf(),
        ensures
            final(self).wf(),
            final(self)@ == old(self)@.pushed32(value),
    {
        self.push((value as u8) as i8);
        self.push(((value >> 8) as u8) as i8);
        self.push(((value >> 16) as u8) as i8);
        self.push(((value >> 24) as u8) as i8);
    }

    /// Plays the next sample. Returns whether the channel needs a refill: 16
    /// or fewer samples are left.
    pub fn pop_sample(&mut self) -> (refill: bool)
        requires
            old(self).wf(),
        ensures
            final(self).wf(),
            final(self)@ == old(self)@.popped(),
            refill == (final(self)@.queue.len() <= 16),
    {
        if self.count > 0 {
            self.current_sample = self.buffer[self.read_pos];
            self.read_pos = (self.read_pos + 1) % FIFO_CAPACITY;
            self.count = self.count - 1;
        }
        self.count <= 16
    }

    /// The current sample at the channel's volume.
    pub fn output(&self) -> (sample: i16)
        ensures
            sample == self@.sample(),
    {
        let sample: i16 = self.current_sample as i16;
        if self.volume_full {
            sample
        } else if sample >= 0 {
            sample / 2
        } else {
            -((-sample) / 2)
        }
    }

    /// How many samples are queued.
    pub fn len(&self) -> (n: usize)
        ensures
            n == self@.queue.len(),
    {
        self.count
    }
}

/// Samples come out in the order in which they went in: a word written to a
/// queue with room for it plays its four bytes from the lowest up, after
/// everything that was queued before.
pub proof fn fifo_plays_in_order(f: FifoState, value: u32)
    requires
        f.queue.len() + 4 <= FIFO_CAPACITY,
    ensures
        f.pushed32(value).queue == f.queue + seq![
            (value as u8) as i8,
            ((value >> 8) as u8) as i8,
            ((value >> 16) as u8) as i8,
            ((value >> 24) as u8) as i8,
        ],
        f.queue.len() > 0 ==> f.pushed32(value).popped().current_sample == f.queue[0],
        f.queue.len() == 0 ==> f.pushed32(value).popped().current_sample == (value as u8) as i8,
{
}

/// The queue never holds more than its capacity, and a refill of four words is
/// lost to nobody: after a pop that asks for one there is room for all of it.
pub proof fn fifo_refill_fits(f: FifoState, a: u32, b: u32, c: u32, d: u32)
    requires
        f.queue.len() <= FIFO_CAPACITY,
    ensures
        f.pushed32(a).queue.len() <= FIFO_CAPACITY,
        f.popped().queue.len() <= 16 ==> f.popped().pushed32(a).pushed32(b).pushed32(c).pushed32(
            d,
        ).queue.len() == f.popped().queue.len() + 16,
{
}

} // verus!

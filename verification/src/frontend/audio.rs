//! The buffer between the machine, which produces samples in bursts, and the
//! sound device, which consumes them at a steady rate.

use vstd::prelude::*;

verus! {

/// How many samples the buffer keeps at most.
pub const BUFFER_CAP: usize = 8192;

/// Above this level the machine starts to wait for the device.
pub const BUFFER_HIGH: usize = 6144;

/// The level of a fresh buffer, and the one that a waiting machine waits for.
pub const BUFFER_TARGET: usize = 3072;

/// The samples that wait to be played.
#[derive(Debug)]
pub struct AudioBuffer {
    pub samples: Vec<i16>,
}

/// `n` silent samples.
pub open spec fn silence(n: nat) -> Seq<i16> {
    Seq::new(n, |i: int| 0i16)
}

/// The last samples of `s`, as many as the buffer keeps.
pub open spec fn newest(s: Seq<i16>) -> Seq<i16> {
    if s.len() > BUFFER_CAP {
        s.skip(s.len() - BUFFER_CAP)
    } else {
        s
    }
}

/// The smaller of two lengths.
pub open spec fn shorter(a: nat, b: nat) -> nat {
    if a <= b {
        a
    } else {
        b
    }
}

impl View for AudioBuffer {
    type V = Seq<i16>;

    open spec fn view(&self) -> Seq<i16> {
        self.samples@
    }
}

impl AudioBuffer {
    /// A buffer of silence, so that the device has something to play before
    /// the first samples arrive.
    pub fn new() -> (b: AudioBuffer)
        ensures
            b@ == silence(BUFFER_TARGET as nat),
    {
        let samples: Vec<i16> = vec![0i16; BUFFER_TARGET];
        assert(samples@ =~= silence(BUFFER_TARGET as nat));
        AudioBuffer { samples }
    }

    /// Adds samples. Where the buffer overflows, the oldest ones go.
    pub fn push_samples(&mut self, samples: &[i16])
        ensures
            final(self)@ == newest(old(self)@ + samples@),
    {
        let ghost before = self@;
        let mut i: usize = 0;
        while i < samples.len()
            invariant
                i <= samples@.len(),
                self@ == before + samples@.take(i as int),
            decreases samples@.len() - i,
        {
            self.samples.push(samples[i]);
            assert(samples@.take(i + 1) =~= samples@.take(i as int).push(samples@[i as int]));
            i = i + 1;
        }
        assert(samples@.take(samples@.len() as int) =~= samples@);
        let n: usize = self.samples.len();
        if n > BUFFER_CAP {
            let ghost all = self@;
            let kept = self.samples.split_off(n - BUFFER_CAP);
            assert(kept@ =~= all.skip(all.len() - BUFFER_CAP));
            self.samples = kept;
        }
    }

    /// How many samples wait.
    pub fn level(&self) -> (n: usize)
        ensures
            n == self@.len(),
    {
        self.samples.len()
    }

    /// Hands the oldest samples to the device, and silence where there are not
    /// enough.
    pub fn fill(&mut self, out: &mut [i16])
        ensures
            final(out)@.len() == old(out)@.len(),
            ({
                let n = shorter(old(self)@.len(), old(out)@.len());
                &&& final(out)@ == old(self)@.take(n as int) + silence(
                    (old(out)@.len() - n) as nat,
                )
                &&& final(self)@ == old(self)@.skip(n as int)
            }),
    {
        let len: usize = out.len();
        let available: usize = if self.samples.len() <= len {
            self.samples.len()
        } else {
            len
        };
        let ghost before = self@;
        let mut i: usize = 0;
        while i < len
            invariant
                i <= len,
                len == out@.len(),
                available <= len,
                available <= self.samples@.len(),
                self@ == before,
                forall|j: int|
                    0 <= j < i ==> #[trigger] out@[j] == (if j < available {
                        before[j]
                    } else {
                        0
                    }),
            decreases len - i,
        {
            out[i] =
            if i < available {
                self.samples[i]
            } else {
                0
            };
            i = i + 1;
        }
        assert(out@ =~= before.take(available as int) + silence((len - available) as nat));
        let rest = self.samples.split_off(available);
        assert(rest@ =~= before.skip(available as int));
        self.samples = rest;
    }
}

/// Whether the machine has to wait for the device. It starts to when the buffer
/// is high and goes on until the buffer has drained to its target level.
pub fn must_wait(level: usize, waiting: bool) -> (wait: bool)
    ensures
        wait == (level > (if waiting {
            BUFFER_TARGET
        } else {
            BUFFER_HIGH
        })),
{
    if waiting {
        level > BUFFER_TARGET
    } else {
        level > BUFFER_HIGH
    }
}

/// What was pushed is played, in order: a request for no more than what the
/// buffer holds gives its oldest samples, and the rest follows.
pub proof fn samples_play_in_order(held: Seq<i16>, new: Seq<i16>, n: nat)
    requires
        held.len() + new.len() <= BUFFER_CAP,
        n <= held.len() + new.len(),
    ensures
        newest(held + new).take(n as int) + newest(held + new).skip(n as int) == held + new,
{
    let s = held + new;
    assert(s.take(n as int) + s.skip(n as int) =~= s);
}

/// The buffer never holds more than its capacity, and keeps the newest sample.
pub proof fn buffer_is_bounded(held: Seq<i16>, new: Seq<i16>)
    ensures
        newest(held + new).len() <= BUFFER_CAP,
        new.len() > 0 ==> newest(held + new).last() == new.last(),
{
}

} // verus!

//! What load, store and block-transfer instructions of both instruction sets
//! share.

use vstd::prelude::*;

use crate::bits::{self, ror32, sign16, sign8};
use crate::bus::{Bus, BusState};

use super::Cpu;

verus! {

broadcast use bits::group_and_bounds;

/// What an instruction did: the processor and the bus after it, and the cycles
/// it took.
pub type Outcome = (Cpu, BusState, u32);

impl BusState {
    /// A word load: an unaligned address rotates the word.
    pub open spec fn load_word(self, addr: u32) -> (u32, BusState) {
        let r = self.read32(addr);
        (ror32(r.0, ((addr & 3) * 8) as u32), r.1)
    }

    /// A byte load with sign extension.
    pub open spec fn load_signed_byte(self, addr: u32) -> (u32, BusState) {
        let r = self.read8(addr);
        (sign8(r.0), r.1)
    }

    /// A halfword load with sign extension; from an odd address, a byte.
    pub open spec fn load_signed_half(self, addr: u32) -> (u32, BusState) {
        if addr & 1 != 0 {
            self.load_signed_byte(addr)
        } else {
            let r = self.read16(addr);
            (sign16(r.0), r.1)
        }
    }
}

impl Bus {
    pub fn load_word(&mut self, addr: u32) -> (val: u32)
        requires
            old(self).wf(),
        ensures
            final(self).wf(),
            (val, final(self)@) == old(self)@.load_word(addr),
    {
        let val: u32 = self.read32(addr);
        ror32(val, (addr & 3) * 8)
    }

    pub fn load_signed_byte(&mut self, addr: u32) -> (val: u32)
        requires
            old(self).wf(),
        ensures
            final(self).wf(),
            (val, final(self)@) == old(self)@.load_signed_byte(addr),
    {
        sign8(self.read8(addr))
    }

    pub fn load_signed_half(&mut self, addr: u32) -> (val: u32)
        requires
            old(self).wf(),
        ensures
            final(self).wf(),
            (val, final(self)@) == old(self)@.load_signed_half(addr),
    {
        if addr & 1 != 0 {
            self.load_signed_byte(addr)
        } else {
            sign16(self.read16(addr))
        }
    }
}

/// Whether register `i` is in a register list.
#[verifier::allow_in_spec]
pub fn listed(rlist: u16, i: u8) -> bool
    requires
        i < 16,
    returns
        rlist & (1u16 << i) != 0,
{
    rlist & (1u16 << i) != 0
}

/// How many of the first `n` registers are in the list.
pub open spec fn listed_below(rlist: u16, n: nat) -> nat
    decreases n,
{
    if n == 0 {
        0
    } else {
        listed_below(rlist, (n - 1) as nat) + (if listed(rlist, (n - 1) as u8) { 1nat } else { 0 })
    }
}

/// The number of registers among the first `n` of a list.
pub fn count_listed(rlist: u16, n: u8) -> (count: u32)
    requires
        n <= 16,
    ensures
        count == listed_below(rlist, n as nat),
        count <= n,
{
    let mut count: u32 = 0;
    let mut i: u8 = 0;
    while i < n
        invariant
            i <= n,
            n <= 16,
            count == listed_below(rlist, i as nat),
            count <= i,
        decreases n - i,
    {
        if listed(rlist, i) {
            count = count + 1;
        }
        i = i + 1;
    }
    count
}

/// `addr` moved up by `n` words, modulo 2^32.
pub open spec fn words_up(addr: u32, n: nat) -> u32
    decreases n,
{
    if n == 0 {
        addr
    } else {
        words_up(addr, (n - 1) as nat).wrapping_add(4)
    }
}

/// The bus after those of the first `n` registers that are listed were stored
/// from `addr` upward, lowest register first. `vals` gives the value that each
/// register stores.
pub open spec fn block_stored(
    b: BusState,
    vals: spec_fn(int) -> u32,
    rlist: u16,
    addr: u32,
    n: nat,
) -> BusState
    decreases n,
{
    if n == 0 {
        b
    } else {
        let m = (n - 1) as nat;
        let t = block_stored(b, vals, rlist, addr, m);
        if listed(rlist, m as u8) {
            t.write32(words_up(addr, listed_below(rlist, m)), vals(m as int))
        } else {
            t
        }
    }
}

/// Processor and bus after those of the first `n` registers that are listed
/// were loaded from `addr` upward, lowest register first. `put` says what
/// loading a value into a register does.
pub open spec fn block_loaded(
    c: Cpu,
    b: BusState,
    put: spec_fn(Cpu, int, u32) -> Cpu,
    rlist: u16,
    addr: u32,
    n: nat,
) -> (Cpu, BusState)
    decreases n,
{
    if n == 0 {
        (c, b)
    } else {
        let m = (n - 1) as nat;
        let t = block_loaded(c, b, put, rlist, addr, m);
        if listed(rlist, m as u8) {
            let r = t.1.read32(words_up(addr, listed_below(rlist, m)));
            (put(t.0, m as int, r.0), r.1)
        } else {
            t
        }
    }
}

} // verus!

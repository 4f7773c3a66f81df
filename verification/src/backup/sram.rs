//! Battery-backed static RAM, 32 KB.

use vstd::prelude::*;

use crate::bits;

verus! {

broadcast use bits::group_and_bounds;

pub const SRAM_SIZE: usize = 32768;

#[derive(Debug)]
pub struct Sram {
    pub data: Vec<u8>,
}

impl View for Sram {
    type V = Seq<u8>;

    open spec fn view(&self) -> Seq<u8> {
        self.data@
    }
}

/// What address `addr` reads; the chip repeats every 32 KB.
pub open spec fn sram_read(data: Seq<u8>, addr: u32) -> u8 {
    if (addr & 0x7FFF) < data.len() {
        data[(addr & 0x7FFF) as int]
    } else {
        0xFF
    }
}

/// The contents after `val` was written to `addr`.
pub open spec fn sram_written(data: Seq<u8>, addr: u32, val: u8) -> Seq<u8> {
    if (addr & 0x7FFF) < data.len() {
        data.update((addr & 0x7FFF) as int, val)
    } else {
        data
    }
}

impl Sram {
    /// An erased chip.
    pub fn new() -> (s: Sram)
        ensures
            s@ == Seq::new(SRAM_SIZE as nat, |i: int| 0xFFu8),
    {
        let data: Vec<u8> = vec![0xFF; SRAM_SIZE];
        assert(data@ =~= Seq::new(SRAM_SIZE as nat, |i: int| 0xFFu8));
        Sram { data }
    }

    pub fn read(&self, addr: u32) -> (val: u8)
        ensures
            val == sram_read(self@, addr),
    {
        let index: usize = (addr & 0x7FFF) as usize;
        if index < self.data.len() {
            self.data[index]
        } else {
            0xFF
        }
    }

    pub fn write(&mut self, addr: u32, val: u8)
        ensures
            final(self)@ == sram_written(old(self)@, addr, val),
    {
        let index: usize = (addr & 0x7FFF) as usize;
        if index < self.data.len() {
            self.data[index] = val;
        }
    }
}

/// A full-size chip reads back what was written, and a write changes no other
/// address.
pub proof fn sram_read_after_write(data: Seq<u8>, addr: u32, val: u8, other: u32)
    requires
        data.len() == SRAM_SIZE,
    ensures
        sram_read(sram_written(data, addr, val), addr) == val,
        other & 0x7FFF != addr & 0x7FFF ==> sram_read(sram_written(data, addr, val), other)
            == sram_read(data, other),
{
}

} // verus!

//! Cartridge wait states and the prefetch buffer.

use vstd::prelude::*;

use crate::bits;

verus! {

broadcast use bits::group_and_bounds;

/// Extra cycles per access, above the one that every access takes.
#[derive(Debug, Clone, Copy)]
#[verifier::ext_equal]
pub struct WaitTable {
    /// Non-sequential halfword accesses to the three ROM regions.
    pub rom_n16: [u32; 3],
    /// Sequential halfword accesses to the three ROM regions.
    pub rom_s16: [u32; 3],
    /// Accesses to the save memory.
    pub sram: u32,
    /// Whether the prefetch buffer is on.
    pub prefetch_enabled: bool,
}

/// Extra cycles of a first access: the field selects 4, 3, 2 or 8 in all.
#[verifier::allow_in_spec]
pub fn n_extra(field: u16) -> u32
    returns
        (if field & 3 == 0 {
            3u32
        } else if field & 3 == 1 {
            2u32
        } else if field & 3 == 2 {
            1u32
        } else {
            7u32
        }),
{
    match field & 3 {
        0 => 3,
        1 => 2,
        2 => 1,
        _ => 7,
    }
}

impl WaitTable {
    /// The table that a WAITCNT value selects.
    pub open spec fn for_waitcnt(waitcnt: u16) -> WaitTable {
        WaitTable {
            rom_n16: [n_extra(waitcnt >> 2), n_extra(waitcnt >> 5), n_extra(waitcnt >> 8)],
            rom_s16: [
                if waitcnt & (1u16 << 4) != 0 {
                    0u32
                } else {
                    1u32
                },
                if waitcnt & (1u16 << 7) != 0 {
                    0u32
                } else {
                    3u32
                },
                if waitcnt & (1u16 << 10) != 0 {
                    0u32
                } else {
                    7u32
                },
            ],
            sram: n_extra(waitcnt & 3),
            prefetch_enabled: waitcnt & (1u16 << 14) != 0,
        }
    }

    /// The table at reset.
    pub fn new() -> (t: WaitTable)
        ensures
            t == WaitTable::for_waitcnt(0),
    {
        let mut t = WaitTable {
            rom_n16: [0;3],
            rom_s16: [0;3],
            sram: 0,
            prefetch_enabled: false,
        };
        t.update(0);
        t
    }

    /// Recomputes the table for a WAITCNT value.
    pub fn update(&mut self, waitcnt: u16)
        ensures
            *final(self) == WaitTable::for_waitcnt(waitcnt),
    {
        self.rom_n16[0] = n_extra(waitcnt >> 2);
        self.rom_s16[0] = if waitcnt & (1u16 << 4) != 0 {
            0
        } else {
            1
        };
        self.rom_n16[1] = n_extra(waitcnt >> 5);
        self.rom_s16[1] = if waitcnt & (1u16 << 7) != 0 {
            0
        } else {
            3
        };
        self.rom_n16[2] = n_extra(waitcnt >> 8);
        self.rom_s16[2] = if waitcnt & (1u16 << 10) != 0 {
            0
        } else {
            7
        };
        self.sram = n_extra(waitcnt & 3);
        self.prefetch_enabled = waitcnt & (1u16 << 14) != 0;
    }

    /// Which of the three wait-state regions an address is in.
    #[verifier::allow_in_spec]
    pub fn rom_region(addr: u32) -> usize
        returns
            (if (addr >> 24) & 0x0F == 0x08 || (addr >> 24) & 0x0F == 0x09 {
                0usize
            } else if (addr >> 24) & 0x0F == 0x0A || (addr >> 24) & 0x0F == 0x0B {
                1usize
            } else {
                2usize
            }),
    {
        match (addr >> 24) & 0x0F {
            0x08 | 0x09 => 0,
            0x0A | 0x0B => 1,
            _ => 2,
        }
    }
}

/// The prefetch buffer: how many cycles it has run ahead, and whether it is
/// streaming.
#[derive(Debug, Clone, Copy, PartialEq, Eq, Structural)]
pub struct Prefetch {
    pub credit: u32,
    pub streaming: bool,
}

impl Prefetch {
    pub fn new() -> (p: Prefetch)
        ensures
            p == (Prefetch { credit: 0, streaming: false }),
    {
        Prefetch { credit: 0, streaming: false }
    }

    /// Lets a streaming buffer run ahead by `cycles`, up to `max_credit`.
    pub fn advance(&mut self, cycles: u32, max_credit: u32)
        ensures
            final(self).streaming == old(self).streaming,
            final(self).credit == (if !old(self).streaming {
                old(self).credit as int
            } else if old(self).credit + cycles <= max_credit {
                old(self).credit + cycles
            } else {
                max_credit as int
            }),
    {
        if self.streaming {
            let ahead: u64 = self.credit as u64 + cycles as u64;
            self.credit = if ahead <= max_credit as u64 {
                ahead as u32
            } else {
                max_credit
            };
        }
    }

    /// Empties the buffer and streams from a new point.
    pub fn restart(&mut self)
        ensures
            *final(self) == (Prefetch { credit: 0, streaming: true }),
    {
        self.credit = 0;
        self.streaming = true;
    }
}

} // verus!

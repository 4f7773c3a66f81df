//! Flash memory, 64 KB or 128 KB in two banks.
//!
//! Commands are three writes: 0xAA to 0x5555, 0x55 to 0x2AAA, then the command
//! to 0x5555: 0x90 enters identification, 0xF0 leaves it, 0x80 prepares an
//! erase (a second sequence ends in 0x10 for the chip or 0x30 for a sector),
//! 0xA0 writes one byte, 0xB0 selects the bank of a 128 KB chip.

use vstd::prelude::*;

use crate::bits;

verus! {

broadcast use bits::group_and_bounds;

/// How far a command has come.
#[derive(Debug, Clone, Copy, PartialEq, Eq, Structural)]
pub enum FlashState {
    Ready,
    Cmd1,
    Cmd2,
    ChipId,
    PrepareErase,
    Erase1,
    Erase2,
    WriteByte,
    BankSwitch,
}

#[derive(Debug)]
pub struct Flash {
    pub data: Vec<u8>,
    pub state: FlashState,
    pub bank: u8,
    pub size: usize,
    /// Cycles for which the chip still counts as busy after a write.
    pub busy_cycles: u32,
    /// Manufacturer and device, as the chip identifies itself.
    pub reported_id: (u8, u8),
}

/// What the chip holds.
#[verifier::ext_equal]
pub struct FlashChip {
    pub data: Seq<u8>,
    pub state: FlashState,
    pub bank: u8,
    pub size: usize,
    pub busy_cycles: u32,
    pub reported_id: (u8, u8),
}

impl View for Flash {
    type V = FlashChip;

    open spec fn view(&self) -> FlashChip {
        FlashChip {
            data: self.data@,
            state: self.state,
            bank: self.bank,
            size: self.size,
            busy_cycles: self.busy_cycles,
            reported_id: self.reported_id,
        }
    }
}

/// Whether some even offset of the ROM holds the two bytes of a chip
/// identification.
pub open spec fn lists_chip(rom: Seq<u8>, id: (u8, u8)) -> bool {
    exists|i: int| #[trigger] chip_at(rom, id, i)
}

pub open spec fn chip_at(rom: Seq<u8>, id: (u8, u8), i: int) -> bool {
    0 <= i && i + 2 <= rom.len() && i % 2 == 0 && rom[i] == id.0 && rom[i + 1] == id.1
}

/// The known chips of a size class, preferred ones first.
pub open spec fn known_chips(size: usize) -> Seq<(u8, u8)> {
    if size > 65536 {
        seq![(0xC2u8, 0x09u8), (0xC2u8, 0x1Cu8), (0x62u8, 0x13u8)]
    } else {
        seq![
            (0x32u8, 0x1Bu8),
            (0xBFu8, 0xD4u8),
            (0xC2u8, 0x1Cu8),
            (0x62u8, 0x13u8),
            (0x1Fu8, 0x3Du8),
        ]
    }
}

/// The first of `chips` that the ROM lists, else `default`.
pub open spec fn first_listed(rom: Seq<u8>, chips: Seq<(u8, u8)>, default: (u8, u8)) -> (u8, u8)
    decreases chips.len(),
{
    if chips.len() == 0 {
        default
    } else if lists_chip(rom, chips[0]) {
        chips[0]
    } else {
        first_listed(rom, chips.drop_first(), default)
    }
}

/// How a chip identifies itself: as the preferred known chip that the ROM
/// lists, or as the first of its class.
pub open spec fn chip_identity(size: usize, rom: Option<Seq<u8>>) -> (u8, u8) {
    match rom {
        Some(rom) => first_listed(rom, known_chips(size), known_chips(size)[0]),
        None => known_chips(size)[0],
    }
}

fn rom_lists_chip(rom: &[u8], id: (u8, u8)) -> (found: bool)
    ensures
        found == lists_chip(rom@, id),
{
    let n: usize = rom.len();
    let mut i: usize = 0;
    while n - i >= 2
        invariant
            n == rom@.len(),
            i <= n,
            i % 2 == 0,
            forall|k: int| 0 <= k < i ==> !chip_at(rom@, id, k),
        decreases n - i,
    {
        if rom[i] == id.0 && rom[i + 1] == id.1 {
            assert(chip_at(rom@, id, i as int));
            return true;
        }
        i = i + 2;
    }
    false
}

fn pick_chip_id(size: usize, image: Option<&[u8]>) -> (id: (u8, u8))
    ensures
        id == chip_identity(size, match image {
            Some(r) => Some(r@),
            None => None,
        }),
{
    let chips: Vec<(u8, u8)> = if size > 65536 {
        vec![(0xC2, 0x09), (0xC2, 0x1C), (0x62, 0x13)]
    } else {
        vec![(0x32, 0x1B), (0xBF, 0xD4), (0xC2, 0x1C), (0x62, 0x13), (0x1F, 0x3D)]
    };
    assert(chips@ =~= known_chips(size));
    if let Some(rom) = image {
        assert(chips@.skip(0) =~= chips@);
        let mut i: usize = 0;
        while i < chips.len()
            invariant
                i <= chips@.len(),
                image == Some(rom),
                chips@ == known_chips(size),
                first_listed(rom@, chips@.skip(i as int), chips@[0]) == chip_identity(
                    size,
                    Some(rom@),
                ),
            decreases chips@.len() - i,
        {
            assert(chips@.skip(i as int).drop_first() =~= chips@.skip(i + 1));
            if rom_lists_chip(rom, chips[i]) {
                return chips[i];
            }
            i = i + 1;
        }
    }
    chips[0]
}

impl FlashChip {
    pub open spec fn wf(self) -> bool {
        self.bank <= 1
    }

    pub open spec fn is_128k(self) -> bool {
        self.size > 65536
    }

    pub open spec fn bank_offset(self) -> int {
        if self.is_128k() {
            self.bank * 0x10000
        } else {
            0
        }
    }

    /// What `addr` reads: the identification in identification mode, else the
    /// byte in the selected bank.
    pub open spec fn byte(self, addr: u32) -> u8 {
        let offset = addr & 0xFFFF;
        let index = self.bank_offset() + offset;
        if self.state is ChipId {
            if offset == 0 {
                self.reported_id.0
            } else if offset == 1 {
                self.reported_id.1
            } else {
                0
            }
        } else if index < self.data.len() {
            self.data[index]
        } else {
            0xFF
        }
    }

    pub open spec fn busy(self) -> bool {
        self.state != FlashState::Ready || self.busy_cycles > 0
    }

    pub open spec fn ticked(self, cycles: u32) -> FlashChip {
        FlashChip {
            busy_cycles: if self.busy_cycles >= cycles {
                (self.busy_cycles - cycles) as u32
            } else {
                0
            },
            ..self
        }
    }

    /// The state after `val` was written to `offset`, as far as the data does
    /// not matter.
    pub open spec fn next_state(self, offset: u32, val: u8) -> FlashState {
        match self.state {
            FlashState::Ready => if offset == 0x5555 && val == 0xAA {
                FlashState::Cmd1
            } else {
                FlashState::Ready
            },
            FlashState::Cmd1 => if offset == 0x2AAA && val == 0x55 {
                FlashState::Cmd2
            } else {
                FlashState::Ready
            },
            FlashState::Cmd2 => if offset != 0x5555 {
                FlashState::Ready
            } else if val == 0x90 {
                FlashState::ChipId
            } else if val == 0x80 {
                FlashState::PrepareErase
            } else if val == 0xA0 {
                FlashState::WriteByte
            } else if val == 0xB0 && self.is_128k() {
                FlashState::BankSwitch
            } else {
                FlashState::Ready
            },
            FlashState::ChipId => if val == 0xF0 {
                FlashState::Ready
            } else if offset == 0x5555 && val == 0xAA {
                FlashState::Cmd1
            } else {
                FlashState::ChipId
            },
            FlashState::PrepareErase => if offset == 0x5555 && val == 0xAA {
                FlashState::Erase1
            } else {
                FlashState::Ready
            },
            FlashState::Erase1 => if offset == 0x2AAA && val == 0x55 {
                FlashState::Erase2
            } else {
                FlashState::Ready
            },
            FlashState::Erase2 => FlashState::Ready,
            FlashState::WriteByte => FlashState::Ready,
            FlashState::BankSwitch => FlashState::Ready,
        }
    }

    /// The data after `val` was written to `offset`: an erase sets bytes to
    /// 0xFF, a byte write clears bits, everything else leaves the data alone.
    pub open spec fn next_data(self, offset: u32, val: u8) -> Seq<u8> {
        let n = self.data.len();
        let index = self.bank_offset() + offset;
        let sector = self.bank_offset() + (offset & 0xF000);
        if self.state is Erase2 && offset == 0x5555 && val == 0x10 {
            Seq::new(n, |i: int| 0xFFu8)
        } else if self.state is Erase2 && val == 0x30 {
            Seq::new(
                n,
                |i: int|
                    if sector <= i < sector + 0x1000 {
                        0xFFu8
                    } else {
                        self.data[i]
                    },
            )
        } else if self.state is WriteByte && index < n {
            self.data.update(index, self.data[index] & val)
        } else {
            self.data
        }
    }

    /// The chip after `val` was written to `addr`.
    pub open spec fn written(self, addr: u32, val: u8) -> FlashChip {
        let offset = addr & 0xFFFF;
        FlashChip {
            data: self.next_data(offset, val),
            state: self.next_state(offset, val),
            bank: if self.state is BankSwitch && offset == 0 {
                val & 1
            } else {
                self.bank
            },
            busy_cycles: 200_000,
            ..self
        }
    }

    /// The chip after a command sequence that ends in `val`.
    pub open spec fn commanded(self, val: u8) -> FlashChip {
        self.written(0x5555, 0xAA).written(0x2AAA, 0x55).written(0x5555, val)
    }
}

impl Flash {
    pub open spec fn wf(self) -> bool {
        self@.wf()
    }

    /// An erased chip of `size` bytes.
    pub fn new(size: usize) -> (f: Flash)
        ensures
            f.wf(),
            f@ == (FlashChip {
                data: Seq::new(size as nat, |i: int| 0xFFu8),
                state: FlashState::Ready,
                bank: 0,
                size,
                busy_cycles: 0,
                reported_id: chip_identity(size, None),
            }),
    {
        Flash::new_with_rom(size, None)
    }

    /// An erased chip of `size` bytes that identifies itself as one the ROM
    /// supports.
    pub fn new_with_rom(size: usize, rom: Option<&[u8]>) -> (f: Flash)
        ensures
            f.wf(),
            f@ == (FlashChip {
                data: Seq::new(size as nat, |i: int| 0xFFu8),
                state: FlashState::Ready,
                bank: 0,
                size,
                busy_cycles: 0,
                reported_id: chip_identity(size, match rom {
                    Some(r) => Some(r@),
                    None => None,
                }),
            }),
    {
        let reported_id = pick_chip_id(size, rom);
        let data: Vec<u8> = vec![0xFF; size];
        assert(data@ =~= Seq::new(size as nat, |i: int| 0xFFu8));
        Flash { data, state: FlashState::Ready, bank: 0, size, busy_cycles: 0, reported_id }
    }

    fn is_128k(&self) -> (b: bool)
        ensures
            b == self@.is_128k(),
    {
        self.size > 65536
    }

    fn bank_offset(&self) -> (o: usize)
        requires
            self.wf(),
        ensures
            o == self@.bank_offset(),
            o <= 0x10000,
    {
        if self.is_128k() {
            self.bank as usize * 0x10000
        } else {
            0
        }
    }

    /// Whether a command is under way or the last write was recent.
    pub fn is_busy(&self) -> (busy: bool)
        ensures
            busy == self@.busy(),
    {
        self.state != FlashState::Ready || self.busy_cycles > 0
    }

    /// Lets `cycles` CPU cycles pass.
    pub fn tick(&mut self, cycles: u32)
        requires
            old(self).wf(),
        ensures
            final(self).wf(),
            final(self)@ == old(self)@.ticked(cycles),
    {
        self.busy_cycles = if self.busy_cycles >= cycles {
            self.busy_cycles - cycles
        } else {
            0
        };
    }

    pub fn read(&self, addr: u32) -> (val: u8)
        requires
            self.wf(),
        ensures
            val == self@.byte(addr),
    {
        let offset: usize = (addr & 0xFFFF) as usize;
        if self.state == FlashState::ChipId {
            return match offset {
                0 => self.reported_id.0,
                1 => self.reported_id.1,
                _ => 0,
            };
        }
        let index: usize = self.bank_offset() + offset;
        if index < self.data.len() {
            self.data[index]
        } else {
            0xFF
        }
    }

    /// Sets the bytes from `base` to `end` to 0xFF, as far as they exist.
    fn erase(&mut self, base: usize, end: usize)
        ensures
            final(self)@ == (FlashChip {
                data: Seq::new(
                    old(self)@.data.len(),
                    |i: int|
                        if base <= i < end {
                            0xFFu8
                        } else {
                            old(self)@.data[i]
                        },
                ),
                ..old(self)@
            }),
    {
        let mut i: usize = base;
        while i < end && i < self.data.len()
            invariant
                base <= i,
                base <= end ==> i <= end,
                base > end ==> i == base,
                self@ == (FlashChip {
                    data: Seq::new(
                        old(self)@.data.len(),
                        |k: int|
                            if base <= k < i {
                                0xFFu8
                            } else {
                                old(self)@.data[k]
                            },
                    ),
                    ..old(self)@
                }),
            decreases end - i,
        {
            self.data[i] = 0xFF;
            i = i + 1;
        }
        assert(self@.data =~= Seq::new(
            old(self)@.data.len(),
            |k: int|
                if base <= k < end {
                    0xFFu8
                } else {
                    old(self)@.data[k]
                },
        ));
    }

    /// Writes a byte: a step of a command, or the data of one.
    pub fn write(&mut self, addr: u32, val: u8)
        requires
            old(self).wf(),
        ensures
            final(self).wf(),
            final(self)@ == old(self)@.written(addr, val),
    {
        let offset: u32 = addr & 0xFFFF;
        self.busy_cycles = 200_000;
        match self.state {
            FlashState::Ready => {
                if offset == 0x5555 && val == 0xAA {
                    self.state = FlashState::Cmd1;
                }
            },
            FlashState::Cmd1 => {
                if offset == 0x2AAA && val == 0x55 {
                    self.state = FlashState::Cmd2;
                } else {
                    self.state = FlashState::Ready;
                }
            },
            FlashState::Cmd2 => {
                self.state = if offset == 0x5555 {
                    match val {
                        0x90 => FlashState::ChipId,
                        0xF0 => FlashState::Ready,
                        0x80 => FlashState::PrepareErase,
                        0xA0 => FlashState::WriteByte,
                        0xB0 => {
                            if self.is_128k() {
                                FlashState::BankSwitch
                            } else {
                                FlashState::Ready
                            }
                        },
                        _ => FlashState::Ready,
                    }
                } else {
                    FlashState::Ready
                };
            },
            FlashState::ChipId => {
                if val == 0xF0 {
                    self.state = FlashState::Ready;
                } else if offset == 0x5555 && val == 0xAA {
                    self.state = FlashState::Cmd1;
                }
            },
            FlashState::PrepareErase => {
                if offset == 0x5555 && val == 0xAA {
                    self.state = FlashState::Erase1;
                } else {
                    self.state = FlashState::Ready;
                }
            },
            FlashState::Erase1 => {
                if offset == 0x2AAA && val == 0x55 {
                    self.state = FlashState::Erase2;
                } else {
                    self.state = FlashState::Ready;
                }
            },
            FlashState::Erase2 => {
                if offset == 0x5555 && val == 0x10 {
                    let end: usize = self.data.len();
                    self.erase(0, end);
                } else if val == 0x30 {
                    let base: usize = self.bank_offset() + (offset & 0xF000) as usize;
                    self.erase(base, base + 0x1000);
                }
                self.state = FlashState::Ready;
            },
            FlashState::WriteByte => {
                let index: usize = self.bank_offset() + offset as usize;
                if index < self.data.len() {
                    self.data[index] = self.data[index] & val;
                }
                self.state = FlashState::Ready;
            },
            FlashState::BankSwitch => {
                if offset == 0x0000 {
                    self.bank = val & 1;
                }
                self.state = FlashState::Ready;
            },
        }
    }
}

/// Identification: after the command the chip reads its identification at 0
/// and 1, and leaving the mode gives back the data, which no step of this
/// changes.
pub proof fn flash_identifies_itself(f: FlashChip)
    requires
        f.state is Ready,
    ensures
        f.commanded(0x90).byte(0) == f.reported_id.0,
        f.commanded(0x90).byte(1) == f.reported_id.1,
        f.commanded(0x90).commanded(0xF0).state is Ready,
        f.commanded(0x90).commanded(0xF0).data == f.data,
        f.commanded(0x90).written(0, 0xF0).data == f.data,
        f.commanded(0x90).written(0, 0xF0).state is Ready,
{
    offsets(0);
}

proof fn offsets(val: u8)
    by (bit_vector)
    ensures
        0x5555u32 & 0xFFFF == 0x5555,
        0x2AAAu32 & 0xFFFF == 0x2AAA,
        0u32 & 0xFFFF == 0,
        1u32 & 0xFFFF == 1,
        0xFFu8 & val == val,
{
}

/// A byte write stores the byte into an erased cell of the selected bank and
/// changes no other byte; over a written cell it only clears bits.
pub proof fn flash_write_byte(f: FlashChip, addr: u32, val: u8, other: int)
    requires
        f.state is Ready,
        f.bank_offset() + (addr & 0xFFFF) < f.data.len(),
        0 <= f.bank_offset(),
        0 <= other < f.data.len(),
        other != f.bank_offset() + (addr & 0xFFFF),
    ensures
        ({
            let g = f.commanded(0xA0).written(addr, val);
            &&& g.state is Ready
            &&& g.byte(addr) == f.byte(addr) & val
            &&& f.byte(addr) == 0xFF ==> g.byte(addr) == val
            &&& g.data[other] == f.data[other]
            &&& g.data.len() == f.data.len()
        }),
{
    offsets(val);
}

/// A sector erase sets the 4 KB around the address to 0xFF and nothing else; a
/// chip erase sets everything.
pub proof fn flash_erases(f: FlashChip, addr: u32, i: int)
    requires
        f.state is Ready,
        0 <= i < f.data.len(),
    ensures
        ({
            let armed = f.commanded(0x80).written(0x5555, 0xAA).written(0x2AAA, 0x55);
            let sector = f.bank_offset() + ((addr & 0xFFFF) & 0xF000);
            let g = armed.written(addr, 0x30);
            let h = armed.written(0x5555, 0x10);
            &&& g.state is Ready && h.state is Ready
            &&& g.data[i] == (if sector <= i < sector + 0x1000 {
                0xFFu8
            } else {
                f.data[i]
            })
            &&& h.data[i] == 0xFF
            &&& g.data.len() == f.data.len() && h.data.len() == f.data.len()
        }),
{
    offsets(0);
}

/// Bank selection on a 128 KB chip: the low bit of the written value becomes
/// the bank and the data stays. A smaller chip ignores it.
pub proof fn flash_switches_bank(f: FlashChip, val: u8)
    requires
        f.state is Ready,
    ensures
        f.is_128k() ==> f.commanded(0xB0).written(0, val).bank == val & 1 && f.commanded(
            0xB0,
        ).written(0, val).data == f.data && f.commanded(0xB0).written(0, val).state is Ready,
        !f.is_128k() ==> f.commanded(0xB0).state is Ready && f.commanded(0xB0).bank == f.bank
            && f.commanded(0xB0).data == f.data,
{
    offsets(0);
}

/// The two banks of a 128 KB chip lie one after the other; a smaller chip has
/// one. Addresses repeat every 64 KB.
pub proof fn flash_banks(f: FlashChip, addr: u32)
    requires
        f.state is Ready,
        f.bank <= 1,
        f.data.len() == f.size,
        f.size == 131072 || f.size == 65536,
    ensures
        ({
            let a = (addr % 0x1_0000) as int;
            &&& f.size == 131072 && f.bank == 1 ==> f.byte(addr) == f.data[0x1_0000 + a]
            &&& f.size == 131072 && f.bank == 0 ==> f.byte(addr) == f.data[a]
            &&& f.size == 65536 ==> f.byte(addr) == f.data[a]
        }),
{
    vstd::bits::lemma_u32_low_bits_mask_is_mod(addr, 16);
    vstd::bits::lemma_low_bits_mask_values();
    vstd::arithmetic::power2::lemma2_to64();
}

/// The chip is busy for 200000 cycles after anything is written to it, and
/// until its command is complete.
pub proof fn flash_is_busy(f: FlashChip, addr: u32, val: u8, n: u32)
    ensures
        ({
            let w = f.written(addr, val);
            &&& n < 200_000 ==> w.ticked(n).busy()
            &&& n >= 200_000 ==> w.ticked(n).busy() == !(w.state is Ready)
        }),
{
}

} // verus!

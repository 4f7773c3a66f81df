//! Save memory on the cartridge: none, SRAM, flash or EEPROM.

use vstd::prelude::*;

use crate::search::{self, contains_bytes};

use self::eeprom::{Eeprom, EepromChip};
use self::flash::{Flash, FlashChip, FlashState};
use self::sram::Sram;

pub mod eeprom;
pub mod flash;
pub mod sram;

verus! {

#[derive(Debug)]
pub enum BackupMedia {
    Absent,
    Sram(Sram),
    Flash(Flash),
    Eeprom(Eeprom),
}

/// What the save memory holds.
#[verifier::ext_equal]
pub enum BackupState {
    Absent,
    Sram(Seq<u8>),
    Flash(FlashChip),
    Eeprom(EepromChip),
}

impl View for BackupMedia {
    type V = BackupState;

    open spec fn view(&self) -> BackupState {
        match self {
            BackupMedia::Absent => BackupState::Absent,
            BackupMedia::Sram(s) => BackupState::Sram(s@),
            BackupMedia::Flash(f) => BackupState::Flash(f@),
            BackupMedia::Eeprom(e) => BackupState::Eeprom(e@),
        }
    }
}

impl BackupState {
    pub open spec fn wf(self) -> bool {
        match self {
            BackupState::Absent => true,
            BackupState::Sram(s) => true,
            BackupState::Flash(f) => f.wf(),
            BackupState::Eeprom(e) => e.wf(),
        }
    }

    /// What a read of `addr` gives.
    pub open spec fn byte(self, addr: u32) -> u8 {
        match self {
            BackupState::Absent => 0xFF,
            BackupState::Sram(s) => sram::sram_read(s, addr),
            BackupState::Flash(f) => f.byte(addr),
            BackupState::Eeprom(e) => e.out_bit(),
        }
    }

    /// The memory after a read: only an EEPROM moves on.
    pub open spec fn after_read(self) -> BackupState {
        match self {
            BackupState::Eeprom(e) => BackupState::Eeprom(e.after_read()),
            _ => self,
        }
    }

    pub open spec fn written(self, addr: u32, val: u8) -> BackupState {
        match self {
            BackupState::Absent => self,
            BackupState::Sram(s) => BackupState::Sram(sram::sram_written(s, addr, val)),
            BackupState::Flash(f) => BackupState::Flash(f.written(addr, val)),
            BackupState::Eeprom(e) => BackupState::Eeprom(e.written(val)),
        }
    }

    pub open spec fn busy(self) -> bool {
        match self {
            BackupState::Flash(f) => f.busy(),
            _ => false,
        }
    }

    pub open spec fn ticked(self, cycles: u32) -> BackupState {
        match self {
            BackupState::Flash(f) => BackupState::Flash(f.ticked(cycles)),
            _ => self,
        }
    }

    /// The saved bytes.
    pub open spec fn raw(self) -> Option<Seq<u8>> {
        match self {
            BackupState::Absent => None,
            BackupState::Sram(s) => Some(s),
            BackupState::Flash(f) => Some(f.data),
            BackupState::Eeprom(e) => Some(e.data),
        }
    }

    /// The memory with its first bytes replaced by those of `data`; what does
    /// not fit is dropped, what is not covered stays.
    pub open spec fn imported(self, data: Seq<u8>) -> BackupState {
        match self {
            BackupState::Absent => self,
            BackupState::Sram(s) => BackupState::Sram(overlaid(s, data)),
            BackupState::Flash(f) => BackupState::Flash(
                FlashChip { data: overlaid(f.data, data), ..f },
            ),
            BackupState::Eeprom(e) => BackupState::Eeprom(
                EepromChip { data: overlaid(e.data, data), ..e },
            ),
        }
    }

    pub open spec fn sized_by(self, count: u32) -> BackupState {
        match self {
            BackupState::Eeprom(e) => BackupState::Eeprom(e.sized_by(count)),
            _ => self,
        }
    }
}

/// `base` with its first bytes replaced by those of `data`.
pub open spec fn overlaid(base: Seq<u8>, data: Seq<u8>) -> Seq<u8> {
    Seq::new(
        base.len(),
        |i: int|
            if i < data.len() {
                data[i]
            } else {
                base[i]
            },
    )
}

fn overlay(base: &mut Vec<u8>, data: &[u8])
    ensures
        final(base)@ == overlaid(old(base)@, data@),
{
    let n: usize = data.len();
    let mut i: usize = 0;
    while i < n && i < base.len()
        invariant
            n == data@.len(),
            i <= n,
            i <= base@.len(),
            base@ == overlaid(old(base)@, data@.take(i as int)),
        decreases n - i,
    {
        base[i] = data[i];
        i = i + 1;
        assert(base@ =~= overlaid(old(base)@, data@.take(i as int)));
    }
    assert(base@ =~= overlaid(old(base)@, data@));
}

fn copy_bytes(data: &Vec<u8>) -> (copy: Vec<u8>)
    ensures
        copy@ == data@,
{
    let copy: Vec<u8> = data.clone();
    assert(copy@ =~= data@);
    copy
}

impl BackupMedia {
    pub open spec fn wf(self) -> bool {
        self@.wf()
    }

    /// Reads a byte. Reading an EEPROM shifts out its next bit.
    pub fn read(&mut self, addr: u32) -> (val: u8)
        requires
            old(self).wf(),
        ensures
            final(self).wf(),
            val == old(self)@.byte(addr),
            final(self)@ == old(self)@.after_read(),
    {
        match self {
            BackupMedia::Absent => 0xFF,
            BackupMedia::Sram(s) => s.read(addr),
            BackupMedia::Flash(f) => f.read(addr),
            BackupMedia::Eeprom(e) => e.read_bit(),
        }
    }

    /// What a read of `addr` would give, without reading.
    pub fn peek(&self, addr: u32) -> (val: u8)
        requires
            self.wf(),
        ensures
            val == self@.byte(addr),
    {
        match self {
            BackupMedia::Absent => 0xFF,
            BackupMedia::Sram(s) => s.read(addr),
            BackupMedia::Flash(f) => f.read(addr),
            BackupMedia::Eeprom(e) => e.peek_bit(),
        }
    }

    pub fn write(&mut self, addr: u32, val: u8)
        requires
            old(self).wf(),
        ensures
            final(self).wf(),
            final(self)@ == old(self)@.written(addr, val),
    {
        match self {
            BackupMedia::Absent => {},
            BackupMedia::Sram(s) => s.write(addr, val),
            BackupMedia::Flash(f) => f.write(addr, val),
            BackupMedia::Eeprom(e) => e.write(addr, val),
        }
    }

    /// Whether a flash chip is busy with a command.
    pub fn is_busy(&self) -> (busy: bool)
        ensures
            busy == self@.busy(),
    {
        match self {
            BackupMedia::Flash(f) => f.is_busy(),
            _ => false,
        }
    }

    /// Lets `cycles` CPU cycles pass.
    pub fn tick(&mut self, cycles: u32)
        requires
            old(self).wf(),
        ensures
            final(self).wf(),
            final(self)@ == old(self)@.ticked(cycles),
    {
        match self {
            BackupMedia::Flash(f) => f.tick(cycles),
            _ => {},
        }
    }

    /// Tells an EEPROM the length of the transfer that drives it.
    pub fn size_from_transfer(&mut self, count: u32)
        requires
            old(self).wf(),
        ensures
            final(self).wf(),
            final(self)@ == old(self)@.sized_by(count),
    {
        match self {
            BackupMedia::Eeprom(e) => e.set_addr_width_from_dma(count),
            _ => {},
        }
    }

    /// The saved bytes, for a save file.
    pub fn to_raw(&self) -> (raw: Option<Vec<u8>>)
        ensures
            match raw {
                Some(v) => self@.raw() == Some(v@),
                None => self@.raw() is None,
            },
    {
        match self {
            BackupMedia::Absent => None,
            BackupMedia::Sram(s) => Some(copy_bytes(&s.data)),
            BackupMedia::Flash(f) => Some(copy_bytes(&f.data)),
            BackupMedia::Eeprom(e) => Some(copy_bytes(&e.data)),
        }
    }

    /// Loads the bytes of a save file.
    pub fn import(&mut self, data: &[u8])
        requires
            old(self).wf(),
        ensures
            final(self).wf(),
            final(self)@ == old(self)@.imported(data@),
    {
        match self {
            BackupMedia::Absent => {},
            BackupMedia::Sram(s) => overlay(&mut s.data, data),
            BackupMedia::Flash(f) => overlay(&mut f.data, data),
            BackupMedia::Eeprom(e) => overlay(&mut e.data, data),
        }
    }
}

/// `SRAM_V`
pub open spec fn sram_signature() -> Seq<u8> {
    seq![0x53u8, 0x52, 0x41, 0x4D, 0x5F, 0x56]
}

/// `SRAM_F_V`, the mark of ferroelectric RAM, which works like SRAM.
pub open spec fn fram_signature() -> Seq<u8> {
    seq![0x53u8, 0x52, 0x41, 0x4D, 0x5F, 0x46, 0x5F, 0x56]
}

/// `FLASH1M_V`
pub open spec fn flash_1m_signature() -> Seq<u8> {
    seq![0x46u8, 0x4C, 0x41, 0x53, 0x48, 0x31, 0x4D, 0x5F, 0x56]
}

/// `FLASH_V`
pub open spec fn flash_signature() -> Seq<u8> {
    seq![0x46u8, 0x4C, 0x41, 0x53, 0x48, 0x5F, 0x56]
}

/// `FLASH512_V`
pub open spec fn flash_512_signature() -> Seq<u8> {
    seq![0x46u8, 0x4C, 0x41, 0x53, 0x48, 0x35, 0x31, 0x32, 0x5F, 0x56]
}

/// `EEPROM_V`
pub open spec fn eeprom_signature() -> Seq<u8> {
    seq![0x45u8, 0x45, 0x50, 0x52, 0x4F, 0x4D, 0x5F, 0x56]
}

/// An erased flash chip for a ROM.
pub open spec fn erased_flash(size: usize, rom: Seq<u8>) -> FlashChip {
    FlashChip {
        data: Seq::new(size as nat, |i: int| 0xFFu8),
        state: FlashState::Ready,
        bank: 0,
        size,
        busy_cycles: 0,
        reported_id: flash::chip_identity(size, Some(rom)),
    }
}

/// The erased save memory that a ROM's signature asks for.
pub open spec fn backup_for(rom: Seq<u8>) -> BackupState {
    if search::occurs(rom, sram_signature()) || search::occurs(rom, fram_signature()) {
        BackupState::Sram(Seq::new(32768, |i: int| 0xFFu8))
    } else if search::occurs(rom, flash_1m_signature()) {
        BackupState::Flash(erased_flash(131072, rom))
    } else if search::occurs(rom, flash_signature()) || search::occurs(
        rom,
        flash_512_signature(),
    ) {
        BackupState::Flash(erased_flash(65536, rom))
    } else if search::occurs(rom, eeprom_signature()) {
        BackupState::Eeprom(Eeprom::blank())
    } else {
        BackupState::Absent
    }
}

/// Picks the save memory by the signature that the ROM carries.
pub fn detect_backup_type(rom: &[u8]) -> (media: BackupMedia)
    ensures
        media.wf(),
        media@ == backup_for(rom@),
{
    let sram: [u8; 6] = [0x53, 0x52, 0x41, 0x4D, 0x5F, 0x56];
    let fram: [u8; 8] = [0x53, 0x52, 0x41, 0x4D, 0x5F, 0x46, 0x5F, 0x56];
    let flash_1m: [u8; 9] = [0x46, 0x4C, 0x41, 0x53, 0x48, 0x31, 0x4D, 0x5F, 0x56];
    let flash_plain: [u8; 7] = [0x46, 0x4C, 0x41, 0x53, 0x48, 0x5F, 0x56];
    let flash_512: [u8; 10] = [0x46, 0x4C, 0x41, 0x53, 0x48, 0x35, 0x31, 0x32, 0x5F, 0x56];
    let eeprom_mark: [u8; 8] = [0x45, 0x45, 0x50, 0x52, 0x4F, 0x4D, 0x5F, 0x56];
    assert(sram@ =~= sram_signature());
    assert(fram@ =~= fram_signature());
    assert(flash_1m@ =~= flash_1m_signature());
    assert(flash_plain@ =~= flash_signature());
    assert(flash_512@ =~= flash_512_signature());
    assert(eeprom_mark@ =~= eeprom_signature());
    if contains_bytes(rom, sram.as_slice()) || contains_bytes(rom, fram.as_slice()) {
        BackupMedia::Sram(Sram::new())
    } else if contains_bytes(rom, flash_1m.as_slice()) {
        BackupMedia::Flash(Flash::new_with_rom(131072, Some(rom)))
    } else if contains_bytes(rom, flash_plain.as_slice()) || contains_bytes(
        rom,
        flash_512.as_slice(),
    ) {
        BackupMedia::Flash(Flash::new_with_rom(65536, Some(rom)))
    } else if contains_bytes(rom, eeprom_mark.as_slice()) {
        BackupMedia::Eeprom(Eeprom::new())
    } else {
        BackupMedia::Absent
    }
}

/// A save that was exported and imported into the same kind of memory, of the
/// same size, is the memory that was exported.
pub proof fn export_then_import(a: BackupState, b: BackupState, data: Seq<u8>)
    requires
        a.raw() == Some(data),
        b.raw() is Some,
        b.raw()->0.len() == data.len(),
    ensures
        b.imported(data).raw() == a.raw(),
{
    assert(overlaid(b.raw()->0, data) =~= data);
}

/// The marks by which a ROM names its save memory, in letters.
pub proof fn save_marks()
    ensures
        sram_signature() == seq!['S' as u8, 'R' as u8, 'A' as u8, 'M' as u8, '_' as u8, 'V' as u8],
        fram_signature() == sram_signature().subrange(0, 5) + seq!['F' as u8, '_' as u8, 'V' as u8],
        flash_signature() == seq![
            'F' as u8,
            'L' as u8,
            'A' as u8,
            'S' as u8,
            'H' as u8,
            '_' as u8,
            'V' as u8,
        ],
        flash_1m_signature() == flash_signature().subrange(0, 5) + seq![
            '1' as u8,
            'M' as u8,
            '_' as u8,
            'V' as u8,
        ],
        flash_512_signature() == flash_signature().subrange(0, 5) + seq![
            '5' as u8,
            '1' as u8,
            '2' as u8,
            '_' as u8,
            'V' as u8,
        ],
        eeprom_signature() == seq![
            'E' as u8,
            'E' as u8,
            'P' as u8,
            'R' as u8,
            'O' as u8,
            'M' as u8,
            '_' as u8,
            'V' as u8,
        ],
{
}

/// What kind of memory a mark asks for, and how large: 32 KB of SRAM, 128 KB or
/// 64 KB of flash, an EEPROM, or none without a mark. All of it is erased.
pub proof fn marks_choose_memory(rom: Seq<u8>)
    ensures
        ({
            let ram = search::occurs(rom, sram_signature()) || search::occurs(
                rom,
                fram_signature(),
            );
            let big = search::occurs(rom, flash_1m_signature());
            let flash = search::occurs(rom, flash_signature()) || search::occurs(
                rom,
                flash_512_signature(),
            );
            let serial = search::occurs(rom, eeprom_signature());
            let m = backup_for(rom);
            &&& ram ==> m is Sram && m.raw()->0.len() == 0x8000
            &&& !ram && big ==> m is Flash && m.raw()->0.len() == 0x2_0000
            &&& !ram && !big && flash ==> m is Flash && m.raw()->0.len() == 0x1_0000
            &&& !ram && !big && !flash && serial ==> m is Eeprom
            &&& !ram && !big && !flash && !serial ==> m is Absent
            &&& m is Sram || m is Flash ==> forall|i: int|
                0 <= i < m.raw()->0.len() ==> #[trigger] m.raw()->0[i] == 0xFF
        }),
{
}

} // verus!

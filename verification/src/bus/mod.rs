//! The system bus: the memory map, and everything that is reached through it.

use vstd::prelude::*;

use crate::apu::{Apu, ApuState};
use crate::backup::{self, BackupMedia, BackupState};
use crate::bits::{self, join16, le16, le32};
use crate::dma::DmaController;
use crate::interrupt::InterruptController;
use crate::keypad::Keypad;
use crate::ppu::Ppu;
use crate::rtc::Rtc;
use crate::timer::Timers;
use crate::trace::{Diagnostics, DiagnosticsState};

use self::io_regs::IoRegisters;

pub mod copies;
pub mod events;
pub mod io_regs;
pub mod laws;
pub mod map;
pub mod store;
pub mod timing;

verus! {

broadcast use bits::group_and_bounds;

/// The bus with all memories and devices.
#[derive(Debug)]
pub struct Bus {
    pub bios: Vec<u8>,
    pub ewram: Vec<u8>,
    pub iwram: Vec<u8>,
    pub io: IoRegisters,
    pub ppu: Ppu,
    pub apu: Apu,
    pub palette: Vec<u8>,
    pub vram: Vec<u8>,
    pub oam: Vec<u8>,
    pub rom: Vec<u8>,
    pub backup: BackupMedia,
    pub dma: DmaController,
    pub timers: Timers,
    pub interrupt: InterruptController,
    pub keypad: Keypad,
    pub rtc: Rtc,
    /// The last value read: what unmapped addresses give.
    pub last_read: u32,
    pub bios_latch: u32,
    /// Whether a real boot ROM is present.
    pub has_bios: bool,
    /// Set by a write to HALTCNT.
    pub halt_requested: bool,
    /// The address of the instruction being executed.
    pub last_pc: u32,
    /// The machine's clock as of the current instruction.
    pub now: u64,
    pub diagnostics: Diagnostics,
}

/// What the bus and everything on it holds.
#[verifier::ext_equal]
pub struct BusState {
    pub bios: Seq<u8>,
    pub ewram: Seq<u8>,
    pub iwram: Seq<u8>,
    pub io: IoRegisters,
    pub ppu: Ppu,
    pub apu: ApuState,
    pub palette: Seq<u8>,
    pub vram: Seq<u8>,
    pub oam: Seq<u8>,
    pub rom: Seq<u8>,
    pub backup: BackupState,
    pub dma: DmaController,
    pub timers: Timers,
    pub interrupt: InterruptController,
    pub keypad: Keypad,
    pub rtc: Rtc,
    pub last_read: u32,
    pub bios_latch: u32,
    pub has_bios: bool,
    pub halt_requested: bool,
    pub last_pc: u32,
    pub now: u64,
    pub diagnostics: DiagnosticsState,
}

impl View for Bus {
    type V = BusState;

    open spec fn view(&self) -> BusState {
        BusState {
            bios: self.bios@,
            ewram: self.ewram@,
            iwram: self.iwram@,
            io: self.io,
            ppu: self.ppu,
            apu: self.apu@,
            palette: self.palette@,
            vram: self.vram@,
            oam: self.oam@,
            rom: self.rom@,
            backup: self.backup@,
            dma: self.dma,
            timers: self.timers,
            interrupt: self.interrupt,
            keypad: self.keypad,
            rtc: self.rtc,
            last_read: self.last_read,
            bios_latch: self.bios_latch,
            has_bios: self.has_bios,
            halt_requested: self.halt_requested,
            last_pc: self.last_pc,
            now: self.now,
            diagnostics: self.diagnostics@,
        }
    }
}

/// ROMs above this size leave only the last 256 bytes of the top region to an
/// EEPROM.
pub const EEPROM_ROM_LIMIT: usize = 0x0100_0000;

/// The memory index of a video memory address: 96 KB, whose last 32 KB appear
/// twice.
#[verifier::allow_in_spec]
pub fn vram_addr(addr: u32) -> usize
    returns
        (if addr & 0x1FFFF >= 0x18000 {
            ((addr & 0x1FFFF) - 0x8000) as usize
        } else {
            (addr & 0x1FFFF) as usize
        }),
{
    let offset: usize = (addr & 0x1FFFF) as usize;
    if offset >= 0x18000 {
        offset - 0x8000
    } else {
        offset
    }
}

/// The halfword at `i`.
pub open spec fn half(m: Seq<u8>, i: int) -> u16 {
    le16(m[i], m[i + 1])
}

/// The word at `i`.
pub open spec fn word(m: Seq<u8>, i: int) -> u32 {
    le32(m[i], m[i + 1], m[i + 2], m[i + 3])
}

/// How far alignment keeps an access from the end of each memory.
pub proof fn aligned_bounds(addr: u32)
    by (bit_vector)
    ensures
        (addr & !1u32) & 0x3FFFF <= 0x3FFFE,
        (addr & !1u32) & 0x7FFF <= 0x7FFE,
        (addr & !1u32) & 0x3FF <= 0x3FE,
        (addr & !3u32) & 0x3FFFF <= 0x3FFFC,
        (addr & !3u32) & 0x7FFF <= 0x7FFC,
        (addr & !3u32) & 0x3FF <= 0x3FC,
        addr & !3u32 <= 0xFFFF_FFFC,
        addr & !1u32 <= 0xFFFF_FFFE,
        addr & 0x3FE <= 0x3FE,
        (addr & !1u32) & !1u32 == addr & !1u32,
        (addr & !3u32) & !3u32 == addr & !3u32,
{
}

impl BusState {
    /// Every memory has its size, and the devices are in range.
    pub open spec fn wf(self) -> bool {
        &&& self.ewram.len() == 0x40000
        &&& self.iwram.len() == 0x8000
        &&& self.palette.len() == 0x400
        &&& self.vram.len() == 0x18000
        &&& self.oam.len() == 0x400
        &&& self.apu.wf()
        &&& self.backup.wf()
        &&& self.timers.wf()
        &&& self.rtc.wf()
    }

    /// The bus with `val` as the last value read.
    pub open spec fn latched(self, val: u32) -> BusState {
        BusState { last_read: val, ..self }
    }

    /// A byte of the boot ROM; it is also latched. Past its end there is zero.
    pub open spec fn bios8(self, addr: u32) -> (u8, BusState) {
        let index = (addr & 0x3FFF) as int;
        if index < self.bios.len() {
            (self.bios[index], BusState { bios_latch: self.bios[index] as u32, ..self })
        } else {
            (0, self)
        }
    }

    pub open spec fn bios16(self, addr: u32) -> (u16, BusState) {
        let lo = self.bios8(addr);
        let hi = lo.1.bios8((addr + 1) as u32);
        (le16(lo.0, hi.0), hi.1)
    }

    /// What the register at `addr` reads. Of a DMA channel only the control
    /// register can be read.
    #[verifier::opaque]
    pub open spec fn io16(self, addr: u32) -> u16 {
        let off = addr & 0x3FF;
        if off < 0x060 {
            self.io.display_reg(off)
        } else if off <= 0x0A8 {
            self.apu.reg((off - 0x060) as u16)
        } else if off == 0x0BA {
            self.dma.channels[0].control
        } else if off == 0x0C6 {
            self.dma.channels[1].control
        } else if off == 0x0D2 {
            self.dma.channels[2].control
        } else if off == 0x0DE {
            self.dma.channels[3].control
        } else if off == 0x100 {
            self.timers.timers[0].counter
        } else if off == 0x102 {
            self.timers.timers[0].control
        } else if off == 0x104 {
            self.timers.timers[1].counter
        } else if off == 0x106 {
            self.timers.timers[1].control
        } else if off == 0x108 {
            self.timers.timers[2].counter
        } else if off == 0x10A {
            self.timers.timers[2].control
        } else if off == 0x10C {
            self.timers.timers[3].counter
        } else if off == 0x10E {
            self.timers.timers[3].control
        } else if off == 0x130 {
            self.keypad.keyinput
        } else if off == 0x132 {
            self.keypad.keycnt
        } else if off == 0x200 {
            self.interrupt.ie
        } else if off == 0x202 {
            self.interrupt.ir
        } else if off == 0x204 {
            self.io.waitcnt
        } else if off == 0x208 {
            self.interrupt.read_ime()
        } else if off == 0x300 {
            self.io.postflg as u16
        } else {
            0
        }
    }

    pub open spec fn io8(self, addr: u32) -> u8 {
        let val = self.io16(addr & !1u32);
        if addr & 1 == 0 {
            val as u8
        } else {
            (val >> 8) as u8
        }
    }

    pub open spec fn vram8(self, addr: u32) -> u8 {
        let i = vram_addr(addr) as int;
        if i < self.vram.len() {
            self.vram[i]
        } else {
            0
        }
    }

    pub open spec fn vram16(self, addr: u32) -> u16 {
        let i = vram_addr(addr & !1u32) as int;
        if i + 1 < self.vram.len() {
            half(self.vram, i)
        } else {
            0
        }
    }

    /// Whether an EEPROM answers at `addr`: in the topmost cartridge region,
    /// for large ROMs only in its last 256 bytes.
    pub open spec fn eeprom_port(self, addr: u32) -> bool {
        &&& self.backup is Eeprom
        &&& addr >> 24 == 0x0D
        &&& self.rom.len() <= EEPROM_ROM_LIMIT || addr & 0x00FF_FF00 == 0x00FF_FF00
    }

    /// A byte of the cartridge ROM, with the clock's registers over it while
    /// they can be read. Past the end of the ROM the address itself shows.
    pub open spec fn rom8(self, addr: u32) -> u8 {
        let rel = addr & 0x01FF_FFFF;
        if self.rtc.readable() && rel == 0xC4 {
            self.rtc.read_reg(0) as u8
        } else if self.rtc.readable() && rel == 0xC5 {
            (self.rtc.read_reg(0) >> 8) as u8
        } else if self.rtc.readable() && rel == 0xC6 {
            self.rtc.read_reg(2) as u8
        } else if self.rtc.readable() && rel == 0xC7 {
            (self.rtc.read_reg(2) >> 8) as u8
        } else if self.rtc.readable() && rel == 0xC8 {
            self.rtc.read_reg(4) as u8
        } else if self.rtc.readable() && rel == 0xC9 {
            (self.rtc.read_reg(4) >> 8) as u8
        } else if rel < self.rom.len() {
            self.rom[rel as int]
        } else {
            ((rel >> 1) & 0xFF) as u8
        }
    }

    pub open spec fn rom16(self, addr: u32) -> u16 {
        let rel = addr & 0x01FF_FFFE;
        if self.rtc.readable() && rel == 0xC4 {
            self.rtc.read_reg(0)
        } else if self.rtc.readable() && rel == 0xC6 {
            self.rtc.read_reg(2)
        } else if self.rtc.readable() && rel == 0xC8 {
            self.rtc.read_reg(4)
        } else if rel + 1 < self.rom.len() {
            half(self.rom, rel as int)
        } else {
            (rel >> 1) as u16
        }
    }

    /// The bus after a read of the save memory.
    pub open spec fn backup_read(self) -> BusState {
        BusState { backup: self.backup.after_read(), ..self }
    }

    pub open spec fn cart8(self, addr: u32) -> (u8, BusState) {
        if self.eeprom_port(addr) {
            (self.backup.byte(addr & 0xFFFF), self.backup_read())
        } else {
            (self.rom8(addr), self)
        }
    }

    pub open spec fn cart16(self, addr: u32) -> (u16, BusState) {
        if self.eeprom_port(addr) {
            (self.backup.byte(addr & 0xFFFF) as u16, self.backup_read())
        } else {
            (self.rom16(addr), self)
        }
    }

    /// What address `addr` holds, and the bus after it was looked up, before
    /// the value is latched.
    #[verifier::opaque]
    pub open spec fn lookup8(self, addr: u32) -> (u8, BusState) {
        let region = addr >> 24;
        if region == 0x00 {
            self.bios8(addr)
        } else if region == 0x02 {
            (self.ewram[(addr & 0x3FFFF) as int], self)
        } else if region == 0x03 {
            (self.iwram[(addr & 0x7FFF) as int], self)
        } else if region == 0x04 {
            (self.io8(addr), self)
        } else if region == 0x05 {
            (self.palette[(addr & 0x3FF) as int], self)
        } else if region == 0x06 {
            (self.vram8(addr), self)
        } else if region == 0x07 {
            (self.oam[(addr & 0x3FF) as int], self)
        } else if 0x08 <= region <= 0x0D {
            self.cart8(addr)
        } else if region == 0x0E || region == 0x0F {
            (self.backup.byte(addr & 0xFFFF), self.backup_read())
        } else {
            ((self.last_read & 0xFF) as u8, self)
        }
    }

    /// A byte read: the value and the bus after it.
    pub open spec fn read8(self, addr: u32) -> (u8, BusState) {
        let r = self.lookup8(addr);
        (r.0, r.1.latched(r.0 as u32))
    }

    #[verifier::opaque]
    pub open spec fn lookup16(self, addr: u32) -> (u16, BusState) {
        let region = addr >> 24;
        if region == 0x00 {
            self.bios16(addr)
        } else if region == 0x02 {
            (half(self.ewram, (addr & 0x3FFFF) as int), self)
        } else if region == 0x03 {
            (half(self.iwram, (addr & 0x7FFF) as int), self)
        } else if region == 0x04 {
            (self.io16(addr), self)
        } else if region == 0x05 {
            (half(self.palette, (addr & 0x3FF) as int), self)
        } else if region == 0x06 {
            (self.vram16(addr), self)
        } else if region == 0x07 {
            (half(self.oam, (addr & 0x3FF) as int), self)
        } else if 0x08 <= region <= 0x0D {
            self.cart16(addr)
        } else if region == 0x0E || region == 0x0F {
            let b = self.backup.byte(addr & 0xFFFF);
            (le16(b, b), self.backup_read())
        } else {
            (self.last_read as u16, self)
        }
    }

    /// A halfword read; the address is aligned.
    pub open spec fn read16(self, addr: u32) -> (u16, BusState) {
        let r = self.lookup16(addr & !1u32);
        (r.0, r.1.latched(r.0 as u32))
    }

    #[verifier::opaque]
    pub open spec fn lookup32(self, addr: u32) -> (u32, BusState) {
        let region = addr >> 24;
        let next = (addr + 2) as u32;
        if region == 0x02 {
            (word(self.ewram, (addr & 0x3FFFF) as int), self)
        } else if region == 0x03 {
            (word(self.iwram, (addr & 0x7FFF) as int), self)
        } else if region == 0x04 {
            (join16(self.io16(addr), self.io16(next)), self)
        } else if region == 0x05 {
            (word(self.palette, (addr & 0x3FF) as int), self)
        } else if region == 0x06 {
            (join16(self.vram16(addr), self.vram16(next)), self)
        } else if region == 0x07 {
            (word(self.oam, (addr & 0x3FF) as int), self)
        } else if 0x08 <= region <= 0x0D {
            let lo = self.cart16(addr);
            let hi = lo.1.cart16(next);
            (join16(lo.0, hi.0), hi.1)
        } else if region == 0x0E || region == 0x0F {
            let b = self.backup.byte(addr & 0xFFFF);
            (le32(b, b, b, b), self.backup_read())
        } else {
            let lo = self.read16(addr);
            let hi = lo.1.read16(next);
            (join16(lo.0, hi.0), hi.1)
        }
    }

    /// A word read; the address is aligned.
    pub open spec fn read32(self, addr: u32) -> (u32, BusState) {
        let r = self.lookup32(addr & !3u32);
        (r.0, r.1.latched(r.0))
    }

    /// The bus after `cycles` CPU cycles passed for the save memory.
    pub open spec fn backup_ticked(self, cycles: u32) -> BusState {
        BusState { backup: self.backup.ticked(cycles), ..self }
    }
}

/// The little program at the interrupt vector that stands in for a boot ROM:
/// it saves registers, calls the handler whose address is at 0x0300_7FFC, and
/// returns from the interrupt.
pub open spec fn stub_bios() -> Seq<u8> {
    Seq::new(
        0x4000,
        |i: int|
            if 0x18 <= i < 0x1C {
                stub_byte(0xE92D500F, i - 0x18)
            } else if 0x1C <= i < 0x20 {
                stub_byte(0xE3A00404, i - 0x1C)
            } else if 0x20 <= i < 0x24 {
                stub_byte(0xE28FE000, i - 0x20)
            } else if 0x24 <= i < 0x28 {
                stub_byte(0xE510F004, i - 0x24)
            } else if 0x28 <= i < 0x2C {
                stub_byte(0xE8BD500F, i - 0x28)
            } else if 0x2C <= i < 0x30 {
                stub_byte(0xE25EF004, i - 0x2C)
            } else {
                0u8
            },
    )
}

/// Byte `k` of an opcode, lowest first.
pub open spec fn stub_byte(opcode: u32, k: int) -> u8 {
    if k == 0 {
        opcode as u8
    } else if k == 1 {
        (opcode >> 8) as u8
    } else if k == 2 {
        (opcode >> 16) as u8
    } else {
        (opcode >> 24) as u8
    }
}

fn put_opcode(bios: &mut Vec<u8>, at: usize, opcode: u32)
    requires
        at + 4 <= old(bios)@.len(),
    ensures
        final(bios)@ == old(bios)@.update(at as int, stub_byte(opcode, 0)).update(
            at + 1,
            stub_byte(opcode, 1),
        ).update(at + 2, stub_byte(opcode, 2)).update(at + 3, stub_byte(opcode, 3)),
{
    let _len: usize = bios.len();
    bios[at] = opcode as u8;
    bios[at + 1] = (opcode >> 8) as u8;
    bios[at + 2] = (opcode >> 16) as u8;
    bios[at + 3] = (opcode >> 24) as u8;
}

fn make_hle_bios() -> (bios: Vec<u8>)
    ensures
        bios@ == stub_bios(),
{
    let mut bios: Vec<u8> = vec![0u8; 0x4000];
    put_opcode(&mut bios, 0x18, 0xE92D500F);
    put_opcode(&mut bios, 0x1C, 0xE3A00404);
    put_opcode(&mut bios, 0x20, 0xE28FE000);
    put_opcode(&mut bios, 0x24, 0xE510F004);
    put_opcode(&mut bios, 0x28, 0xE8BD500F);
    put_opcode(&mut bios, 0x2C, 0xE25EF004);
    assert(bios@ =~= stub_bios());
    bios
}

/// `n` zero bytes.
pub open spec fn zeros(n: nat) -> Seq<u8> {
    Seq::new(n, |i: int| 0u8)
}

fn zeroed(n: usize) -> (v: Vec<u8>)
    ensures
        v@ == zeros(n as nat),
{
    let v: Vec<u8> = vec![0u8; n];
    assert(v@ =~= zeros(n as nat));
    v
}

impl Bus {
    pub open spec fn wf(self) -> bool {
        self@.wf() && self.apu.wf() && self.diagnostics.wf()
    }

    /// The bus at power-on for a boot ROM, if there is one, and a cartridge.
    pub open spec fn power_on(bios: Option<Seq<u8>>, rom: Seq<u8>) -> BusState {
        BusState {
            bios: match bios {
                Some(b) => b,
                None => stub_bios(),
            },
            ewram: zeros(0x40000),
            iwram: zeros(0x8000),
            io: IoRegisters::zeroed(),
            ppu: Ppu { bg2_ref_x: 0, bg2_ref_y: 0, bg3_ref_x: 0, bg3_ref_y: 0 },
            apu: ApuState::power_on(),
            palette: zeros(0x400),
            vram: zeros(0x18000),
            oam: zeros(0x400),
            rom,
            backup: backup::backup_for(rom),
            dma: DmaController::all_idle(),
            timers: Timers::all_stopped(),
            interrupt: InterruptController { ie: 0, ir: 0, ime: false },
            keypad: Keypad { keyinput: 0x03FF, keycnt: 0 },
            rtc: Rtc {
                enabled: crate::search::occurs(rom, crate::rtc::rtc_signature()),
                ..Rtc::power_on()
            },
            last_read: 0,
            bios_latch: 0,
            has_bios: bios is Some,
            halt_requested: false,
            last_pc: 0,
            now: 0,
            diagnostics: DiagnosticsState::off(),
        }
    }

    /// Powers the bus on. Save memory and clock are detected from the ROM.
    pub fn new(bios: Option<Vec<u8>>, rom: Vec<u8>) -> (bus: Bus)
        ensures
            bus.wf(),
            bus@ == Bus::power_on(
                match bios {
                    Some(b) => Some(b@),
                    None => None,
                },
                rom@,
            ),
    {
        let has_bios = bios.is_some();
        let bios_data: Vec<u8> = match bios {
            Some(b) => b,
            None => make_hle_bios(),
        };
        let backup = backup::detect_backup_type(rom.as_slice());
        let mut rtc = Rtc::new();
        rtc.enabled = Rtc::detect(rom.as_slice());
        Bus {
            bios: bios_data,
            ewram: zeroed(0x40000),
            iwram: zeroed(0x8000),
            io: IoRegisters::new(),
            ppu: Ppu::new(),
            apu: Apu::new(),
            palette: zeroed(0x400),
            vram: zeroed(0x18000),
            oam: zeroed(0x400),
            rom,
            backup,
            dma: DmaController::new(),
            timers: Timers::new(),
            interrupt: InterruptController::new(),
            keypad: Keypad::new(),
            rtc,
            last_read: 0,
            bios_latch: 0,
            has_bios,
            halt_requested: false,
            last_pc: 0,
            now: 0,
            diagnostics: Diagnostics::new(),
        }
    }

    fn read_bios(&mut self, addr: u32) -> (val: u8)
        requires
            old(self).wf(),
        ensures
            final(self).wf(),
            (val, final(self)@) == old(self)@.bios8(addr),
    {
        let index: usize = (addr & 0x3FFF) as usize;
        if index < self.bios.len() {
            let val: u8 = self.bios[index];
            self.bios_latch = val as u32;
            val
        } else {
            0
        }
    }

    fn read_vram8(&self, addr: u32) -> (val: u8)
        ensures
            val == self@.vram8(addr),
    {
        let offset: usize = vram_addr(addr);
        if offset < self.vram.len() {
            self.vram[offset]
        } else {
            0
        }
    }

    fn read_vram16(&self, addr: u32) -> (val: u16)
        ensures
            val == self@.vram16(addr),
    {
        let offset: usize = vram_addr(addr & !1u32);
        if offset + 1 < self.vram.len() {
            le16(self.vram[offset], self.vram[offset + 1])
        } else {
            0
        }
    }

    pub fn is_eeprom_port(&self, addr: u32) -> (b: bool)
        ensures
            b == self@.eeprom_port(addr),
    {
        let eeprom = match &self.backup {
            BackupMedia::Eeprom(_) => true,
            _ => false,
        };
        eeprom && addr >> 24 == 0x0D && (self.rom.len() <= EEPROM_ROM_LIMIT || addr & 0x00FF_FF00
            == 0x00FF_FF00)
    }

    fn read_rom8(&self, addr: u32) -> (val: u8)
        ensures
            val == self@.rom8(addr),
    {
        let rel: u32 = addr & 0x01FF_FFFF;
        if self.rtc.readable() {
            match rel {
                0xC4 => {
                    return self.rtc.read_reg(0) as u8;
                },
                0xC5 => {
                    return (self.rtc.read_reg(0) >> 8) as u8;
                },
                0xC6 => {
                    return self.rtc.read_reg(2) as u8;
                },
                0xC7 => {
                    return (self.rtc.read_reg(2) >> 8) as u8;
                },
                0xC8 => {
                    return self.rtc.read_reg(4) as u8;
                },
                0xC9 => {
                    return (self.rtc.read_reg(4) >> 8) as u8;
                },
                _ => {},
            }
        }
        let offset: usize = rel as usize;
        if offset < self.rom.len() {
            self.rom[offset]
        } else {
            ((rel >> 1) & 0xFF) as u8
        }
    }

    fn read_rom16(&self, addr: u32) -> (val: u16)
        ensures
            val == self@.rom16(addr),
    {
        let rel: u32 = addr & 0x01FF_FFFE;
        if self.rtc.readable() {
            match rel {
                0xC4 => {
                    return self.rtc.read_reg(0);
                },
                0xC6 => {
                    return self.rtc.read_reg(2);
                },
                0xC8 => {
                    return self.rtc.read_reg(4);
                },
                _ => {},
            }
        }
        let offset: usize = rel as usize;
        if offset + 1 < self.rom.len() {
            le16(self.rom[offset], self.rom[offset + 1])
        } else {
            (rel >> 1) as u16
        }
    }

    fn read_cart16(&mut self, addr: u32) -> (val: u16)
        requires
            old(self).wf(),
        ensures
            final(self).wf(),
            (val, final(self)@) == old(self)@.cart16(addr),
    {
        if self.is_eeprom_port(addr) {
            self.backup.read(addr & 0xFFFF) as u16
        } else {
            self.read_rom16(addr)
        }
    }

    fn read_cart8(&mut self, addr: u32) -> (val: u8)
        requires
            old(self).wf(),
        ensures
            final(self).wf(),
            (val, final(self)@) == old(self)@.cart8(addr),
    {
        if self.is_eeprom_port(addr) {
            self.backup.read(addr & 0xFFFF)
        } else {
            self.read_rom8(addr)
        }
    }

    fn read_io8(&self, addr: u32) -> (val: u8)
        ensures
            val == self@.io8(addr),
    {
        let val: u16 = self.read_io16(addr & !1u32);
        if addr & 1 == 0 {
            val as u8
        } else {
            (val >> 8) as u8
        }
    }

    /// Reads a register.
    pub fn read_io16(&self, addr: u32) -> (val: u16)
        ensures
            val == self@.io16(addr),
    {
        proof {
            reveal(BusState::io16);
        }
        let off: u32 = addr & 0x3FF;
        if off < 0x060 {
            return self.io.read_display(off);
        }
        if off <= 0x0A8 {
            return self.apu.read_reg((off - 0x060) as u16);
        }
        match off {
            0x0BA => self.dma.channels[0].control,
            0x0C6 => self.dma.channels[1].control,
            0x0D2 => self.dma.channels[2].control,
            0x0DE => self.dma.channels[3].control,
            0x100 => self.timers.read_counter(0),
            0x102 => self.timers.timers[0].control,
            0x104 => self.timers.read_counter(1),
            0x106 => self.timers.timers[1].control,
            0x108 => self.timers.read_counter(2),
            0x10A => self.timers.timers[2].control,
            0x10C => self.timers.read_counter(3),
            0x10E => self.timers.timers[3].control,
            0x130 => self.keypad.read_keyinput(),
            0x132 => self.keypad.keycnt,
            0x200 => self.interrupt.read_ie(),
            0x202 => self.interrupt.read_if(),
            0x204 => self.io.waitcnt,
            0x208 => self.interrupt.read_ime(),
            0x300 => self.io.postflg as u16,
            _ => 0,
        }
    }

    /// Reads a byte.
    pub fn read8(&mut self, addr: u32) -> (val: u8)
        requires
            old(self).wf(),
        ensures
            final(self).wf(),
            (val, final(self)@) == old(self)@.read8(addr),
    {
        proof {
            reveal(BusState::lookup8);
        }
        let val: u8 = match addr >> 24 {
            0x00 => self.read_bios(addr),
            0x02 => self.ewram[(addr & 0x3FFFF) as usize],
            0x03 => self.iwram[(addr & 0x7FFF) as usize],
            0x04 => self.read_io8(addr),
            0x05 => self.palette[(addr & 0x3FF) as usize],
            0x06 => self.read_vram8(addr),
            0x07 => self.oam[(addr & 0x3FF) as usize],
            0x08..=0x0D => self.read_cart8(addr),
            0x0E..=0x0F => self.backup.read(addr & 0xFFFF),
            _ => (self.last_read & 0xFF) as u8,
        };
        self.last_read = val as u32;
        val
    }

    /// What a byte read of `addr` would give, without any effect.
    pub fn peek8(&self, addr: u32) -> (val: u8)
        requires
            self.wf(),
        ensures
            val == self@.read8(addr).0,
    {
        proof {
            reveal(BusState::lookup8);
        }
        match addr >> 24 {
            0x00 => {
                let index: usize = (addr & 0x3FFF) as usize;
                if index < self.bios.len() {
                    self.bios[index]
                } else {
                    0
                }
            },
            0x02 => self.ewram[(addr & 0x3FFFF) as usize],
            0x03 => self.iwram[(addr & 0x7FFF) as usize],
            0x04 => self.read_io8(addr),
            0x05 => self.palette[(addr & 0x3FF) as usize],
            0x06 => self.read_vram8(addr),
            0x07 => self.oam[(addr & 0x3FF) as usize],
            0x08..=0x0D => {
                if self.is_eeprom_port(addr) {
                    self.backup.peek(addr & 0xFFFF)
                } else {
                    self.read_rom8(addr)
                }
            },
            0x0E..=0x0F => self.backup.peek(addr & 0xFFFF),
            _ => (self.last_read & 0xFF) as u8,
        }
    }

    /// The four bytes from the aligned address, as byte reads would give them,
    /// without any effect.
    pub fn peek32(&self, addr: u32) -> (val: u32)
        requires
            self.wf(),
        ensures
            val == le32(
                self@.read8(addr & !3u32).0,
                self@.read8(((addr & !3u32) + 1) as u32).0,
                self@.read8(((addr & !3u32) + 2) as u32).0,
                self@.read8(((addr & !3u32) + 3) as u32).0,
            ),
    {
        proof {
            aligned_bounds(addr);
        }
        let base: u32 = addr & !3u32;
        le32(self.peek8(base), self.peek8(base + 1), self.peek8(base + 2), self.peek8(base + 3))
    }

    /// Reads a halfword from the aligned address.
    pub fn read16(&mut self, addr: u32) -> (val: u16)
        requires
            old(self).wf(),
        ensures
            final(self).wf(),
            (val, final(self)@) == old(self)@.read16(addr),
    {
        proof {
            reveal(BusState::lookup16);
        }
        proof {
            aligned_bounds(addr);
        }
        let addr: u32 = addr & !1u32;
        let val: u16 = match addr >> 24 {
            0x00 => {
                let lo: u8 = self.read_bios(addr);
                let hi: u8 = self.read_bios(addr + 1);
                le16(lo, hi)
            },
            0x02 => {
                let base: usize = (addr & 0x3FFFF) as usize;
                le16(self.ewram[base], self.ewram[base + 1])
            },
            0x03 => {
                let base: usize = (addr & 0x7FFF) as usize;
                le16(self.iwram[base], self.iwram[base + 1])
            },
            0x04 => self.read_io16(addr),
            0x05 => {
                let base: usize = (addr & 0x3FF) as usize;
                le16(self.palette[base], self.palette[base + 1])
            },
            0x06 => self.read_vram16(addr),
            0x07 => {
                let base: usize = (addr & 0x3FF) as usize;
                le16(self.oam[base], self.oam[base + 1])
            },
            0x08..=0x0D => self.read_cart16(addr),
            0x0E..=0x0F => {
                let b: u8 = self.backup.read(addr & 0xFFFF);
                le16(b, b)
            },
            _ => self.last_read as u16,
        };
        self.last_read = val as u32;
        val
    }

    /// Reads a word from the aligned address.
    pub fn read32(&mut self, addr: u32) -> (val: u32)
        requires
            old(self).wf(),
        ensures
            final(self).wf(),
            (val, final(self)@) == old(self)@.read32(addr),
    {
        proof {
            reveal(BusState::lookup32);
        }
        proof {
            aligned_bounds(addr);
        }
        let addr: u32 = addr & !3u32;
        let val: u32 = match addr >> 24 {
            0x02 => {
                let base: usize = (addr & 0x3FFFF) as usize;
                le32(
                    self.ewram[base],
                    self.ewram[base + 1],
                    self.ewram[base + 2],
                    self.ewram[base + 3],
                )
            },
            0x03 => {
                let base: usize = (addr & 0x7FFF) as usize;
                le32(
                    self.iwram[base],
                    self.iwram[base + 1],
                    self.iwram[base + 2],
                    self.iwram[base + 3],
                )
            },
            0x04 => join16(self.read_io16(addr), self.read_io16(addr + 2)),
            0x05 => {
                let base: usize = (addr & 0x3FF) as usize;
                le32(
                    self.palette[base],
                    self.palette[base + 1],
                    self.palette[base + 2],
                    self.palette[base + 3],
                )
            },
            0x06 => join16(self.read_vram16(addr), self.read_vram16(addr + 2)),
            0x07 => {
                let base: usize = (addr & 0x3FF) as usize;
                le32(self.oam[base], self.oam[base + 1], self.oam[base + 2], self.oam[base + 3])
            },
            0x08..=0x0D => {
                let lo: u16 = self.read_cart16(addr);
                let hi: u16 = self.read_cart16(addr + 2);
                join16(lo, hi)
            },
            0x0E..=0x0F => {
                let b: u8 = self.backup.read(addr & 0xFFFF);
                le32(b, b, b, b)
            },
            _ => {
                let lo: u16 = self.read16(addr);
                let hi: u16 = self.read16(addr + 2);
                join16(lo, hi)
            },
        };
        self.last_read = val;
        val
    }

    /// The on-chip work RAM.
    pub fn iwram_ref(&self) -> (m: &[u8])
        ensures
            m@ == self@.iwram,
    {
        self.iwram.as_slice()
    }

    /// The on-chip work RAM, to write to.
    pub fn iwram_mut(&mut self) -> (m: &mut [u8])
        ensures
            m@ == old(self)@.iwram,
            final(self)@ == (BusState { iwram: final(m)@, ..old(self)@ }),
    {
        self.iwram.as_mut_slice()
    }

    /// The on-board work RAM.
    pub fn ewram_ref(&self) -> (m: &[u8])
        ensures
            m@ == self@.ewram,
    {
        self.ewram.as_slice()
    }

    /// Whether the save memory is busy with a command.
    pub fn backup_busy(&self) -> (busy: bool)
        ensures
            busy == self@.backup.busy(),
    {
        self.backup.is_busy()
    }

    /// Lets `cycles` CPU cycles pass for the save memory.
    pub fn tick_backup(&mut self, cycles: u32)
        requires
            old(self).wf(),
        ensures
            final(self).wf(),
            final(self)@ == old(self)@.backup_ticked(cycles),
    {
        self.backup.tick(cycles);
    }
}

} // verus!

//! A headless session: a machine that is driven command by command.

use vstd::prelude::*;
use vstd::string::*;

use crate::apu::ApuState;
use crate::arm7tdmi::Cpu;
use crate::bios::affine::{self, MathReply, MathRequest};
use crate::bits;
use crate::bus::BusState;
use crate::gba::{Gba, GbaState, CLOCK_LIMIT, CYCLES_PER_FRAME};
use crate::keypad::Keypad;

use super::protocol::{self, Request, RequestView, BUTTON_MASK};

verus! {

broadcast use bits::group_and_bounds;

/// Why a command fails.
#[derive(Debug, Clone, Copy, PartialEq, Eq, Structural)]
pub enum HarnessError {
    /// There is no machine, because no cartridge was loaded.
    NoRom,
}

/// The session.
#[derive(Debug)]
pub struct Harness {
    pub bios: Option<Vec<u8>>,
    /// Start at the cartridge instead of the boot ROM.
    pub skip_bios: bool,
    pub rom: Option<Vec<u8>>,
    pub gba: Option<Gba>,
    pub frame_index: u64,
    pub buttons: u16,
    /// Samples that were not asked for yet.
    pub audio: Vec<i16>,
    /// The save memory's contents as last loaded; they survive a reset.
    pub save: Option<Vec<u8>>,
}

/// What the session holds.
#[verifier::ext_equal]
pub struct HarnessState {
    pub bios: Option<Seq<u8>>,
    pub skip_bios: bool,
    pub rom: Option<Seq<u8>>,
    pub gba: Option<GbaState>,
    pub frame_index: u64,
    pub buttons: u16,
    pub audio: Seq<i16>,
    pub save: Option<Seq<u8>>,
}

/// The view of optional data.
pub open spec fn data_view(d: Option<Vec<u8>>) -> Option<Seq<u8>> {
    match d {
        Some(v) => Some(v@),
        None => None,
    }
}

impl View for Harness {
    type V = HarnessState;

    open spec fn view(&self) -> HarnessState {
        HarnessState {
            bios: data_view(self.bios),
            skip_bios: self.skip_bios,
            rom: data_view(self.rom),
            gba: match self.gba {
                Some(g) => Some(g@),
                None => None,
            },
            frame_index: self.frame_index,
            buttons: self.buttons,
            audio: self.audio@,
            save: data_view(self.save),
        }
    }
}

impl HarnessState {
    pub open spec fn begin(bios: Option<Seq<u8>>, skip_bios: bool) -> HarnessState {
        HarnessState {
            bios,
            skip_bios,
            rom: None,
            gba: None,
            frame_index: 0,
            buttons: 0,
            audio: Seq::empty(),
            save: None,
        }
    }

    /// The machine that a cartridge makes with the session's boot ROM and
    /// save.
    pub open spec fn machine(self, rom: Seq<u8>) -> GbaState {
        let g = Gba::power_on(self.bios, rom);
        let started = if self.skip_bios {
            GbaState { cpu: Cpu::after_boot(), ..g }
        } else {
            g
        };
        match self.save {
            Some(data) => started.with_save(data),
            None => started,
        }
    }

    /// The session after its machine was built anew. Without a cartridge
    /// nothing changes.
    pub open spec fn built(self) -> HarnessState {
        match self.rom {
            Some(rom) => HarnessState {
                gba: Some(self.machine(rom)),
                frame_index: 0,
                buttons: 0,
                audio: Seq::empty(),
                ..self
            },
            None => self,
        }
    }

    /// The error that a request is answered with before anything is done for
    /// it: a file is to be loaded and none is named, or a machine is asked for
    /// and there is none.
    pub open spec fn refused(self, r: RequestView) -> Option<Seq<char>> {
        match r {
            RequestView::LoadRom(None) => Some("missing path"@),
            RequestView::LoadBios(None) => Some("missing path"@),
            RequestView::LoadSave(None) => Some("missing path"@),
            RequestView::Reset => if self.rom is None {
                Some("no ROM loaded"@)
            } else {
                None
            },
            RequestView::Step(n) => self.without_machine(),
            RequestView::GetVideo => self.without_machine(),
            RequestView::SaveState => self.without_machine(),
            RequestView::LoadState => self.without_machine(),
            RequestView::Peek(addr, len) => self.without_machine(),
            _ => None,
        }
    }

    pub open spec fn without_machine(self) -> Option<Seq<char>> {
        if self.gba is None {
            Some("no ROM loaded"@)
        } else {
            None
        }
    }

    /// The session after a save was loaded into its machine.
    pub open spec fn with_save(self, data: Seq<u8>) -> HarnessState {
        match self.gba {
            Some(g) => HarnessState { gba: Some(g.with_save(data)), save: Some(data), ..self },
            None => self,
        }
    }

    /// The session after the finished samples of its machine were collected.
    pub open spec fn audio_collected(self) -> HarnessState {
        match self.gba {
            Some(g) => HarnessState {
                audio: self.audio + g.bus.apu.sample_buffer,
                gba: Some(g.drained()),
                ..self
            },
            None => self,
        }
    }
}

impl GbaState {
    pub open spec fn with_save(self, data: Seq<u8>) -> GbaState {
        GbaState {
            bus: BusState { backup: self.bus.backup.imported(data), ..self.bus },
            ..self
        }
    }

    pub open spec fn with_keys(self, keys: u16) -> GbaState {
        GbaState {
            bus: BusState {
                keypad: Keypad { keyinput: !keys & 0x03FF, ..self.bus.keypad },
                ..self.bus
            },
            ..self
        }
    }

    /// The machine with no finished samples left.
    pub open spec fn drained(self) -> GbaState {
        GbaState {
            bus: BusState {
                apu: ApuState { sample_buffer: Seq::empty(), ..self.bus.apu },
                ..self.bus
            },
            ..self
        }
    }
}

fn copy_bytes(data: &Vec<u8>) -> (copy: Vec<u8>)
    ensures
        copy@ == data@,
{
    let copy = data.clone();
    assert(copy@ =~= data@);
    copy
}

/// The bytes of 16-bit values, low byte first.
pub open spec fn half_bytes(values: Seq<u16>) -> Seq<u8> {
    Seq::new(
        2 * values.len(),
        |i: int|
            if i % 2 == 0 {
                values[i / 2] as u8
            } else {
                (values[i / 2] >> 8) as u8
            },
    )
}

fn to_bytes(values: &[u16]) -> (bytes: Vec<u8>)
    ensures
        bytes@ == half_bytes(values@),
{
    let mut bytes: Vec<u8> = Vec::new();
    let mut i: usize = 0;
    while i < values.len()
        invariant
            i <= values@.len(),
            bytes@ == half_bytes(values@.take(i as int)),
        decreases values@.len() - i,
    {
        bytes.push(values[i] as u8);
        bytes.push((values[i] >> 8) as u8);
        i = i + 1;
        assert(bytes@ =~= half_bytes(values@.take(i as int)));
    }
    assert(values@.take(values@.len() as int) =~= values@);
    bytes
}

/// Samples as their 16-bit patterns.
pub open spec fn patterns(samples: Seq<i16>) -> Seq<u16> {
    Seq::new(samples.len(), |i: int| samples[i] as u16)
}

impl Harness {
    pub open spec fn wf(self) -> bool {
        self.gba is Some ==> self.gba->0.wf()
    }

    /// A session without a cartridge.
    pub fn new(bios: Option<Vec<u8>>, skip_bios: bool) -> (h: Harness)
        ensures
            h.wf(),
            h@ == HarnessState::begin(data_view(bios), skip_bios),
    {
        Harness {
            bios,
            skip_bios,
            rom: None,
            gba: None,
            frame_index: 0,
            buttons: 0,
            audio: Vec::new(),
            save: None,
        }
    }

    /// Builds the machine anew from the cartridge and the boot ROM.
    pub fn build(&mut self) -> (r: Result<(), HarnessError>)
        requires
            old(self).wf(),
        ensures
            final(self).wf(),
            final(self)@ == old(self)@.built(),
            r == (if old(self)@.rom is Some {
                Ok(())
            } else {
                Err(HarnessError::NoRom)
            }),
    {
        let rom: Vec<u8> = match &self.rom {
            Some(rom) => copy_bytes(rom),
            None => {
                return Err(HarnessError::NoRom);
            },
        };
        let bios: Option<Vec<u8>> = match &self.bios {
            Some(bios) => Some(copy_bytes(bios)),
            None => None,
        };
        let mut gba = Gba::new(bios, rom);
        if self.skip_bios {
            gba.cpu = Cpu::new_skip_bios();
        }
        if let Some(save) = &self.save {
            gba.import_save(save.as_slice());
        }
        self.gba = Some(gba);
        self.frame_index = 0;
        self.buttons = 0;
        self.audio = Vec::new();
        Ok(())
    }

    /// Loads a cartridge and starts it.
    pub fn load_rom(&mut self, data: Vec<u8>)
        requires
            old(self).wf(),
        ensures
            final(self).wf(),
            final(self)@ == (HarnessState { rom: Some(data@), ..old(self)@ }).built(),
    {
        self.rom = Some(data);
        let _ = self.build();
    }

    /// Loads a boot ROM. A running machine is started anew with it.
    pub fn load_bios(&mut self, data: Vec<u8>)
        requires
            old(self).wf(),
        ensures
            final(self).wf(),
            final(self)@ == (HarnessState { bios: Some(data@), ..old(self)@ }).built(),
    {
        self.bios = Some(data);
        if self.rom.is_some() {
            let _ = self.build();
        }
    }

    /// Loads a save into the machine; it is kept for later resets.
    pub fn load_save(&mut self, data: Vec<u8>) -> (r: Result<(), HarnessError>)
        requires
            old(self).wf(),
        ensures
            final(self).wf(),
            final(self)@ == old(self)@.with_save(data@),
            r == (if old(self)@.gba is Some {
                Ok(())
            } else {
                Err(HarnessError::NoRom)
            }),
    {
        let mut gba = match self.gba.take() {
            Some(gba) => gba,
            None => {
                return Err(HarnessError::NoRom);
            },
        };
        gba.import_save(data.as_slice());
        self.gba = Some(gba);
        self.save = Some(data);
        Ok(())
    }

    /// Sets the buttons that the next frames see; bits that name no button of
    /// the machine are ignored.
    pub fn set_input(&mut self, buttons: u16)
        requires
            old(self).wf(),
        ensures
            final(self).wf(),
            final(self)@ == (HarnessState { buttons: buttons & BUTTON_MASK, ..old(self)@ }),
    {
        self.buttons = buttons & BUTTON_MASK;
    }

    /// Runs the machine for a frame with the current buttons. If it stops for a
    /// function value, `answer` goes on with the frame.
    pub fn begin_frame(&mut self) -> (r: Result<(), HarnessError>)
        requires
            old(self).wf(),
            old(self)@.gba is Some ==> old(self)@.gba->0.now() + CYCLES_PER_FRAME <= CLOCK_LIMIT,
        ensures
            final(self).wf(),
            old(self)@.gba is None ==> r == Err::<(), HarnessError>(HarnessError::NoRom)
                && final(self)@ == old(self)@,
            old(self)@.gba is Some ==> {
                let g = old(self)@.gba->0.with_keys(old(self)@.buttons);
                &&& r == Ok::<(), HarnessError>(())
                &&& final(self)@.gba is Some
                &&& final(self)@ == (HarnessState { gba: final(self)@.gba, ..old(self)@ })
                &&& (GbaState {
                    target: (g.now() + CYCLES_PER_FRAME) as u64,
                    ..g
                }).runs_to(final(self)@.gba->0)
            },
    {
        let mut gba = match self.gba.take() {
            Some(gba) => gba,
            None => {
                return Err(HarnessError::NoRom);
            },
        };
        gba.set_keypad_state(self.buttons);
        gba.run_cycles(CYCLES_PER_FRAME);
        self.gba = Some(gba);
        Ok(())
    }

    /// The function value that the machine waits for.
    pub fn math_request(&self) -> (request: Option<MathRequest>)
        ensures
            request == (match self@.gba {
                Some(g) => match g.cpu.math_call {
                    Some(call) => Some(call.request()),
                    None => None,
                },
                None => None,
            }),
    {
        match &self.gba {
            Some(gba) => gba.math_request(),
            None => None,
        }
    }

    /// Hands the machine a function value and runs on.
    pub fn answer(&mut self, reply: MathReply)
        requires
            old(self).wf(),
        ensures
            final(self).wf(),
            old(self)@.gba is None ==> final(self)@ == old(self)@,
            old(self)@.gba is Some ==> {
                let g = old(self)@.gba->0;
                let r = affine::answered(g.cpu, g.bus, reply);
                &&& final(self)@.gba is Some
                &&& final(self)@ == (HarnessState { gba: final(self)@.gba, ..old(self)@ })
                &&& (GbaState { cpu: r.0, bus: r.1, ..g }).runs_to(final(self)@.gba->0)
            },
    {
        if let Some(mut gba) = self.gba.take() {
            gba.answer_math(reply);
            gba.resume();
            self.gba = Some(gba);
        }
    }

    /// Ends a frame: collects its samples and counts it.
    pub fn end_frame(&mut self)
        requires
            old(self).wf(),
        ensures
            final(self).wf(),
            final(self)@ == (HarnessState {
                frame_index: old(self)@.frame_index.wrapping_add(1),
                ..old(self)@.audio_collected()
            }),
    {
        self.collect_audio();
        self.frame_index = self.frame_index.wrapping_add(1);
    }

    fn collect_audio(&mut self)
        requires
            old(self).wf(),
        ensures
            final(self).wf(),
            final(self)@ == old(self)@.audio_collected(),
    {
        let mut gba = match self.gba.take() {
            Some(gba) => gba,
            None => {
                return ;
            },
        };
        let ghost g0 = gba@;
        let n: usize = gba.bus.apu.sample_buffer.len();
        let mut tmp: Vec<i16> = vec![0i16; n];
        let _ = gba.drain_audio(tmp.as_mut_slice());
        assert(tmp@ =~= g0.bus.apu.sample_buffer);
        assert(gba@.bus.apu.sample_buffer =~= Seq::<i16>::empty());
        let ghost before = self.audio@;
        let ghost samples = tmp@;
        self.audio.append(&mut tmp);
        assert(self.audio@ =~= before + samples);
        self.gba = Some(gba);
    }

    /// The picture, two bytes per pixel.
    pub fn get_video(&self) -> (bytes: Option<Vec<u8>>)
        ensures
            data_view(bytes) == (match self@.gba {
                Some(g) => Some(half_bytes(g.frame_buffer)),
                None => None,
            }),
    {
        match &self.gba {
            Some(gba) => Some(to_bytes(gba.framebuffer())),
            None => None,
        }
    }

    /// The samples since the last call, two bytes each, and how many stereo
    /// pairs they are.
    pub fn get_audio(&mut self) -> (r: (usize, Vec<u8>))
        requires
            old(self).wf(),
        ensures
            final(self).wf(),
            r.0 == old(self)@.audio.len() / 2,
            r.1@ == half_bytes(patterns(old(self)@.audio)),
            final(self)@ == (HarnessState { audio: Seq::empty(), ..old(self)@ }),
    {
        let n: usize = self.audio.len();
        let mut values: Vec<u16> = Vec::new();
        let mut i: usize = 0;
        while i < n
            invariant
                i <= n,
                n == self.audio@.len(),
                values@ == patterns(self.audio@.take(i as int)),
            decreases n - i,
        {
            values.push(self.audio[i] as u16);
            i = i + 1;
            assert(values@ =~= patterns(self.audio@.take(i as int)));
        }
        assert(self.audio@.take(n as int) =~= self.audio@);
        let bytes = to_bytes(values.as_slice());
        self.audio = Vec::new();
        (n / 2, bytes)
    }

    fn machine_missing(&self) -> (error: Option<String>)
        ensures
            protocol::text_view(error) == self@.without_machine(),
    {
        if self.gba.is_none() {
            Some(String::from_str("no ROM loaded"))
        } else {
            None
        }
    }

    /// The error that a request is answered with, if it is refused.
    pub fn refusal(&self, request: &Request) -> (error: Option<String>)
        ensures
            protocol::text_view(error) == self@.refused(request@),
    {
        match request {
            Request::LoadRom(None) => Some(String::from_str("missing path")),
            Request::LoadBios(None) => Some(String::from_str("missing path")),
            Request::LoadSave(None) => Some(String::from_str("missing path")),
            Request::Reset => if self.rom.is_none() {
                Some(String::from_str("no ROM loaded"))
            } else {
                None
            },
            Request::Step(_) => self.machine_missing(),
            Request::GetVideo => self.machine_missing(),
            Request::SaveState => self.machine_missing(),
            Request::LoadState => self.machine_missing(),
            Request::Peek(_, _) => self.machine_missing(),
            _ => None,
        }
    }

    /// `len` bytes of memory from `addr`, without any effect on the machine.
    pub fn peek(&self, addr: u32, len: u32) -> (bytes: Option<Vec<u8>>)
        requires
            self.wf(),
        ensures
            data_view(bytes) == (match self@.gba {
                Some(g) => Some(peeked(g.bus, addr, len as nat)),
                None => None,
            }),
    {
        let gba = match &self.gba {
            Some(gba) => gba,
            None => {
                return None;
            },
        };
        let mut bytes: Vec<u8> = Vec::new();
        let mut i: u32 = 0;
        while i < len
            invariant
                i <= len,
                gba.wf(),
                bytes@ == peeked(gba@.bus, addr, i as nat),
            decreases len - i,
        {
            bytes.push(gba.bus.peek8(addr.wrapping_add(i)));
            i = i + 1;
            assert(bytes@ =~= peeked(gba@.bus, addr, i as nat));
        }
        Some(bytes)
    }
}

/// `n` bytes of memory as byte reads from `addr` would give them.
pub open spec fn peeked(b: BusState, addr: u32, n: nat) -> Seq<u8> {
    Seq::new(n, |i: int| b.read8(addr.wrapping_add(i as u32)).0)
}

/// A loaded save survives a reset: the machine that is built anew has the same
/// save memory as a fresh one into which the save is loaded.
pub proof fn save_survives_reset(h: HarnessState, data: Seq<u8>)
    requires
        h.gba is Some,
        h.rom is Some,
    ensures
        h.with_save(data).built().gba is Some,
        h.with_save(data).built().gba->0.bus.backup == Gba::power_on(
            h.bios,
            h.rom->0,
        ).bus.backup.imported(data),
{
}

/// Values go out low byte first.
pub proof fn halves_are_little_endian(values: Seq<u16>, i: int)
    requires
        0 <= i < values.len(),
    ensures
        half_bytes(values)[2 * i] + 256 * half_bytes(values)[2 * i + 1] == values[i],
        half_bytes(values).len() == 2 * values.len(),
{
    let v = values[i];
    crate::bus::laws::bytes_of_half(v);
    crate::bits::half_fields(0, 0, v as u8, (v >> 8) as u8);
    assert((2 * i + 1) / 2 == i && (2 * i) / 2 == i);
}

} // verus!

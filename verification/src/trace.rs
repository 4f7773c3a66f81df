//! Diagnostics: the last instructions that were executed, and where cycles
//! went. Both are kept only where they were asked for.

use vstd::prelude::*;

verus! {

/// How many instructions the ring keeps.
pub const TRACE_RING_SIZE: usize = 32768;

/// An executed instruction and some registers before it.
#[derive(Debug, Clone, Copy, PartialEq, Eq, Structural)]
pub struct TraceEntry {
    pub pc: u32,
    pub op: u32,
    pub thumb: bool,
    pub r0: u32,
    pub r1: u32,
    pub r2: u32,
    pub r3: u32,
    pub sp: u32,
    pub lr: u32,
}

impl TraceEntry {
    /// An entry that was never written.
    pub open spec fn blank() -> TraceEntry {
        TraceEntry { pc: 0, op: 0, thumb: false, r0: 0, r1: 0, r2: 0, r3: 0, sp: 0, lr: 0 }
    }

    #[verifier::allow_in_spec]
    pub fn is_blank(&self) -> bool
        returns
            self.pc == 0 && self.op == 0,
    {
        self.pc == 0 && self.op == 0
    }
}

/// Whether an instruction can be executed at `pc`: in the boot ROM, in work RAM
/// without its mirrors, or in the cartridge.
#[verifier::allow_in_spec]
pub fn pc_in_valid_code(pc: u32) -> bool
    returns
        ({
            let region = pc >> 24;
            if region == 0x00 {
                pc < 0x0000_4000
            } else if region == 0x02 {
                pc < 0x0204_0000
            } else if region == 0x03 {
                pc < 0x0300_8000
            } else {
                0x08 <= region && region <= 0x0D
            }
        }),
{
    match pc >> 24 {
        0x00 => pc < 0x0000_4000,
        0x02 => pc < 0x0204_0000,
        0x03 => pc < 0x0300_8000,
        0x08..=0x0D => true,
        _ => false,
    }
}

/// The last instructions. Recording stops for good once the program counter
/// leaves all code or reaches a chosen address.
#[derive(Debug)]
pub struct TraceRing {
    pub entries: Vec<TraceEntry>,
    /// Where the next entry goes; the oldest one is there.
    pub head: usize,
    pub frozen: bool,
    pub freeze_at: Option<u32>,
}

/// What a ring holds.
#[verifier::ext_equal]
pub struct TraceState {
    pub entries: Seq<TraceEntry>,
    pub head: int,
    pub frozen: bool,
    pub freeze_at: Option<u32>,
}

impl View for TraceRing {
    type V = TraceState;

    open spec fn view(&self) -> TraceState {
        TraceState {
            entries: self.entries@,
            head: self.head as int,
            frozen: self.frozen,
            freeze_at: self.freeze_at,
        }
    }
}

impl TraceState {
    /// Whether recording stops with an instruction at `pc`.
    pub open spec fn freezes(self, pc: u32) -> bool {
        !pc_in_valid_code(pc) || self.freeze_at == Some(pc)
    }

    /// The ring after an instruction: the oldest entry is replaced.
    pub open spec fn recorded(self, e: TraceEntry) -> TraceState {
        if self.frozen {
            self
        } else {
            TraceState {
                entries: self.entries.update(self.head, e),
                head: (self.head + 1) % TRACE_RING_SIZE as int,
                frozen: self.freezes(e.pc),
                ..self
            }
        }
    }

    /// Entry `i`, counted from the oldest.
    pub open spec fn nth(self, i: int) -> TraceEntry {
        self.entries[(self.head + i) % TRACE_RING_SIZE as int]
    }

    /// The first `n` entries from the oldest on, without those never written.
    pub open spec fn listing(self, n: nat) -> Seq<TraceEntry>
        decreases n,
    {
        if n == 0 {
            Seq::empty()
        } else {
            let s = self.listing((n - 1) as nat);
            if self.nth(n - 1).is_blank() {
                s
            } else {
                s.push(self.nth(n - 1))
            }
        }
    }
}

impl TraceRing {
    pub open spec fn wf(self) -> bool {
        self.entries@.len() == TRACE_RING_SIZE && self.head < TRACE_RING_SIZE
    }

    /// An empty ring.
    pub fn new(freeze_at: Option<u32>) -> (ring: TraceRing)
        ensures
            ring.wf(),
            ring@ == (TraceState {
                entries: Seq::new(TRACE_RING_SIZE as nat, |i: int| TraceEntry::blank()),
                head: 0,
                frozen: false,
                freeze_at,
            }),
    {
        let blank = TraceEntry {
            pc: 0,
            op: 0,
            thumb: false,
            r0: 0,
            r1: 0,
            r2: 0,
            r3: 0,
            sp: 0,
            lr: 0,
        };
        let entries: Vec<TraceEntry> = vec![blank; TRACE_RING_SIZE];
        assert(entries@ =~= Seq::new(TRACE_RING_SIZE as nat, |i: int| TraceEntry::blank()));
        TraceRing { entries, head: 0, frozen: false, freeze_at }
    }

    fn record(&mut self, e: TraceEntry) -> (froze: bool)
        requires
            old(self).wf(),
        ensures
            final(self).wf(),
            final(self)@ == old(self)@.recorded(e),
            froze == (!old(self)@.frozen && final(self)@.frozen),
    {
        if self.frozen {
            return false;
        }
        let chosen = match self.freeze_at {
            Some(pc) => pc == e.pc,
            None => false,
        };
        self.frozen = !pc_in_valid_code(e.pc) || chosen;
        self.entries[self.head] = e;
        self.head = (self.head + 1) % TRACE_RING_SIZE;
        self.frozen
    }

    /// The entries, oldest first.
    pub fn oldest_first(&self) -> (list: Vec<TraceEntry>)
        requires
            self.wf(),
        ensures
            list@ == self@.listing(TRACE_RING_SIZE as nat),
    {
        let mut list: Vec<TraceEntry> = Vec::new();
        let mut i: usize = 0;
        while i < TRACE_RING_SIZE
            invariant
                i <= TRACE_RING_SIZE,
                self.wf(),
                list@ == self@.listing(i as nat),
            decreases TRACE_RING_SIZE - i,
        {
            let e = self.entries[(self.head + i) % TRACE_RING_SIZE];
            if !e.is_blank() {
                list.push(e);
            }
            i = i + 1;
        }
        list
    }
}

/// Records a THUMB instruction. Returns whether recording stops with it.
pub fn push_trace_thumb(
    ring: &mut TraceRing,
    pc: u32,
    op: u16,
    r0: u32,
    r1: u32,
    r2: u32,
    r3: u32,
    sp: u32,
    lr: u32,
) -> (froze: bool)
    requires
        old(ring).wf(),
    ensures
        final(ring).wf(),
        final(ring)@ == old(ring)@.recorded(
            TraceEntry { pc, op: op as u32, thumb: true, r0, r1, r2, r3, sp, lr },
        ),
        froze == (!old(ring)@.frozen && final(ring)@.frozen),
{
    ring.record(TraceEntry { pc, op: op as u32, thumb: true, r0, r1, r2, r3, sp, lr })
}

/// Records an ARM instruction. Returns whether recording stops with it.
pub fn push_trace_arm(
    ring: &mut TraceRing,
    pc: u32,
    op: u32,
    r0: u32,
    r1: u32,
    r2: u32,
    r3: u32,
    sp: u32,
    lr: u32,
) -> (froze: bool)
    requires
        old(ring).wf(),
    ensures
        final(ring).wf(),
        final(ring)@ == old(ring)@.recorded(
            TraceEntry { pc, op, thumb: false, r0, r1, r2, r3, sp, lr },
        ),
        froze == (!old(ring)@.frozen && final(ring)@.frozen),
{
    ring.record(TraceEntry { pc, op, thumb: false, r0, r1, r2, r3, sp, lr })
}

/// Whether recording has stopped.
pub fn trace_is_frozen(ring: &TraceRing) -> (b: bool)
    ensures
        b == ring@.frozen,
{
    ring.frozen
}

/// What was recorded last is the newest entry, and a stopped ring keeps what
/// it has.
pub proof fn ring_keeps_the_newest(t: TraceState, e: TraceEntry, f: TraceEntry)
    requires
        t.entries.len() == TRACE_RING_SIZE,
        0 <= t.head < TRACE_RING_SIZE,
    ensures
        !t.frozen ==> t.recorded(e).nth(TRACE_RING_SIZE - 1) == e,
        t.recorded(e).frozen ==> t.recorded(e).recorded(f) == t.recorded(e),
{
}

/// Where cycles went.
#[derive(Debug, Clone, Copy, PartialEq, Eq, Structural)]
pub struct CycleProfile {
    pub user_cycles: u64,
    pub irq_cycles: u64,
    pub halt_cycles: u64,
    pub frames: u64,
}

impl CycleProfile {
    /// After the cycles of an instruction.
    pub open spec fn counted(self, in_irq: bool, cycles: u32) -> CycleProfile {
        if in_irq {
            CycleProfile { irq_cycles: self.irq_cycles.wrapping_add(cycles as u64), ..self }
        } else {
            CycleProfile { user_cycles: self.user_cycles.wrapping_add(cycles as u64), ..self }
        }
    }

    /// After halted cycles.
    pub open spec fn halted(self, cycles: u64) -> CycleProfile {
        CycleProfile { halt_cycles: self.halt_cycles.wrapping_add(cycles), ..self }
    }

    pub fn new() -> (p: CycleProfile)
        ensures
            p == (CycleProfile { user_cycles: 0, irq_cycles: 0, halt_cycles: 0, frames: 0 }),
    {
        CycleProfile { user_cycles: 0, irq_cycles: 0, halt_cycles: 0, frames: 0 }
    }
}

/// Counts the cycles of an instruction, in an interrupt handler or outside.
pub fn cycle_profile_record(profile: &mut CycleProfile, in_irq: bool, cycles: u32)
    ensures
        *final(profile) == old(profile).counted(in_irq, cycles),
{
    if in_irq {
        profile.irq_cycles = profile.irq_cycles.wrapping_add(cycles as u64);
    } else {
        profile.user_cycles = profile.user_cycles.wrapping_add(cycles as u64);
    }
}

/// Counts halted cycles.
pub fn cycle_profile_record_halt(profile: &mut CycleProfile, cycles: u64)
    ensures
        *final(profile) == old(profile).halted(cycles),
{
    profile.halt_cycles = profile.halt_cycles.wrapping_add(cycles);
}

/// The diagnostics of a machine, and two switches for experiments with
/// interrupts.
#[derive(Debug)]
pub struct Diagnostics {
    pub trace: Option<TraceRing>,
    pub profile: Option<CycleProfile>,
    /// Take no interrupt while the save memory is busy.
    pub hold_irqs: bool,
    /// Never request the interrupt of the horizontal blank.
    pub no_hblank_irq: bool,
}

/// What the diagnostics hold.
#[verifier::ext_equal]
pub struct DiagnosticsState {
    pub trace: Option<TraceState>,
    pub profile: Option<CycleProfile>,
    pub hold_irqs: bool,
    pub no_hblank_irq: bool,
}

impl View for Diagnostics {
    type V = DiagnosticsState;

    open spec fn view(&self) -> DiagnosticsState {
        DiagnosticsState {
            trace: match self.trace {
                Some(ring) => Some(ring@),
                None => None,
            },
            profile: self.profile,
            hold_irqs: self.hold_irqs,
            no_hblank_irq: self.no_hblank_irq,
        }
    }
}

impl DiagnosticsState {
    pub open spec fn off() -> DiagnosticsState {
        DiagnosticsState { trace: None, profile: None, hold_irqs: false, no_hblank_irq: false }
    }

    /// After an instruction.
    pub open spec fn noted(self, e: TraceEntry) -> DiagnosticsState {
        match self.trace {
            Some(t) => DiagnosticsState { trace: Some(t.recorded(e)), ..self },
            None => self,
        }
    }

    /// After the cycles of an instruction, in an interrupt handler or outside.
    pub open spec fn counted(self, in_irq: bool, cycles: u32) -> DiagnosticsState {
        match self.profile {
            Some(p) => DiagnosticsState { profile: Some(p.counted(in_irq, cycles)), ..self },
            None => self,
        }
    }

    /// After halted cycles.
    pub open spec fn halted(self, cycles: u64) -> DiagnosticsState {
        match self.profile {
            Some(p) => DiagnosticsState { profile: Some(p.halted(cycles)), ..self },
            None => self,
        }
    }

    /// After a frame.
    pub open spec fn framed(self) -> DiagnosticsState {
        match self.profile {
            Some(p) => DiagnosticsState {
                profile: Some(CycleProfile { frames: p.frames.wrapping_add(1), ..p }),
                ..self
            },
            None => self,
        }
    }
}

impl Diagnostics {
    pub open spec fn wf(self) -> bool {
        match self.trace {
            Some(ring) => ring.wf(),
            None => true,
        }
    }

    /// Nothing is kept, and interrupts work as they should.
    pub fn new() -> (d: Diagnostics)
        ensures
            d.wf(),
            d@ == DiagnosticsState::off(),
    {
        Diagnostics { trace: None, profile: None, hold_irqs: false, no_hblank_irq: false }
    }

    /// Notes an instruction.
    pub fn note(&mut self, e: TraceEntry)
        requires
            old(self).wf(),
            e.thumb ==> e.op <= 0xFFFF,
        ensures
            final(self).wf(),
            final(self)@ == old(self)@.noted(e),
    {
        if let Some(ring) = &mut self.trace {
            if e.thumb {
                let _ = push_trace_thumb(
                    ring,
                    e.pc,
                    e.op as u16,
                    e.r0,
                    e.r1,
                    e.r2,
                    e.r3,
                    e.sp,
                    e.lr,
                );
            } else {
                let _ = push_trace_arm(ring, e.pc, e.op, e.r0, e.r1, e.r2, e.r3, e.sp, e.lr);
            }
        }
    }

    /// Counts the cycles of an instruction.
    pub fn count(&mut self, in_irq: bool, cycles: u32)
        requires
            old(self).wf(),
        ensures
            final(self).wf(),
            final(self)@ == old(self)@.counted(in_irq, cycles),
    {
        if let Some(profile) = &mut self.profile {
            cycle_profile_record(profile, in_irq, cycles);
        }
    }

    /// Counts halted cycles.
    pub fn count_halt(&mut self, cycles: u64)
        requires
            old(self).wf(),
        ensures
            final(self).wf(),
            final(self)@ == old(self)@.halted(cycles),
    {
        if let Some(profile) = &mut self.profile {
            cycle_profile_record_halt(profile, cycles);
        }
    }

    /// Counts a frame.
    pub fn count_frame(&mut self)
        requires
            old(self).wf(),
        ensures
            final(self).wf(),
            final(self)@ == old(self)@.framed(),
    {
        if let Some(profile) = &mut self.profile {
            profile.frames = profile.frames.wrapping_add(1);
        }
    }
}

} // verus!

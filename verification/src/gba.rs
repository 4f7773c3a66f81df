//! The whole machine, and how it runs.

use vstd::prelude::*;

use crate::apu::ApuState;
use crate::arm7tdmi::Cpu;
use crate::bios::affine::{self, MathReply, MathRequest};
use crate::bios::calls;
use crate::bits;
use crate::bus::events::VISIBLE_LINES;
use crate::bus::{Bus, BusState};
use crate::keypad::Keypad;
use crate::scheduler::{self, Event, EventKind, Scheduler, SchedulerState};

verus! {

broadcast use bits::group_and_bounds;

/// CPU cycles per second.
pub const CPU_CLOCK_HZ: u32 = 16_777_216;

/// CPU cycles per pixel.
pub const CYCLES_PER_DOT: u32 = 4;

/// Pixels per line, with the horizontal blank.
pub const DOTS_PER_LINE: u32 = 308;

/// CPU cycles per line.
pub const CYCLES_PER_LINE: u32 = 1232;

/// CPU cycles per frame.
pub const CYCLES_PER_FRAME: u64 = 280_896;

/// CPU cycles of the visible part of a line.
pub const HDRAW_CYCLES: u32 = 960;

/// CPU cycles of the horizontal blank.
pub const HBLANK_CYCLES: u32 = 272;

/// The longest span that a halted machine skips at once.
pub const HALT_SLICE: u64 = 1024;

/// How far the clock may be asked to run.
pub const CLOCK_LIMIT: u64 = 0xFFFF_FFFF_FFFF_0000;

/// Where a run is. It alternates between advancing to the next event and
/// handling the events that are due.
#[derive(Debug, Clone, Copy, PartialEq, Eq, Structural)]
pub enum RunPhase {
    Between,
    Stepping,
    Dispatching,
}

/// The machine.
#[derive(Debug)]
pub struct Gba {
    pub cpu: Cpu,
    pub bus: Bus,
    pub scheduler: Scheduler,
    /// The picture: 240 by 160 pixels of 15 bits.
    pub frame_buffer: Vec<u16>,
    /// How often the vertical blank began.
    pub vblank_entries: u64,
    /// How often its interrupt was requested.
    pub vblank_irqs_raised: u64,
    pub phase: RunPhase,
    /// The time up to which the machine is to run.
    pub target: u64,
}

/// What the machine holds.
#[verifier::ext_equal]
pub struct GbaState {
    pub cpu: Cpu,
    pub bus: BusState,
    pub scheduler: SchedulerState,
    pub frame_buffer: Seq<u16>,
    pub vblank_entries: u64,
    pub vblank_irqs_raised: u64,
    pub phase: RunPhase,
    pub target: u64,
}

impl View for Gba {
    type V = GbaState;

    open spec fn view(&self) -> GbaState {
        GbaState {
            cpu: self.cpu,
            bus: self.bus@,
            scheduler: self.scheduler@,
            frame_buffer: self.frame_buffer@,
            vblank_entries: self.vblank_entries,
            vblank_irqs_raised: self.vblank_irqs_raised,
            phase: self.phase,
            target: self.target,
        }
    }
}

impl GbaState {
    pub open spec fn now(self) -> u64 {
        self.scheduler.timestamp
    }

    /// The machine with its clock moved forward.
    pub open spec fn after(self, cycles: u64) -> GbaState {
        GbaState { scheduler: self.scheduler.advanced(cycles), ..self }
    }

    /// The machine after a pending software interrupt was handled: by the boot
    /// ROM if there is one, else by the system call itself.
    #[verifier::opaque]
    pub open spec fn swi_handled(self) -> GbaState {
        match self.cpu.pending_swi {
            None => self,
            Some(n) => {
                let c = Cpu { pending_swi: None, ..self.cpu };
                if self.bus.has_bios {
                    GbaState { cpu: c.swi_entered(), ..self }
                } else {
                    let r = calls::called(c, self.bus, n);
                    GbaState { cpu: r.0, bus: r.1, ..self }
                }
            },
        }
    }

    /// The machine after a requested halt took effect.
    pub open spec fn halt_handled(self) -> GbaState {
        if self.bus.halt_requested {
            GbaState {
                cpu: Cpu { halted: true, ..self.cpu },
                bus: BusState { halt_requested: false, ..self.bus },
                ..self
            }
        } else {
            self
        }
    }

    /// The machine after one step of the processor: the clock, the timers and,
    /// if `sound` is set, the sound unit follow.
    #[verifier::opaque]
    pub open spec fn executed(self, sound: bool) -> GbaState {
        let out = self.cpu.stepped(BusState { now: self.now(), ..self.bus });
        let ticked = out.1.timers_ticked(out.2);
        GbaState {
            cpu: out.0,
            bus: if sound {
                ticked.sound_ticked(out.2)
            } else {
                ticked
            },
            ..self.after(out.2 as u64)
        }
    }

    /// The machine after one step of the processor and what it asked for: a
    /// system call, a halt.
    pub open spec fn stepped(self, sound: bool) -> GbaState {
        self.executed(sound).swi_handled().halt_handled()
    }

    /// How far a halted machine goes at once: to the next sound sample, but not
    /// past `gap` cycles nor a fixed slice.
    pub open spec fn halt_slice(self, gap: int) -> u32 {
        let to_next = self.bus.timers.next_fifo_overflow();
        let a = if to_next < gap {
            to_next as int
        } else {
            gap
        };
        let b = if a < 1 {
            1
        } else {
            a
        };
        (if b > HALT_SLICE {
            HALT_SLICE as int
        } else {
            b
        }) as u32
    }

    /// The machine after one slice of a halt: the sound unit plays its current
    /// sample over the slice, then the timers advance.
    #[verifier::opaque]
    pub open spec fn idled(self, gap: int) -> GbaState {
        let n = self.halt_slice(gap);
        let b = self.bus.sound_ticked(n).timers_ticked(n);
        GbaState {
            bus: BusState { diagnostics: b.diagnostics.halted(n as u64), ..b },
            ..self.after(n as u64)
        }
    }

    /// The machine with an event of `kind` scheduled `delay` cycles from now.
    pub open spec fn with_event(self, kind: EventKind, delay: u32) -> GbaState {
        GbaState {
            scheduler: self.scheduler.scheduled(
                Event { fire_time: (self.now() + delay) as u64, kind },
            ),
            ..self
        }
    }

    /// The machine at the start of a horizontal blank.
    #[verifier::opaque]
    pub open spec fn at_hblank(self) -> GbaState {
        let r = self.bus.hblank_begun(self.frame_buffer);
        GbaState { bus: r.0, frame_buffer: r.1, ..self }.with_event(
            EventKind::HBlankEnd,
            HBLANK_CYCLES,
        )
    }

    /// The machine at the start of a line.
    #[verifier::opaque]
    pub open spec fn at_line(self) -> GbaState {
        let b = self.bus.line_begun();
        let g = if b.io.vcount == VISIBLE_LINES {
            let irq = (b.io.dispstat | 0x0001) & 0x0008 != 0;
            GbaState {
                bus: (BusState { diagnostics: b.diagnostics.framed(), ..b }).vblank_begun(),
                vblank_entries: self.vblank_entries.wrapping_add(1),
                vblank_irqs_raised: if irq {
                    self.vblank_irqs_raised.wrapping_add(1)
                } else {
                    self.vblank_irqs_raised
                },
                ..self
            }
        } else if b.io.vcount == 0 {
            GbaState { bus: b.vblank_ended(), ..self }
        } else {
            GbaState { bus: b, ..self }
        };
        g.with_event(EventKind::HBlank, HDRAW_CYCLES)
    }

    /// The machine after an event was handled.
    pub open spec fn handled(self, kind: EventKind) -> GbaState {
        match kind {
            EventKind::HBlank => self.at_hblank(),
            EventKind::HBlankEnd => self.at_line(),
            _ => self,
        }
    }

    /// The machine after its earliest event was taken out and handled.
    pub open spec fn event_handled(self) -> GbaState {
        GbaState { scheduler: self.scheduler.popped(), ..self }.handled(
            self.scheduler.events[self.scheduler.earliest()].kind,
        )
    }

    /// The machine after an enabled interrupt woke it, if one is requested.
    pub open spec fn woken(self) -> GbaState {
        if self.cpu.halted && self.bus.interrupt.ie & self.bus.interrupt.ir != 0 {
            GbaState { cpu: Cpu { halted: false, ..self.cpu }, ..self }
        } else {
            self
        }
    }

    /// The time up to which the processor runs before events are handled.
    pub open spec fn step_target(self) -> u64 {
        match self.scheduler.next_time() {
            Some(t) => if t < self.target {
                t
            } else {
                self.target
            },
            None => self.target,
        }
    }

    /// Whether a run is over: the target is reached and all due events are
    /// handled, or a system call waits for a function value.
    pub open spec fn stopped(self) -> bool {
        self.cpu.math_call is Some || (self.phase is Between && self.now() >= self.target)
    }

    /// One advance of a run.
    #[verifier::opaque]
    pub open spec fn advanced(self) -> GbaState {
        match self.phase {
            RunPhase::Between => GbaState { phase: RunPhase::Stepping, ..self },
            RunPhase::Stepping => if self.now() < self.step_target() {
                if self.cpu.halted {
                    self.idled(self.step_target() - self.now())
                } else {
                    self.stepped(true)
                }
            } else {
                GbaState { phase: RunPhase::Dispatching, ..self }
            },
            RunPhase::Dispatching => if self.scheduler.due() {
                self.event_handled()
            } else {
                GbaState { phase: RunPhase::Between, ..self.woken() }
            },
        }
    }

    /// `n` advances of a run.
    pub open spec fn advanced_by(self, n: nat) -> GbaState
        decreases n,
    {
        if n == 0 {
            self
        } else {
            self.advanced_by((n - 1) as nat).advanced()
        }
    }

    /// Whether running this machine until it stops gives `end`.
    pub open spec fn runs_to(self, end: GbaState) -> bool {
        exists|n: nat|
            {
                &&& #[trigger] self.advanced_by(n) == end
                &&& end.stopped()
                &&& forall|k: nat| k < n ==> !(#[trigger] self.advanced_by(k)).stopped()
            }
    }

    /// The machine after up to `n` steps of the processor, without events; it
    /// stops early where a system call waits for a function value.
    pub open spec fn steps(self, n: nat) -> GbaState
        decreases n,
    {
        if n == 0 {
            self
        } else {
            let g = self.steps((n - 1) as nat);
            if g.cpu.math_call is Some {
                g
            } else {
                g.stepped(false)
            }
        }
    }

    /// How many of `n` steps were executed.
    pub open spec fn steps_done(self, n: nat) -> nat
        decreases n,
    {
        if n == 0 {
            0
        } else {
            self.steps_done((n - 1) as nat) + (if self.steps((n - 1) as nat).cpu.math_call is Some {
                0nat
            } else {
                1nat
            })
        }
    }

    /// The machine after its due events were handled, `n` at most.
    pub open spec fn events_handled(self, n: nat) -> GbaState
        decreases n,
    {
        if n == 0 {
            self
        } else {
            let g = self.events_handled((n - 1) as nat);
            if g.scheduler.due() {
                g.event_handled()
            } else {
                g
            }
        }
    }

    /// The machine after all its due events were handled.
    pub open spec fn due_events_handled(self) -> GbaState {
        self.events_handled(due_count(self.scheduler.events, self.now()))
    }

    /// The machine after a single step and the events that are then due; see
    /// `Gba::step_one`.
    pub open spec fn single_stepped(self) -> GbaState {
        let g = self.instruction_done();
        if self.cpu.math_call is Some {
            self
        } else if self.phase is Dispatching {
            GbaState { phase: RunPhase::Between, ..self.due_events_handled() }
        } else if g.cpu.math_call is Some {
            GbaState { phase: RunPhase::Dispatching, ..g }
        } else {
            g.due_events_handled()
        }
    }

    /// One step of the processor, or one idle cycle if it is halted.
    pub open spec fn instruction_done(self) -> GbaState {
        if self.cpu.halted {
            self.after(1)
        } else {
            self.stepped(false)
        }
    }
}

/// How many events are due at time `t`.
pub open spec fn due_count(events: Seq<Event>, t: u64) -> nat
    decreases events.len(),
{
    if events.len() == 0 {
        0
    } else {
        due_count(events.drop_last(), t) + (if events.last().fire_time <= t {
            1nat
        } else {
            0nat
        })
    }
}

proof fn due_count_after_push(events: Seq<Event>, t: u64, e: Event)
    ensures
        due_count(events.push(e), t) == due_count(events, t) + (if e.fire_time <= t {
            1nat
        } else {
            0nat
        }),
{
    assert(events.push(e).drop_last() =~= events);
}

proof fn due_count_after_remove(events: Seq<Event>, t: u64, i: int)
    requires
        0 <= i < events.len(),
        events[i].fire_time <= t,
    ensures
        due_count(events, t) >= 1,
        due_count(events.remove(i), t) == due_count(events, t) - 1,
    decreases events.len(),
{
    let last = events.len() - 1;
    if i == last {
        assert(events.remove(i) =~= events.drop_last());
    } else {
        due_count_after_remove(events.drop_last(), t, i);
        assert(events.remove(i).drop_last() =~= events.drop_last().remove(i));
    }
}

proof fn none_due_counts_zero(events: Seq<Event>, t: u64)
    ensures
        due_count(events, t) > 0 ==> exists|j: int|
            0 <= j < events.len() && (#[trigger] events[j]).fire_time <= t,
    decreases events.len(),
{
    if events.len() > 0 && due_count(events, t) > 0 {
        none_due_counts_zero(events.drop_last(), t);
        if events.last().fire_time > t {
            let j = choose|j: int|
                0 <= j < events.drop_last().len() && (
                #[trigger] events.drop_last()[j]).fire_time <= t;
            assert(events[j].fire_time <= t);
        } else {
            assert(events[events.len() - 1].fire_time <= t);
        }
    }
}

/// Where a run is between two advances of the clock: it only ever moves down.
spec fn run_rank(g: GbaState) -> nat {
    let due = g.scheduler.due();
    match g.phase {
        RunPhase::Between => if due {
            3
        } else if g.now() < g.target {
            2
        } else {
            1
        },
        RunPhase::Stepping => if due {
            2
        } else if g.now() < g.target {
            1
        } else {
            3
        },
        RunPhase::Dispatching => if due {
            1
        } else if g.now() < g.target {
            3
        } else {
            2
        },
    }
}

/// The first of the advances at which a run is over is what it runs to.
proof fn run_ends(g: GbaState, n: nat)
    requires
        g.advanced_by(n).stopped(),
        forall|k: nat| k < n ==> !(#[trigger] g.advanced_by(k)).stopped(),
    ensures
        g.runs_to(g.advanced_by(n)),
{
}

spec fn time_left(g: GbaState) -> nat {
    if g.now() < g.target {
        (g.target - g.now()) as nat
    } else {
        0
    }
}

impl Gba {
    pub open spec fn wf(self) -> bool {
        &&& self.bus.wf()
        &&& self.frame_buffer@.len() == 38400
        &&& self.target <= CLOCK_LIMIT
        &&& self@.now() <= CLOCK_LIMIT + 64
    }

    /// The machine at power-on.
    pub open spec fn power_on(bios: Option<Seq<u8>>, rom: Seq<u8>) -> GbaState {
        GbaState {
            cpu: Cpu::power_on(),
            bus: Bus::power_on(bios, rom),
            scheduler: SchedulerState {
                timestamp: 0,
                events: seq![
                    Event { fire_time: HDRAW_CYCLES as u64, kind: EventKind::HBlank },
                ],
            },
            frame_buffer: Seq::new(38400, |i: int| 0u16),
            vblank_entries: 0,
            vblank_irqs_raised: 0,
            phase: RunPhase::Between,
            target: 0,
        }
    }

    /// Builds a machine with a cartridge and, if there is one, a boot ROM.
    pub fn new(bios: Option<Vec<u8>>, rom: Vec<u8>) -> (gba: Gba)
        ensures
            gba.wf(),
            gba@ == Gba::power_on(
                match bios {
                    Some(b) => Some(b@),
                    None => None,
                },
                rom@,
            ),
    {
        let mut scheduler = Scheduler::new();
        scheduler.schedule(Event { fire_time: HDRAW_CYCLES as u64, kind: EventKind::HBlank });
        let frame_buffer: Vec<u16> = vec![0u16; 38400];
        assert(frame_buffer@ =~= Seq::new(38400, |i: int| 0u16));
        Gba {
            cpu: Cpu::new(),
            bus: Bus::new(bios, rom),
            scheduler,
            frame_buffer,
            vblank_entries: 0,
            vblank_irqs_raised: 0,
            phase: RunPhase::Between,
            target: 0,
        }
    }

    fn handle_swi(&mut self)
        requires
            old(self).wf(),
        ensures
            final(self).wf(),
            final(self)@ == old(self)@.swi_handled(),
            final(self)@.scheduler == old(self)@.scheduler,
            final(self)@.target == old(self)@.target,
            final(self)@.phase == old(self)@.phase,
    {
        proof {
            reveal(GbaState::swi_handled);
        }
        if let Some(n) = self.cpu.pending_swi {
            self.cpu.pending_swi = None;
            if self.bus.has_bios {
                self.cpu.software_interrupt(n as u32);
            } else {
                let _ = calls::handle_swi(&mut self.cpu, &mut self.bus, n);
            }
        }
    }

    fn handle_halt(&mut self)
        requires
            old(self).wf(),
        ensures
            final(self).wf(),
            final(self)@ == old(self)@.halt_handled(),
    {
        if self.bus.halt_requested {
            self.bus.halt_requested = false;
            self.cpu.halted = true;
        }
    }

    fn execute(&mut self, sound: bool)
        requires
            old(self).wf(),
            old(self)@.now() <= CLOCK_LIMIT,
        ensures
            final(self).wf(),
            final(self)@ == old(self)@.executed(sound),
            old(self)@.now() < final(self)@.now() <= old(self)@.now() + 21,
            final(self)@.scheduler.events == old(self)@.scheduler.events,
            final(self)@.target == old(self)@.target,
            final(self)@.phase == old(self)@.phase,
    {
        proof {
            reveal(GbaState::executed);
        }
        self.bus.now = self.scheduler.timestamp();
        let cycles: u32 = self.cpu.step(&mut self.bus);
        self.scheduler.add_cycles(cycles as u64);
        self.bus.tick_timers(cycles);
        if sound {
            self.bus.tick_sound(cycles);
        }
    }

    fn step(&mut self, sound: bool)
        requires
            old(self).wf(),
            old(self)@.now() <= CLOCK_LIMIT,
        ensures
            final(self).wf(),
            final(self)@ == old(self)@.stepped(sound),
            old(self)@.now() < final(self)@.now() <= old(self)@.now() + 21,
            final(self)@.scheduler.events == old(self)@.scheduler.events,
            final(self)@.target == old(self)@.target,
            final(self)@.phase == old(self)@.phase,
    {
        self.execute(sound);
        self.handle_swi();
        self.handle_halt();
    }

    fn idle(&mut self, gap: u64)
        requires
            old(self).wf(),
            gap > 0,
            old(self)@.now() + gap <= CLOCK_LIMIT,
        ensures
            final(self).wf(),
            final(self)@ == old(self)@.idled(gap as int),
            old(self)@.now() < final(self)@.now() <= old(self)@.now() + gap,
            final(self)@.scheduler.events == old(self)@.scheduler.events,
            final(self)@.target == old(self)@.target,
            final(self)@.phase == old(self)@.phase,
    {
        proof {
            reveal(GbaState::idled);
        }
        let to_next: u64 = self.bus.timers.cycles_to_next_fifo_overflow() as u64;
        let a: u64 = if to_next < gap {
            to_next
        } else {
            gap
        };
        let b: u64 = if a < 1 {
            1
        } else {
            a
        };
        let n: u32 = if b > HALT_SLICE {
            HALT_SLICE as u32
        } else {
            b as u32
        };
        self.bus.tick_sound(n);
        self.scheduler.add_cycles(n as u64);
        self.bus.tick_timers(n);
        self.bus.diagnostics.count_halt(n as u64);
    }

    fn start_hblank(&mut self)
        requires
            old(self).wf(),
        ensures
            final(self).wf(),
            final(self)@ == old(self)@.at_hblank(),
            final(self)@.scheduler == old(self)@.scheduler.scheduled(
                Event {
                    fire_time: (old(self)@.now() + HBLANK_CYCLES) as u64,
                    kind: EventKind::HBlankEnd,
                },
            ),
            final(self)@.target == old(self)@.target,
            final(self)@.phase == old(self)@.phase,
    {
        proof {
            reveal(GbaState::at_hblank);
        }
        let now: u64 = self.scheduler.timestamp();
        self.bus.begin_hblank(&mut self.frame_buffer);
        self.scheduler.schedule(
            Event { fire_time: now + HBLANK_CYCLES as u64, kind: EventKind::HBlankEnd },
        );
    }

    fn start_line(&mut self)
        requires
            old(self).wf(),
        ensures
            final(self).wf(),
            final(self)@ == old(self)@.at_line(),
            final(self)@.scheduler == old(self)@.scheduler.scheduled(
                Event {
                    fire_time: (old(self)@.now() + HDRAW_CYCLES) as u64,
                    kind: EventKind::HBlank,
                },
            ),
            final(self)@.target == old(self)@.target,
            final(self)@.phase == old(self)@.phase,
    {
        proof {
            reveal(GbaState::at_line);
        }
        let line: u16 = self.bus.begin_line();
        if line == VISIBLE_LINES {
            self.vblank_entries = self.vblank_entries.wrapping_add(1);
            self.bus.diagnostics.count_frame();
            let irq = self.bus.begin_vblank();
            if irq {
                self.vblank_irqs_raised = self.vblank_irqs_raised.wrapping_add(1);
            }
        } else if line == 0 {
            self.bus.end_vblank();
        }
        let now: u64 = self.scheduler.timestamp();
        self.scheduler.schedule(
            Event { fire_time: now + HDRAW_CYCLES as u64, kind: EventKind::HBlank },
        );
    }

    fn handle_event(&mut self, event: Event)
        requires
            old(self).wf(),
        ensures
            final(self).wf(),
            final(self)@ == old(self)@.handled(event.kind),
            final(self)@.now() == old(self)@.now(),
            due_count(final(self)@.scheduler.events, old(self)@.now()) == due_count(
                old(self)@.scheduler.events,
                old(self)@.now(),
            ),
            final(self)@.target == old(self)@.target,
            final(self)@.phase == old(self)@.phase,
    {
        let ghost events = self.scheduler@.events;
        let ghost now = self@.now();
        match event.kind {
            EventKind::HBlank => {
                proof {
                    due_count_after_push(
                        events,
                        now,
                        Event {
                            fire_time: (now + HBLANK_CYCLES) as u64,
                            kind: EventKind::HBlankEnd,
                        },
                    );
                }
                self.start_hblank();
            },
            EventKind::HBlankEnd => {
                proof {
                    due_count_after_push(
                        events,
                        now,
                        Event { fire_time: (now + HDRAW_CYCLES) as u64, kind: EventKind::HBlank },
                    );
                }
                self.start_line();
            },
            _ => {},
        }
    }

    fn handle_due_event(&mut self) -> (handled: bool)
        requires
            old(self).wf(),
        ensures
            final(self).wf(),
            handled == old(self)@.scheduler.due(),
            handled ==> final(self)@ == old(self)@.event_handled(),
            !handled ==> final(self)@ == old(self)@,
            final(self)@.now() == old(self)@.now(),
            handled ==> due_count(final(self)@.scheduler.events, old(self)@.now()) < due_count(
                old(self)@.scheduler.events,
                old(self)@.now(),
            ),
            final(self)@.target == old(self)@.target,
            final(self)@.phase == old(self)@.phase,
    {
        proof {
            if self.scheduler@.due() {
                let s = self.scheduler@;
                scheduler::earliest_is_minimal(s.events, s.events.len());
                due_count_after_remove(s.events, s.timestamp, s.earliest());
            }
        }
        match self.scheduler.pop_if_ready() {
            Some(event) => {
                self.handle_event(event);
                true
            },
            None => false,
        }
    }

    fn wake(&mut self)
        requires
            old(self).wf(),
        ensures
            final(self).wf(),
            final(self)@ == old(self)@.woken(),
    {
        if self.cpu.halted && self.bus.interrupt.ie & self.bus.interrupt.ir != 0 {
            self.cpu.halted = false;
        }
    }

    fn step_limit(&self) -> (t: u64)
        ensures
            t == self@.step_target(),
    {
        match self.scheduler.peek_time() {
            Some(t) => {
                if t < self.target {
                    t
                } else {
                    self.target
                }
            },
            None => self.target,
        }
    }

    fn is_stopped(&self) -> (b: bool)
        ensures
            b == self@.stopped(),
    {
        self.cpu.math_call.is_some() || (self.phase == RunPhase::Between
            && self.scheduler.timestamp() >= self.target)
    }

    fn advance(&mut self)
        requires
            old(self).wf(),
            !old(self)@.stopped(),
        ensures
            final(self).wf(),
            final(self)@ == old(self)@.advanced(),
            final(self)@.target == old(self)@.target,
            final(self)@.now() <= old(self)@.now() || final(self)@.now() <= old(self)@.target + 20,
            time_left(final(self)@) < time_left(old(self)@) || (time_left(final(self)@)
                == time_left(old(self)@) && final(self)@.now() == old(self)@.now() && (due_count(
                final(self)@.scheduler.events,
                old(self)@.now(),
            ) < due_count(old(self)@.scheduler.events, old(self)@.now()) || (due_count(
                final(self)@.scheduler.events,
                old(self)@.now(),
            ) == due_count(old(self)@.scheduler.events, old(self)@.now()) && run_rank(
                final(self)@,
            ) < run_rank(old(self)@)))),
    {
        proof {
            reveal(GbaState::advanced);
        }
        match self.phase {
            RunPhase::Between => {
                self.phase = RunPhase::Stepping;
            },
            RunPhase::Stepping => {
                let now: u64 = self.scheduler.timestamp();
                let limit: u64 = self.step_limit();
                if now < limit {
                    if self.cpu.halted {
                        self.idle(limit - now);
                    } else {
                        self.step(true);
                    }
                } else {
                    self.phase = RunPhase::Dispatching;
                }
            },
            RunPhase::Dispatching => {
                if !self.handle_due_event() {
                    self.wake();
                    self.phase = RunPhase::Between;
                }
            },
        }
    }

    fn run(&mut self)
        requires
            old(self).wf(),
        ensures
            final(self).wf(),
            old(self)@.runs_to(final(self)@),
            final(self)@.target == old(self)@.target,
            final(self)@.now() <= old(self)@.now() || final(self)@.now() <= old(self)@.target + 20,
            final(self)@.cpu.math_call is None ==> final(self)@.now() >= old(self)@.target,
    {
        let ghost g0 = self@;
        let ghost mut n: nat = 0;
        while !self.is_stopped()
            invariant
                self.wf(),
                self@ == g0.advanced_by(n),
                self@.target == g0.target,
                self@.now() <= g0.now() || self@.now() <= g0.target + 20,
                forall|k: nat| k < n ==> !(#[trigger] g0.advanced_by(k)).stopped(),
            decreases
                    time_left(self@),
                    due_count(self@.scheduler.events, self@.now()),
                    run_rank(self@),
        {
            proof {
                n = n + 1;
            }
            self.advance();
        }
        proof {
            run_ends(g0, n);
        }
    }

    /// Runs for `cycles` CPU cycles, to the end of the step or event that
    /// reaches them, or until a system call waits for a function value. The
    /// clock never passes the target by more than 20 cycles.
    pub fn run_cycles(&mut self, cycles: u64)
        requires
            old(self).wf(),
            old(self)@.now() + cycles <= CLOCK_LIMIT,
        ensures
            final(self).wf(),
            (GbaState {
                target: (old(self)@.now() + cycles) as u64,
                ..old(self)@
            }).runs_to(final(self)@),
            final(self)@.now() <= old(self)@.now() + cycles + 20,
            final(self)@.cpu.math_call is None ==> final(self)@.now() >= old(self)@.now() + cycles,
    {
        self.target = self.scheduler.timestamp() + cycles;
        self.run();
    }

    /// Runs on toward the target of the last run.
    pub fn resume(&mut self)
        requires
            old(self).wf(),
        ensures
            final(self).wf(),
            old(self)@.runs_to(final(self)@),
            final(self)@.now() <= old(self)@.now() || final(self)@.now() <= old(self)@.target + 20,
            final(self)@.cpu.math_call is None ==> final(self)@.now() >= old(self)@.target,
    {
        self.run();
    }

    /// Runs for one frame. Returns the picture.
    pub fn run_frame(&mut self) -> (picture: &[u16])
        requires
            old(self).wf(),
            old(self)@.now() + CYCLES_PER_FRAME <= CLOCK_LIMIT,
        ensures
            final(self).wf(),
            (GbaState {
                target: (old(self)@.now() + CYCLES_PER_FRAME) as u64,
                ..old(self)@
            }).runs_to(final(self)@),
            final(self)@.now() <= old(self)@.now() + CYCLES_PER_FRAME + 20,
            final(self)@.cpu.math_call is None ==> final(self)@.now() >= old(self)@.now()
                + CYCLES_PER_FRAME,
            picture@ == final(self)@.frame_buffer,
    {
        self.run_cycles(CYCLES_PER_FRAME);
        self.frame_buffer.as_slice()
    }

    /// The function value that a system call waits for.
    pub fn math_request(&self) -> (request: Option<MathRequest>)
        ensures
            request == (match self@.cpu.math_call {
                Some(call) => Some(call.request()),
                None => None,
            }),
    {
        match &self.cpu.math_call {
            Some(call) => Some(call.request()),
            None => None,
        }
    }

    /// Hands a waiting system call its function value.
    pub fn answer_math(&mut self, reply: MathReply)
        requires
            old(self).wf(),
        ensures
            final(self).wf(),
            ({
                let r = affine::answered(old(self)@.cpu, old(self)@.bus, reply);
                final(self)@ == (GbaState { cpu: r.0, bus: r.1, ..old(self)@ })
            }),
    {
        affine::answer_math(&mut self.cpu, &mut self.bus, reply);
    }

    /// Sets the pressed keys: a set bit in `keys` is a pressed key.
    pub fn set_keypad_state(&mut self, keys: u16)
        requires
            old(self).wf(),
        ensures
            final(self).wf(),
            final(self)@ == (GbaState {
                bus: BusState {
                    keypad: Keypad { keyinput: !keys & 0x03FF, ..old(self)@.bus.keypad },
                    ..old(self)@.bus
                },
                ..old(self)@
            }),
    {
        self.bus.keypad.set_keys(keys);
    }

    /// The picture.
    pub fn framebuffer(&self) -> (picture: &[u16])
        ensures
            picture@ == self@.frame_buffer,
    {
        self.frame_buffer.as_slice()
    }

    /// Moves finished sound samples to `out`. Returns how many.
    pub fn drain_audio(&mut self, out: &mut [i16]) -> (n: usize)
        requires
            old(self).wf(),
        ensures
            final(self).wf(),
            n == (if old(self)@.bus.apu.sample_buffer.len() <= old(out)@.len() {
                old(self)@.bus.apu.sample_buffer.len()
            } else {
                old(out)@.len()
            }),
            final(out)@ == old(self)@.bus.apu.sample_buffer.take(n as int) + old(out)@.skip(
                n as int,
            ),
            final(self)@ == (GbaState {
                bus: BusState {
                    apu: ApuState {
                        sample_buffer: old(self)@.bus.apu.sample_buffer.skip(n as int),
                        ..old(self)@.bus.apu
                    },
                    ..old(self)@.bus
                },
                ..old(self)@
            }),
    {
        self.bus.apu.drain_samples(out)
    }

    /// The contents of the save memory, if there is one.
    pub fn export_save(&self) -> (data: Option<Vec<u8>>)
        requires
            self.wf(),
        ensures
            match data {
                Some(d) => Some(d@),
                None => None,
            } == self@.bus.backup.raw(),
    {
        self.bus.backup.to_raw()
    }

    /// Loads the save memory from the start; what does not fit is left out.
    pub fn import_save(&mut self, data: &[u8])
        requires
            old(self).wf(),
        ensures
            final(self).wf(),
            final(self)@ == (GbaState {
                bus: BusState {
                    backup: old(self)@.bus.backup.imported(data@),
                    ..old(self)@.bus
                },
                ..old(self)@
            }),
    {
        self.bus.backup.import(data);
    }

    /// Executes up to `n` steps of the processor without handling events.
    /// Returns how many were executed: all, unless a system call waits for a
    /// function value.
    pub fn step_n(&mut self, n: usize) -> (done: usize)
        requires
            old(self).wf(),
            old(self)@.now() + 32 * n <= CLOCK_LIMIT,
        ensures
            final(self).wf(),
            final(self)@ == old(self)@.steps(n as nat),
            done == old(self)@.steps_done(n as nat),
    {
        let ghost g0 = self@;
        let mut i: usize = 0;
        let mut done: usize = 0;
        while i < n
            invariant
                i <= n,
                done <= i,
                self.wf(),
                self@ == g0.steps(i as nat),
                done == g0.steps_done(i as nat),
                g0.now() + 32 * n <= CLOCK_LIMIT,
                self@.now() <= g0.now() + 32 * i,
            decreases n - i,
        {
            if self.cpu.math_call.is_none() {
                self.step(false);
                done = done + 1;
            }
            i = i + 1;
        }
        done
    }

    fn handle_due_events(&mut self)
        requires
            old(self).wf(),
        ensures
            final(self).wf(),
            final(self)@ == old(self)@.due_events_handled(),
            !final(self)@.scheduler.due(),
            final(self)@.phase == old(self)@.phase,
    {
        let ghost g0 = self@;
        let ghost total = due_count(g0.scheduler.events, g0.now());
        let ghost mut k: nat = 0;
        proof {
            due_means_counted(self@.scheduler);
        }
        let mut more = self.handle_due_event();
        proof {
            reveal_with_fuel(GbaState::events_handled, 2);
            if more {
                k = 1;
            }
            due_means_counted(self@.scheduler);
        }
        while more
            invariant
                self.wf(),
                self@.now() == g0.now(),
                self@.phase == g0.phase,
                self@ == g0.events_handled(k),
                k + due_count(self@.scheduler.events, self@.now()) <= total,
                !more ==> !self@.scheduler.due(),
            decreases due_count(self@.scheduler.events, self@.now()), (if more { 1nat } else { 0nat }),
        {
            more = self.handle_due_event();
            proof {
                if more {
                    k = k + 1;
                }
            }
        }
        proof {
            events_stay_handled(g0, k, total);
        }
    }

    /// Executes one step of the processor, then handles the events that are
    /// due. Where a system call waits for a function value the events wait
    /// with it: once it has its answer, the next call handles them.
    pub fn step_one(&mut self)
        requires
            old(self).wf(),
            old(self)@.now() + 32 <= CLOCK_LIMIT,
        ensures
            final(self).wf(),
            final(self)@ == old(self)@.single_stepped(),
    {
        if self.cpu.math_call.is_some() {
            return;
        }
        if self.phase == RunPhase::Dispatching {
            self.handle_due_events();
            self.phase = RunPhase::Between;
            return;
        }
        if self.cpu.halted {
            self.scheduler.add_cycles(1);
        } else {
            self.step(false);
        }
        if self.cpu.math_call.is_none() {
            self.handle_due_events();
        } else {
            self.phase = RunPhase::Dispatching;
        }
    }
}

proof fn due_means_counted(s: SchedulerState)
    ensures
        s.due() <==> due_count(s.events, s.timestamp) > 0,
{
    none_due_counts_zero(s.events, s.timestamp);
    if s.events.len() > 0 {
        scheduler::earliest_is_minimal(s.events, s.events.len());
        if s.due() {
            due_count_after_remove(s.events, s.timestamp, s.earliest());
        }
    }
}

proof fn events_stay_handled(g: GbaState, m: nat, n: nat)
    requires
        m <= n,
        !g.events_handled(m).scheduler.due(),
    ensures
        g.events_handled(n) == g.events_handled(m),
    decreases n,
{
    if m < n {
        events_stay_handled(g, m, (n - 1) as nat);
    }
}

/// Time that passes while the processor is halted changes nothing of it.
pub proof fn halt_keeps_the_processor(g: GbaState, gap: int)
    ensures
        g.idled(gap).cpu == g.cpu,
{
    reveal(GbaState::idled);
}

/// A halt ends when an interrupt is both enabled and requested, even while
/// interrupts are switched off, and only then.
pub proof fn requests_end_a_halt(g: GbaState)
    ensures
        g.woken().cpu.halted == (g.cpu.halted && g.bus.interrupt.ie & g.bus.interrupt.ir == 0),
        g.woken() == (GbaState { cpu: Cpu { halted: g.woken().cpu.halted, ..g.cpu }, ..g }),
{
}

/// The display goes on for ever: its one event is followed by the other, the
/// blank 272 cycles after the line, the line 960 cycles after the blank. That
/// makes 1232 cycles per line and 280896 per frame.
pub proof fn the_display_goes_on(g: GbaState)
    requires
        g.now() <= CLOCK_LIMIT + 64,
        g.scheduler.events.len() == 1,
        g.scheduler.events[0].kind is HBlank || g.scheduler.events[0].kind is HBlankEnd,
    ensures
        g.event_handled().scheduler.events == (if g.scheduler.events[0].kind is HBlank {
            seq![
                Event {
                    fire_time: (g.now() + HBLANK_CYCLES) as u64,
                    kind: EventKind::HBlankEnd,
                },
            ]
        } else {
            seq![
                Event { fire_time: (g.now() + HDRAW_CYCLES) as u64, kind: EventKind::HBlank },
            ]
        }),
        g.event_handled().now() == g.now(),
        HDRAW_CYCLES + HBLANK_CYCLES == CYCLES_PER_LINE,
        CYCLES_PER_LINE == DOTS_PER_LINE * CYCLES_PER_DOT,
        CYCLES_PER_LINE * crate::bus::events::LINES_PER_FRAME == CYCLES_PER_FRAME,
{
    reveal(GbaState::at_hblank);
    reveal(GbaState::at_line);
    scheduler::earliest_is_minimal(g.scheduler.events, 1);
}

/// While the processor is halted time passes in slices: at least one cycle, no
/// more than are left and no more than 1024, and never past the overflow that
/// plays the next sound sample.
pub proof fn halts_pass_in_slices(g: GbaState, gap: int)
    requires
        gap >= 1,
        g.bus.timers.next_fifo_overflow() >= 1,
    ensures
        1 <= g.halt_slice(gap) <= gap,
        g.halt_slice(gap) <= 1024,
        g.halt_slice(gap) <= g.bus.timers.next_fifo_overflow(),
        g.halt_slice(gap) == gap || g.halt_slice(gap) == 1024 || g.halt_slice(gap)
            == g.bus.timers.next_fifo_overflow(),
{
}

/// The vertical blank begins with line 160 and ends with line 0: only then does
/// bit 0 of the status change, and only the former is counted.
pub proof fn blanks_begin_and_end(g: GbaState)
    requires
        g.bus.io.vcount < 228,
        g.bus.io.vcount != 159,
    ensures
        ({
            let a = g.at_line();
            &&& g.bus.io.vcount == 227 ==> a.bus == g.bus.line_begun().vblank_ended()
            &&& g.bus.io.vcount != 227 ==> a.bus == g.bus.line_begun()
            &&& a.vblank_entries == g.vblank_entries
            &&& a.vblank_irqs_raised == g.vblank_irqs_raised
        }),
{
    reveal(GbaState::at_line);
    crate::bus::events::lines_are_counted(g.bus);
}

/// A system call goes to the vector of the system ROM where there is one, and
/// is answered by the machine otherwise.
pub proof fn calls_are_answered(g: GbaState, n: u8)
    requires
        g.cpu.pending_swi == Some(n),
    ensures
        ({
            let c = Cpu { pending_swi: None, ..g.cpu };
            let a = g.swi_handled();
            &&& g.bus.has_bios ==> a.cpu == c.swi_entered() && a.bus == g.bus
            &&& !g.bus.has_bios ==> (a.cpu, a.bus) == calls::called(c, g.bus, n)
            &&& a.scheduler == g.scheduler
        }),
{
    reveal(GbaState::swi_handled);
}

} // verus!

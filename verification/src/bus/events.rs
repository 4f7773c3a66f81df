//! What the passage of time does on the bus: timers, sound refills, and the
//! beginning and end of display lines.

use vstd::prelude::*;

use crate::bits;
use crate::dma::{DmaChannel, DmaTiming};
use crate::interrupt::Irq;
use crate::ppu::Scene;

use super::io_regs::IoRegisters;
use super::store;
use super::{Bus, BusState};

verus! {

broadcast use bits::group_and_bounds;

/// The address of the first sound FIFO.
pub const FIFO_A_ADDR: u32 = 0x0400_00A0;

/// The address of the second sound FIFO.
pub const FIFO_B_ADDR: u32 = 0x0400_00A4;

/// Lines that show a picture.
pub const VISIBLE_LINES: u16 = 160;

/// Lines of the vertical blank.
pub const VBLANK_LINES: u16 = 68;

/// Lines of a frame.
pub const LINES_PER_FRAME: u16 = 228;

impl BusState {
    /// The bus with `irq` requested, if `made`.
    pub open spec fn requested_if(self, made: bool, irq: Irq) -> BusState {
        BusState { interrupt: self.interrupt.requested_if(made, irq), ..self }
    }

    /// The bus after channel `id` was triggered: it transfers, and requests its
    /// interrupt if it asks for one.
    #[verifier::opaque]
    pub open spec fn dma_triggered(self, id: usize) -> BusState {
        let r = self.dma_run(id, store::transfers(store::DMA_NESTING as nat));
        r.1.requested_if(r.0.1, Irq::dma(id))
    }

    /// Whether channel `i` is armed for sound and feeds the FIFO at `addr`.
    pub open spec fn feeds(self, i: int, addr: u32) -> bool {
        &&& self.dma.waits_for(i, DmaTiming::Special)
        &&& self.dma.channels[i].dad & 0x07FF_FFFF == addr & 0x07FF_FFFF
    }

    /// The bus after those of the first `n` channels that feed the FIFO at
    /// `addr` were triggered.
    pub open spec fn fifo_served(self, addr: u32, n: nat) -> BusState
        decreases n,
    {
        if n == 0 {
            self
        } else {
            let t = self.fifo_served(addr, (n - 1) as nat);
            if t.feeds(n - 1, addr) {
                t.dma_triggered((n - 1) as usize)
            } else {
                t
            }
        }
    }

    /// The bus after the first `n` channels of a list were triggered.
    pub open spec fn channels_triggered(self, ids: Seq<usize>, n: nat) -> BusState
        decreases n,
    {
        if n == 0 {
            self
        } else {
            self.channels_triggered(ids, (n - 1) as nat).dma_triggered(ids[n - 1])
        }
    }

    /// The bus after all channels that wait for `timing` were triggered.
    #[verifier::opaque]
    pub open spec fn timing_reached(self, timing: DmaTiming) -> BusState {
        let ids = self.dma.waiting(timing, 4);
        self.channels_triggered(ids, ids.len())
    }

    /// The bus after timer `id` overflowed: the FIFOs that play at its rate
    /// advance, and those that run low are refilled.
    #[verifier::opaque]
    pub open spec fn sound_timer_overflowed(self, id: u8) -> BusState {
        let refills = self.apu.refills(id);
        let b = BusState { apu: self.apu.timer_overflowed(id), ..self };
        let b1 = if refills.0 {
            b.fifo_served(FIFO_A_ADDR, 4)
        } else {
            b
        };
        if refills.1 {
            b1.fifo_served(FIFO_B_ADDR, 4)
        } else {
            b1
        }
    }

    /// The bus after `cycles` CPU cycles passed for the timers.
    #[verifier::opaque]
    pub open spec fn timers_ticked(self, cycles: u32) -> BusState {
        let r = self.timers.tick_result(cycles as int);
        let b = BusState {
            timers: self.timers.after(cycles as int),
            interrupt: self.interrupt.requested_if(r.irqs[0], Irq::Timer0).requested_if(
                r.irqs[1],
                Irq::Timer1,
            ).requested_if(r.irqs[2], Irq::Timer2).requested_if(r.irqs[3], Irq::Timer3),
            ..self
        };
        let b1 = if r.timer0_overflow {
            b.sound_timer_overflowed(0)
        } else {
            b
        };
        if r.timer1_overflow {
            b1.sound_timer_overflowed(1)
        } else {
            b1
        }
    }

    /// The bus after `cycles` CPU cycles passed for the sound unit.
    pub open spec fn sound_ticked(self, cycles: u32) -> BusState {
        BusState { apu: self.apu.after_cycles(cycles as nat), ..self }
    }

    /// What a line is rendered from.
    pub open spec fn scene(self) -> Scene {
        Scene { io: self.io, palette: self.palette, vram: self.vram, oam: self.oam }
    }

    /// The bus and the picture after a line was drawn: its horizontal blank
    /// begins. A visible line is rendered. The interrupt is requested if it is
    /// enabled; transfers that wait for the horizontal blank run, but only on
    /// visible lines.
    #[verifier::opaque]
    pub open spec fn hblank_begun(self, picture: Seq<u16>) -> (BusState, Seq<u16>) {
        let line = self.io.vcount;
        let b = BusState {
            io: IoRegisters { dispstat: self.io.dispstat | 0x0002, ..self.io },
            ..self
        };
        let visible = line < VISIBLE_LINES;
        let drawn = if visible {
            (
                BusState { ppu: b.ppu.after_line(b.io), ..b },
                b.ppu.painted(b.scene(), line, picture),
            )
        } else {
            (b, picture)
        };
        let b1 = drawn.0.requested_if(
            drawn.0.io.dispstat & 0x0010 != 0 && !self.diagnostics.no_hblank_irq,
            Irq::HBlank,
        );
        (
            if visible {
                b1.timing_reached(DmaTiming::HBlank)
            } else {
                b1
            },
            drawn.1,
        )
    }

    /// The display status after line `line` began: no horizontal blank, and
    /// the match flag says whether the line is the one in the upper byte.
    pub open spec fn status_at_line(dispstat: u16, line: u16) -> u16 {
        let s = dispstat & !0x0002u16;
        if line == s >> 8 {
            s | 0x0004
        } else {
            s & !0x0004u16
        }
    }

    /// The bus after the next line began.
    #[verifier::opaque]
    pub open spec fn line_begun(self) -> BusState {
        let line = ((self.io.vcount + 1) % LINES_PER_FRAME as int) as u16;
        let status = BusState::status_at_line(self.io.dispstat, line);
        BusState {
            io: IoRegisters { vcount: line, dispstat: status, ..self.io },
            ..self
        }.requested_if(
            line == (self.io.dispstat & !0x0002u16) >> 8 && status & 0x0020 != 0,
            Irq::VCountMatch,
        )
    }

    /// A sound channel with its source back at the start.
    pub open spec fn anchored(c: DmaChannel) -> DmaChannel {
        if c.active && c.timing() is Special {
            DmaChannel { internal_sad: c.sad & 0x07FF_FFFF, ..c }
        } else {
            c
        }
    }

    /// The bus after the vertical blank began: the interrupt is requested if
    /// it is enabled, transfers that wait for the blank run, and the sound
    /// channels start over from their source address.
    #[verifier::opaque]
    pub open spec fn vblank_begun(self) -> BusState {
        let b = BusState {
            io: IoRegisters { dispstat: self.io.dispstat | 0x0001, ..self.io },
            ..self
        };
        let t = b.requested_if(b.io.dispstat & 0x0008 != 0, Irq::VBlank).timing_reached(
            DmaTiming::VBlank,
        );
        let d = t.dma;
        BusState {
            dma: d.with_channel(1, BusState::anchored(d.channels[1])).with_channel(
                2,
                BusState::anchored(d.channels[2]),
            ),
            ..t
        }
    }

    /// The bus after the vertical blank ended.
    pub open spec fn vblank_ended(self) -> BusState {
        BusState {
            io: IoRegisters { dispstat: self.io.dispstat & !0x0001u16, ..self.io },
            ..self
        }
    }
}

impl Bus {
    fn request_if(&mut self, made: bool, irq: Irq)
        requires
            old(self).wf(),
        ensures
            final(self).wf(),
            final(self)@ == old(self)@.requested_if(made, irq),
    {
        if made {
            self.interrupt.request_irq(irq);
        }
    }

    fn trigger_dma(&mut self, id: usize)
        requires
            old(self).wf(),
            id < 4,
        ensures
            final(self).wf(),
            final(self)@ == old(self)@.dma_triggered(id),
    {
        proof {
            reveal(BusState::dma_triggered);
        }
        let (_, irq): (u32, bool) = self.run_dma(id);
        self.request_if(irq, Irq::dma(id));
    }

    /// Triggers the channels that feed the FIFO at `fifo_addr`.
    pub fn run_dma_for_fifo(&mut self, fifo_addr: u32)
        requires
            old(self).wf(),
        ensures
            final(self).wf(),
            final(self)@ == old(self)@.fifo_served(fifo_addr, 4),
    {
        let ghost b0 = self@;
        let mut id: usize = 0;
        while id < 4
            invariant
                id <= 4,
                self.wf(),
                self@ == b0.fifo_served(fifo_addr, id as nat),
            decreases 4 - id,
        {
            let c = self.dma.channels[id];
            if c.enabled() && c.active && c.timing() == DmaTiming::Special && c.dad & 0x07FF_FFFF
                == fifo_addr & 0x07FF_FFFF {
                self.trigger_dma(id);
            }
            id = id + 1;
        }
    }

    /// Triggers the channels that wait for `timing`, in priority order.
    pub fn run_dma_for_timing(&mut self, timing: DmaTiming)
        requires
            old(self).wf(),
        ensures
            final(self).wf(),
            final(self)@ == old(self)@.timing_reached(timing),
    {
        proof {
            reveal(BusState::timing_reached);
            crate::dma::waiting_is_priority_order(self.dma, timing, 4);
        }
        let ids = self.dma.channels_for_timing(timing);
        let ghost b0 = self@;
        let mut k: usize = 0;
        while k < ids.len()
            invariant
                k <= ids@.len(),
                self.wf(),
                forall|j: int| 0 <= j < ids@.len() ==> (#[trigger] ids@[j]) < 4,
                self@ == b0.channels_triggered(ids@, k as nat),
            decreases ids@.len() - k,
        {
            self.trigger_dma(ids[k]);
            k = k + 1;
        }
    }

    fn overflow_sound_timer(&mut self, id: u8)
        requires
            old(self).wf(),
        ensures
            final(self).wf(),
            final(self)@ == old(self)@.sound_timer_overflowed(id),
    {
        proof {
            reveal(BusState::sound_timer_overflowed);
        }
        let (refill_a, refill_b): (bool, bool) = self.apu.on_timer_overflow(id);
        if refill_a {
            self.run_dma_for_fifo(FIFO_A_ADDR);
        }
        if refill_b {
            self.run_dma_for_fifo(FIFO_B_ADDR);
        }
    }

    /// Lets `cycles` CPU cycles pass for the timers: their interrupts are
    /// requested, and the sound FIFOs advance and are refilled.
    pub fn tick_timers(&mut self, cycles: u32)
        requires
            old(self).wf(),
        ensures
            final(self).wf(),
            final(self)@ == old(self)@.timers_ticked(cycles),
    {
        proof {
            reveal(BusState::timers_ticked);
        }
        let result = self.timers.tick(cycles);
        self.request_if(result.irqs[0], Irq::Timer0);
        self.request_if(result.irqs[1], Irq::Timer1);
        self.request_if(result.irqs[2], Irq::Timer2);
        self.request_if(result.irqs[3], Irq::Timer3);
        if result.timer0_overflow {
            self.overflow_sound_timer(0);
        }
        if result.timer1_overflow {
            self.overflow_sound_timer(1);
        }
    }

    /// Lets `cycles` CPU cycles pass for the sound unit.
    pub fn tick_sound(&mut self, cycles: u32)
        requires
            old(self).wf(),
        ensures
            final(self).wf(),
            final(self)@ == old(self)@.sound_ticked(cycles),
    {
        let _ = self.apu.tick(cycles);
    }

    fn draw_line(&mut self, picture: &mut Vec<u16>)
        requires
            old(self).wf(),
            old(self)@.io.vcount < VISIBLE_LINES,
            old(picture)@.len() == 38400,
        ensures
            final(self).wf(),
            final(self)@ == (BusState {
                ppu: old(self)@.ppu.after_line(old(self)@.io),
                ..old(self)@
            }),
            final(picture)@ == old(self)@.ppu.painted(
                old(self)@.scene(),
                old(self)@.io.vcount,
                old(picture)@,
            ),
            final(picture)@.len() == 38400,
    {
        self.ppu.render_scanline(
            self.io.vcount,
            &self.io,
            self.palette.as_slice(),
            self.vram.as_slice(),
            self.oam.as_slice(),
            picture.as_mut_slice(),
        );
    }

    /// Begins the horizontal blank of the current line.
    pub fn begin_hblank(&mut self, picture: &mut Vec<u16>)
        requires
            old(self).wf(),
            old(picture)@.len() == 38400,
        ensures
            final(self).wf(),
            (final(self)@, final(picture)@) == old(self)@.hblank_begun(old(picture)@),
            final(picture)@.len() == 38400,
    {
        proof {
            reveal(BusState::hblank_begun);
        }
        let visible = self.io.vcount < VISIBLE_LINES;
        self.io.dispstat = self.io.dispstat | 0x0002;
        if visible {
            self.draw_line(picture);
        }
        self.request_if(
            self.io.dispstat & 0x0010 != 0 && !self.diagnostics.no_hblank_irq,
            Irq::HBlank,
        );
        if visible {
            self.run_dma_for_timing(DmaTiming::HBlank);
        }
    }

    /// Begins the next line. Returns its number.
    pub fn begin_line(&mut self) -> (line: u16)
        requires
            old(self).wf(),
        ensures
            final(self).wf(),
            final(self)@ == old(self)@.line_begun(),
            line == final(self)@.io.vcount,
            line < LINES_PER_FRAME,
    {
        proof {
            reveal(BusState::line_begun);
        }
        let line: u16 = ((self.io.vcount as u32 + 1) % LINES_PER_FRAME as u32) as u16;
        let status: u16 = self.io.dispstat & !0x0002u16;
        self.io.vcount = line;
        if line == status >> 8 {
            self.io.dispstat = status | 0x0004;
            self.request_if(self.io.dispstat & 0x0020 != 0, Irq::VCountMatch);
        } else {
            self.io.dispstat = status & !0x0004u16;
        }
        line
    }

    fn anchor_sound(&mut self, id: usize)
        requires
            old(self).wf(),
            id < 4,
        ensures
            final(self).wf(),
            final(self)@ == (BusState {
                dma: old(self)@.dma.with_channel(
                    id as int,
                    BusState::anchored(old(self)@.dma.channels[id as int]),
                ),
                ..old(self)@
            }),
    {
        let mut c: DmaChannel = self.dma.channels[id];
        if c.active && c.timing() == DmaTiming::Special {
            c.internal_sad = c.sad & 0x07FF_FFFF;
        }
        self.dma.channels[id] = c;
    }

    /// Begins the vertical blank. Returns whether its interrupt was requested.
    pub fn begin_vblank(&mut self) -> (irq: bool)
        requires
            old(self).wf(),
        ensures
            final(self).wf(),
            final(self)@ == old(self)@.vblank_begun(),
            irq == ((old(self)@.io.dispstat | 0x0001) & 0x0008 != 0),
    {
        proof {
            reveal(BusState::vblank_begun);
        }
        self.io.dispstat = self.io.dispstat | 0x0001;
        let irq = self.io.dispstat & 0x0008 != 0;
        self.request_if(irq, Irq::VBlank);
        self.run_dma_for_timing(DmaTiming::VBlank);
        self.anchor_sound(1);
        self.anchor_sound(2);
        irq
    }

    /// Ends the vertical blank.
    pub fn end_vblank(&mut self)
        requires
            old(self).wf(),
        ensures
            final(self).wf(),
            final(self)@ == old(self)@.vblank_ended(),
    {
        self.io.dispstat = self.io.dispstat & !0x0001u16;
    }
}

/// Lines are counted from 0 to 227, and then again from 0.
pub proof fn lines_are_counted(b: BusState)
    requires
        b.io.vcount < LINES_PER_FRAME,
    ensures
        b.line_begun().io.vcount < LINES_PER_FRAME,
        b.io.vcount < LINES_PER_FRAME - 1 ==> b.line_begun().io.vcount == b.io.vcount + 1,
        b.io.vcount == LINES_PER_FRAME - 1 ==> b.line_begun().io.vcount == 0,
        VISIBLE_LINES + VBLANK_LINES == LINES_PER_FRAME,
{
    reveal(BusState::line_begun);
}

/// Below the picture a horizontal blank draws nothing and moves nothing: only
/// its flag is set and its interrupt requested, if it is enabled.
pub proof fn hidden_lines_move_nothing(b: BusState, picture: Seq<u16>)
    requires
        b.io.vcount >= VISIBLE_LINES,
    ensures
        b.hblank_begun(picture) == (
            BusState {
                io: IoRegisters { dispstat: b.io.dispstat | 0x0002, ..b.io },
                interrupt: b.interrupt.requested_if(
                    (b.io.dispstat | 0x0002) & 0x0010 != 0 && !b.diagnostics.no_hblank_irq,
                    Irq::HBlank,
                ),
                ..b
            },
            picture,
        ),
{
    reveal(BusState::hblank_begun);
}

/// With every vertical blank an armed sound channel starts over from its
/// source address.
pub proof fn sound_channels_start_over(b: BusState, i: int)
    requires
        i == 1 || i == 2,
    ensures
        ({
            let c = b.vblank_begun().dma.channels[i];
            c.active && c.timing() is Special ==> c.internal_sad == c.sad & 0x07FF_FFFF
        }),
{
    reveal(BusState::vblank_begun);
}

/// A FIFO that runs low triggers only channels that feed it: where there is
/// none, nothing happens.
pub proof fn refills_leave_other_channels_alone(b: BusState, addr: u32)
    requires
        forall|i: int| 0 <= i < 4 ==> !#[trigger] b.feeds(i, addr),
    ensures
        b.fifo_served(addr, 4) == b,
{
    reveal_with_fuel(BusState::fifo_served, 5);
}

} // verus!

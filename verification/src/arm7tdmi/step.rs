//! The fetch pipeline and the execution of one instruction.

use vstd::prelude::*;

use crate::bits;
use crate::bus::{Bus, BusState};
use crate::trace::TraceEntry;

use super::access::Outcome;
use super::psr::CpuMode;
use super::Cpu;

verus! {

broadcast use bits::group_and_bounds;

impl Cpu {
    /// The pipeline after the opcode `fetched` entered it and R15 moved to
    /// `pc`.
    pub open spec fn with_fetched(self, fetched: u32, pc: u32) -> Cpu {
        Cpu {
            pipeline: [self.pipeline[1], fetched],
            regs: bits::upd(self.regs, 15, pc),
            ..self
        }
    }

    pub open spec fn arm_advanced(self, b: BusState) -> (Cpu, BusState) {
        let r = b.read32(self.regs[15]);
        (self.with_fetched(r.0, self.regs[15].wrapping_add(4)), r.1)
    }

    fn advance_arm_pipeline(&mut self, bus: &mut Bus)
        requires
            old(bus).wf(),
        ensures
            final(bus).wf(),
            (*final(self), final(bus)@) == old(self).arm_advanced(old(bus)@),
    {
        self.pipeline[0] = self.pipeline[1];
        self.pipeline[1] = bus.read32(self.regs[15]);
        self.regs[15] = self.regs[15].wrapping_add(4);
    }

    pub open spec fn thumb_advanced(self, b: BusState) -> (Cpu, BusState) {
        let r = b.read16(self.regs[15]);
        (self.with_fetched(r.0 as u32, self.regs[15].wrapping_add(2)), r.1)
    }

    fn advance_thumb_pipeline(&mut self, bus: &mut Bus)
        requires
            old(bus).wf(),
        ensures
            final(bus).wf(),
            (*final(self), final(bus)@) == old(self).thumb_advanced(old(bus)@),
    {
        self.pipeline[0] = self.pipeline[1];
        self.pipeline[1] = bus.read16(self.regs[15]) as u32;
        self.regs[15] = self.regs[15].wrapping_add(2);
    }

    /// Processor and bus after both pipeline stages were fetched anew from
    /// R15.
    pub open spec fn refilled(self, b: BusState) -> (Cpu, BusState) {
        if self.cpsr.thumb() {
            let pc = self.regs[15] & !1u32;
            let first = (BusState { last_pc: pc, ..b }).read16(pc);
            let second = first.1.read16(pc.wrapping_add(2));
            (
                Cpu {
                    pipeline: [first.0 as u32, second.0 as u32],
                    regs: bits::upd(self.regs, 15, pc.wrapping_add(4)),
                    pipeline_flushed: false,
                    ..self
                },
                second.1,
            )
        } else {
            let pc = self.regs[15] & !3u32;
            let first = (BusState { last_pc: pc, ..b }).read32(pc);
            let second = first.1.read32(pc.wrapping_add(4));
            (
                Cpu {
                    pipeline: [first.0, second.0],
                    regs: bits::upd(self.regs, 15, pc.wrapping_add(8)),
                    pipeline_flushed: false,
                    ..self
                },
                second.1,
            )
        }
    }

    /// Processor and bus with a filled pipeline.
    #[verifier::opaque]
    pub open spec fn filled(self, b: BusState) -> (Cpu, BusState) {
        if self.pipeline_flushed {
            self.refilled(b)
        } else {
            (self, b)
        }
    }

    fn refill_pipeline(&mut self, bus: &mut Bus)
        requires
            old(bus).wf(),
        ensures
            final(bus).wf(),
            (*final(self), final(bus)@) == old(self).refilled(old(bus)@),
    {
        if self.cpsr.thumb() {
            let pc: u32 = self.regs[15] & !1u32;
            bus.last_pc = pc;
            self.pipeline[0] = bus.read16(pc) as u32;
            self.pipeline[1] = bus.read16(pc.wrapping_add(2)) as u32;
            self.regs[15] = pc.wrapping_add(4);
        } else {
            let pc: u32 = self.regs[15] & !3u32;
            bus.last_pc = pc;
            self.pipeline[0] = bus.read32(pc);
            self.pipeline[1] = bus.read32(pc.wrapping_add(4));
            self.regs[15] = pc.wrapping_add(8);
        }
        self.pipeline_flushed = false;
    }

    fn fill_pipeline(&mut self, bus: &mut Bus)
        requires
            old(bus).wf(),
        ensures
            final(bus).wf(),
            (*final(self), final(bus)@) == old(self).filled(old(bus)@),
    {
        proof {
            reveal(Cpu::filled);
        }
        if self.pipeline_flushed {
            self.refill_pipeline(bus);
        }
    }

    /// The ARM instruction in the pipeline, executed if its condition holds;
    /// unless it jumped, the pipeline then advances.
    #[verifier::opaque]
    pub open spec fn arm_stepped(self, b: BusState) -> Outcome {
        let opcode = self.pipeline[0];
        let out = if self.check_condition(opcode >> 28) {
            self.arm_executed(b, opcode)
        } else {
            (self, b, 1)
        };
        if self.check_condition(opcode >> 28) && out.0.pipeline_flushed {
            out
        } else {
            let next = out.0.arm_advanced(out.1);
            (next.0, next.1, out.2)
        }
    }

    fn step_arm(&mut self, bus: &mut Bus) -> (cycles: u32)
        requires
            old(bus).wf(),
        ensures
            final(bus).wf(),
            (*final(self), final(bus)@, cycles) == old(self).arm_stepped(old(bus)@),
            1 <= cycles <= 18,
    {
        proof {
            reveal(Cpu::arm_stepped);
        }
        let opcode: u32 = self.pipeline[0];
        if !self.check_condition(opcode >> 28) {
            self.advance_arm_pipeline(bus);
            return 1;
        }
        let cycles: u32 = self.execute_arm(bus, opcode);
        if !self.pipeline_flushed {
            self.advance_arm_pipeline(bus);
        }
        cycles
    }

    #[verifier::opaque]
    pub open spec fn thumb_stepped(self, b: BusState) -> Outcome {
        let out = self.thumb_executed(b, self.pipeline[0] as u16);
        if out.0.pipeline_flushed {
            out
        } else {
            let next = out.0.thumb_advanced(out.1);
            (next.0, next.1, out.2)
        }
    }

    fn step_thumb(&mut self, bus: &mut Bus) -> (cycles: u32)
        requires
            old(bus).wf(),
        ensures
            final(bus).wf(),
            (*final(self), final(bus)@, cycles) == old(self).thumb_stepped(old(bus)@),
            1 <= cycles <= 18,
    {
        proof {
            reveal(Cpu::thumb_stepped);
        }
        let opcode: u16 = self.pipeline[0] as u16;
        let cycles: u32 = self.execute_thumb(bus, opcode);
        if !self.pipeline_flushed {
            self.advance_thumb_pipeline(bus);
        }
        cycles
    }

    /// The address of the instruction that executes next, with the pipeline
    /// filled.
    #[verifier::allow_in_spec]
    pub fn executing_pc(&self) -> u32
        returns
            self.regs[15].wrapping_sub(if self.cpsr.thumb() { 4u32 } else { 8u32 }),
    {
        if self.cpsr.thumb() {
            self.regs[15].wrapping_sub(4)
        } else {
            self.regs[15].wrapping_sub(8)
        }
    }

    /// What the trace keeps of the instruction in the filled pipeline.
    pub open spec fn trace_entry(self) -> TraceEntry {
        TraceEntry {
            pc: self.executing_pc(),
            op: if self.cpsr.thumb() {
                self.pipeline[0] as u16 as u32
            } else {
                self.pipeline[0]
            },
            thumb: self.cpsr.thumb(),
            r0: self.regs[0],
            r1: self.regs[1],
            r2: self.regs[2],
            r3: self.regs[3],
            sp: self.regs[13],
            lr: self.regs[14],
        }
    }

    fn note_instruction(&self, bus: &mut Bus)
        requires
            old(bus).wf(),
        ensures
            final(bus).wf(),
            final(bus)@ == (BusState {
                diagnostics: old(bus)@.diagnostics.noted(self.trace_entry()),
                ..old(bus)@
            }),
    {
        if bus.diagnostics.trace.is_some() {
            let op: u32 = if self.cpsr.thumb() {
                self.pipeline[0] as u16 as u32
            } else {
                self.pipeline[0]
            };
            bus.diagnostics.note(
                TraceEntry {
                    pc: self.executing_pc(),
                    op,
                    thumb: self.cpsr.thumb(),
                    r0: self.regs[0],
                    r1: self.regs[1],
                    r2: self.regs[2],
                    r3: self.regs[3],
                    sp: self.regs[13],
                    lr: self.regs[14],
                },
            );
        }
    }

    /// Whether a pending interrupt is taken.
    pub open spec fn takes_irq(self, b: BusState) -> bool {
        &&& b.interrupt.has_pending() && !self.cpsr.irq_disabled()
        &&& !(b.diagnostics.hold_irqs && b.backup.busy())
    }

    /// The processor after a pending interrupt was taken, if one is: that also
    /// ends a halt.
    #[verifier::opaque]
    pub open spec fn irq_checked(self, b: BusState) -> Cpu {
        if self.takes_irq(b) {
            Cpu {
                halted: false,
                ..(Cpu { irq_entries: self.irq_entries.wrapping_add(1), ..self }).interrupted()
            }
        } else {
            self
        }
    }

    fn check_irq(&mut self, bus: &Bus) -> (taken: bool)
        ensures
            *final(self) == old(self).irq_checked(bus@),
            taken == old(self).takes_irq(bus@),
    {
        proof {
            reveal(Cpu::irq_checked);
        }
        let held = bus.diagnostics.hold_irqs && bus.backup_busy();
        if !held && bus.interrupt.has_pending() && !self.cpsr.irq_disabled() {
            self.irq_entries = self.irq_entries.wrapping_add(1);
            self.handle_interrupt();
            self.halted = false;
            true
        } else {
            false
        }
    }

    /// The instruction in the filled pipeline, in the current instruction set.
    /// The trace sees it first.
    pub open spec fn instruction_stepped(self, b: BusState) -> Outcome {
        let f = self.filled(b);
        let noted = BusState { diagnostics: f.1.diagnostics.noted(f.0.trace_entry()), ..f.1 };
        if f.0.cpsr.thumb() {
            f.0.thumb_stepped(noted)
        } else {
            f.0.arm_stepped(noted)
        }
    }

    fn step_instruction(&mut self, bus: &mut Bus) -> (cycles: u32)
        requires
            old(bus).wf(),
        ensures
            final(bus).wf(),
            (*final(self), final(bus)@, cycles) == old(self).instruction_stepped(old(bus)@),
            1 <= cycles <= 18,
    {
        self.fill_pipeline(bus);
        self.note_instruction(bus);
        if self.cpsr.thumb() {
            self.step_thumb(bus)
        } else {
            self.step_arm(bus)
        }
    }

    /// One step: a pending interrupt is taken first, which costs three cycles.
    /// A halted processor idles for one cycle; otherwise one instruction
    /// executes. The profile and the save memory see the cycles pass.
    #[verifier::opaque]
    pub open spec fn stepped(self, b: BusState) -> Outcome {
        let ready = self.filled(BusState { last_pc: self.executing_pc(), ..b });
        let c = ready.0.irq_checked(ready.1);
        if c.halted {
            (c, ready.1.backup_ticked(1), 1)
        } else {
            let out = c.instruction_stepped(ready.1);
            let total = (out.2 + (if ready.0.takes_irq(ready.1) { 3int } else { 0 })) as u32;
            let counted = out.1.diagnostics.counted(c.cpsr.mode() is Irq, total);
            (out.0, (BusState { diagnostics: counted, ..out.1 }).backup_ticked(total), total)
        }
    }

    /// Executes one step. Returns the cycles it took.
    pub fn step(&mut self, bus: &mut Bus) -> (cycles: u32)
        requires
            old(bus).wf(),
        ensures
            final(bus).wf(),
            (*final(self), final(bus)@, cycles) == old(self).stepped(old(bus)@),
            1 <= cycles <= 21,
    {
        proof {
            reveal(Cpu::stepped);
        }
        bus.last_pc = self.executing_pc();
        self.fill_pipeline(bus);
        let taken = self.check_irq(bus);
        if self.halted {
            bus.tick_backup(1);
            return 1;
        }
        let in_irq = match self.cpsr.mode() {
            CpuMode::Irq => true,
            _ => false,
        };
        let cycles: u32 = self.step_instruction(bus);
        let total: u32 = if taken {
            cycles + 3
        } else {
            cycles
        };
        bus.diagnostics.count(in_irq, total);
        bus.tick_backup(total);
        total
    }
}

} // verus!

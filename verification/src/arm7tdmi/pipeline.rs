//! How instructions follow one another.

use vstd::prelude::*;

use crate::bits;
use crate::bus::BusState;

use super::results;
use super::Cpu;

verus! {

broadcast use bits::group_and_bounds;

/// After a jump the pipeline holds the instruction at the aligned target and
/// the one after it, and R15 is two instructions ahead of the first.
pub proof fn pipelines_fill(c: Cpu, b: BusState)
    requires
        c.pipeline_flushed,
        c.regs[15] <= 0xFFFF_FFF0,
    ensures
        ({
            let r = c.filled(b);
            let size = if c.cpsr.thumb() {
                2int
            } else {
                4int
            };
            let pc = c.regs[15] - c.regs[15] as int % size;
            let start = BusState { last_pc: pc as u32, ..b };
            &&& r.0.regs[15] == pc + 2 * size
            &&& r.0.executing_pc() == pc
            &&& c.cpsr.thumb() ==> r.0.pipeline[0] == start.read16(pc as u32).0
                && r.0.pipeline[1] == start.read16(pc as u32).1.read16((pc + 2) as u32).0
            &&& !c.cpsr.thumb() ==> r.0.pipeline[0] == start.read32(pc as u32).0
                && r.0.pipeline[1] == start.read32(pc as u32).1.read32((pc + 4) as u32).0
            &&& !r.0.pipeline_flushed
            &&& r.0.cpsr == c.cpsr
            &&& forall|i: int| 0 <= i < 15 ==> #[trigger] r.0.regs[i] == c.regs[i]
        }),
{
    reveal(Cpu::filled);
    results::complement(c.regs[15], 0);
}

/// A pipeline that is full stays as it is.
pub proof fn full_pipelines_wait(c: Cpu, b: BusState)
    requires
        !c.pipeline_flushed,
    ensures
        c.filled(b) == (c, b),
{
    reveal(Cpu::filled);
}

/// An instruction whose condition, the top four bits, does not hold changes
/// nothing: the next one moves up, another is fetched and R15 moves on by four.
pub proof fn conditions_gate(c: Cpu, b: BusState)
    requires
        !c.check_condition((c.pipeline[0] / 0x1000_0000) as u32),
        c.regs[15] <= 0xFFFF_FFF0,
    ensures
        ({
            let r = c.arm_stepped(b);
            &&& forall|i: int| 0 <= i < 15 ==> #[trigger] r.0.regs[i] == c.regs[i]
            &&& r.0.cpsr == c.cpsr
            &&& r.0.regs[15] == c.regs[15] + 4
            &&& r.0.pipeline[0] == c.pipeline[1]
            &&& r.0.pipeline[1] == b.read32(c.regs[15]).0
            &&& r.1 == b.read32(c.regs[15]).1
            &&& r.2 == 1
        }),
{
    reveal(Cpu::arm_stepped);
    condition_field(c.pipeline[0]);
}

proof fn condition_field(o: u32)
    ensures
        o >> 28 == o / 0x1000_0000,
{
    vstd::bits::lemma_u32_shr_is_div(o, 28);
    vstd::arithmetic::power2::lemma2_to64();
}

/// An instruction whose condition holds is executed. Unless it jumps, the next
/// one moves up and R15 moves on by one instruction.
pub proof fn instructions_follow(c: Cpu, b: BusState)
    requires
        c.check_condition((c.pipeline[0] / 0x1000_0000) as u32),
    ensures
        ({
            let out = c.arm_executed(b, c.pipeline[0]);
            let r = c.arm_stepped(b);
            &&& r.2 == out.2
            &&& out.0.pipeline_flushed ==> r == out
            &&& !out.0.pipeline_flushed ==> {
                &&& r.0.pipeline[0] == out.0.pipeline[1]
                &&& r.0.pipeline[1] == out.1.read32(out.0.regs[15]).0
                &&& r.0.regs[15] == (out.0.regs[15] + 4) % 0x1_0000_0000
                &&& r.0.cpsr == out.0.cpsr
                &&& forall|i: int| 0 <= i < 15 ==> #[trigger] r.0.regs[i] == out.0.regs[i]
            }
        }),
{
    reveal(Cpu::arm_stepped);
    condition_field(c.pipeline[0]);
}

/// The same in the 16-bit instruction set, without conditions.
pub proof fn short_instructions_follow(c: Cpu, b: BusState)
    ensures
        ({
            let out = c.thumb_executed(b, c.pipeline[0] as u16);
            let r = c.thumb_stepped(b);
            &&& r.2 == out.2
            &&& out.0.pipeline_flushed ==> r == out
            &&& !out.0.pipeline_flushed ==> {
                &&& r.0.pipeline[0] == out.0.pipeline[1]
                &&& r.0.pipeline[1] == out.1.read16(out.0.regs[15]).0
                &&& r.0.regs[15] == (out.0.regs[15] + 2) % 0x1_0000_0000
                &&& r.0.cpsr == out.0.cpsr
                &&& forall|i: int| 0 <= i < 15 ==> #[trigger] r.0.regs[i] == out.0.regs[i]
            }
        }),
{
    reveal(Cpu::thumb_stepped);
}

/// An interrupt is taken exactly when one is requested and enabled, interrupts
/// are on, and the status does not mask them, unless they are held back while
/// save memory is busy. It is entered at 0x18 and ends a halt.
pub proof fn interrupts_are_taken(c: Cpu, b: BusState)
    requires
        !b.diagnostics.hold_irqs,
    ensures
        ({
            let due = b.interrupt.ime && b.interrupt.ie & b.interrupt.ir != 0
                && !c.cpsr.irq_disabled();
            &&& due ==> c.irq_checked(b).regs[15] == 0x18 && !c.irq_checked(b).halted
            &&& !due ==> c.irq_checked(b) == c
        }),
{
    reveal(Cpu::irq_checked);
    let lr = if c.cpsr.thumb() {
        c.regs[15]
    } else {
        c.regs[15].wrapping_sub(4)
    };
    super::laws::exception_entry(
        Cpu { irq_entries: c.irq_entries.wrapping_add(1), ..c },
        super::CpuMode::Irq,
        lr,
        0x18,
    );
}

/// Software interrupts and interrupts save where to go on: after the
/// instruction, and four bytes after the one that was not executed.
pub proof fn exceptions_save_the_way_back(c: Cpu)
    requires
        c.regs[15] >= 8,
    ensures
        ({
            let size = if c.cpsr.thumb() {
                2int
            } else {
                4int
            };
            &&& c.interrupted().regs[14] == c.executing_pc() + 4
            &&& c.interrupted().regs[15] == 0x18
            &&& c.interrupted().cpsr.mode() is Irq
            &&& c.swi_entered().regs[14] == c.executing_pc() + size
            &&& c.swi_entered().regs[15] == 0x08
            &&& c.swi_entered().cpsr.mode() is Supervisor
        }),
{
    let lr = if c.cpsr.thumb() {
        c.regs[15]
    } else {
        c.regs[15].wrapping_sub(4)
    };
    super::laws::exception_entry(c, super::CpuMode::Irq, lr, 0x18);
    let back = if c.cpsr.thumb() {
        c.regs[15].wrapping_sub(2)
    } else {
        c.regs[15].wrapping_sub(4)
    };
    super::laws::exception_entry(c, super::CpuMode::Supervisor, back, 0x08);
}

} // verus!

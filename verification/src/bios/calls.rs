//! The table of system calls.

use vstd::prelude::*;

use crate::arm7tdmi::Cpu;
use crate::bus::{Bus, BusState};

use super::affine::{self, swi_arctan, swi_arctan2, swi_bg_affine_set, swi_obj_affine_set};
use super::copy::{self, swi_cpu_fast_set, swi_cpu_set};
use super::unpack::{
    self, swi_lz77_uncomp_vram, swi_lz77_uncomp_wram, swi_rl_uncomp_vram, swi_rl_uncomp_wram,
};
use super::widen::{self, swi_bit_unpack, swi_huffman_uncomp};
use super::{
    swi_div, swi_div_arm, swi_get_bios_checksum, swi_halt, swi_intr_wait, swi_register_ram_reset,
    swi_soft_reset, swi_sqrt, swi_stop, swi_vblank_intr_wait,
};

verus! {

/// The calls below 0x09: resets, waiting and arithmetic.
pub open spec fn basic_call(c: Cpu, b: BusState, n: u8) -> (Cpu, BusState) {
    if n == 0x00 {
        super::soft_reset(c, b)
    } else if n == 0x01 {
        (c, super::ram_reset(c, b))
    } else if n == 0x02 || n == 0x03 {
        (Cpu { halted: true, ..c }, b)
    } else if n == 0x04 {
        super::intr_wait(c, b)
    } else if n == 0x05 {
        super::intr_wait(c.with_reg(0, 1).with_reg(1, 1), b)
    } else if n == 0x06 {
        (super::divided(c), b)
    } else if n == 0x07 {
        (super::divided(c.with_reg(0, c.regs[1]).with_reg(1, c.regs[0])), b)
    } else {
        (c.with_reg(0, super::square_root(c.regs[0])), b)
    }
}

fn call_basic(cpu: &mut Cpu, bus: &mut Bus, n: u8)
    requires
        old(bus).wf(),
        n <= 0x08,
    ensures
        final(bus).wf(),
        (*final(cpu), final(bus)@) == basic_call(*old(cpu), old(bus)@, n),
{
    match n {
        0x00 => swi_soft_reset(cpu, bus),
        0x01 => swi_register_ram_reset(cpu, bus),
        0x02 => swi_halt(cpu),
        0x03 => swi_stop(cpu),
        0x04 => swi_intr_wait(cpu, bus),
        0x05 => swi_vblank_intr_wait(cpu, bus),
        0x06 => swi_div(cpu),
        0x07 => swi_div_arm(cpu),
        _ => swi_sqrt(cpu),
    }
}

/// The calls from 0x09 to 0x15: trigonometry, copies and decompression.
pub open spec fn data_call(c: Cpu, b: BusState, n: u8) -> (Cpu, BusState) {
    if n == 0x09 {
        (affine::arctan_begun(c), b)
    } else if n == 0x0A {
        (affine::arctan2_begun(c), b)
    } else if n == 0x0B {
        (c, copy::cpu_set(c, b))
    } else if n == 0x0C {
        (c, copy::cpu_fast_set(c, b))
    } else if n == 0x0D {
        (c.with_reg(0, super::BIOS_CHECKSUM), b)
    } else if n == 0x0E {
        affine::bg_affine_at(c, b, 0)
    } else if n == 0x0F {
        affine::obj_affine_at(c, b, 0)
    } else if n == 0x10 {
        (c, widen::bit_unpacked(c, b))
    } else if n == 0x11 || n == 0x12 {
        (c, unpack::lz77(b, c.regs[0], c.regs[1], n == 0x12))
    } else if n == 0x13 {
        (c, widen::huffman_unpacked(c, b))
    } else {
        (c, unpack::run_lengths(b, c.regs[0], c.regs[1], n == 0x15))
    }
}

fn call_data(cpu: &mut Cpu, bus: &mut Bus, n: u8)
    requires
        old(bus).wf(),
        0x09 <= n <= 0x15,
    ensures
        final(bus).wf(),
        (*final(cpu), final(bus)@) == data_call(*old(cpu), old(bus)@, n),
{
    match n {
        0x09 => swi_arctan(cpu),
        0x0A => swi_arctan2(cpu),
        0x0B => swi_cpu_set(cpu, bus),
        0x0C => swi_cpu_fast_set(cpu, bus),
        0x0D => swi_get_bios_checksum(cpu),
        0x0E => swi_bg_affine_set(cpu, bus),
        0x0F => swi_obj_affine_set(cpu, bus),
        0x10 => swi_bit_unpack(cpu, bus),
        0x11 => swi_lz77_uncomp_wram(cpu, bus),
        0x12 => swi_lz77_uncomp_vram(cpu, bus),
        0x13 => swi_huffman_uncomp(cpu, bus),
        0x14 => swi_rl_uncomp_wram(cpu, bus),
        _ => swi_rl_uncomp_vram(cpu, bus),
    }
}

/// Processor and bus after system call `n`. The numbers above 0x15 do nothing.
#[verifier::opaque]
pub open spec fn called(c: Cpu, b: BusState, n: u8) -> (Cpu, BusState) {
    if n <= 0x08 {
        basic_call(c, b, n)
    } else if n <= 0x15 {
        data_call(c, b, n)
    } else {
        (c, b)
    }
}

/// Performs system call `comment`. Returns whether there is such a call.
pub fn handle_swi(cpu: &mut Cpu, bus: &mut Bus, comment: u8) -> (handled: bool)
    requires
        old(bus).wf(),
    ensures
        final(bus).wf(),
        (*final(cpu), final(bus)@) == called(*old(cpu), old(bus)@, comment),
        handled == (comment <= 0x15),
{
    proof {
        reveal(called);
    }
    if comment <= 0x08 {
        call_basic(cpu, bus, comment);
    } else if comment <= 0x15 {
        call_data(cpu, bus, comment);
    } else {
        return false;
    }
    true
}

} // verus!

//! The system calls of the boot ROM, for machines that run without one.
//!
//! A call takes its parameters from R0 to R3 and leaves its results there. The
//! number of the call comes with the software interrupt.
//!
//! The calls that need trigonometry (ArcTan, ArcTan2 and the two affine
//! set-ups) do not finish here: they leave a request in the processor, and go
//! on when the answer is handed in.

use vstd::prelude::*;

use crate::arm7tdmi::{BankedRegisters, Cpu, CpuMode, Psr};
use crate::bits;
use crate::bus::{Bus, BusState};

pub use self::calls::handle_swi;
pub use self::copy::{swi_cpu_fast_set, swi_cpu_set};
pub use self::unpack::{
    swi_lz77_uncomp_vram, swi_lz77_uncomp_wram, swi_rl_uncomp_vram, swi_rl_uncomp_wram,
};
pub use self::widen::{swi_bit_unpack, swi_huffman_uncomp};

pub mod affine;
pub mod calls;
pub mod copy;
pub mod expand;
pub mod results;
pub mod unpack;
pub mod widen;

verus! {

broadcast use bits::group_and_bounds;

/// The bus after `n` zero bytes were written from `addr` up.
pub open spec fn cleared8(b: BusState, addr: u32, n: nat) -> BusState
    decreases n,
{
    if n == 0 {
        b
    } else {
        cleared8(b, addr, (n - 1) as nat).write8((addr + n - 1) as u32, 0)
    }
}

/// The bus after `n` zero words were written from `addr` up.
pub open spec fn cleared32(b: BusState, addr: u32, n: nat) -> BusState
    decreases n,
{
    if n == 0 {
        b
    } else {
        cleared32(b, addr, (n - 1) as nat).write32((addr + 4 * (n - 1)) as u32, 0)
    }
}

fn clear_bytes(bus: &mut Bus, addr: u32, n: u32)
    requires
        old(bus).wf(),
        addr + n <= 0xFFFF_FFFF,
    ensures
        final(bus).wf(),
        final(bus)@ == cleared8(old(bus)@, addr, n as nat),
{
    let ghost b0 = bus@;
    let mut i: u32 = 0;
    while i < n
        invariant
            i <= n,
            addr + n <= 0xFFFF_FFFF,
            bus.wf(),
            bus@ == cleared8(b0, addr, i as nat),
        decreases n - i,
    {
        bus.write8(addr + i, 0);
        i = i + 1;
    }
}

fn clear_words(bus: &mut Bus, addr: u32, n: u32)
    requires
        old(bus).wf(),
        addr + 4 * n <= 0xFFFF_FFFF,
    ensures
        final(bus).wf(),
        final(bus)@ == cleared32(old(bus)@, addr, n as nat),
{
    let ghost b0 = bus@;
    let mut i: u32 = 0;
    while i < n
        invariant
            i <= n,
            addr + 4 * n <= 0xFFFF_FFFF,
            bus.wf(),
            bus@ == cleared32(b0, addr, i as nat),
        decreases n - i,
    {
        bus.write32(addr + 4 * i, 0);
        i = i + 1;
    }
}

/// SoftReset: the top 512 bytes of on-chip work RAM are cleared, registers and
/// stacks are set up, and execution restarts in RAM if the flag at 0x0300_7FFA
/// is set, else in the cartridge.
pub open spec fn soft_reset(c: Cpu, b: BusState) -> (Cpu, BusState) {
    let flag = b.read8(0x0300_7FFA);
    let entry = if flag.0 != 0 {
        0x0200_0000u32
    } else {
        0x0800_0000u32
    };
    (
        Cpu {
            regs: bits::upd(bits::upd(bits::filled(0), 13, 0x0300_7F00), 15, entry),
            banked: BankedRegisters {
                sp: bits::upd(bits::upd(c.banked.sp, 2, 0x0300_7FA0), 3, 0x0300_7FE0),
                ..c.banked
            },
            cpsr: Psr { bits: Psr::new(CpuMode::System).bits & !(1u32 << 7) },
            pipeline_flushed: true,
            ..c
        },
        cleared8(flag.1, 0x0300_7E00, 0x200),
    )
}

pub fn swi_soft_reset(cpu: &mut Cpu, bus: &mut Bus)
    requires
        old(bus).wf(),
    ensures
        final(bus).wf(),
        (*final(cpu), final(bus)@) == soft_reset(*old(cpu), old(bus)@),
{
    let flag: u8 = bus.read8(0x0300_7FFA);
    clear_bytes(bus, 0x0300_7E00, 0x200);
    cpu.regs = [0; 16];
    cpu.regs[13] = 0x0300_7F00;
    cpu.banked.sp[CpuMode::Irq.bank_index()] = 0x0300_7FA0;
    cpu.banked.sp[CpuMode::Supervisor.bank_index()] = 0x0300_7FE0;
    cpu.regs[15] =
    if flag != 0 {
        0x0200_0000
    } else {
        0x0800_0000
    };
    cpu.cpsr = Psr::new(CpuMode::System);
    cpu.cpsr.bits = cpu.cpsr.bits & !(1u32 << 7);
    cpu.pipeline_flushed = true;
}

pub open spec fn cleared_if(b: BusState, clear: bool, addr: u32, words: nat) -> BusState {
    if clear {
        cleared32(b, addr, words)
    } else {
        b
    }
}

fn clear_words_if(bus: &mut Bus, clear: bool, addr: u32, words: u32)
    requires
        old(bus).wf(),
        addr + 4 * words <= 0xFFFF_FFFF,
    ensures
        final(bus).wf(),
        final(bus)@ == cleared_if(old(bus)@, clear, addr, words as nat),
{
    if clear {
        clear_words(bus, addr, words);
    }
}

/// RegisterRamReset: bits 0 to 4 of R0 clear on-board work RAM, on-chip work
/// RAM but for its last 512 bytes, the palette, video memory and object
/// memory.
pub open spec fn ram_reset(c: Cpu, b: BusState) -> BusState {
    let flags = c.regs[0];
    let b1 = cleared_if(b, flags & 1 != 0, 0x0200_0000, 0x10000);
    let b2 = cleared_if(b1, flags & 2 != 0, 0x0300_0000, 0x1F80);
    let b3 = cleared_if(b2, flags & 4 != 0, 0x0500_0000, 0x100);
    let b4 = cleared_if(b3, flags & 8 != 0, 0x0600_0000, 0x6000);
    cleared_if(b4, flags & 16 != 0, 0x0700_0000, 0x100)
}

pub fn swi_register_ram_reset(cpu: &Cpu, bus: &mut Bus)
    requires
        old(bus).wf(),
    ensures
        final(bus).wf(),
        final(bus)@ == ram_reset(*cpu, old(bus)@),
{
    let flags: u32 = cpu.regs[0];
    clear_words_if(bus, flags & 1 != 0, 0x0200_0000, 0x10000);
    clear_words_if(bus, flags & 2 != 0, 0x0300_0000, 0x1F80);
    clear_words_if(bus, flags & 4 != 0, 0x0500_0000, 0x100);
    clear_words_if(bus, flags & 8 != 0, 0x0600_0000, 0x6000);
    clear_words_if(bus, flags & 16 != 0, 0x0700_0000, 0x100);
}

/// Halt: the processor waits for an interrupt.
pub fn swi_halt(cpu: &mut Cpu)
    ensures
        *final(cpu) == (Cpu { halted: true, ..*old(cpu) }),
{
    cpu.halted = true;
}

/// Stop is taken as Halt.
pub fn swi_stop(cpu: &mut Cpu)
    ensures
        *final(cpu) == (Cpu { halted: true, ..*old(cpu) }),
{
    cpu.halted = true;
}

/// IntrWait: the processor halts. If R0 is not zero, the awaited flags (R1) are
/// first cleared in the handler's mirror at 0x0300_7FF8.
pub open spec fn intr_wait(c: Cpu, b: BusState) -> (Cpu, BusState) {
    let r = b.read16(0x0300_7FF8);
    (
        Cpu { halted: true, ..c },
        if c.regs[0] != 0 {
            r.1.write16(0x0300_7FF8, r.0 & !(c.regs[1] as u16))
        } else {
            b
        },
    )
}

pub fn swi_intr_wait(cpu: &mut Cpu, bus: &mut Bus)
    requires
        old(bus).wf(),
    ensures
        final(bus).wf(),
        (*final(cpu), final(bus)@) == intr_wait(*old(cpu), old(bus)@),
{
    let irq_flags: u16 = cpu.regs[1] as u16;
    if cpu.regs[0] != 0 {
        let current: u16 = bus.read16(0x0300_7FF8);
        bus.write16(0x0300_7FF8, current & !irq_flags);
    }
    cpu.halted = true;
}

/// VBlankIntrWait is IntrWait(1, 1).
pub fn swi_vblank_intr_wait(cpu: &mut Cpu, bus: &mut Bus)
    requires
        old(bus).wf(),
    ensures
        final(bus).wf(),
        (*final(cpu), final(bus)@) == intr_wait(
            old(cpu).with_reg(0, 1).with_reg(1, 1),
            old(bus)@,
        ),
{
    cpu.regs[0] = 1;
    cpu.regs[1] = 1;
    swi_intr_wait(cpu, bus);
}

/// `n` without its sign.
pub open spec fn magnitude(n: int) -> int {
    if n < 0 {
        -n
    } else {
        n
    }
}

/// `n / d` rounded toward zero.
pub open spec fn quotient(n: int, d: int) -> int {
    let k = magnitude(n) / magnitude(d);
    if (n < 0) == (d < 0) {
        k
    } else {
        -k
    }
}

/// Div: quotient of R0 by R1, toward zero, to R0; remainder to R1; the
/// quotient's absolute value to R3. The one quotient that does not fit, that
/// of the least integer by -1, keeps its low 32 bits. Nothing happens for a
/// zero divisor.
pub open spec fn divided(c: Cpu) -> Cpu {
    let n = c.regs[0] as i32 as int;
    let d = c.regs[1] as i32 as int;
    if d == 0 {
        c
    } else {
        let q = quotient(n, d);
        c.with_reg(0, q as u32).with_reg(1, (n - q * d) as u32).with_reg(3, magnitude(q) as u32)
    }
}

/// Quotient and remainder make up the dividend, the remainder is smaller than
/// the divisor and has the sign of the dividend.
pub proof fn division_is_exact(n: int, d: int)
    requires
        d != 0,
    ensures
        magnitude(n - quotient(n, d) * d) < magnitude(d),
        n >= 0 ==> n - quotient(n, d) * d >= 0,
        n <= 0 ==> n - quotient(n, d) * d <= 0,
        magnitude(quotient(n, d)) <= magnitude(n),
{
    let a = magnitude(n);
    let b = magnitude(d);
    let k = a / b;
    vstd::arithmetic::div_mod::lemma_fundamental_div_mod(a, b);
    vstd::arithmetic::div_mod::lemma_mod_bound(a, b);
    assert(0 <= k <= a) by (nonlinear_arith)
        requires
            k == a / b,
            a >= 0,
            b >= 1,
    ;
    assert(b * k == k * b && (-k) * b == -(k * b) && k * (-b) == -(k * b) && (-k) * (-b) == k * b)
        by (nonlinear_arith);
}

pub fn swi_div(cpu: &mut Cpu)
    ensures
        *final(cpu) == divided(*old(cpu)),
{
    let numer: i64 = cpu.regs[0] as i32 as i64;
    let denom: i64 = cpu.regs[1] as i32 as i64;
    if denom == 0 {
        return;
    }
    let a: i64 = if numer < 0 {
        -numer
    } else {
        numer
    };
    let b: i64 = if denom < 0 {
        -denom
    } else {
        denom
    };
    let k: i64 = a / b;
    proof {
        division_is_exact(numer as int, denom as int);
        assert(0 <= a / b <= a) by (nonlinear_arith)
            requires
                a >= 0,
                b >= 1,
        ;
    }
    let q: i64 = if (numer < 0) == (denom < 0) {
        k
    } else {
        -k
    };
    assert(-0x4000_0000_0000_0000 <= q * denom <= 0x4000_0000_0000_0000) by (nonlinear_arith)
        requires
            -0x8000_0000 <= q <= 0x8000_0000,
            -0x8000_0000 <= denom <= 0x7FFF_FFFF,
    ;
    let r: i64 = numer - q * denom;
    cpu.regs[0] = q as u32;
    cpu.regs[1] = r as u32;
    cpu.regs[3] = k as u32;
}

/// DivArm is Div with its operands swapped.
pub fn swi_div_arm(cpu: &mut Cpu)
    ensures
        *final(cpu) == divided(
            old(cpu).with_reg(0, old(cpu).regs[1]).with_reg(1, old(cpu).regs[0]),
        ),
{
    let numer: u32 = cpu.regs[1];
    let denom: u32 = cpu.regs[0];
    cpu.regs[0] = numer;
    cpu.regs[1] = denom;
    swi_div(cpu);
}

/// Whether `r` is the square root of `v`, rounded down.
pub open spec fn is_sqrt(r: u32, v: u32) -> bool {
    r * r <= v < (r + 1) * (r + 1)
}

fn integer_sqrt(v: u32) -> (r: u32)
    ensures
        is_sqrt(r, v),
{
    let mut lo: u64 = 0;
    let mut hi: u64 = 0x1_0000;
    while hi - lo > 1
        invariant
            lo < hi <= 0x1_0000,
            lo * lo <= v < hi * hi,
        decreases hi - lo,
    {
        let mid: u64 = (lo + hi) / 2;
        assert(0 <= mid * mid <= 0x1_0000_0000) by (nonlinear_arith)
            requires
                0 <= mid <= 0x1_0000,
        ;
        if mid * mid <= v as u64 {
            lo = mid;
        } else {
            hi = mid;
        }
    }
    assert(hi == lo + 1);
    lo as u32
}

/// There is only one square root, rounded down.
pub proof fn sqrt_is_unique(r: u32, s: u32, v: u32)
    requires
        is_sqrt(r, v),
        is_sqrt(s, v),
    ensures
        r == s,
{
    assert(r < s ==> (r + 1) * (r + 1) <= s * s) by (nonlinear_arith);
    assert(s < r ==> (s + 1) * (s + 1) <= r * r) by (nonlinear_arith);
}

/// The square root of `v`, rounded down.
pub open spec fn square_root(v: u32) -> u32 {
    choose|r: u32| is_sqrt(r, v)
}

/// Sqrt: the square root of R0, rounded down.
pub fn swi_sqrt(cpu: &mut Cpu)
    ensures
        *final(cpu) == old(cpu).with_reg(0, square_root(old(cpu).regs[0])),
        is_sqrt(final(cpu).regs[0], old(cpu).regs[0]),
{
    let val: u32 = cpu.regs[0];
    let r: u32 = integer_sqrt(val);
    proof {
        sqrt_is_unique(r, square_root(val), val);
    }
    cpu.regs[0] = r;
}

/// What GetBiosChecksum returns.
pub const BIOS_CHECKSUM: u32 = 0xBAAE_187F;

pub fn swi_get_bios_checksum(cpu: &mut Cpu)
    ensures
        *final(cpu) == old(cpu).with_reg(0, BIOS_CHECKSUM),
{
    cpu.regs[0] = BIOS_CHECKSUM;
}

} // verus!

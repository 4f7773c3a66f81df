//! What multiplications, branches, transfers and status accesses do, in
//! numbers.

use vstd::prelude::*;

use crate::bits;
use crate::bus::BusState;

use super::arm::{self, ArmInstruction};
use super::results::{self, signed};
use super::{Cpu, Psr};

verus! {

broadcast use bits::group_and_bounds;

pub(crate) proof fn long_words(p: i64, q: u64, hi: u32, lo: u32)
    by (bit_vector)
    ensures
        p >= 0 ==> p as u64 == p,
        p < 0 ==> p as u64 == p + 0x1_0000_0000_0000_0000,
        (q as u32) + ((q >> 32) as u32) * 0x1_0000_0000 == q,
        (p as u32) == ((p as u64) as u32),
        ((hi as u64) << 32) | (lo as u64) == hi * 0x1_0000_0000 + lo,
        (q >> 63 != 0) == (q >= 0x8000_0000_0000_0000),
{
}

/// A multiplication puts the product of two registers, plus a third if bit 21
/// is set, into the register that bits 16 to 19 name, modulo 2^32. With bit 20
/// set N and Z describe it.
#[verifier::rlimit(50)]
pub proof fn products(c: Cpu, b: BusState, o: u32)
    requires
        o / 0x40_0000 % 64 == 0,
        o / 0x10 % 16 == 9,
    ensures
        ({
            let out = c.arm_executed(b, o);
            let rd = (o / 0x1_0000 % 16) as int;
            let exact = c.regs[(o % 16) as int] * c.regs[(o / 0x100 % 16) as int] + (if o / 0x20_0000
                % 2 == 1 {
                c.regs[(o / 0x1000 % 16) as int] as int
            } else {
                0
            });
            let r = out.0.regs[rd];
            &&& r == exact % 0x1_0000_0000
            &&& forall|i: int| 0 <= i < 16 && i != rd ==> #[trigger] out.0.regs[i] == c.regs[i]
            &&& out.1 == b
            &&& o / 0x10_0000 % 2 == 0 ==> out.0.cpsr == c.cpsr
            &&& o / 0x10_0000 % 2 == 1 ==> {
                &&& out.0.cpsr.n() == (r >= 0x8000_0000)
                &&& out.0.cpsr.z() == (r == 0)
                &&& out.0.cpsr.c() == c.cpsr.c()
                &&& out.0.cpsr.v() == c.cpsr.v()
            }
        }),
{
    results::opcode_fields(o);
    results::opcode_classes(o);
    reveal(Cpu::multiplied);
    assert(ArmInstruction::decode(o) is Multiply);
    let x = c.regs[(o % 16) as int];
    let y = c.regs[(o / 0x100 % 16) as int];
    let z = c.regs[(o / 0x1000 % 16) as int];
    let p = x.wrapping_mul(y);
    let r = c.arm_executed(b, o).0.regs[(o / 0x1_0000 % 16) as int];
    results::flags_are_set(c.cpsr, (r, true, true));
    results::complement(r, 0);
    vstd::arithmetic::mul::lemma_mul_nonnegative(x as int, y as int);
    assert((p + z) % 0x1_0000_0000 == (x * y + z) % 0x1_0000_0000) by {
        assert(p == (x * y) % 0x1_0000_0000);
    }
}

/// A long multiplication puts the 64-bit product of two registers, plus the 64
/// bits that the destination held if bit 21 is set, into two registers: the
/// unsigned product, or the signed one if bit 22 is set, modulo 2^64.
#[verifier::rlimit(50)]
pub proof fn long_products(c: Cpu, b: BusState, o: u32)
    requires
        o / 0x80_0000 % 32 == 1,
        o / 0x10 % 16 == 9,
        o / 0x1_0000 % 16 != o / 0x1000 % 16,
    ensures
        ({
            let out = c.arm_executed(b, o);
            let hi = (o / 0x1_0000 % 16) as int;
            let lo = (o / 0x1000 % 16) as int;
            let x = c.regs[(o % 16) as int];
            let y = c.regs[(o / 0x100 % 16) as int];
            let product = if o / 0x40_0000 % 2 == 1 {
                signed(x) * signed(y)
            } else {
                x * y
            };
            let exact = product + (if o / 0x20_0000 % 2 == 1 {
                c.regs[hi] * 0x1_0000_0000 + c.regs[lo]
            } else {
                0
            });
            let r = out.0.regs[hi] * 0x1_0000_0000 + out.0.regs[lo];
            &&& r == exact % 0x1_0000_0000_0000_0000
            &&& forall|i: int|
                0 <= i < 16 && i != hi && i != lo ==> #[trigger] out.0.regs[i] == c.regs[i]
            &&& out.1 == b
            &&& o / 0x10_0000 % 2 == 0 ==> out.0.cpsr == c.cpsr
            &&& o / 0x10_0000 % 2 == 1 ==> {
                &&& out.0.cpsr.n() == (r >= 0x8000_0000_0000_0000)
                &&& out.0.cpsr.z() == (r == 0)
                &&& out.0.cpsr.c() == c.cpsr.c()
                &&& out.0.cpsr.v() == c.cpsr.v()
            }
        }),
{
    results::opcode_fields(o);
    results::opcode_classes(o);
    reveal(Cpu::multiplied_long);
    assert(ArmInstruction::decode(o) is MultiplyLong);
    let hi = (o / 0x1_0000 % 16) as int;
    let lo = (o / 0x1000 % 16) as int;
    let x = c.regs[(o % 16) as int];
    let y = c.regs[(o / 0x100 % 16) as int];
    results::complement(x, y);
    results::complement(y, x);
    let sx = signed(x);
    let sy = signed(y);
    assert(-0x4000_0000_0000_0000 <= sx * sy <= 0x4000_0000_0000_0000) by (nonlinear_arith)
        requires
            -0x8000_0000 <= sx <= 0x7FFF_FFFF,
            -0x8000_0000 <= sy <= 0x7FFF_FFFF,
    ;
    assert(0 <= x * y <= 0xFFFF_FFFE_0000_0001) by (nonlinear_arith)
        requires
            0 <= x <= 0xFFFF_FFFF,
            0 <= y <= 0xFFFF_FFFF,
    ;
    let p = (sx * sy) as i64;
    let product = arm::long_product(x, y, arm::flag(o, 22));
    let q = if arm::flag(o, 21) {
        product.wrapping_add(((c.regs[hi] as u64) << 32) | (c.regs[lo] as u64))
    } else {
        product
    };
    long_words(p, q, c.regs[hi], c.regs[lo]);
    flags_of_long(c.cpsr, q);
}

proof fn flags_of_long(p: Psr, q: u64)
    ensures
        ({
            let r = p.with_bit(31, q >> 63 != 0).with_bit(30, q == 0);
            r.n() == (q >> 63 != 0) && r.z() == (q == 0) && r.c() == p.c() && r.v() == p.v()
        }),
{
    super::psr::psr_set_then_get(p, 31, q >> 63 != 0);
    super::psr::psr_set_then_get(p.with_bit(31, q >> 63 != 0), 30, q == 0);
}

proof fn displacement_bits(o: u32)
    by (bit_vector)
    ensures
        (o & 0x00FF_FFFF) << 2 == (o % 0x100_0000) * 4,
        o & (1u32 << 23) != 0 ==> ((o & 0x00FF_FFFF) << 2) | 0xFC00_0000 == (o % 0x100_0000) * 4
            + 0xFC00_0000,
        o & (1u32 << 23) != 0 <==> o % 0x100_0000 >= 0x80_0000,
        o & !1u32 == o - o % 2,
        o & 1 == o % 2,
{
}

proof fn branch_fields(o: u32)
    requires
        o / 0x200_0000 % 8 == 5,
    ensures
        ArmInstruction::decode(o) is Branch,
        arm::flag(o, 24) == (o / 0x100_0000 % 2 == 1),
        ({
            let f = o % 0x100_0000;
            &&& f >= 0x80_0000 ==> arm::branch_offset(o) == 4 * (f - 0x100_0000) + 0x1_0000_0000
            &&& f < 0x80_0000 ==> arm::branch_offset(o) == 4 * f
        }),
{
    results::opcode_fields(o);
    results::opcode_classes(o);
    displacement_bits(o);
}

proof fn sum_of_words(x: u32, y: u32, d: int)
    requires
        y == d || y == d + 0x1_0000_0000,
    ensures
        x.wrapping_add(y) == (x + d) % 0x1_0000_0000,
{
}

/// A branch adds four times its signed 24-bit field to R15, which is two
/// instructions ahead, modulo 2^32. With bit 24 set R14 takes the address of
/// the next instruction.
#[verifier::rlimit(50)]
pub proof fn branches(c: Cpu, b: BusState, o: u32)
    requires
        o / 0x200_0000 % 8 == 5,
    ensures
        ({
            let out = c.arm_executed(b, o);
            let f = o % 0x100_0000;
            let words = if f >= 0x80_0000 {
                f - 0x100_0000
            } else {
                f as int
            };
            let linked = o / 0x100_0000 % 2 == 1;
            &&& out.0.regs[15] == (c.regs[15] + 4 * words) % 0x1_0000_0000
            &&& out.0.regs[14] == (if linked {
                (c.regs[15] - 4) % 0x1_0000_0000
            } else {
                c.regs[14] as int
            })
            &&& forall|i: int| 0 <= i < 14 ==> #[trigger] out.0.regs[i] == c.regs[i]
            &&& out.0.cpsr == c.cpsr
            &&& out.0.pipeline_flushed
            &&& out.1 == b
        }),
{
    branch_fields(o);
    let f = o % 0x100_0000;
    let words = if f >= 0x80_0000 {
        f - 0x100_0000
    } else {
        f as int
    };
    sum_of_words(c.regs[15], arm::branch_offset(o), 4 * words);
}

/// A branch with exchange goes to the even address below a register's value
/// and takes the instruction set from its lowest bit.
#[verifier::rlimit(50)]
pub proof fn exchanging_branches(c: Cpu, b: BusState, o: u32)
    requires
        o / 0x10 % 0x100_0000 == 0x12_FFF1,
    ensures
        ({
            let out = c.arm_executed(b, o);
            let t = c.regs[(o % 16) as int];
            &&& out.0.regs[15] == t - t % 2
            &&& out.0.cpsr.thumb() == (t % 2 == 1)
            &&& out.0.cpsr.mode() == c.cpsr.mode()
            &&& forall|i: int| 0 <= i < 15 ==> #[trigger] out.0.regs[i] == c.regs[i]
            &&& out.0.pipeline_flushed
            &&& out.1 == b
        }),
{
    results::opcode_fields(o);
    results::opcode_classes(o);
    let t = c.regs[(o % 16) as int];
    displacement_bits(t);
    assert(ArmInstruction::decode(o) is BranchExchange);
    super::psr::psr_set_then_get(c.cpsr, 5, t & 1 != 0);
}

/// A software interrupt leaves its number, bits 16 to 23, for the machine.
#[verifier::rlimit(50)]
pub proof fn software_interrupts(c: Cpu, b: BusState, o: u32)
    requires
        o / 0x100_0000 % 16 == 15,
    ensures
        c.arm_executed(b, o).0 == (Cpu { pending_swi: Some((o / 0x1_0000 % 256) as u8), ..c }),
        c.arm_executed(b, o).1 == b,
{
    results::opcode_classes(o);
}

} // verus!

//! What the instructions compute, in numbers: sums, differences, products, and
//! where each bit of a word goes.

use vstd::prelude::*;

use crate::bits;
use crate::bus::BusState;

use super::alu::{self, barrel_shift, ShiftType};
use super::arm::{self, ArmInstruction};
use super::psr;
use super::Cpu;

verus! {

broadcast use bits::group_and_bounds;

/// The signed reading of a word.
pub open spec fn signed(x: u32) -> int {
    if x < 0x8000_0000 {
        x as int
    } else {
        x - 0x1_0000_0000
    }
}

/// Whether bit `k` of a word is set.
pub open spec fn has_bit(x: u32, k: int) -> bool {
    (x >> (k as u32)) & 1 == 1
}

/// Whether a number lies outside the signed words.
pub open spec fn leaves_word(x: int) -> bool {
    x < -0x8000_0000 || x > 0x7FFF_FFFF
}

/// The fields of an opcode, by division.
pub(crate) proof fn opcode_fields(o: u32)
    by (bit_vector)
    ensures
        (o >> 16) & 0xF == o / 0x1_0000 % 16,
        (o >> 12) & 0xF == o / 0x1000 % 16,
        (o >> 8) & 0xF == o / 0x100 % 16,
        (o >> 0) & 0xF == o % 16,
        o & 0xF == o % 16,
        (o >> 21) & 0xF == o / 0x20_0000 % 16,
        (o >> 20) & 0xFF == o / 0x10_0000 % 256,
        (o >> 4) & 0xF == o / 0x10 % 16,
        (o >> 7) & 0x1F == o / 0x80 % 32,
        (o >> 5) & 3 == o / 0x20 % 4,
        o & 0xFF == o % 256,
        o & 0xFFF == o % 0x1000,
        o & 0xFFFF == o % 0x1_0000,
        o & (1u32 << 4) != 0 <==> o / 0x10 % 2 == 1,
        o & (1u32 << 20) != 0 <==> o / 0x10_0000 % 2 == 1,
        o & (1u32 << 21) != 0 <==> o / 0x20_0000 % 2 == 1,
        o & (1u32 << 22) != 0 <==> o / 0x40_0000 % 2 == 1,
        o & (1u32 << 23) != 0 <==> o / 0x80_0000 % 2 == 1,
        o & (1u32 << 24) != 0 <==> o / 0x100_0000 % 2 == 1,
        o & (1u32 << 25) != 0 <==> o / 0x200_0000 % 2 == 1,
        (((o >> 16) & 0xF) as u8) & 0xF == ((o >> 16) & 0xF) as u8,
        (((o >> 12) & 0xF) as u8) & 0xF == ((o >> 12) & 0xF) as u8,
        (((o >> 8) & 0xF) as u8) & 0xF == ((o >> 8) & 0xF) as u8,
        (((o >> 0) & 0xF) as u8) & 0xF == ((o >> 0) & 0xF) as u8,
        (((o >> 21) & 0xF) as u8) & 0xF == ((o >> 21) & 0xF) as u8,
        (((o >> 5) & 3) as u8) & 3 == ((o >> 5) & 3) as u8,
{
}

/// Which class the bits of an opcode select.
pub(crate) proof fn opcode_classes(o: u32)
    by (bit_vector)
    ensures
        ((o >> 20) & 0xFF) >> 5 == o / 0x200_0000 % 8,
        // Data processing.
        o / 0x400_0000 % 4 == 0 && (o / 0x200_0000 % 2 == 1 || !(o / 0x10 % 2 == 1 && o / 0x80 % 2
            == 1)) && (o / 0x10_0000 % 2 == 1 || !(8 <= o / 0x20_0000 % 16 && o / 0x20_0000 % 16
            <= 11)) ==> ((o >> 20) & 0xFF) & 0xFB != 0x32 && ((o >> 20) & 0xFF) & 0xFB != 0x10 && ((
        o >> 20) & 0xFF) & 0xFB != 0x12 && (o >> 20) & 0xFF != 0x12 && (o / 0x200_0000 % 2 == 0
            ==> (o >> 4) & 0xF != 9 && ((o >> 4) & 0xF) & 9 != 9),
        // Multiplication.
        o / 0x40_0000 % 64 == 0 && o / 0x10 % 16 == 9 ==> ((o >> 20) & 0xFF) & 0xFC == 0 && (o
            >> 4) & 0xF == 9 && (o >> 20) & 0xFF != 0x12,
        o / 0x80_0000 % 32 == 1 && o / 0x10 % 16 == 9 ==> ((o >> 20) & 0xFF) & 0xF8 == 8 && ((o
            >> 20) & 0xFF) & 0xFC != 0 && (o >> 4) & 0xF == 9 && (o >> 20) & 0xFF != 0x12,
        // Swap.
        o / 0x80_0000 % 32 == 2 && o / 0x10_0000 % 4 == 0 && o / 0x10 % 16 == 9 ==> ((o >> 20)
            & 0xFF) & 0xFB == 0x10 && ((o >> 20) & 0xFF) & 0xF8 != 8 && ((o >> 20) & 0xFF) & 0xFC
            != 0 && (o >> 4) & 0xF == 9 && (o >> 20) & 0xFF != 0x12,
        // Halfword transfer.
        o / 0x200_0000 % 8 == 0 && o / 0x80 % 2 == 1 && o / 0x10 % 2 == 1 && o / 0x20 % 4 != 0
            ==> ((o >> 4) & 0xF) & 9 == 9 && (o >> 4) & 0xF != 9 && (o >> 4) & 0xF != 1,
        // Branch and exchange.
        o / 0x10 % 0x100_0000 == 0x12_FFF1 ==> (o >> 20) & 0xFF == 0x12 && (o >> 4) & 0xF == 1,
        // Status registers.
        o / 0x80_0000 % 32 == 2 && o / 0x10_0000 % 4 == 0 && o / 0x10 % 16 == 0 ==> ((o >> 20)
            & 0xFF) & 0xFB == 0x10 && (o >> 4) & 0xF == 0 && (o >> 20) & 0xFF != 0x12,
        o / 0x80_0000 % 32 == 2 && o / 0x10_0000 % 4 == 2 && o / 0x10 % 16 == 0 ==> ((o >> 20)
            & 0xFF) & 0xFB == 0x12 && (o >> 4) & 0xF == 0,
        o / 0x80_0000 % 32 == 6 && o / 0x10_0000 % 4 == 2 ==> ((o >> 20) & 0xFF) & 0xFB == 0x32,
        // Software interrupt.
        (o >> 24) & 0xF == o / 0x100_0000 % 16,
        (o >> 16) & 0xFF == o / 0x1_0000 % 256,
        ((o >> 4) & 0xF) & 9 == 9 <==> o / 0x80 % 2 == 1 && o / 0x10 % 2 == 1,
{
}

/// Whether an opcode is one of the sixteen data-processing operations: class 0,
/// no multiplication or halfword transfer, and no status register access.
pub open spec fn is_data_processing(o: u32) -> bool {
    &&& o / 0x400_0000 % 4 == 0
    &&& o / 0x200_0000 % 2 == 1 || !(o / 0x10 % 2 == 1 && o / 0x80 % 2 == 1)
    &&& o / 0x10_0000 % 2 == 1 || !(8 <= o / 0x20_0000 % 16 <= 11)
}

pub(crate) proof fn complement(x: u32, y: u32)
    ensures
        !x == 0xFFFF_FFFF - x,
        (x as i32) == signed(x),
        ((!x) as i32) == -1 - signed(x),
        (x >> 31 != 0) == (x >= 0x8000_0000),
        x & !1u32 == x - x % 2,
        x & !3u32 == x - x % 4,
{
    assert(!x == 0xFFFF_FFFF - x && (x < 0x8000_0000 ==> (x as i32) == x && ((!x) as i32) == -1
        - x) && (x >= 0x8000_0000 ==> (x as i32) == x - 0x1_0000_0000 && ((!x) as i32)
        == 0xFFFF_FFFF - x) && ((x >> 31 != 0) == (x >= 0x8000_0000)) && x & !1u32 == x - x % 2 && x
        & !3u32 == x - x % 4) by (bit_vector);
}

/// The sixteen data-processing operations. With `x` the register that bits 16
/// to 19 name and `y` the second operand, the number computed is the bitwise
/// AND, the exclusive OR, the difference `x - y`, the difference `y - x`, the
/// sum, the sum with the carry, the two differences less one plus the carry,
/// the OR, `y`, `x` without the bits of `y`, or the complement of `y`, modulo
/// 2^32. It goes to the register that bits 12 to 15 name; the four tests only
/// set flags. With bit 20 set N and Z describe the number. C is the carry out
/// of a sum, the absence of a borrow in a difference, else the shifter's carry;
/// V is whether the signed result leaves the word. Nothing else changes.
#[verifier::rlimit(50)]
pub proof fn data_processing_results(c: Cpu, b: BusState, o: u32)
    requires
        is_data_processing(o),
        o / 0x1000 % 16 != 15,
    ensures
        ({
            let out = c.arm_executed(b, o);
            let after = out.0;
            let op = o / 0x20_0000 % 16;
            let rd = (o / 0x1000 % 16) as int;
            let x = c.regs[(o / 0x1_0000 % 16) as int];
            let y = c.operand2(o).0;
            let borrow = if c.cpsr.c() {
                0int
            } else {
                1
            };
            let word: u32 = if op == 0 || op == 8 {
                x & y
            } else if op == 1 || op == 9 {
                x ^ y
            } else if op == 12 {
                x | y
            } else if op == 13 {
                y
            } else if op == 14 {
                x & !y
            } else {
                !y
            };
            let exact: int = if op == 2 || op == 10 {
                x - y
            } else if op == 3 {
                y - x
            } else if op == 4 || op == 11 {
                x + y
            } else if op == 5 {
                x + y + 1 - borrow
            } else if op == 6 {
                x - y - borrow
            } else {
                y - x - borrow
            };
            let sx = signed(x);
            let sy = signed(y);
            let sums = op == 4 || op == 5 || op == 11;
            let differences = op == 2 || op == 3 || op == 6 || op == 7 || op == 10;
            let value: int = if sums || differences {
                exact % 0x1_0000_0000
            } else {
                word as int
            };
            &&& out.1 == b
            &&& out.2 == 1
            &&& after.regs[rd] == (if 8 <= op <= 11 {
                c.regs[rd] as int
            } else {
                value
            })
            &&& forall|i: int| 0 <= i < 16 && i != rd ==> #[trigger] after.regs[i] == c.regs[i]
            &&& o / 0x10_0000 % 2 == 0 ==> after.cpsr == c.cpsr
            &&& o / 0x10_0000 % 2 == 1 ==> {
                &&& after.cpsr.n() == (value >= 0x8000_0000)
                &&& after.cpsr.z() == (value == 0)
                &&& after.cpsr.c() == (if sums {
                    exact > 0xFFFF_FFFF
                } else if differences {
                    exact >= 0
                } else {
                    c.operand2(o).1
                })
                &&& after.cpsr.v() == (if op == 2 || op == 10 {
                    leaves_word(sx - sy)
                } else if op == 3 {
                    leaves_word(sy - sx)
                } else if op == 4 || op == 11 {
                    leaves_word(sx + sy)
                } else if op == 5 {
                    leaves_word(sx + sy + 1 - borrow)
                } else if op == 6 {
                    leaves_word(sx - sy - borrow)
                } else if op == 7 {
                    leaves_word(sy - sx - borrow)
                } else {
                    c.cpsr.v()
                })
                &&& after.cpsr.irq_disabled() == c.cpsr.irq_disabled()
                &&& after.cpsr.fiq_disabled() == c.cpsr.fiq_disabled()
                &&& after.cpsr.thumb() == c.cpsr.thumb()
                &&& after.cpsr.mode() == c.cpsr.mode()
            }
            &&& after.banked == c.banked
            &&& after.pipeline_flushed == c.pipeline_flushed
        }),
{
    opcode_fields(o);
    let x = c.regs[(o / 0x1_0000 % 16) as int];
    let second = c.operand2(o);
    let n = ((o >> 21) & 0xF) as u8;
    let r = arm::alu_outcome(alu::alu_op(n), x, second.0, second.1, c.cpsr.c(), c.cpsr.v());
    let y = second.0;
    outcome_by_number(n, x, y, second.1, c.cpsr.c(), c.cpsr.v());
    difference_in_numbers(x, y, c.cpsr.c());
    difference_in_numbers(y, x, c.cpsr.c());
    difference_in_numbers(x, y, true);
    difference_in_numbers(y, x, true);
    sum_in_numbers(x, y, c.cpsr.c());
    sum_in_numbers(x, y, false);
    data_processing_places(c, b, o);
    flags_are_set(c.cpsr, r);
    complement(r.0, 0);
}

/// Where a data-processing operation puts what it computes.
proof fn data_processing_places(c: Cpu, b: BusState, o: u32)
    requires
        is_data_processing(o),
        o / 0x1000 % 16 != 15,
    ensures
        ({
            let op = alu::alu_op(((o >> 21) & 0xF) as u8);
            let rd = (o / 0x1000 % 16) as int;
            let r = arm::alu_outcome(
                op,
                c.regs[(o / 0x1_0000 % 16) as int],
                c.operand2(o).0,
                c.operand2(o).1,
                c.cpsr.c(),
                c.cpsr.v(),
            );
            let q = c.cpsr.with_nz(r.0).with_bit(29, r.1);
            let out = c.arm_executed(b, o);
            &&& out.1 == b
            &&& out.2 == 1
            &&& out.0.cpsr == (if o / 0x10_0000 % 2 == 0 {
                c.cpsr
            } else if op.is_logical() {
                q
            } else {
                q.with_bit(28, r.2)
            })
            &&& out.0.regs[rd] == (if op.is_test() {
                c.regs[rd]
            } else {
                r.0
            })
            &&& forall|i: int| 0 <= i < 16 && i != rd ==> #[trigger] out.0.regs[i] == c.regs[i]
            &&& out.0.banked == c.banked
            &&& out.0.pipeline_flushed == c.pipeline_flushed
        }),
{
    opcode_fields(o);
    opcode_classes(o);
    reveal(Cpu::data_processed);
    assert(ArmInstruction::decode(o) is DataProcessing);
    assert(c.reg(arm::field(o, 16)) == c.regs[(o / 0x1_0000 % 16) as int]);
}

/// The adder on a complement subtracts, with the missing carry as a borrow.
pub(crate) proof fn difference_in_numbers(x: u32, y: u32, carry: bool)
    ensures
        ({
            let borrow = if carry {
                0int
            } else {
                1
            };
            let r = alu::adder(x, !y, carry);
            &&& r.0 == (x - y - borrow) % 0x1_0000_0000
            &&& r.1 == (x - y - borrow >= 0)
            &&& r.2 == leaves_word(signed(x) - signed(y) - borrow)
        }),
{
    complement(x, y);
    complement(y, x);
}

proof fn sum_in_numbers(x: u32, y: u32, carry: bool)
    ensures
        ({
            let c = if carry {
                1int
            } else {
                0
            };
            let r = alu::adder(x, y, carry);
            &&& r.0 == (x + y + c) % 0x1_0000_0000
            &&& r.1 == (x + y + c > 0xFFFF_FFFF)
            &&& r.2 == leaves_word(signed(x) + signed(y) + c)
        }),
{
    complement(x, y);
    complement(y, x);
}

/// Which outcome operation number `n` has.
proof fn outcome_by_number(n: u8, x: u32, y: u32, shifter: bool, carry: bool, v: bool)
    requires
        n < 16,
        n & 0xF == n,
    ensures
        ({
            let op = alu::alu_op(n);
            let r = arm::alu_outcome(op, x, y, shifter, carry, v);
            &&& op.is_test() == (8 <= n <= 11)
            &&& op.is_logical() == (n <= 1 || n == 8 || n == 9 || n >= 12)
            &&& n == 2 || n == 10 ==> r == alu::adder(x, !y, true)
            &&& n == 3 ==> r == alu::adder(y, !x, true)
            &&& n == 4 || n == 11 ==> r == alu::adder(x, y, false)
            &&& n == 5 ==> r == alu::adder(x, y, carry)
            &&& n == 6 ==> r == alu::adder(x, !y, carry)
            &&& n == 7 ==> r == alu::adder(y, !x, carry)
            &&& op.is_logical() ==> r.1 == shifter && r.2 == v
            &&& n == 0 || n == 8 ==> r.0 == x & y
            &&& n == 1 || n == 9 ==> r.0 == x ^ y
            &&& n == 12 ==> r.0 == x | y
            &&& n == 13 ==> r.0 == y
            &&& n == 14 ==> r.0 == x & !y
            &&& n == 15 ==> r.0 == !y
        }),
{
}

/// Setting the flags one by one leaves all four as given and nothing else
/// changed.
pub(crate) proof fn flags_are_set(p: psr::Psr, r: (u32, bool, bool))
    ensures
        ({
            let q = p.with_nz(r.0).with_bit(29, r.1);
            let s = q.with_bit(28, r.2);
            let t = p.with_nz(r.0);
            &&& t.n() == (r.0 >> 31 != 0) && t.z() == (r.0 == 0) && t.c() == p.c() && t.v() == p.v()
            &&& q.n() == (r.0 >> 31 != 0) && q.z() == (r.0 == 0) && q.c() == r.1 && q.v() == p.v()
            &&& s.n() == (r.0 >> 31 != 0) && s.z() == (r.0 == 0) && s.c() == r.1 && s.v() == r.2
            &&& t.irq_disabled() == p.irq_disabled() && t.fiq_disabled() == p.fiq_disabled()
                && t.thumb() == p.thumb() && t.mode() == p.mode()
            &&& q.irq_disabled() == p.irq_disabled() && q.fiq_disabled() == p.fiq_disabled()
                && q.thumb() == p.thumb() && q.mode() == p.mode()
            &&& s.irq_disabled() == p.irq_disabled() && s.fiq_disabled() == p.fiq_disabled()
                && s.thumb() == p.thumb() && s.mode() == p.mode()
        }),
{
    let a = p.with_bit(31, r.0 >> 31 != 0);
    let t = a.with_bit(30, r.0 == 0);
    let q = t.with_bit(29, r.1);
    psr::psr_set_then_get(p, 31, r.0 >> 31 != 0);
    psr::psr_set_then_get(a, 30, r.0 == 0);
    psr::psr_set_then_get(t, 29, r.1);
    psr::psr_set_then_get(q, 28, r.2);
}

proof fn shifted_bits(v: u32, n: u8, m: u32, k: u32, c: u32)
    by (bit_vector)
    requires
        k < 32,
        c <= 1,
        m == n as u32,
    ensures
        1 <= m && m < 32 ==> ((v << n) >> k) & 1 == (if k >= m {
            (v >> ((k - m) as u32)) & 1
        } else {
            0u32
        }),
        1 <= m && m < 32 ==> ((v >> n) >> k) & 1 == (if k + m < 32 {
            (v >> ((k + m) as u32)) & 1
        } else {
            0u32
        }),
        1 <= m && m < 32 ==> ((((v as i32) >> n) as u32) >> k) & 1 == (if k + m < 32 {
            (v >> ((k + m) as u32)) & 1
        } else {
            (v >> 31) & 1
        }),
        1 <= m && m < 32 ==> ((((v as i32) >> ((n - 1) as u8)) & 1i32 != 0i32) == ((v >> ((m
            - 1) as u32)) & 1 == 1)),
        1 <= m && m < 32 ==> (((v >> ((32 - n) as u8)) & 1 != 0) == ((v >> ((32 - m) as u32)) & 1
            == 1)),
        1 <= m && m < 32 ==> (((v >> ((n - 1) as u8)) & 1 != 0) == ((v >> ((m - 1) as u32)) & 1
            == 1)),
        1 <= m && m < 32 ==> (((v >> m) | (v << ((32 - m) as u32))) >> k) & 1 == (v >> (((k + m)
            as u32) % 32)) & 1,
{
}

proof fn rotated_bits(v: u32, n: u8, m: u32, k: u32, c: u32)
    by (bit_vector)
    requires
        k < 32,
        c <= 1,
        m == n as u32,
    ensures
        1 <= m && m < 32 ==> ((v >> m) | (v << ((32 - m) as u32))) >> 31 == (v >> ((m - 1) as u32))
            & 1,
        (((c << 31) | (v >> 1)) >> k) & 1 == (if k == 31 {
            c
        } else {
            (v >> ((k + 1) as u32)) & 1
        }),
        n & 31 == n % 32,
        (v as i32) < 0i32 <==> (v >> 31) & 1 == 1,
        v >> 31 == (v >> 31) & 1,
        (0u32 >> k) & 1 == 0,
        (0xFFFF_FFFFu32 >> k) & 1 == 1,
        v & 1 == (v >> 0) & 1,
{
}

/// Where the barrel shifter puts the bits of a word, and which bit is the carry
/// out. A left shift moves every bit up and fills with zeros. A right shift
/// moves them down and fills with zeros or, if it is arithmetic, with the sign.
/// A rotation brings what leaves at the bottom in at the top. The carry is the
/// last bit that left. A shift by a register that holds zero changes nothing;
/// an immediate zero stands for 32 places, and for a rotation by one place
/// through the carry.
#[verifier::rlimit(50)]
pub proof fn shifts_move_bits(v: u32, n: u8, carry: bool, immediate: bool, k: int)
    requires
        0 <= k < 32,
    ensures
        ({
            let lsl = barrel_shift(v, ShiftType::Lsl, n, carry, immediate);
            let lsr = barrel_shift(v, ShiftType::Lsr, n, carry, immediate);
            let asr = barrel_shift(v, ShiftType::Asr, n, carry, immediate);
            let ror = barrel_shift(v, ShiftType::Ror, n, carry, immediate);
            &&& n == 0 ==> lsl == (v, carry)
            &&& n == 0 && !immediate ==> lsr == (v, carry) && asr == (v, carry) && ror == (v, carry)
            &&& n > 0 ==> has_bit(lsl.0, k) == (k >= n && has_bit(v, k - n))
            &&& n > 0 ==> lsl.1 == (n <= 32 && has_bit(v, 32 - n))
            &&& n > 0 ==> has_bit(lsr.0, k) == (k + n < 32 && has_bit(v, k + n))
            &&& n > 0 ==> lsr.1 == (n <= 32 && has_bit(v, n - 1))
            &&& n > 0 ==> has_bit(asr.0, k) == has_bit(
                v,
                if k + n < 32 {
                    k + n
                } else {
                    31
                },
            )
            &&& n > 0 ==> asr.1 == has_bit(
                v,
                if n <= 32 {
                    n - 1
                } else {
                    31
                },
            )
            &&& n > 0 ==> has_bit(ror.0, k) == has_bit(v, (k + n) % 32)
            &&& n > 0 ==> ror.1 == has_bit(v, (n + 31) % 32)
            &&& n == 0 && immediate ==> {
                &&& lsr == barrel_shift(v, ShiftType::Lsr, 32, carry, true)
                &&& asr == barrel_shift(v, ShiftType::Asr, 32, carry, true)
                &&& has_bit(ror.0, k) == (if k == 31 {
                    carry
                } else {
                    has_bit(v, k + 1)
                })
                &&& ror.1 == has_bit(v, 0)
            }
        }),
{
    shifted_bits(v, n, n as u32, k as u32, bits::bit(carry));
    rotated_bits(v, n, n as u32, k as u32, bits::bit(carry));
    shifted_bits(v, (n % 32) as u8, (n % 32) as u32, k as u32, bits::bit(carry));
    rotated_bits(v, (n % 32) as u8, (n % 32) as u32, k as u32, bits::bit(carry));
    if n >= 32 {
        assert(k + n >= 32);
        assert((k + n) % 32 == (k + n % 32) % 32);
        assert((n + 31) % 32 == (n % 32 + 31) % 32);
    }
}

/// The second operand of a data-processing operation. As an immediate it is
/// the low byte of the opcode, rotated right by twice the field above it; the
/// carry is then the top bit, if it was rotated at all. As a register it is
/// shifted as bits 5 and 6 say, by the five bits above them or by the low byte
/// of a register, in which case R15 reads one instruction further on.
#[verifier::rlimit(50)]
pub proof fn second_operands(c: Cpu, o: u32, k: int)
    requires
        0 <= k < 32,
    ensures
        ({
            let r = c.operand2(o);
            let rot = 2 * (o / 0x100 % 16);
            let rm = (o % 16) as int;
            let kind = if o / 0x20 % 4 == 0 {
                ShiftType::Lsl
            } else if o / 0x20 % 4 == 1 {
                ShiftType::Lsr
            } else if o / 0x20 % 4 == 2 {
                ShiftType::Asr
            } else {
                ShiftType::Ror
            };
            let immediate = o / 0x200_0000 % 2 == 1;
            let by_register = o / 0x10 % 2 == 1;
            &&& immediate ==> has_bit(r.0, k) == ((k + rot) % 32 < 8 && has_bit(o, (k + rot) % 32))
            &&& immediate ==> r.1 == (if rot == 0 {
                c.cpsr.c()
            } else {
                r.0 >= 0x8000_0000
            })
            &&& !immediate && !by_register ==> r == barrel_shift(
                c.regs[rm],
                kind,
                (o / 0x80 % 32) as u8,
                c.cpsr.c(),
                true,
            )
            &&& !immediate && by_register ==> r == barrel_shift(
                if rm == 15 {
                    ((c.regs[15] + 4) % 0x1_0000_0000) as u32
                } else {
                    c.regs[rm]
                },
                kind,
                (c.regs[(o / 0x100 % 16) as int] % 256) as u8,
                c.cpsr.c(),
                false,
            )
        }),
{
    opcode_fields(o);
    let imm = o & 0xFF;
    let rot = ((o >> 8) & 0xF) * 2;
    shifted_bits(imm, rot as u8, rot as u32, k as u32, 0);
    rotated_bits(imm, rot as u8, rot as u32, k as u32, 0);
    low_byte_bits(o, ((k + rot) % 32) as u32, c.regs[(o / 0x100 % 16) as int]);
    complement(c.operand2(o).0, 0);
}

pub(crate) proof fn low_byte_bits(o: u32, k: u32, x: u32)
    by (bit_vector)
    requires
        k < 32,
    ensures
        ((o & 0xFF) >> k) & 1 == (if k < 8 {
            (o >> k) & 1
        } else {
            0u32
        }),
        (x as u8) as u32 == x % 256,
        (x as u16) as u32 == x % 0x1_0000,
{
}

/// After a comparison of `x` with `y` the conditions say how they compare:
/// equal, unsigned order, signed order, and the sign of the difference.
#[verifier::rlimit(50)]
pub proof fn conditions_compare(c: Cpu, b: BusState, o: u32)
    requires
        o / 0x400_0000 % 4 == 0,
        o / 0x200_0000 % 2 == 1 || !(o / 0x10 % 2 == 1 && o / 0x80 % 2 == 1),
        o / 0x10_0000 % 32 == 21,
        o / 0x1000 % 16 != 15,
    ensures
        ({
            let after = c.arm_executed(b, o).0;
            let x = c.regs[(o / 0x1_0000 % 16) as int];
            let y = c.operand2(o).0;
            &&& after.regs == c.regs
            &&& after.check_condition(0) == (x == y)
            &&& after.check_condition(1) == (x != y)
            &&& after.check_condition(2) == (x >= y)
            &&& after.check_condition(3) == (x < y)
            &&& after.check_condition(4) == ((x - y) % 0x1_0000_0000 >= 0x8000_0000)
            &&& after.check_condition(5) == ((x - y) % 0x1_0000_0000 < 0x8000_0000)
            &&& after.check_condition(6) == leaves_word(signed(x) - signed(y))
            &&& after.check_condition(7) == !leaves_word(signed(x) - signed(y))
            &&& after.check_condition(8) == (x > y)
            &&& after.check_condition(9) == (x <= y)
            &&& after.check_condition(10) == (signed(x) >= signed(y))
            &&& after.check_condition(11) == (signed(x) < signed(y))
            &&& after.check_condition(12) == (signed(x) > signed(y))
            &&& after.check_condition(13) == (signed(x) <= signed(y))
            &&& after.check_condition(14)
            &&& after.check_condition(15)
        }),
{
    data_processing_results(c, b, o);
    condition_numbers();
    let after = c.arm_executed(b, o).0;
    assert(after.regs =~= c.regs);
}

proof fn condition_numbers()
    by (bit_vector)
    ensures
        0u32 & 0xF == 0,
        1u32 & 0xF == 1,
        2u32 & 0xF == 2,
        3u32 & 0xF == 3,
        4u32 & 0xF == 4,
        5u32 & 0xF == 5,
        6u32 & 0xF == 6,
        7u32 & 0xF == 7,
        8u32 & 0xF == 8,
        9u32 & 0xF == 9,
        10u32 & 0xF == 10,
        11u32 & 0xF == 11,
        12u32 & 0xF == 12,
        13u32 & 0xF == 13,
        14u32 & 0xF == 14,
        15u32 & 0xF == 15,
{
}

/// Where the flags stand in a status register.
#[verifier::rlimit(50)]
pub proof fn flag_positions(p: psr::Psr)
    ensures
        p.n() == (p.bits >= 0x8000_0000),
        p.z() == (p.bits / 0x4000_0000 % 2 == 1),
        p.c() == (p.bits / 0x2000_0000 % 2 == 1),
        p.v() == (p.bits / 0x1000_0000 % 2 == 1),
        p.irq_disabled() == (p.bits / 0x80 % 2 == 1),
        p.fiq_disabled() == (p.bits / 0x40 % 2 == 1),
        p.thumb() == (p.bits / 0x20 % 2 == 1),
{
    let x = p.bits;
    assert((x >> 31 != 0) == (x >= 0x8000_0000) && (x >> 30) & 1 == x / 0x4000_0000 % 2 && (x >> 29)
        & 1 == x / 0x2000_0000 % 2 && (x >> 28) & 1 == x / 0x1000_0000 % 2 && (x >> 7) & 1 == x
        / 0x80 % 2 && (x >> 6) & 1 == x / 0x40 % 2 && (x >> 5) & 1 == x / 0x20 % 2)
        by (bit_vector);
}

proof fn without_destination(o: u32, p: u32)
    by (bit_vector)
    requires
        (o >> 12) & 0xF == 15,
        p == o & !0xF000u32,
    ensures
        p == o - 0xF000,
        (p >> 12) & 0xF == 0,
        (p >> 20) & 0xFF == (o >> 20) & 0xFF,
        (p >> 4) & 0xF == (o >> 4) & 0xF,
        (p >> 21) & 0xF == (o >> 21) & 0xF,
        (p >> 16) & 0xF == (o >> 16) & 0xF,
        (p >> 8) & 0xF == (o >> 8) & 0xF,
        (p >> 7) & 0x1F == (o >> 7) & 0x1F,
        (p >> 5) & 3 == (o >> 5) & 3,
        (p >> 0) & 0xF == (o >> 0) & 0xF,
        p & 0xFF == o & 0xFF,
        p & (1u32 << 4) == o & (1u32 << 4),
        p & (1u32 << 20) == o & (1u32 << 20),
        p & (1u32 << 25) == o & (1u32 << 25),
        p / 0x400_0000 == o / 0x400_0000,
        p / 0x200_0000 == o / 0x200_0000,
        p / 0x10_0000 == o / 0x10_0000,
        p / 0x20_0000 == o / 0x20_0000,
        p / 0x10 % 2 == o / 0x10 % 2,
        p / 0x80 % 2 == o / 0x80 % 2,
{
}

/// A data-processing operation to R15 that leaves the flags jumps to the even
/// address below what it would leave in any other register, and changes nothing
/// else.
#[verifier::rlimit(50)]
pub proof fn results_jump(c: Cpu, b: BusState, o: u32)
    requires
        is_data_processing(o),
        o / 0x1000 % 16 == 15,
        o / 0x10_0000 % 2 == 0,
    ensures
        ({
            let other = (o - 0xF000) as u32;
            let v = c.arm_executed(b, other).0.regs[0];
            c.arm_executed(b, o).0 == c.with_pc((v - v % 2) as u32)
        }),
{
    opcode_fields(o);
    let p = o & !0xF000u32;
    without_destination(o, p);
    jump_places(c, b, o);
    opcode_fields(p);
    data_processing_places(c, b, p);
    assert(c.operand2(o) == c.operand2(p));
    complement(c.arm_executed(b, p).0.regs[0], 0);
}

proof fn jump_places(c: Cpu, b: BusState, o: u32)
    requires
        is_data_processing(o),
        o / 0x1000 % 16 == 15,
        o / 0x10_0000 % 2 == 0,
    ensures
        !alu::alu_op(((o >> 21) & 0xF) as u8).is_test(),
        ({
            let r = arm::alu_outcome(
                alu::alu_op(((o >> 21) & 0xF) as u8),
                c.regs[(o / 0x1_0000 % 16) as int],
                c.operand2(o).0,
                c.operand2(o).1,
                c.cpsr.c(),
                c.cpsr.v(),
            );
            c.arm_executed(b, o).0 == c.with_pc(r.0 & !1u32)
        }),
{
    opcode_fields(o);
    opcode_classes(o);
    reveal(Cpu::data_processed);
    assert(ArmInstruction::decode(o) is DataProcessing);
    assert(c.reg(arm::field(o, 16)) == c.regs[(o / 0x1_0000 % 16) as int]);
}

} // verus!

//! The 16-bit instructions, by the 32-bit instruction that each stands for.

use vstd::prelude::*;

use crate::bits;
use crate::bus::BusState;

use super::alu;
use super::arm::{self, ArmInstruction};
use super::psr;
use super::results;
use super::Cpu;

verus! {

broadcast use bits::group_and_bounds;

/// The fields of a 16-bit opcode, by division.
proof fn short_fields(t: u16)
    by (bit_vector)
    ensures
        t >> 8 == t / 0x100,
        (t >> 0) & 7 == t % 8,
        (t >> 3) & 7 == t / 8 % 8,
        (t >> 6) & 7 == t / 64 % 8,
        (t >> 8) & 7 == t / 256 % 8,
        (t >> 6) & 0xF == t / 64 % 16,
        (t >> 6) & 0x1F == t / 64 % 32,
        (t >> 8) & 3 == t / 256 % 4,
        (t >> 9) & 7 == t / 512 % 8,
        (t >> 11) & 3 == t / 2048 % 4,
        t & 0xFF == t % 256,
        t & 0x7F == t % 128,
        t & 0x7FF == t % 2048,
        t & 0x80 != 0 <==> t / 128 % 2 == 1,
        t & 0x400 != 0 <==> t / 1024 % 2 == 1,
        (t >> 8) & 0xF == t / 256 % 16,
        t & (1u16 << 7) != 0 <==> t / 128 % 2 == 1,
        t & (1u16 << 9) != 0 <==> t / 512 % 2 == 1,
        t & (1u16 << 11) != 0 <==> t / 2048 % 2 == 1,
        t & (1u16 << 12) != 0 <==> t / 4096 % 2 == 1,
        ((((t >> 6) & 1) << 3) | ((t >> 3) & 7)) as u8 & 0xF == t / 8 % 16,
        ((((t >> 7) & 1) << 3) | ((t >> 0) & 7)) as u8 & 0xF == t / 128 % 2 * 8 + t % 8,
        ((t >> 0) & 7) as u8 & 0xF == ((t >> 0) & 7) as u8,
        ((t >> 3) & 7) as u8 & 0xF == ((t >> 3) & 7) as u8,
        ((t >> 6) & 7) as u8 & 0xF == ((t >> 6) & 7) as u8,
        ((t >> 8) & 7) as u8 & 0xF == ((t >> 8) & 7) as u8,
{
}

/// What a data-processing instruction that sets the flags does, by the fields
/// of its opcode.
proof fn flagged_operation(c: Cpu, b: BusState, o: u32)
    requires
        results::is_data_processing(o),
        o / 0x10_0000 % 2 == 1,
        o / 0x1000 % 16 != 15,
    ensures
        (o / 0x20_0000 % 16) as u8 & 0xF == o / 0x20_0000 % 16,
        ({
            let n = (o / 0x20_0000 % 16) as u8;
            let r = arm::alu_outcome(
                alu::alu_op(n),
                c.regs[(o / 0x1_0000 % 16) as int],
                c.operand2(o).0,
                c.operand2(o).1,
                c.cpsr.c(),
                c.cpsr.v(),
            );
            let flags = c.cpsr.with_nz(r.0).with_bit(29, r.1);
            let f = Cpu {
                cpsr: if alu::alu_op(n).is_logical() {
                    flags
                } else {
                    flags.with_bit(28, r.2)
                },
                ..c
            };
            c.arm_executed(b, o).0 == (if alu::alu_op(n).is_test() {
                f
            } else {
                f.with_reg((o / 0x1000 % 16) as int, r.0)
            })
        }),
{
    results::opcode_fields(o);
    results::opcode_classes(o);
    reveal(Cpu::data_processed);
    assert(ArmInstruction::decode(o) is DataProcessing);
}

/// The second operand of an instruction that shifts a register.
proof fn register_operand(c: Cpu, o: u32)
    requires
        o / 0x200_0000 % 2 == 0,
    ensures
        o / 0x10 % 2 == 0 && o / 0x80 % 32 == 0 && o / 0x20 % 4 == 0 ==> c.operand2(o) == (
            c.regs[(o % 16) as int],
            c.cpsr.c(),
        ),
        o / 0x10 % 2 == 0 ==> c.operand2(o) == alu::barrel_shift(
            c.regs[(o % 16) as int],
            alu::ShiftType::from_u8((o / 0x20 % 4) as u8),
            (o / 0x80 % 32) as u8,
            c.cpsr.c(),
            true,
        ),
        o / 0x10 % 2 == 1 && o % 16 != 15 ==> c.operand2(o) == alu::barrel_shift(
            c.regs[(o % 16) as int],
            alu::ShiftType::from_u8((o / 0x20 % 4) as u8),
            c.regs[(o / 0x100 % 16) as int] as u8,
            c.cpsr.c(),
            false,
        ),
{
    results::opcode_fields(o);
}

/// The data-processing number of the instruction for a two-register operation.
pub open spec fn operation_number(op: int) -> int {
    if op == 0x0 {
        0
    } else if op == 0x1 {
        1
    } else if op == 0x2 || op == 0x3 || op == 0x4 || op == 0x7 {
        13
    } else if op == 0x5 {
        5
    } else if op == 0x6 {
        6
    } else if op == 0x8 {
        8
    } else if op == 0x9 {
        3
    } else if op == 0xA {
        10
    } else if op == 0xB {
        11
    } else if op == 0xC {
        12
    } else if op == 0xE {
        14
    } else {
        15
    }
}

/// Whether a two-register operation is a shift.
pub open spec fn shifts(op: int) -> bool {
    op == 2 || op == 3 || op == 4 || op == 7
}

/// Whether a 32-bit opcode is the instruction that the two-register operation
/// `op` on `rd` and `rs` stands for: ANDS, EORS, MOVS with a shift by a
/// register, ADCS, SBCS, TST, RSBS from zero, CMP, CMN, ORRS, MULS, BICS or
/// MVNS.
pub open spec fn stands_for_two_registers(o: u32, op: int, rs: int, rd: int) -> bool {
    if op == 0xD {
        &&& o / 0x20_0000 % 2 == 0
        &&& o / 0x40_0000 % 64 == 0
        &&& o / 0x10 % 16 == 9
        &&& o / 0x10_0000 % 2 == 1
        &&& o / 0x1_0000 % 16 == rd
        &&& o / 0x100 % 16 == rs
        &&& o % 16 == rd
    } else {
        &&& results::is_data_processing(o)
        &&& o / 0x10_0000 % 2 == 1
        &&& o / 0x20_0000 % 16 == operation_number(op)
        &&& o / 0x1000 % 16 == (if op == 8 || op == 10 || op == 11 {
            0
        } else {
            rd
        })
        &&& op == 9 ==> o / 0x1_0000 % 16 == rs && o / 0x200_0000 % 2 == 1 && o % 256 == 0 && o
            / 0x100 % 16 == 0
        &&& op != 9 ==> o / 0x200_0000 % 2 == 0
        &&& op != 9 && !shifts(op) ==> o % 16 == rs && o / 0x10 % 2 == 0 && o / 0x20 % 4 == 0 && o
            / 0x80 % 32 == 0
        &&& op != 9 && op != 15 && !shifts(op) ==> o / 0x1_0000 % 16 == rd
        &&& shifts(op) ==> o % 16 == rd && o / 0x10 % 2 == 1 && o / 0x100 % 16 == rs
        &&& op == 2 ==> o / 0x20 % 4 == 0
        &&& op == 3 ==> o / 0x20 % 4 == 1
        &&& op == 4 ==> o / 0x20 % 4 == 2
        &&& op == 7 ==> o / 0x20 % 4 == 3
    }
}

/// The second operand of the instruction for a two-register operation.
proof fn second_register(c: Cpu, op: int, rs: int, rd: int, o: u32)
    requires
        0 <= op < 16,
        op != 13,
        0 <= rs < 8,
        0 <= rd < 8,
        stands_for_two_registers(o, op, rs, rd),
    ensures
        op == 9 ==> c.operand2(o) == (0u32, c.cpsr.c()),
        op != 9 && !shifts(op) ==> c.operand2(o) == (c.regs[rs], c.cpsr.c()),
        op == 2 ==> c.operand2(o) == alu::barrel_shift(
            c.regs[rd],
            alu::ShiftType::Lsl,
            c.regs[rs] as u8,
            c.cpsr.c(),
            false,
        ),
        op == 3 ==> c.operand2(o) == alu::barrel_shift(
            c.regs[rd],
            alu::ShiftType::Lsr,
            c.regs[rs] as u8,
            c.cpsr.c(),
            false,
        ),
        op == 4 ==> c.operand2(o) == alu::barrel_shift(
            c.regs[rd],
            alu::ShiftType::Asr,
            c.regs[rs] as u8,
            c.cpsr.c(),
            false,
        ),
        op == 7 ==> c.operand2(o) == alu::barrel_shift(
            c.regs[rd],
            alu::ShiftType::Ror,
            c.regs[rs] as u8,
            c.cpsr.c(),
            false,
        ),
{
    results::opcode_fields(o);
    if op != 9 {
        register_operand(c, o);
    }
}

#[verifier::rlimit(50)]
proof fn same_operation(c: Cpu, t: u16, op: int, rs: int, rd: int, b: BusState, o: u32)
    requires
        (t >> 6) & 0xF == op,
        (t >> 0) & 7 == rd,
        (t >> 3) & 7 == rs,
        ((t >> 0) & 7) as u8 & 0xF == ((t >> 0) & 7) as u8,
        ((t >> 3) & 7) as u8 & 0xF == ((t >> 3) & 7) as u8,
        0 <= op < 16,
        op != 13,
        0 <= rs < 8,
        0 <= rd < 8,
        stands_for_two_registers(o, op, rs, rd),
    ensures
        c.thumb_alu_done(t) == c.arm_executed(b, o).0,
{
    reveal(Cpu::thumb_alu_done);
    let x = c.regs[rd];
    let y = c.regs[rs];
    flagged_operation(c, b, o);
    second_register(c, op, rs, rd, o);
    if op == 0 {
        carry_after_result(c.cpsr, x & y);
        assert(c.thumb_alu_done(t) == c.arm_executed(b, o).0);
    } else if op == 1 {
        carry_after_result(c.cpsr, x ^ y);
        assert(c.thumb_alu_done(t) == c.arm_executed(b, o).0);
    } else if op == 2 {
        assert(c.thumb_alu_done(t) == c.arm_executed(b, o).0);
    } else if op == 3 {
        assert(c.thumb_alu_done(t) == c.arm_executed(b, o).0);
    } else if op == 4 {
        assert(c.thumb_alu_done(t) == c.arm_executed(b, o).0);
    } else if op == 5 {
        assert(c.thumb_alu_done(t) == c.arm_executed(b, o).0);
    } else if op == 6 {
        assert(c.thumb_alu_done(t) == c.arm_executed(b, o).0);
    } else if op == 7 {
        assert(c.thumb_alu_done(t) == c.arm_executed(b, o).0);
    } else if op == 8 {
        carry_after_result(c.cpsr, x & y);
        assert(c.thumb_alu_done(t) == c.arm_executed(b, o).0);
    } else if op == 9 {
        assert(c.thumb_alu_done(t) == c.arm_executed(b, o).0);
    } else if op == 10 {
        assert(c.thumb_alu_done(t) == c.arm_executed(b, o).0);
    } else if op == 11 {
        assert(c.thumb_alu_done(t) == c.arm_executed(b, o).0);
    } else if op == 12 {
        carry_after_result(c.cpsr, x | y);
        assert(c.thumb_alu_done(t) == c.arm_executed(b, o).0);
    } else if op == 14 {
        carry_after_result(c.cpsr, x & !y);
        assert(c.thumb_alu_done(t) == c.arm_executed(b, o).0);
    } else if op == 15 {
        carry_after_result(c.cpsr, !y);
        assert(c.thumb_alu_done(t) == c.arm_executed(b, o).0);
    }
}

proof fn same_product(c: Cpu, t: u16, rs: int, rd: int, b: BusState, o: u32)
    requires
        (t >> 6) & 0xF == 13,
        (t >> 0) & 7 == rd,
        (t >> 3) & 7 == rs,
        ((t >> 0) & 7) as u8 & 0xF == ((t >> 0) & 7) as u8,
        ((t >> 3) & 7) as u8 & 0xF == ((t >> 3) & 7) as u8,
        0 <= rs < 8,
        0 <= rd < 8,
        stands_for_two_registers(o, 13, rs, rd),
    ensures
        c.thumb_alu_done(t) == c.arm_executed(b, o).0,
{
    reveal(Cpu::thumb_alu_done);
    results::opcode_fields(o);
    results::opcode_classes(o);
    reveal(Cpu::multiplied);
    assert(ArmInstruction::decode(o) is Multiply);
}

/// A two-register operation leaves the registers and flags that the 32-bit
/// instruction it stands for leaves.
#[verifier::rlimit(50)]
pub proof fn two_register_operations(c: Cpu, b: BusState, t: u16, o: u32)
    requires
        0x4000 <= t < 0x4400,
        stands_for_two_registers(o, (t / 64 % 16) as int, (t / 8 % 8) as int, (t % 8) as int),
    ensures
        c.thumb_executed(b, t).0 == c.arm_executed(b, o).0,
        c.thumb_executed(b, t).1 == b,
{
    short_fields(t);
    let op = (t / 64 % 16) as int;
    let rs = (t / 8 % 8) as int;
    let rd = (t % 8) as int;
    assert(c.thumb_executed(b, t).0 == c.thumb_alu_done(t));
    if op == 0xD {
        same_product(c, t, rs, rd, b, o);
    } else {
        same_operation(c, t, op, rs, rd, b, o);
    }
}

/// N and Z of a result leave the carry alone, so that putting the old carry
/// back changes nothing.
proof fn carry_after_result(p: psr::Psr, r: u32)
    ensures
        p.with_nz(r).with_bit(29, p.c()) == p.with_nz(r),
{
    psr::psr_set_then_get(p, 31, r >> 31 != 0);
    psr::psr_set_then_get(p.with_bit(31, r >> 31 != 0), 30, r == 0);
    psr::carry_kept(p.with_nz(r));
}

/// Whether a 32-bit opcode is the instruction that an operation below 0x4000
/// stands for: MOVS with a shift by an immediate, ADDS or SUBS of a register or
/// of three bits, and MOVS, CMP, ADDS or SUBS with eight bits.
pub open spec fn stands_for_arithmetic(o: u32, t: u16) -> bool {
    &&& results::is_data_processing(o)
    &&& o / 0x10_0000 % 2 == 1
    &&& if t < 0x1800 {
        &&& o / 0x20_0000 % 16 == 13
        &&& o / 0x1000 % 16 == t % 8
        &&& o / 0x200_0000 % 2 == 0
        &&& o % 16 == t / 8 % 8
        &&& o / 0x10 % 2 == 0
        &&& o / 0x20 % 4 == t / 2048
        &&& o / 0x80 % 32 == t / 64 % 32
    } else if t < 0x2000 {
        &&& o / 0x20_0000 % 16 == (if t / 512 % 2 == 1 {
            2int
        } else {
            4int
        })
        &&& o / 0x1000 % 16 == t % 8
        &&& o / 0x1_0000 % 16 == t / 8 % 8
        &&& t < 0x1C00 ==> o / 0x200_0000 % 2 == 0 && o % 16 == t / 64 % 8 && o / 0x10 % 2 == 0 && o
            / 0x20 % 4 == 0 && o / 0x80 % 32 == 0
        &&& t >= 0x1C00 ==> o / 0x200_0000 % 2 == 1 && o % 256 == t / 64 % 8 && o / 0x100 % 16 == 0
    } else {
        &&& o / 0x20_0000 % 16 == (if t < 0x2800 {
            13int
        } else if t < 0x3000 {
            10
        } else if t < 0x3800 {
            4
        } else {
            2
        })
        &&& o / 0x1000 % 16 == (if 0x2800 <= t < 0x3000 {
            0int
        } else {
            (t / 256 % 8) as int
        })
        &&& t >= 0x2800 ==> o / 0x1_0000 % 16 == t / 256 % 8
        &&& o / 0x200_0000 % 2 == 1
        &&& o % 256 == t % 256
        &&& o / 0x100 % 16 == 0
    }
}

/// An operation below 0x4000 leaves the registers and flags that the 32-bit
/// instruction it stands for leaves.
#[verifier::rlimit(60)]
pub proof fn arithmetic_operations(c: Cpu, b: BusState, t: u16, o: u32)
    requires
        t < 0x4000,
        stands_for_arithmetic(o, t),
    ensures
        c.thumb_executed(b, t).0 == c.arm_executed(b, o).0,
        c.thumb_executed(b, t).1 == b,
{
    short_fields(t);
    assert(c.thumb_executed(b, t).0 == c.thumb_arithmetic(t));
    reveal(Cpu::thumb_arithmetic);
    flagged_operation(c, b, o);
    if t < 0x1800 {
        register_operand(c, o);
        shift_number(o, t);
        assert(c.thumb_arithmetic(t) == c.arm_executed(b, o).0);
    } else if t < 0x1C00 {
        register_operand(c, o);
        assert(c.thumb_arithmetic(t) == c.arm_executed(b, o).0);
    } else {
        immediate_operand(c, o);
        carry_after_result(c.cpsr, (t % 256) as u32);
        assert(c.thumb_arithmetic(t) == c.arm_executed(b, o).0);
    }
}

proof fn immediate_operand(c: Cpu, o: u32)
    requires
        o / 0x200_0000 % 2 == 1,
        o / 0x100 % 16 == 0,
    ensures
        c.operand2(o) == (o % 256, c.cpsr.c()),
{
    results::opcode_fields(o);
}

proof fn shift_number(o: u32, t: u16)
    requires
        t < 0x1800,
        o / 0x20 % 4 == t / 2048,
    ensures
        alu::ShiftType::from_u8((o / 0x20 % 4) as u8) == super::thumb::shift_kind(t),
{
    short_fields(t);
    results::opcode_fields(o);
}

proof fn offset_bits(x: u32)
    by (bit_vector)
    ensures
        x < 256 ==> x << 1 == 2 * x,
        x < 256 ==> x << 2 == 4 * x,
        128 <= x && x < 256 ==> (x << 1) | 0xFFFF_FE00 == 2 * x + 0xFFFF_FE00,
        x < 2048 ==> x << 1 == 2 * x,
        1024 <= x && x < 2048 ==> (x << 1) | 0xFFFF_F000 == 2 * x + 0xFFFF_F000,
        x < 2048 ==> x << 12 == 4096 * x,
        1024 <= x && x < 2048 ==> (x << 12) | 0xFF80_0000 == 4096 * x + 0xFF80_0000,
        x | 1 == x - x % 2 + 1,
        x & !2u32 == x - ((x / 2) % 2) * 2,
{
}

/// A number of `n` bits read as signed.
pub open spec fn signed_field(x: int, half: int) -> int {
    if x >= half {
        x - 2 * half
    } else {
        x
    }
}

/// A number modulo 2^32.
#[verifier::opaque]
pub open spec fn word(x: int) -> u32 {
    (x % 0x1_0000_0000) as u32
}

proof fn words_add(x: u32, y: u32, d: int)
    requires
        y == d % 0x1_0000_0000,
    ensures
        x.wrapping_add(y) == word(x + d),
        word(x as int) == x,
{
    reveal(word);
}

proof fn words_subtract(x: u32, y: u32)
    ensures
        x.wrapping_sub(y) == word(x - y),
{
    reveal(word);
}

/// The displacements of branches, modulo 2^32.
proof fn displacements(t: u16)
    ensures
        super::thumb::short_offset(t) == (2 * signed_field((t % 256) as int, 128)) % 0x1_0000_0000,
        super::thumb::long_offset(t) == (2 * signed_field((t % 2048) as int, 1024))
            % 0x1_0000_0000,
        super::thumb::high_offset(t) == (4096 * signed_field((t % 2048) as int, 1024))
            % 0x1_0000_0000,
        ((t & 0x7FF) as u32) << 1 == 2 * (t % 2048),
{
    branch_fields(t);
    offset_bits((t % 256) as u32);
    offset_bits((t % 2048) as u32);
}

proof fn branch_fields(t: u16)
    ensures
        t >> 8 == t / 256,
        t & 0xFF == t % 256,
        t & 0x7FF == t % 2048,
        t & 0x80 != 0 <==> t % 256 >= 128,
        t & 0x400 != 0 <==> t % 2048 >= 1024,
        (t >> 8) & 0xF == t / 256 % 16,
{
    short_fields(t);
    assert(t / 128 % 2 == 1 <==> t % 256 >= 128);
    assert(t / 1024 % 2 == 1 <==> t % 2048 >= 1024);
}

proof fn register_fields(t: u16)
    ensures
        t >> 8 == t / 256,
        super::thumb::field3(t, 0) == t % 8,
        super::thumb::field3(t, 3) == t / 8 % 8,
        super::thumb::field3(t, 6) == t / 64 % 8,
        super::thumb::field3(t, 8) == t / 256 % 8,
        super::thumb::field3(t, 0) & 0xF == super::thumb::field3(t, 0),
        super::thumb::field3(t, 3) & 0xF == super::thumb::field3(t, 3),
        super::thumb::field3(t, 6) & 0xF == super::thumb::field3(t, 6),
        super::thumb::field3(t, 8) & 0xF == super::thumb::field3(t, 8),
        (t >> 9) & 7 == t / 512 % 8,
        super::thumb::flag16(t, 11) == (t / 2048 % 2 == 1),
        super::thumb::flag16(t, 12) == (t / 4096 % 2 == 1),
        super::thumb::flag16(t, 7) == (t / 128 % 2 == 1),
        super::thumb::offset5(t) == t / 64 % 32,
        super::thumb::imm8(t) == t % 256,
        t & 0x7F == t % 128,
{
    short_fields(t);
}

proof fn branch_classes(t: u16)
    requires
        t >= 0xD000,
    ensures
        t >> 8 == t / 256,
        t < 0xDE00 <==> t >> 8 <= 0xDD,
        0xDF00 <= t < 0xE000 <==> t >> 8 == 0xDF,
        0xE000 <= t < 0xE800 <==> 0xE0 <= t >> 8 <= 0xE7,
        0xF000 <= t < 0xF800 <==> 0xF0 <= t >> 8 <= 0xF7,
        t >= 0xF800 <==> t >> 8 >= 0xF8,
        t >> 8 >= 0xD0,
        t & 0xFF == t % 256,
        (t >> 8) & 0xF == t / 256 % 16,
{
    branch_fields(t);
}

/// Branches count halfwords from R15: eight signed bits under a condition,
/// eleven without. A software interrupt leaves its number.
#[verifier::rlimit(50)]
pub proof fn short_branches(c: Cpu, b: BusState, t: u16)
    requires
        0xD000 <= t < 0xE800,
    ensures
        ({
            let out = c.thumb_executed(b, t);
            let pc = c.regs[15];
            let near = word(pc + 2 * signed_field((t % 256) as int, 128));
            let far = word(pc + 2 * signed_field((t % 2048) as int, 1024));
            &&& t < 0xDE00 && c.check_condition((t / 256 % 16) as u32) ==> out.0 == c.with_pc(near)
            &&& t < 0xDE00 && !c.check_condition((t / 256 % 16) as u32) ==> out.0 == c
            &&& 0xDF00 <= t < 0xE000 ==> out.0 == (Cpu {
                pending_swi: Some((t % 256) as u8),
                ..c
            })
            &&& t >= 0xE000 ==> out.0 == c.with_pc(far)
            &&& out.1 == b
        }),
{
    branch_classes(t);
    displacements(t);
    reveal(Cpu::thumb_branched);
    let pc = c.regs[15];
    words_add(pc, super::thumb::short_offset(t), 2 * signed_field((t % 256) as int, 128));
    words_add(pc, super::thumb::long_offset(t), 2 * signed_field((t % 2048) as int, 1024));
    let r = c.thumb_executed(b, t);
    assert(r.0 == c.thumb_branched(t).0 && r.1 == b);
}

/// A call is two instructions. They go to a signed distance of 22 bits of
/// halfwords from the R15 of the first, and leave in R14 the address after the
/// second with the lowest bit set.
#[verifier::rlimit(50)]
pub proof fn short_calls(c: Cpu, d: Cpu, b: BusState, t: u16, u: u16)
    requires
        0xF000 <= t < 0xF800,
        u >= 0xF800,
        d.regs[14] == c.thumb_executed(b, t).0.regs[14],
        d.regs[15] % 2 == 0,
        d.regs[15] >= 2,
    ensures
        ({
            let e = d.thumb_executed(b, u).0;
            let distance = signed_field((t % 2048) * 2048 + u % 2048, 0x20_0000);
            &&& e.regs[15] == word(c.regs[15] + 2 * distance)
            &&& e.regs[14] == d.regs[15] - 1
            &&& e.pipeline_flushed
            &&& e.cpsr == d.cpsr
            &&& forall|i: int| 0 <= i < 14 ==> #[trigger] e.regs[i] == d.regs[i]
        }),
{
    branch_classes(t);
    branch_classes(u);
    displacements(t);
    displacements(u);
    words_add(
        c.regs[15],
        super::thumb::high_offset(t),
        4096 * signed_field((t % 2048) as int, 1024),
    );
    words_add(d.regs[14], ((u & 0x7FF) as u32) << 1, 2 * (u % 2048));
    after_call(d.regs[15]);
    reveal(Cpu::thumb_branched);
    assert(c.thumb_executed(b, t).0 == c.thumb_branched(t).0);
    assert(d.thumb_executed(b, u).0 == d.thumb_branched(u).0);
    call_target(c.regs[15], (t % 2048) as int, (u % 2048) as int);
}

proof fn call_target(pc: u32, high: int, low: int)
    requires
        0 <= high < 2048,
        0 <= low < 2048,
    ensures
        word(word(pc + 4096 * signed_field(high, 1024)) + 2 * low) == word(
            pc + 2 * signed_field(high * 2048 + low, 0x20_0000),
        ),
{
    reveal(word);
}

proof fn after_call(pc: u32)
    requires
        pc % 2 == 0,
        pc >= 2,
    ensures
        pc.wrapping_sub(2) | 1 == pc - 1,
{
    offset_bits((pc - 2) as u32);
}

/// Operations on all sixteen registers: a sum, a comparison and a copy, which
/// leave the flags but for the comparison, and a branch with exchange.
#[verifier::rlimit(50)]
pub proof fn high_registers(c: Cpu, b: BusState, t: u16)
    requires
        0x4400 <= t < 0x4800,
    ensures
        ({
            let a = c.thumb_executed(b, t).0;
            let d = t / 128 % 2 * 8 + t % 8;
            let x = c.regs[d];
            let y = c.regs[(t / 8 % 16) as int];
            let op = t / 256 % 4;
            let sum = (x + y) % 0x1_0000_0000;
            &&& op == 0 && d != 15 ==> a == c.with_reg(d, sum as u32)
            &&& op == 0 && d == 15 ==> a == c.with_pc((sum - sum % 2) as u32)
            &&& op == 1 ==> a.regs == c.regs && a.cpsr.z() == (x == y) && a.cpsr.c() == (x >= y)
                && a.cpsr.n() == ((x - y) % 0x1_0000_0000 >= 0x8000_0000)
            &&& op == 2 && d != 15 ==> a == c.with_reg(d, y)
            &&& op == 2 && d == 15 ==> a == c.with_pc((y - y % 2) as u32)
            &&& op == 3 ==> a.regs[15] == y - y % 2 && a.cpsr.thumb() == (y % 2 == 1)
            &&& c.thumb_executed(b, t).1 == b
        }),
{
    high_fields(t);
    reveal(Cpu::high_register_done);
    let r = c.thumb_executed(b, t);
    assert(r.0 == c.high_register_done(t).0 && r.1 == b);
    let d = t / 128 % 2 * 8 + t % 8;
    let x = c.regs[d];
    let y = c.regs[(t / 8 % 16) as int];
    results::complement(y, x);
    results::complement(x.wrapping_add(y), 0);
    difference_flags(c, x, y);
    psr::psr_set_then_get(c.cpsr, 5, y & 1 != 0);
    odd_bit(y);
}

proof fn high_fields(t: u16)
    requires
        0x4400 <= t < 0x4800,
    ensures
        0x44 <= t >> 8 < 0x48,
        (t >> 8) & 3 == t / 256 % 4,
        super::thumb::field4(t, 6, 3) == t / 8 % 16,
        super::thumb::field4(t, 7, 0) == t / 128 % 2 * 8 + t % 8,
        super::thumb::field4(t, 6, 3) & 0xF == super::thumb::field4(t, 6, 3),
        super::thumb::field4(t, 7, 0) & 0xF == super::thumb::field4(t, 7, 0),
{
    short_fields(t);
    register_number((t / 8 % 16) as u8);
    register_number((t / 128 % 2 * 8 + t % 8) as u8);
}

proof fn difference_flags(c: Cpu, x: u32, y: u32)
    ensures
        ({
            let p = c.cpsr.with_nzcv(alu::adder(x, !y, true));
            &&& p.z() == (x == y)
            &&& p.c() == (x >= y)
            &&& p.n() == ((x - y) % 0x1_0000_0000 >= 0x8000_0000)
        }),
{
    results::difference_in_numbers(x, y, true);
    results::flags_are_set(c.cpsr, alu::adder(x, !y, true));
    results::complement(alu::adder(x, !y, true).0, 0);
}

proof fn odd_bit(y: u32)
    ensures
        y & 1 != 0 <==> y % 2 == 1,
{
    vstd::bits::lemma_u32_low_bits_mask_is_mod(y, 1);
    vstd::bits::lemma_low_bits_mask_values();
    vstd::arithmetic::power2::lemma2_to64();
}

proof fn register_number(r: u8)
    requires
        r < 16,
    ensures
        r & 0xF == r,
{
    bits::byte_fields(r, 0);
}

/// The address of a load or store below 0xA000.
pub open spec fn short_address(c: Cpu, t: u16) -> u32 {
    let base = c.regs[(t / 8 % 8) as int];
    let n = t / 64 % 32;
    word(
        if t < 0x5000 {
            c.regs[15] - c.regs[15] % 4 + 4 * (t % 256)
        } else if t < 0x6000 {
            base + c.regs[(t / 64 % 8) as int]
        } else if t < 0x7000 {
            base + 4 * n
        } else if t < 0x8000 {
            base + n
        } else if t < 0x9000 {
            base + 2 * n
        } else {
            c.regs[13] + 4 * (t % 256)
        },
    )
}

/// Loads and stores with a register offset.
#[verifier::rlimit(50)]
pub proof fn register_transfers(c: Cpu, b: BusState, t: u16)
    requires
        0x5000 <= t < 0x6000,
    ensures
        ({
            let out = c.thumb_executed(b, t);
            let at = short_address(c, t);
            let d = (t % 8) as int;
            let v = c.regs[d];
            let kind = t / 512 % 8;
            &&& kind == 0 ==> out.0 == c && out.1 == b.write32(at, v)
            &&& kind == 1 ==> out.0 == c && out.1 == b.write16(at, v as u16)
            &&& kind == 2 ==> out.0 == c && out.1 == b.write8(at, v as u8)
            &&& kind == 3 ==> out.0 == c.with_reg(d, b.load_signed_byte(at).0) && out.1
                == b.load_signed_byte(at).1
            &&& kind == 4 ==> out.0 == c.with_reg(d, b.load_word(at).0) && out.1 == b.load_word(
                at,
            ).1
            &&& kind == 5 && at % 2 == 0 ==> out.0 == c.with_reg(d, b.read16(at).0 as u32)
            &&& kind == 5 ==> out.1 == b.read16(at).1
            &&& kind == 6 ==> out.0 == c.with_reg(d, b.read8(at).0 as u32) && out.1 == b.read8(
                at,
            ).1
            &&& kind == 7 ==> out.0 == c.with_reg(d, b.load_signed_half(at).0) && out.1
                == b.load_signed_half(at).1
        }),
{
    register_fields(t);
    reveal(Cpu::register_offset_done);
    odd_bit(short_address(c, t));
    let base = c.regs[(t / 8 % 8) as int];
    let offset = c.regs[(t / 64 % 8) as int];
    words_add(base, offset, offset as int);
    let r = c.thumb_executed(b, t);
    assert((r.0, r.1) == c.register_offset_done(b, t));
}

proof fn transfer_classes(t: u16)
    requires
        0x4800 <= t < 0xA000,
    ensures
        t < 0x5000 <==> t / 256 < 0x50,
        t < 0x8000 <==> t / 256 < 0x80,
        t < 0x9000 <==> t / 256 < 0x90,
        0x6000 <= t < 0x8000 ==> (t / 4096 % 2 == 1 <==> t >= 0x7000),
{
}

proof fn immediate_addresses(c: Cpu, t: u16)
    requires
        0x4800 <= t < 0x5000 || 0x6000 <= t < 0xA000,
    ensures
        ({
            let base = c.regs[(t / 8 % 8) as int];
            let n = super::thumb::offset5(t);
            let m = super::thumb::imm8(t);
            let at = short_address(c, t);
            &&& t < 0x5000 ==> (c.regs[15] & !3u32).wrapping_add(m << 2) == at
            &&& 0x6000 <= t < 0x7000 ==> base.wrapping_add(n << 2) == at
            &&& 0x7000 <= t < 0x8000 ==> base.wrapping_add(n) == at
            &&& 0x8000 <= t < 0x9000 ==> base.wrapping_add(n << 1) == at
            &&& 0x9000 <= t ==> c.regs[13].wrapping_add(m << 2) == at
        }),
{
    register_fields(t);
    offset_bits((t % 256) as u32);
    offset_bits((t / 64 % 32) as u32);
    results::complement(c.regs[15], 0);
    let base = c.regs[(t / 8 % 8) as int];
    let n = t / 64 % 32;
    words_add((c.regs[15] - c.regs[15] % 4) as u32, (4 * (t % 256)) as u32, 4 * (t % 256));
    words_add(c.regs[13], (4 * (t % 256)) as u32, 4 * (t % 256));
    words_add(base, (4 * n) as u32, 4 * n);
    words_add(base, (2 * n) as u32, 2 * n);
    words_add(base, n as u32, n as int);
}

/// Loads and stores with an immediate offset: words, bytes and halfwords from a
/// low register, words from R13, and word loads from the next aligned word of
/// the program.
#[verifier::rlimit(50)]
pub proof fn immediate_transfers(c: Cpu, b: BusState, t: u16)
    requires
        0x4800 <= t < 0x5000 || 0x6000 <= t < 0xA000,
    ensures
        ({
            let out = c.thumb_executed(b, t);
            let at = short_address(c, t);
            let low = (t % 8) as int;
            let high = (t / 256 % 8) as int;
            let load = t / 2048 % 2 == 1;
            &&& t < 0x5000 ==> out.0 == c.with_reg(high, b.read32(at).0) && out.1 == b.read32(at).1
            &&& 0x6000 <= t < 0x7000 && load ==> out.0 == c.with_reg(low, b.load_word(at).0)
                && out.1 == b.load_word(at).1
            &&& 0x6000 <= t < 0x7000 && !load ==> out.0 == c && out.1 == b.write32(at, c.regs[low])
            &&& 0x7000 <= t < 0x8000 && load ==> out.0 == c.with_reg(low, b.read8(at).0 as u32)
                && out.1 == b.read8(at).1
            &&& 0x7000 <= t < 0x8000 && !load ==> out.0 == c && out.1 == b.write8(
                at,
                c.regs[low] as u8,
            )
            &&& 0x8000 <= t < 0x9000 && load ==> out.0 == c.with_reg(low, b.read16(at).0 as u32)
                && out.1 == b.read16(at).1
            &&& 0x8000 <= t < 0x9000 && !load ==> out.0 == c && out.1 == b.write16(
                at,
                c.regs[low] as u16,
            )
            &&& 0x9000 <= t && load ==> out.0 == c.with_reg(high, b.load_word(at).0) && out.1
                == b.load_word(at).1
            &&& 0x9000 <= t && !load ==> out.0 == c && out.1 == b.write32(at, c.regs[high])
        }),
{
    register_fields(t);
    immediate_addresses(c, t);
    transfer_classes(t);
    reveal(Cpu::immediate_offset_done);
    let r = c.thumb_executed(b, t);
    assert((r.0, r.1) == c.immediate_offset_done(b, t));
}

/// Addresses from R15, with bit 1 cleared, or from R13, and the motion of R13:
/// in words, up or, with bit 7, down.
#[verifier::rlimit(50)]
pub proof fn stack_addresses(c: Cpu, b: BusState, t: u16)
    requires
        0xA000 <= t < 0xB100,
    ensures
        ({
            let a = c.thumb_executed(b, t).0;
            let pc = c.regs[15];
            let sp = c.regs[13];
            let high = (t / 256 % 8) as int;
            &&& t < 0xA800 ==> a == c.with_reg(
                high,
                word(pc - pc / 2 % 2 * 2 + 4 * (t % 256)),
            )
            &&& 0xA800 <= t < 0xB000 ==> a == c.with_reg(
                high,
                word(sp + 4 * (t % 256)),
            )
            &&& 0xB000 <= t < 0xB080 ==> a == c.with_reg(
                13,
                word(sp + 4 * (t % 128)),
            )
            &&& 0xB080 <= t ==> a == c.with_reg(
                13,
                word(sp - 4 * (t % 128)),
            )
            &&& c.thumb_executed(b, t).1 == b
        }),
{
    register_fields(t);
    stack_words(c, t);
    stack_classes(t);
}

proof fn stack_words(c: Cpu, t: u16)
    ensures
        ({
            let pc = c.regs[15];
            let sp = c.regs[13];
            let m = super::thumb::imm8(t);
            let n = (t & 0x7F) as u32;
            &&& (pc & !2u32).wrapping_add(m << 2) == word(pc - pc / 2 % 2 * 2 + 4 * (t % 256))
            &&& sp.wrapping_add(m << 2) == word(sp + 4 * (t % 256))
            &&& sp.wrapping_add(n << 2) == word(sp + 4 * (t % 128))
            &&& sp.wrapping_sub(n << 2) == word(sp - 4 * (t % 128))
        }),
{
    register_fields(t);
    offset_bits((t % 256) as u32);
    offset_bits((t % 128) as u32);
    offset_bits(c.regs[15]);
    let pc = c.regs[15];
    words_add((pc - pc / 2 % 2 * 2) as u32, (4 * (t % 256)) as u32, 4 * (t % 256));
    words_add(c.regs[13], (4 * (t % 256)) as u32, 4 * (t % 256));
    words_add(c.regs[13], (4 * (t % 128)) as u32, 4 * (t % 128));
    words_subtract(c.regs[13], (4 * (t % 128)) as u32);
}

proof fn stack_classes(t: u16)
    requires
        0xA000 <= t < 0xB100,
    ensures
        t < 0xB000 <==> t / 256 < 0xB0,
        t / 256 >= 0xA0,
        t >= 0xB000 <==> t / 256 == 0xB0,
        t < 0xB000 ==> (t / 2048 % 2 == 1 <==> t >= 0xA800),
        t >= 0xB000 ==> (t / 128 % 2 == 1 <==> t >= 0xB080),
{
}

} // verus!

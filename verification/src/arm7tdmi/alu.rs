//! The barrel shifter and the adder of the ARM7TDMI.

use vstd::prelude::*;

use crate::bits::{self, bit, ror32};

verus! {

broadcast use bits::group_and_bounds;

/// The four barrel-shifter operations.
#[derive(Debug, Clone, Copy, PartialEq, Eq, Structural)]
pub enum ShiftType {
    /// Logical shift left.
    Lsl,
    /// Logical shift right.
    Lsr,
    /// Arithmetic shift right.
    Asr,
    /// Rotate right.
    Ror,
}

impl ShiftType {
    /// Decodes the low two bits of `val`.
    #[verifier::allow_in_spec]
    pub fn from_u8(val: u8) -> ShiftType
        returns
            (if val & 3 == 0 {
                ShiftType::Lsl
            } else if val & 3 == 1 {
                ShiftType::Lsr
            } else if val & 3 == 2 {
                ShiftType::Asr
            } else {
                ShiftType::Ror
            }),
    {
        match val & 3 {
            0 => ShiftType::Lsl,
            1 => ShiftType::Lsr,
            2 => ShiftType::Asr,
            _ => ShiftType::Ror,
        }
    }
}

/// Logical shift left: the result and the last bit shifted out.
#[verifier::allow_in_spec]
pub fn shift_lsl(value: u32, amount: u8, carry_in: bool) -> (u32, bool)
    returns
        (if amount == 0 {
            (value, carry_in)
        } else if amount < 32 {
            (value << amount, (value >> ((32 - amount) as u8)) & 1 != 0)
        } else if amount == 32 {
            (0u32, value & 1 != 0)
        } else {
            (0u32, false)
        }),
{
    match amount {
        0 => (value, carry_in),
        1..=31 => {
            let carry = (value >> (32 - amount)) & 1 != 0;
            (value << amount, carry)
        },
        32 => (0, value & 1 != 0),
        _ => (0, false),
    }
}

/// Logical shift right. An immediate amount of 0 encodes a shift by 32.
#[verifier::allow_in_spec]
pub fn shift_lsr(value: u32, amount: u8, carry_in: bool, immediate: bool) -> (u32, bool)
    returns
        (if amount == 0 && !immediate {
            (value, carry_in)
        } else if amount == 0 || amount == 32 {
            (0u32, value >> 31 != 0)
        } else if amount < 32 {
            (value >> amount, (value >> ((amount - 1) as u8)) & 1 != 0)
        } else {
            (0u32, false)
        }),
{
    match amount {
        0 => {
            if immediate {
                (0, value >> 31 != 0)
            } else {
                (value, carry_in)
            }
        },
        1..=31 => {
            let carry = (value >> (amount - 1)) & 1 != 0;
            (value >> amount, carry)
        },
        32 => (0, value >> 31 != 0),
        _ => (0, false),
    }
}

/// Arithmetic shift right. An immediate amount of 0, and any amount above 31,
/// fills the word with the sign bit.
#[verifier::allow_in_spec]
pub fn shift_asr(value: u32, amount: u8, carry_in: bool, immediate: bool) -> (u32, bool)
    returns
        (if amount == 0 && !immediate {
            (value, carry_in)
        } else if 0 < amount < 32 {
            (
                ((value as i32) >> amount) as u32,
                ((value as i32) >> ((amount - 1) as u8)) & 1 != 0,
            )
        } else {
            ((if (value as i32) < 0 { 0xFFFF_FFFFu32 } else { 0u32 }), (value as i32) < 0)
        }),
{
    match amount {
        0 => {
            if immediate {
                let carry = (value as i32) < 0;
                let result: u32 = if carry { 0xFFFF_FFFF } else { 0 };
                (result, carry)
            } else {
                (value, carry_in)
            }
        },
        1..=31 => {
            let carry = ((value as i32) >> (amount - 1)) & 1 != 0;
            (((value as i32) >> amount) as u32, carry)
        },
        _ => {
            let carry = (value as i32) < 0;
            let result: u32 = if carry { 0xFFFF_FFFF } else { 0 };
            (result, carry)
        },
    }
}

/// Rotate right. An immediate amount of 0 encodes RRX: a rotation by one place
/// through the carry flag.
#[verifier::allow_in_spec]
pub fn shift_ror(value: u32, amount: u8, carry_in: bool, immediate: bool) -> (u32, bool)
    returns
        (if amount == 0 && !immediate {
            (value, carry_in)
        } else if amount == 0 {
            ((bit(carry_in) << 31) | (value >> 1), value & 1 != 0)
        } else {
            (
                ror32(value, (amount & 31) as u32),
                ror32(value, (amount & 31) as u32) >> 31 != 0,
            )
        }),
{
    match amount {
        0 => {
            if immediate {
                let result: u32 = (bit(carry_in) << 31) | (value >> 1);
                let carry = value & 1 != 0;
                (result, carry)
            } else {
                (value, carry_in)
            }
        },
        _ => {
            let amount: u8 = amount & 31;
            if amount == 0 {
                (value, value >> 31 != 0)
            } else {
                let result: u32 = ror32(value, amount as u32);
                let carry = result >> 31 != 0;
                (result, carry)
            }
        },
    }
}

/// The shifter operand and the shifter carry-out.
#[verifier::allow_in_spec]
pub fn barrel_shift(
    value: u32,
    shift_type: ShiftType,
    amount: u8,
    carry_in: bool,
    immediate: bool,
) -> (u32, bool)
    returns
        (match shift_type {
            ShiftType::Lsl => shift_lsl(value, amount, carry_in),
            ShiftType::Lsr => shift_lsr(value, amount, carry_in, immediate),
            ShiftType::Asr => shift_asr(value, amount, carry_in, immediate),
            ShiftType::Ror => shift_ror(value, amount, carry_in, immediate),
        }),
{
    match shift_type {
        ShiftType::Lsl => shift_lsl(value, amount, carry_in),
        ShiftType::Lsr => shift_lsr(value, amount, carry_in, immediate),
        ShiftType::Asr => shift_asr(value, amount, carry_in, immediate),
        ShiftType::Ror => shift_ror(value, amount, carry_in, immediate),
    }
}

/// The sixteen ARM data-processing operations.
#[derive(Debug, Clone, Copy, PartialEq, Eq, Structural)]
pub enum AluOp {
    And,
    Eor,
    Sub,
    Rsb,
    Add,
    Adc,
    Sbc,
    Rsc,
    Tst,
    Teq,
    Cmp,
    Cmn,
    Orr,
    Mov,
    Bic,
    Mvn,
}

/// The operation with opcode number `val`, reading its low four bits.
pub open spec fn alu_op(val: u8) -> AluOp {
    let n = val & 0xF;
    if n == 0x0 {
        AluOp::And
    } else if n == 0x1 {
        AluOp::Eor
    } else if n == 0x2 {
        AluOp::Sub
    } else if n == 0x3 {
        AluOp::Rsb
    } else if n == 0x4 {
        AluOp::Add
    } else if n == 0x5 {
        AluOp::Adc
    } else if n == 0x6 {
        AluOp::Sbc
    } else if n == 0x7 {
        AluOp::Rsc
    } else if n == 0x8 {
        AluOp::Tst
    } else if n == 0x9 {
        AluOp::Teq
    } else if n == 0xA {
        AluOp::Cmp
    } else if n == 0xB {
        AluOp::Cmn
    } else if n == 0xC {
        AluOp::Orr
    } else if n == 0xD {
        AluOp::Mov
    } else if n == 0xE {
        AluOp::Bic
    } else {
        AluOp::Mvn
    }
}

impl AluOp {
    pub fn from_u8(val: u8) -> (op: AluOp)
        ensures
            op == alu_op(val),
    {
        match val & 0xF {
            0x0 => AluOp::And,
            0x1 => AluOp::Eor,
            0x2 => AluOp::Sub,
            0x3 => AluOp::Rsb,
            0x4 => AluOp::Add,
            0x5 => AluOp::Adc,
            0x6 => AluOp::Sbc,
            0x7 => AluOp::Rsc,
            0x8 => AluOp::Tst,
            0x9 => AluOp::Teq,
            0xA => AluOp::Cmp,
            0xB => AluOp::Cmn,
            0xC => AluOp::Orr,
            0xD => AluOp::Mov,
            0xE => AluOp::Bic,
            _ => AluOp::Mvn,
        }
    }

    /// Whether the operation only sets flags.
    #[verifier::allow_in_spec]
    pub fn is_test(self) -> bool
        returns
            self is Tst || self is Teq || self is Cmp || self is Cmn,
    {
        matches!(self, AluOp::Tst | AluOp::Teq | AluOp::Cmp | AluOp::Cmn)
    }

    /// Whether the carry flag comes from the shifter and V is untouched.
    #[verifier::allow_in_spec]
    pub fn is_logical(self) -> bool
        returns
            self is And || self is Eor || self is Tst || self is Teq || self is Orr
                || self is Mov || self is Bic || self is Mvn,
    {
        matches!(
            self,
            AluOp::And | AluOp::Eor | AluOp::Tst | AluOp::Teq | AluOp::Orr | AluOp::Mov
                | AluOp::Bic | AluOp::Mvn
        )
    }
}

/// `a + b + carry_in` as the adder sees it: the sum modulo 2^32, whether the
/// unsigned sum leaves the word, and whether the signed sum does.
pub open spec fn adder(a: u32, b: u32, carry_in: bool) -> (u32, bool, bool) {
    let unsigned: int = a + b + bit(carry_in);
    let signed: int = (a as i32) + (b as i32) + bit(carry_in);
    (
        (unsigned % 0x1_0000_0000) as u32,
        unsigned > 0xFFFF_FFFF,
        signed < -0x8000_0000 || signed > 0x7FFF_FFFF,
    )
}

proof fn adder_bits(a: u32, b: u32, c: u32, wide: u64, r: u32)
    by (bit_vector)
    requires
        c <= 1,
        wide == (a as u64) + (b as u64) + (c as u64),
        r == wide as u32,
    ensures
        r == (a + b + c) % 0x1_0000_0000,
        (((a ^ r) & (b ^ r)) >> 31 != 0) == ((a as i32) + (b as i32) + c < -0x8000_0000 || (
        a as i32) + (b as i32) + c > 0x7FFF_FFFF),
{
}

/// Addition with carry: result, carry and signed overflow.
pub fn add_with_carry(a: u32, b: u32, carry_in: bool) -> (res: (u32, bool, bool))
    ensures
        res == adder(a, b, carry_in),
{
    let wide: u64 = (a as u64) + (b as u64) + (bit(carry_in) as u64);
    let result: u32 = wide as u32;
    let carry = wide > 0xFFFF_FFFF;
    let overflow = ((a ^ result) & (b ^ result)) >> 31 != 0;
    proof {
        adder_bits(a, b, bit(carry_in), wide, result);
    }
    (result, carry, overflow)
}

/// Subtraction with carry, `a - b - 1 + carry_in`: the addition of the
/// complement of `b`.
pub fn sub_with_carry(a: u32, b: u32, carry_in: bool) -> (res: (u32, bool, bool))
    ensures
        res == adder(a, !b, carry_in),
{
    add_with_carry(a, !b, carry_in)
}

/// With the carry set, the adder on the complement subtracts: the result is
/// `a - b` modulo 2^32, carry means that no borrow was needed, and overflow
/// that the signed difference leaves the word.
pub proof fn subtraction_without_borrow(a: u32, b: u32)
    ensures
        adder(a, !b, true).0 == (a - b) % 0x1_0000_0000,
        adder(a, !b, true).1 <==> a >= b,
        adder(a, !b, true).2 <==> ((a as i32) - (b as i32) < -0x8000_0000 || (a as i32) - (
        b as i32) > 0x7FFF_FFFF),
{
    super::results::complement(b, 0);
}

} // verus!

//! Small bit-level helpers shared by every device, and the facts about masks
//! and shifts that bound table and memory indices.

use vstd::prelude::*;

verus! {

/// The array `a` with entry `i` replaced by `v`.
pub open spec fn upd<T, const N: usize>(a: [T; N], i: int, v: T) -> [T; N] {
    vstd::array::spec_array_update(a, i, v)
}

/// The array that holds `v` in every entry.
pub open spec fn filled<T: Copy, const N: usize>(v: T) -> [T; N] {
    vstd::array::spec_array_fill_for_copy_type(v)
}

/// 1 for `true`, 0 for `false`.
#[verifier::allow_in_spec]
pub fn bit(v: bool) -> u32
    returns
        (if v { 1u32 } else { 0u32 }),
{
    if v {
        1
    } else {
        0
    }
}

/// 1 for `true`, 0 for `false`, as a halfword.
#[verifier::allow_in_spec]
pub fn bit16(v: bool) -> u16
    returns
        (if v { 1u16 } else { 0u16 }),
{
    if v {
        1
    } else {
        0
    }
}

/// `a / b` rounded toward zero, for positive `b`.
pub open spec fn div_toward_zero(a: int, b: int) -> int {
    if a >= 0 {
        a / b
    } else {
        -((-a) / b)
    }
}

/// Division toward zero: the product with the divisor is no farther from zero
/// than the dividend and within one divisor of it, and a dividend of the other
/// sign gives the quotient of the other sign.
pub proof fn quotients_round_toward_zero(a: int, b: int)
    requires
        b > 0,
    ensures
        a >= 0 ==> b * div_toward_zero(a, b) <= a < b * div_toward_zero(a, b) + b,
        a <= 0 ==> b * div_toward_zero(a, b) >= a > b * div_toward_zero(a, b) - b,
        div_toward_zero(-a, b) == -div_toward_zero(a, b),
        a >= 0 ==> div_toward_zero(a, b) >= 0,
{
    let x = if a >= 0 {
        a
    } else {
        -a
    };
    vstd::arithmetic::div_mod::lemma_fundamental_div_mod(x, b);
    vstd::arithmetic::div_mod::lemma_div_pos_is_pos(x, b);
    vstd::arithmetic::div_mod::lemma_mod_bound(x, b);
    let q = x / b;
    assert(b * (-q) == -(b * q)) by (nonlinear_arith);
    assert(a == 0 ==> q == 0) by (nonlinear_arith)
        requires
            b > 0,
            a == 0 ==> b * q <= 0,
            q >= 0,
    ;
}

pub fn div_i32(a: i32, b: i32) -> (q: i32)
    requires
        b > 0,
    ensures
        q == div_toward_zero(a as int, b as int),
{
    if a >= 0 {
        a / b
    } else {
        let wide: i64 = -((-(a as i64)) / (b as i64));
        assert(0 <= (-(a as int)) / (b as int) <= -(a as int)) by (nonlinear_arith)
            requires
                a < 0,
                b > 0,
        ;
        wide as i32
    }
}

pub fn div_i64(a: i64, b: i64) -> (q: i64)
    requires
        b > 0,
        a > i64::MIN,
    ensures
        q == div_toward_zero(a as int, b as int),
{
    if a >= 0 {
        a / b
    } else {
        -((-a) / b)
    }
}

/// `value` rotated right by `n` places, for `n` below 32.
#[verifier::allow_in_spec]
pub fn ror32(value: u32, n: u32) -> u32
    requires
        n < 32,
    returns
        (if n == 0 { value } else { (value >> n) | (value << ((32 - n) as u32)) }),
{
    if n == 0 {
        value
    } else {
        (value >> n) | (value << (32 - n))
    }
}

/// The signed reading of a byte, widened to 32 bits.
#[verifier::allow_in_spec]
pub fn sign8(v: u8) -> u32
    returns
        v as i8 as i32 as u32,
{
    v as i8 as i32 as u32
}

/// The signed reading of a halfword, widened to 32 bits.
#[verifier::allow_in_spec]
pub fn sign16(v: u16) -> u32
    returns
        v as i16 as i32 as u32,
{
    v as i16 as i32 as u32
}

/// Two little-endian bytes as a halfword.
#[verifier::allow_in_spec]
pub fn le16(b0: u8, b1: u8) -> u16
    returns
        (b0 as u16) | ((b1 as u16) << 8),
{
    (b0 as u16) | ((b1 as u16) << 8)
}

/// Four little-endian bytes as a word.
#[verifier::allow_in_spec]
pub fn le32(b0: u8, b1: u8, b2: u8, b3: u8) -> u32
    returns
        (b0 as u32) | ((b1 as u32) << 8) | ((b2 as u32) << 16) | ((b3 as u32) << 24),
{
    (b0 as u32) | ((b1 as u32) << 8) | ((b2 as u32) << 16) | ((b3 as u32) << 24)
}

/// Two halfwords as a word, low half first.
#[verifier::allow_in_spec]
pub fn join16(lo: u16, hi: u16) -> u32
    returns
        (lo as u32) | ((hi as u32) << 16),
{
    (lo as u32) | ((hi as u32) << 16)
}

pub broadcast proof fn and_le_u8(x: u8, m: u8)
    by (bit_vector)
    ensures
        #[trigger] (x & m) <= m,
        x & m <= x,
{
}

pub broadcast proof fn and_le_u16(x: u16, m: u16)
    by (bit_vector)
    ensures
        #[trigger] (x & m) <= m,
        x & m <= x,
{
}

pub broadcast proof fn and_le_u32(x: u32, m: u32)
    by (bit_vector)
    ensures
        #[trigger] (x & m) <= m,
        x & m <= x,
{
}

/// The fields of a halfword, by division, and a halfword from its bytes.
pub proof fn half_fields(x: u16, k: u8, y: u8, z: u8)
    by (bit_vector)
    ensures
        (k as u16) < 16 ==> x >> k <= x,
        x & 3 == x % 4,
        x & 7 == x % 8,
        x & 0xF == x % 16,
        x & 0x1F == x % 32,
        x & 0x3F == x % 64,
        x & 0xFF == x % 256,
        x & 0x1FF == x % 512,
        x & 0x3FF == x % 1024,
        x & 0x7FF == x % 2048,
        x & 0x3FFF == x % 0x4000,
        x & 0x7FFF == x % 0x8000,
        (x >> 5) & 3 == x / 32 % 4,
        (x >> 7) & 3 == x / 128 % 4,
        (x >> 12) & 3 == x / 4096 % 4,
        (x >> 13) & 3 == x / 0x2000 % 4,
        (x >> 6) & 1 == x / 64 % 2,
        (x >> 10) & 1 == x / 1024 % 2,
        (x >> 14) & 1 == x / 0x4000 % 2,
        x & !(1u16 << 15) == x % 0x8000,
        x | 1 == x - x % 2 + 1,
        x | 2 == x - ((x / 2) % 2) * 2 + 2,
        x | 4 == x - ((x / 4) % 2) * 4 + 4,
        x & !1u16 == x - x % 2,
        x & !2u16 == x - ((x / 2) % 2) * 2,
        x & !4u16 == x - ((x / 4) % 2) * 4,
        x & 8 != 0 <==> x / 8 % 2 == 1,
        x & 0x10 != 0 <==> x / 16 % 2 == 1,
        x & 0x20 != 0 <==> x / 32 % 2 == 1,
        x & 1 == x % 2,
        x >> 8 == x / 256,
        (x >> 2) & 3 == x / 4 % 4,
        (x >> 4) & 3 == x / 16 % 4,
        (x >> 4) & 7 == x / 16 % 8,
        (x >> 4) & 0xF == x / 16 % 16,
        (x >> 5) & 0x1F == x / 32 % 32,
        (x >> 6) & 3 == x / 64 % 4,
        (x >> 8) & 3 == x / 256 % 4,
        (x >> 8) & 7 == x / 256 % 8,
        (x >> 8) & 0x1F == x / 256 % 32,
        (x >> 8) & 0x3F == x / 256 % 64,
        (x >> 9) & 0x1F == x / 512 % 32,
        (x >> 10) & 3 == x / 1024 % 4,
        (x >> 10) & 0x1F == x / 1024 % 32,
        (x >> 12) & 0xF == x / 4096,
        (x >> 12) & 7 == x / 4096 % 8,
        (x >> 14) & 3 == x / 0x4000,
        x & (1u16 << 0) != 0 <==> x % 2 == 1,
        x & (1u16 << 1) != 0 <==> x / 2 % 2 == 1,
        x & (1u16 << 2) != 0 <==> x / 4 % 2 == 1,
        x & (1u16 << 3) != 0 <==> x / 8 % 2 == 1,
        x & (1u16 << 4) != 0 <==> x / 16 % 2 == 1,
        x & (1u16 << 5) != 0 <==> x / 32 % 2 == 1,
        x & (1u16 << 6) != 0 <==> x / 64 % 2 == 1,
        x & (1u16 << 7) != 0 <==> x / 128 % 2 == 1,
        x & (1u16 << 8) != 0 <==> x / 256 % 2 == 1,
        x & (1u16 << 9) != 0 <==> x / 512 % 2 == 1,
        x & (1u16 << 10) != 0 <==> x / 1024 % 2 == 1,
        x & (1u16 << 11) != 0 <==> x / 2048 % 2 == 1,
        x & (1u16 << 12) != 0 <==> x / 4096 % 2 == 1,
        x & (1u16 << 13) != 0 <==> x / 0x2000 % 2 == 1,
        x & (1u16 << 14) != 0 <==> x / 0x4000 % 2 == 1,
        x & (1u16 << 15) != 0 <==> x / 0x8000 % 2 == 1,
        (y as u16) | ((z as u16) << 8) == (y as u16) + 256 * (z as u16),
{
}

/// The fields of a byte, by division.
pub proof fn byte_fields(y: u8, j: u8)
    by (bit_vector)
    ensures
        j < 8 ==> y >> j <= y,
        y & 0x0F == y % 16,
        y & 3 == y % 4,
        y & 0x3F == y % 64,
        y & 0x7F == y % 128,
        y & 0x40 != 0 <==> y / 64 % 2 == 1,
        y & 0x80 != 0 <==> y / 128 % 2 == 1,
        y & 7 == y % 8,
        y >> 4 == y / 16,
        (y >> 4) & 7 == y / 16 % 8,
        y & (1u8 << 0) != 0 <==> y % 2 == 1,
        y & (1u8 << 1) != 0 <==> y / 2 % 2 == 1,
        y & (1u8 << 2) != 0 <==> y / 4 % 2 == 1,
        y & (1u8 << 3) != 0 <==> y / 8 % 2 == 1,
        y & (1u8 << 4) != 0 <==> y / 16 % 2 == 1,
        y & (1u8 << 5) != 0 <==> y / 32 % 2 == 1,
        y & (1u8 << 6) != 0 <==> y / 64 % 2 == 1,
        y & (1u8 << 7) != 0 <==> y / 128 % 2 == 1,
{
}

/// Shifting right makes nothing larger.
pub proof fn shr_le(x: u16, k: u8, y: u8, j: u8)
    ensures
        k < 16 ==> x >> k <= x,
        j < 8 ==> y >> j <= y,
{
    half_fields(x, k, 0, 0);
    byte_fields(y, j);
}

pub broadcast group group_and_bounds {
    and_le_u8,
    and_le_u16,
    and_le_u32,
}

} // verus!

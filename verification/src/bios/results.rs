//! What the system calls compute, in numbers.

use vstd::arithmetic::power2::pow2;
use vstd::prelude::*;

use crate::arm7tdmi::moves;
use crate::arm7tdmi::results::{self, signed};
use crate::arm7tdmi::Cpu;
use crate::bits;
use crate::bus::laws;
use crate::bus::BusState;

use super::affine::{BgEntry, Matrix};
use super::calls;
use super::copy;
use super::expand::Text;
use super::widen::{Decoding, UnpackInfo, WordOutput};

verus! {

broadcast use bits::group_and_bounds;

/// A number in 64 bits cut to 32 is the number modulo 2^32.
proof fn cut_to_word(p: int)
    requires
        -0x8000_0000_0000_0000 <= p <= 0x7FFF_FFFF_FFFF_FFFF,
    ensures
        p as u32 == p % 0x1_0000_0000,
{
    let w = p as i64;
    let q = w as u64;
    moves::long_words(w, q, 0, 0);
    let lo = q as u32;
    let hi = (q >> 32) as u32;
    assert(q == lo + hi * 0x1_0000_0000);
    assert(q as int % 0x1_0000_0000 == lo);
    assert(p % 0x1_0000_0000 == q as int % 0x1_0000_0000);
}

/// Div leaves quotient and remainder, rounded toward zero, and the magnitude
/// of the quotient; DivArm is Div with its operands exchanged.
pub proof fn divisions(c: Cpu, b: BusState)
    requires
        signed(c.regs[1]) != 0,
        signed(c.regs[0]) != -0x8000_0000 || signed(c.regs[1]) != -1,
    ensures
        ({
            let a = calls::basic_call(c, b, 6).0;
            let n = signed(c.regs[0]);
            let d = signed(c.regs[1]);
            let q = signed(a.regs[0]);
            let r = signed(a.regs[1]);
            &&& n == q * d + r
            &&& super::magnitude(r) < super::magnitude(d)
            &&& r == 0 || (r < 0) == (n < 0)
            &&& a.regs[3] == super::magnitude(q)
            &&& a.regs[2] == c.regs[2]
            &&& calls::basic_call(c.with_reg(0, c.regs[1]).with_reg(1, c.regs[0]), b, 7).0.regs[0]
                == a.regs[0]
            &&& calls::basic_call(c.with_reg(0, c.regs[1]).with_reg(1, c.regs[0]), b, 7).0.regs[1]
                == a.regs[1]
        }),
{
    let n = signed(c.regs[0]);
    let d = signed(c.regs[1]);
    results::complement(c.regs[0], 0);
    results::complement(c.regs[1], 0);
    super::division_is_exact(n, d);
    let q = super::quotient(n, d);
    let r = n - q * d;
    quotient_fits(n, d);
    cut_to_word(q);
    cut_to_word(r);
    let back = c.with_reg(0, c.regs[1]).with_reg(1, c.regs[0]);
    assert(back.with_reg(0, back.regs[1]).with_reg(1, back.regs[0]).regs =~= c.regs);
}

proof fn quotient_fits(n: int, d: int)
    requires
        -0x8000_0000 <= n <= 0x7FFF_FFFF,
        -0x8000_0000 <= d <= 0x7FFF_FFFF,
        d != 0,
        n != -0x8000_0000 || d != -1,
    ensures
        -0x8000_0000 <= super::quotient(n, d) <= 0x7FFF_FFFF,
{
    super::division_is_exact(n, d);
    let q = super::quotient(n, d);
    if q == 0x8000_0000 {
        let a = super::magnitude(n);
        let b = super::magnitude(d);
        assert(a == 0x8000_0000);
        assert(a / b <= a / 2 || b < 2) by (nonlinear_arith)
            requires
                a == 0x8000_0000,
                b >= 1,
        ;
    }
}

/// Sqrt leaves the largest number whose square is not larger.
pub proof fn square_roots(c: Cpu, b: BusState)
    ensures
        ({
            let r = calls::basic_call(c, b, 8).0.regs[0];
            r * r <= c.regs[0] && c.regs[0] < (r + 1) * (r + 1)
        }),
{
    let r = root(c.regs[0]);
    assert(super::is_sqrt(r, c.regs[0]));
}

proof fn root(v: u32) -> (r: u32)
    ensures
        r * r <= v,
        v < (r + 1) * (r + 1),
    decreases v,
{
    if v == 0 {
        0
    } else {
        let r = root((v - 1) as u32);
        if (r + 1) * (r + 1) <= v {
            assert(r < 0xFFFF_FFFF) by (nonlinear_arith)
                requires
                    (r + 1) * (r + 1) <= 0xFFFF_FFFF,
                    r >= 0,
            ;
            let s = (r + 1) as u32;
            assert(v < (s + 1) * (s + 1)) by (nonlinear_arith)
                requires
                    v - 1 < (r + 1) * (r + 1),
                    s == r + 1,
                    r >= 0,
            ;
            s
        } else {
            r
        }
    }
}

/// CpuSet moves as many units as the low 21 bits say, words if bit 26 is set
/// and else halfwords, and fills with the first if bit 24 is set. CpuFastSet
/// moves words, in eights.
pub proof fn sets_count(c: Cpu, b: BusState)
    ensures
        ({
            let v = c.regs[2];
            let n = (v % 0x20_0000) as nat;
            let fill = v / 0x100_0000 % 2 == 1;
            &&& v / 0x400_0000 % 2 == 1 ==> copy::cpu_set(c, b) == copy::words_moved(
                b,
                c.regs[0],
                c.regs[1],
                fill,
                n,
            )
            &&& v / 0x400_0000 % 2 == 0 ==> copy::cpu_set(c, b) == copy::halves_moved(
                b,
                c.regs[0],
                c.regs[1],
                fill,
                n,
            )
            &&& exists|m: nat|
                n <= m < n + 8 && m % 8 == 0 && copy::cpu_fast_set(c, b)
                    == #[trigger] copy::words_moved(b, c.regs[0], c.regs[1], fill, m)
        }),
{
    let v = c.regs[2];
    laws::address_bits(v, 0, 0, 0);
    let n = (v % 0x20_0000) as nat;
    let m = ((n + 7) / 8 * 8) as nat;
    assert(copy::cpu_fast_set(c, b) == copy::words_moved(
        b,
        c.regs[0],
        c.regs[1],
        v / 0x100_0000 % 2 == 1,
        m,
    ));
}

/// BitUnPack takes values of `src_width` bits from a byte, lowest first, and
/// adds the offset to each but, unless the top bit of the offset is set, to
/// zeros.
pub proof fn units_widen(u: UnpackInfo, byte: u8, k: int)
    requires
        0 <= k < 8,
        0 < u.src_width < 32,
    ensures
        u.unit(byte, k) == byte as nat / pow2(k as nat) % pow2(u.src_width as nat),
        forall|v: u32| v <= 0xFF ==> #[trigger] u.widened(v) == (if v == 0 && u.data_offset < 0x8000_0000 {
            0int
        } else {
            v + u.data_offset % 0x8000_0000
        }),
{
    laws::address_bits(u.data_offset, 0, 0, 0);
    let w = u.src_width as nat;
    let x = (byte >> (k as u8)) as u32;
    vstd::bits::lemma_u8_shr_is_div(byte, k as u8);
    vstd::arithmetic::power2::lemma2_to64();
    vstd::arithmetic::power2::lemma_pow2_pos(w);
    if w < 31 {
        vstd::arithmetic::power2::lemma_pow2_strictly_increases(w, 31);
    }
    vstd::bits::lemma_u32_shl_is_mul(1, w as u32);
    vstd::bits::lemma_u32_low_bits_mask_is_mod(x, w);
    assert(vstd::bits::low_bits_mask(w) == pow2(w) - 1) by {
        reveal(vstd::bits::low_bits_mask);
    }
}

/// Values go into a word from the lowest bits up; a full word goes out and the
/// next one starts empty, four bytes further.
pub proof fn words_gather(o: WordOutput, b: BusState, val: u32, width: u32)
    requires
        o.bits < 32,
        width <= 0xFF,
        o.buffer < pow2(o.bits as nat),
        val * pow2(o.bits as nat) <= 0xFFFF_FFFF,
    ensures
        ({
            let word = (o.buffer + val * pow2(o.bits as nat)) as u32;
            let r = o.put(b, val, width);
            &&& o.buffer + val * pow2(o.bits as nat) <= 0xFFFF_FFFF
            &&& o.bits + width < 32 ==> r.1 == b && r.0.buffer == word && r.0.bits == o.bits
                + width && r.0.dst == o.dst
            &&& o.bits + width >= 32 ==> r.1 == b.write32(o.dst, word) && r.0.buffer == 0
                && r.0.bits == 0 && r.0.dst == (o.dst + 4) % 0x1_0000_0000
        }),
{
    vstd::bits::lemma_u32_shl_is_mul(val, o.bits);
    vstd::arithmetic::power2::lemma2_to64();
    vstd::arithmetic::power2::lemma_pow2_pos(o.bits as nat);
    if o.bits < 31 {
        vstd::arithmetic::power2::lemma_pow2_strictly_increases(o.bits as nat, 31);
    }
    assert(1 * pow2(o.bits as nat) == pow2(o.bits as nat));
    vstd::bits::lemma_u32_shl_is_mul(1, o.bits);
    gathered(o.buffer, val, o.bits, 0, 0);
}

proof fn gathered(b: u32, v: u32, n: u32, p: u8, q: u8)
    by (bit_vector)
    ensures
        (((p as u32) & 0xF) << 8) | (q as u32) == ((p as u32) % 16) * 256 + (q as u32),
        n < 32 && b < (1u32 << n) ==> b | (v << n) == b + (v << n),
{
}

/// A bit of Huffman data chooses one of two neighbours behind the tree's root:
/// the offset in its low six bits counts pairs. A child that its bit of the
/// root marks is a value and goes out; else the bit only moves on.
pub proof fn huffman_bits(d: Decoding, tree: u32, width: u32, one: bool)
    requires
        tree <= 0xFFFF_FF00,
    ensures
        ({
            let node = d.bus.read8(tree);
            let pair = tree + 2 + 2 * (node.0 % 64);
            let mark = if one {
                node.0 / 64 % 2 == 1
            } else {
                node.0 / 128 % 2 == 1
            };
            let child = node.1.read8(
                (pair + (if one {
                    1int
                } else {
                    0
                })) as u32,
            );
            let r = d.bit(tree, width, one);
            &&& !mark ==> r == (Decoding { bus: node.1, ..d })
            &&& mark ==> r.out == d.out.put(child.1, child.0 as u32, width).0 && r.bus == d.out.put(
                child.1,
                child.0 as u32,
                width,
            ).1 && r.src == d.src
        }),
{
    let node = d.bus.read8(tree);
    node_fields(node.0);
}

proof fn node_fields(y: u8)
    ensures
        y & 0x3F == y % 64,
        y & 0x40 != 0 <==> y / 64 % 2 == 1,
        y & 0x80 != 0 <==> y / 128 % 2 == 1,
{
    bits::byte_fields(y, 0);
}

/// The start of a rotated background: the middle of the texture less the
/// matrix applied to the middle of the screen, modulo 2^32.
pub proof fn backgrounds_start(e: BgEntry, m: Matrix)
    ensures
        e.start(m).0 == (e.cx - m.pa * e.disp_x - m.pb * e.disp_y) % 0x1_0000_0000,
        e.start(m).1 == (e.cy - m.pc * e.disp_x - m.pd * e.disp_y) % 0x1_0000_0000,
{
    small_product(m.pa as int, e.disp_x as int);
    small_product(m.pb as int, e.disp_y as int);
    small_product(m.pc as int, e.disp_x as int);
    small_product(m.pd as int, e.disp_y as int);
    cut_to_word(e.cx - (m.pa * e.disp_x + m.pb * e.disp_y));
    cut_to_word(e.cy - (m.pc * e.disp_x + m.pd * e.disp_y));
}

proof fn small_product(p: int, x: int)
    by (nonlinear_arith)
    requires
        -0x8000 <= p <= 0x7FFF,
        -0x8000 <= x <= 0x7FFF,
    ensures
        -0x4000_0000 <= p * x <= 0x4000_0000,
{
}

/// Which memories RegisterRamReset clears: a bit each for the two work
/// memories, of the fast one all but the last 512 bytes, the palette, video
/// memory and object memory.
pub proof fn resets_choose_memory(c: Cpu, b: BusState)
    ensures
        ({
            let f = c.regs[0];
            let k = |on: bool, t: BusState, at: u32, bytes: int|
                if on {
                    super::cleared32(t, at, (bytes / 4) as nat)
                } else {
                    t
                };
            let b1 = k(f % 2 == 1, b, 0x0200_0000, 0x4_0000);
            let b2 = k(f / 2 % 2 == 1, b1, 0x0300_0000, 0x8000 - 512);
            let b3 = k(f / 4 % 2 == 1, b2, 0x0500_0000, 1024);
            let b4 = k(f / 8 % 2 == 1, b3, 0x0600_0000, 0x1_8000);
            super::ram_reset(c, b) == k(f / 16 % 2 == 1, b4, 0x0700_0000, 1024)
        }),
{
    laws::address_bits(c.regs[0], 0, 0, 0);
}

/// The numbers of the calls.
pub proof fn call_numbers(c: Cpu, b: BusState)
    ensures
        calls::called(c, b, 0x00) == super::soft_reset(c, b),
        calls::called(c, b, 0x01) == (c, super::ram_reset(c, b)),
        calls::called(c, b, 0x02) == (Cpu { halted: true, ..c }, b),
        calls::called(c, b, 0x03) == (Cpu { halted: true, ..c }, b),
        calls::called(c, b, 0x04) == super::intr_wait(c, b),
        calls::called(c, b, 0x06) == calls::basic_call(c, b, 6),
        calls::called(c, b, 0x07) == calls::basic_call(c, b, 7),
        calls::called(c, b, 0x08) == calls::basic_call(c, b, 8),
        calls::called(c, b, 0x0B) == (c, copy::cpu_set(c, b)),
        calls::called(c, b, 0x0C) == (c, copy::cpu_fast_set(c, b)),
        calls::called(c, b, 0x0E) == super::affine::bg_affine_at(c, b, 0),
        calls::called(c, b, 0x0F) == super::affine::obj_affine_at(c, b, 0),
        calls::called(c, b, 0x10) == (c, super::widen::bit_unpacked(c, b)),
        calls::called(c, b, 0x11) == (c, super::unpack::lz77(b, c.regs[0], c.regs[1], false)),
        calls::called(c, b, 0x12) == (c, super::unpack::lz77(b, c.regs[0], c.regs[1], true)),
        calls::called(c, b, 0x13) == (c, super::widen::huffman_unpacked(c, b)),
        calls::called(c, b, 0x14) == (
            c,
            super::unpack::run_lengths(b, c.regs[0], c.regs[1], false),
        ),
        calls::called(c, b, 0x15) == (c, super::unpack::run_lengths(b, c.regs[0], c.regs[1], true)),
        forall|n: u8| n > 0x15 ==> #[trigger] calls::called(c, b, n) == (c, b),
{
    reveal(calls::called);
}

/// A reference in LZ77 data goes back by the low four bits of its first byte
/// and all of its second, plus one, and copies three bytes more than the high
/// four bits say.
pub proof fn references_go_back(t: Text)
    ensures
        ({
            let p = t.next();
            let q = t.advanced().next();
            let back = p % 16 * 256 + q + 1;
            let next = t.advanced().advanced();
            &&& t.distance() == back
            &&& t.unit(true) == (Text {
                sound: t.sound && back <= t.out.len(),
                ..next
            }).repeated(back as nat, (p / 16 + 3) as nat)
            &&& t.unit(false) == t.advanced().with(p)
        }),
{
    gathered(0, 0, 0, t.next(), t.advanced().next());
    bits::byte_fields(t.next(), 0);
}

/// A run has its length in the low seven bits of its first byte: with the top
/// bit set the next byte repeats three times more, else as many bytes and one
/// follow as they are.
pub proof fn runs_have_lengths(t: Text)
    ensures
        ({
            let f = t.next();
            let r = t.advanced();
            &&& f >= 128 ==> t.run() == r.advanced().filled(r.next(), (f - 128 + 3) as nat)
            &&& f < 128 ==> t.run() == r.copied((f + 1) as nat)
        }),
{
    bits::byte_fields(t.next(), 0);
}

} // verus!

//! The calls that gather small values to words: BitUnPack and HuffUnComp.

use vstd::prelude::*;

use crate::arm7tdmi::Cpu;
use crate::bits;
use crate::bus::{Bus, BusState};

verus! {

broadcast use bits::group_and_bounds;

/// Values of some bits each, gathered to words.
#[derive(Debug, Clone, Copy, PartialEq, Eq, Structural)]
pub struct WordOutput {
    pub dst: u32,
    pub buffer: u32,
    /// How many bits of the buffer are taken.
    pub bits: u32,
    /// How many words went out.
    pub words: u32,
}

impl WordOutput {
    pub open spec fn begin(dst: u32) -> WordOutput {
        WordOutput { dst, buffer: 0, bits: 0, words: 0 }
    }

    /// Output and bus after a value of `width` bits was added. Once the buffer
    /// holds 32 bits it is written and starts empty.
    pub open spec fn put(self, b: BusState, val: u32, width: u32) -> (WordOutput, BusState) {
        let buffer = self.buffer | (val << self.bits);
        if self.bits + width >= 32 {
            (
                WordOutput {
                    dst: self.dst.wrapping_add(4),
                    buffer: 0,
                    bits: 0,
                    words: self.words.wrapping_add(1),
                },
                b.write32(self.dst, buffer),
            )
        } else {
            (WordOutput { buffer, bits: (self.bits + width) as u32, ..self }, b)
        }
    }

    fn put_value(&mut self, bus: &mut Bus, val: u32, width: u32)
        requires
            old(bus).wf(),
            old(self).bits < 32,
            width <= 0xFF,
        ensures
            final(bus).wf(),
            (*final(self), final(bus)@) == old(self).put(old(bus)@, val, width),
            final(self).bits < 32,
    {
        self.buffer = self.buffer | (val << self.bits);
        self.bits = self.bits + width;
        if self.bits >= 32 {
            bus.write32(self.dst, self.buffer);
            self.dst = self.dst.wrapping_add(4);
            self.buffer = 0;
            self.bits = 0;
            self.words = self.words.wrapping_add(1);
        }
    }
}

/// What BitUnPack is told by the block at R2.
#[derive(Debug, Clone, Copy, PartialEq, Eq, Structural)]
pub struct UnpackInfo {
    pub src_len: u32,
    pub src_width: u8,
    pub dst_width: u8,
    /// Added to every value; to zero only if bit 31 is set.
    pub data_offset: u32,
}

impl UnpackInfo {
    pub open spec fn read(b: BusState, addr: u32) -> (UnpackInfo, BusState) {
        let len = b.read16(addr);
        let sw = len.1.read8(addr.wrapping_add(2));
        let dw = sw.1.read8(addr.wrapping_add(3));
        let off = dw.1.read32(addr.wrapping_add(4));
        (
            UnpackInfo {
                src_len: len.0 as u32,
                src_width: sw.0,
                dst_width: dw.0,
                data_offset: off.0,
            },
            off.1,
        )
    }

    fn load(bus: &mut Bus, addr: u32) -> (info: UnpackInfo)
        requires
            old(bus).wf(),
        ensures
            final(bus).wf(),
            (info, final(bus)@) == UnpackInfo::read(old(bus)@, addr),
            info.src_len <= 0xFFFF,
    {
        let src_len: u32 = bus.read16(addr) as u32;
        let src_width: u8 = bus.read8(addr.wrapping_add(2));
        let dst_width: u8 = bus.read8(addr.wrapping_add(3));
        let data_offset: u32 = bus.read32(addr.wrapping_add(4));
        UnpackInfo { src_len, src_width, dst_width, data_offset }
    }

    /// The value of `src_width` bits at bit `k` of a byte. Of a width of 32
    /// and more only the low five bits count.
    pub open spec fn unit(self, byte: u8, k: int) -> u32 {
        ((byte >> (k as u8)) as u32) & (((1u32 << ((self.src_width % 32) as u32)) - 1) as u32)
    }

    /// What goes out for a value.
    pub open spec fn widened(self, val: u32) -> u32 {
        if val == 0 && self.data_offset & (1u32 << 31) == 0 {
            0
        } else {
            (val + (self.data_offset & 0x7FFF_FFFF)) as u32
        }
    }

    fn widen(&self, byte: u8, k: u8) -> (val: u32)
        requires
            k < 8,
        ensures
            val == self.widened(self.unit(byte, k as int)),
    {
        let shift: u32 = (self.src_width % 32) as u32;
        proof {
            one_shifted(shift);
        }
        let mask: u32 = (1u32 << shift) - 1;
        let small: u32 = (byte >> k) as u32;
        proof {
            shifted_byte(byte, k);
        }
        let val: u32 = small & mask;
        if val == 0 && self.data_offset & (1u32 << 31) == 0 {
            0
        } else {
            val + (self.data_offset & 0x7FFF_FFFF)
        }
    }

    /// Output and bus after the values of a byte from bit `k` on.
    pub open spec fn byte_done(self, o: WordOutput, b: BusState, byte: u8, k: int) -> (
        WordOutput,
        BusState,
    )
        decreases
                if k < 8 {
                    8 - k
                } else {
                    0
                },
    {
        if k >= 8 || self.src_width == 0 {
            (o, b)
        } else {
            let r = o.put(b, self.widened(self.unit(byte, k)), self.dst_width as u32);
            self.byte_done(r.0, r.1, byte, k + self.src_width)
        }
    }

    /// Output and bus after the first `n` bytes from `src`.
    pub open spec fn bytes_done(self, o: WordOutput, b: BusState, src: u32, n: nat) -> (
        WordOutput,
        BusState,
    )
        decreases n,
    {
        if n == 0 {
            (o, b)
        } else {
            let t = self.bytes_done(o, b, src, (n - 1) as nat);
            let r = t.1.read8(src.wrapping_add((n - 1) as u32));
            self.byte_done(t.0, r.1, r.0, 0)
        }
    }

    fn unpack_byte(&self, out: &mut WordOutput, bus: &mut Bus, byte: u8)
        requires
            old(bus).wf(),
            old(out).bits < 32,
            self.src_width > 0,
        ensures
            final(bus).wf(),
            final(out).bits < 32,
            (*final(out), final(bus)@) == self.byte_done(*old(out), old(bus)@, byte, 0),
    {
        let ghost o0 = *out;
        let ghost b0 = bus@;
        let mut k: u32 = 0;
        while k < 8
            invariant
                bus.wf(),
                out.bits < 32,
                self.src_width > 0,
                k <= 8 + 255,
                self.byte_done(*out, bus@, byte, k as int) == self.byte_done(o0, b0, byte, 0),
            decreases 8 + 255 - k,
        {
            let val: u32 = self.widen(byte, k as u8);
            out.put_value(bus, val, self.dst_width as u32);
            k = k + self.src_width as u32;
        }
    }
}

proof fn one_shifted(k: u32)
    by (bit_vector)
    ensures
        k < 32 ==> 1u32 << k >= 1,
{
}

proof fn shifted_byte(byte: u8, k: u8)
    ensures
        k < 8 ==> byte >> k <= 0xFF,
{
    crate::bits::byte_fields(byte, k);
}

/// BitUnPack: the bytes at R0, as values of the source width, to words at R1,
/// as values of the destination width. A last word that is not full goes out
/// too. Nothing happens if a width is zero.
pub open spec fn bit_unpacked(c: Cpu, b: BusState) -> BusState {
    let info = UnpackInfo::read(b, c.regs[2]);
    if info.0.src_width == 0 || info.0.dst_width == 0 {
        info.1
    } else {
        let r = info.0.bytes_done(
            WordOutput::begin(c.regs[1]),
            info.1,
            c.regs[0],
            info.0.src_len as nat,
        );
        if r.0.bits > 0 {
            r.1.write32(r.0.dst, r.0.buffer)
        } else {
            r.1
        }
    }
}

pub fn swi_bit_unpack(cpu: &Cpu, bus: &mut Bus)
    requires
        old(bus).wf(),
    ensures
        final(bus).wf(),
        final(bus)@ == bit_unpacked(*cpu, old(bus)@),
{
    let src: u32 = cpu.regs[0];
    let info = UnpackInfo::load(bus, cpu.regs[2]);
    if info.src_width == 0 || info.dst_width == 0 {
        return;
    }
    let mut out = WordOutput { dst: cpu.regs[1], buffer: 0, bits: 0, words: 0 };
    let ghost o0 = out;
    let ghost b0 = bus@;
    let mut pos: u32 = 0;
    while pos < info.src_len
        invariant
            pos <= info.src_len,
            bus.wf(),
            out.bits < 32,
            info.src_width > 0,
            (out, bus@) == info.bytes_done(o0, b0, src, pos as nat),
        decreases info.src_len - pos,
    {
        let byte: u8 = bus.read8(src.wrapping_add(pos));
        info.unpack_byte(&mut out, bus, byte);
        pos = pos + 1;
    }
    if out.bits > 0 {
        bus.write32(out.dst, out.buffer);
    }
}

/// How many source words HuffUnComp reads at most: more than any machine gets
/// through, so that every call that comes to an end runs to it.
pub const HUFFMAN_WORD_LIMIT: u64 = 0xFFFF_FFFF_FFFF_FFFF;

/// A Huffman decoder at work.
#[verifier::ext_equal]
pub struct Decoding {
    pub out: WordOutput,
    /// Bytes still to go out.
    pub remaining: u32,
    /// Where the next source word is.
    pub src: u32,
    pub bus: BusState,
}

impl Decoding {
    /// One bit. It names a child of the root node at `tree`; if that child is
    /// marked as data, its value of `width` bits goes out.
    pub open spec fn bit(self, tree: u32, width: u32, one: bool) -> Decoding {
        let node = self.bus.read8(tree);
        let child = tree.wrapping_add(
            (((node.0 & 0x3F) + 1) * 2 + (if one { 1int } else { 0 })) as u32,
        );
        if node.0 & (if one { 0x40u8 } else { 0x80u8 }) != 0 {
            let leaf = node.1.read8(child);
            let r = self.out.put(leaf.1, leaf.0 as u32, width);
            Decoding {
                out: r.0,
                bus: r.1,
                src: self.src,
                remaining: if r.0.words != self.out.words {
                    if self.remaining >= 4 {
                        (self.remaining - 4) as u32
                    } else {
                        0
                    }
                } else {
                    self.remaining
                },
            }
        } else {
            Decoding { bus: node.1, ..self }
        }
    }

    /// The first `k` bits of a source word, highest first.
    pub open spec fn word_bits(self, tree: u32, width: u32, data: u32, k: nat) -> Decoding
        decreases k,
    {
        if k == 0 {
            self
        } else {
            let t = self.word_bits(tree, width, data, (k - 1) as nat);
            if t.remaining == 0 {
                t
            } else {
                t.bit(tree, width, (data >> ((32 - k) as u32)) & 1 != 0)
            }
        }
    }

    /// The first `n` source words.
    pub open spec fn words(self, tree: u32, width: u32, n: nat) -> Decoding
        decreases n,
    {
        if n == 0 {
            self
        } else {
            let t = self.words(tree, width, (n - 1) as nat);
            if t.remaining == 0 {
                t
            } else {
                let data = t.bus.read32(t.src);
                Decoding { bus: data.1, src: t.src.wrapping_add(4), ..t }.word_bits(tree, width, data.0, 32)
            }
        }
    }
}

proof fn words_stay_done(s: Decoding, tree: u32, width: u32, m: nat, n: nat)
    requires
        m <= n,
        s.words(tree, width, m).remaining == 0,
    ensures
        s.words(tree, width, n) == s.words(tree, width, m),
    decreases n,
{
    if m < n {
        words_stay_done(s, tree, width, m, (n - 1) as nat);
    }
}

/// The executable side of `Decoding`.
struct Decoder {
    out: WordOutput,
    remaining: u32,
    src: u32,
}

impl Decoder {
    spec fn at(self, b: BusState) -> Decoding {
        Decoding { out: self.out, remaining: self.remaining, src: self.src, bus: b }
    }

    fn bit(&mut self, bus: &mut Bus, tree: u32, width: u32, one: bool)
        requires
            old(bus).wf(),
            old(self).out.bits < 32,
            width <= 0xF,
        ensures
            final(bus).wf(),
            final(self).out.bits < 32,
            final(self).at(final(bus)@) == old(self).at(old(bus)@).bit(tree, width, one),
    {
        let node: u8 = bus.read8(tree);
        let pair: u32 = ((node & 0x3F) as u32 + 1) * 2;
        let child: u32 = tree.wrapping_add(
            if one {
                pair + 1
            } else {
                pair
            },
        );
        let leaf_flag: u8 = if one {
            0x40
        } else {
            0x80
        };
        if node & leaf_flag != 0 {
            let leaf: u32 = bus.read8(child) as u32;
            let words: u32 = self.out.words;
            self.out.put_value(bus, leaf, width);
            if self.out.words != words {
                self.remaining =
                if self.remaining >= 4 {
                    self.remaining - 4
                } else {
                    0
                };
            }
        }
    }

    fn word(&mut self, bus: &mut Bus, tree: u32, width: u32, data: u32)
        requires
            old(bus).wf(),
            old(self).out.bits < 32,
            width <= 0xF,
        ensures
            final(bus).wf(),
            final(self).out.bits < 32,
            final(self).at(final(bus)@) == old(self).at(old(bus)@).word_bits(
                tree,
                width,
                data,
                32,
            ),
    {
        let ghost s0 = self.at(bus@);
        let mut k: u32 = 0;
        while k < 32
            invariant
                k <= 32,
                bus.wf(),
                self.out.bits < 32,
                width <= 0xF,
                self.at(bus@) == s0.word_bits(tree, width, data, k as nat),
            decreases 32 - k,
        {
            if self.remaining > 0 {
                self.bit(bus, tree, width, (data >> (31 - k)) & 1 != 0);
            }
            k = k + 1;
        }
    }
}

impl Decoder {
    fn all_words(&mut self, bus: &mut Bus, tree: u32, width: u32)
        requires
            old(bus).wf(),
            old(self).out.bits < 32,
            width <= 0xF,
        ensures
            final(bus).wf(),
            final(self).at(final(bus)@) == old(self).at(old(bus)@).words(
                tree,
                width,
                HUFFMAN_WORD_LIMIT as nat,
            ),
    {
        let ghost s0 = self.at(bus@);
        let mut n: u64 = 0;
        while n < HUFFMAN_WORD_LIMIT && self.remaining > 0
            invariant
                n <= HUFFMAN_WORD_LIMIT,
                bus.wf(),
                self.out.bits < 32,
                width <= 0xF,
                self.at(bus@) == s0.words(tree, width, n as nat),
            decreases HUFFMAN_WORD_LIMIT - n,
        {
            let data: u32 = bus.read32(self.src);
            self.src = self.src.wrapping_add(4);
            self.word(bus, tree, width, data);
            n = n + 1;
        }
        proof {
            if self.remaining == 0 {
                words_stay_done(s0, tree, width, n as nat, HUFFMAN_WORD_LIMIT as nat);
            }
        }
    }
}

/// HuffUnComp: the header at R0 gives the size and the width of a value, then
/// comes the tree with its size, then the data. Output goes to R1.
pub open spec fn huffman_unpacked(c: Cpu, b: BusState) -> BusState {
    let src = c.regs[0];
    let header = b.read32(src);
    let tree_size = header.1.read8(src.wrapping_add(4));
    let tree = src.wrapping_add(5);
    let data = tree.wrapping_add(((tree_size.0 + 1) * 2) as u32).wrapping_sub(1).wrapping_add(3)
        & !3u32;
    Decoding {
        out: WordOutput::begin(c.regs[1]),
        remaining: header.0 >> 8,
        src: data,
        bus: tree_size.1,
    }.words(tree, (header.0 >> 4) & 0xF, HUFFMAN_WORD_LIMIT as nat).bus
}

pub fn swi_huffman_uncomp(cpu: &Cpu, bus: &mut Bus)
    requires
        old(bus).wf(),
    ensures
        final(bus).wf(),
        final(bus)@ == huffman_unpacked(*cpu, old(bus)@),
{
    let src: u32 = cpu.regs[0];
    let header: u32 = bus.read32(src);
    let width: u32 = (header >> 4) & 0xF;
    let tree_size: u32 = (bus.read8(src.wrapping_add(4)) as u32 + 1) * 2;
    let tree: u32 = src.wrapping_add(5);
    let data: u32 = tree.wrapping_add(tree_size).wrapping_sub(1).wrapping_add(3) & !3u32;
    let mut d = Decoder {
        out: WordOutput { dst: cpu.regs[1], buffer: 0, bits: 0, words: 0 },
        remaining: header >> 8,
        src: data,
    };
    d.all_words(bus, tree, width);
}

} // verus!

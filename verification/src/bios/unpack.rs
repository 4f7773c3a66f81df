//! The decompression calls: LZ77, run lengths and bit widening.

use vstd::prelude::*;

use crate::arm7tdmi::Cpu;
use crate::bits;
use crate::bus::{Bus, BusState};

verus! {

broadcast use bits::group_and_bounds;

/// Where a decompressor writes. Video memory takes no bytes, so there two are
/// gathered to a halfword before it is written.
#[derive(Debug, Clone, Copy, PartialEq, Eq, Structural)]
pub struct Output {
    pub dst: u32,
    pub remaining: u32,
    pub to_vram: bool,
    /// The gathered low byte.
    pub buffer: u16,
    pub half_full: bool,
}

impl Output {
    /// Output and bus after one byte went out.
    pub open spec fn put(self, b: BusState, val: u8) -> (Output, BusState) {
        let moved = Output {
            dst: self.dst.wrapping_add(1),
            remaining: (self.remaining - 1) as u32,
            ..self
        };
        if !self.to_vram {
            (moved, b.write8(self.dst, val))
        } else if !self.half_full {
            (Output { buffer: val as u16, half_full: true, ..moved }, b)
        } else {
            let half = self.buffer | ((val as u16) << 8);
            (Output { buffer: half, half_full: false, ..moved }, b.write16(self.dst, half))
        }
    }

    fn put_byte(&mut self, bus: &mut Bus, val: u8)
        requires
            old(bus).wf(),
            old(self).remaining > 0,
        ensures
            final(bus).wf(),
            (*final(self), final(bus)@) == old(self).put(old(bus)@, val),
    {
        if !self.to_vram {
            bus.write8(self.dst, val);
        } else if !self.half_full {
            self.buffer = val as u16;
            self.half_full = true;
        } else {
            self.buffer = self.buffer | ((val as u16) << 8);
            bus.write16(self.dst, self.buffer);
            self.half_full = false;
        }
        self.dst = self.dst.wrapping_add(1);
        self.remaining = self.remaining - 1;
    }
}

/// A decompressor at work: its output, its place in the source, and the bus.
#[verifier::ext_equal]
pub struct Unpacking {
    pub out: Output,
    pub src: u32,
    pub bus: BusState,
}

impl Unpacking {
    /// The start: the size is in the upper 24 bits of the header at `src`.
    pub open spec fn begin(b: BusState, src: u32, dst: u32, to_vram: bool) -> Unpacking {
        let header = b.read32(src);
        Unpacking {
            out: Output {
                dst,
                remaining: header.0 >> 8,
                to_vram,
                buffer: 0,
                half_full: false,
            },
            src: src.wrapping_add(4),
            bus: header.1,
        }
    }

    /// One byte from the source.
    #[verifier::opaque]
    pub open spec fn take(self) -> (u8, Unpacking) {
        let r = self.bus.read8(self.src);
        (r.0, Unpacking { src: self.src.wrapping_add(1), bus: r.1, ..self })
    }

    /// One byte to the output.
    #[verifier::opaque]
    pub open spec fn give(self, val: u8) -> Unpacking {
        let r = self.out.put(self.bus, val);
        Unpacking { out: r.0, bus: r.1, ..self }
    }

    pub open spec fn done(self) -> bool {
        self.out.remaining == 0
    }

    /// Up to `n` bytes, each the one `offset` back in the output.
    pub open spec fn repeat(self, offset: u32, n: nat) -> Unpacking
        decreases n,
    {
        if n == 0 {
            self
        } else {
            let t = self.repeat(offset, (n - 1) as nat);
            if t.done() {
                t
            } else {
                let r = t.bus.read8(t.out.dst.wrapping_sub(offset));
                Unpacking { bus: r.1, ..t }.give(r.0)
            }
        }
    }

    /// Up to `n` times the byte `val`.
    pub open spec fn fill(self, val: u8, n: nat) -> Unpacking
        decreases n,
    {
        if n == 0 {
            self
        } else {
            let t = self.fill(val, (n - 1) as nat);
            if t.done() {
                t
            } else {
                t.give(val)
            }
        }
    }

    /// Up to `n` bytes straight from the source.
    pub open spec fn literals(self, n: nat) -> Unpacking
        decreases n,
    {
        if n == 0 {
            self
        } else {
            let t = self.literals((n - 1) as nat);
            if t.done() {
                t
            } else {
                t.take().1.give(t.take().0)
            }
        }
    }

    /// One LZ77 unit: a literal, or a reference of two bytes that give a length
    /// of 3 to 18 and a distance of 1 to 4096.
    pub open spec fn lz_unit(self, reference: bool) -> Unpacking {
        if reference {
            let first = self.take();
            let second = first.1.take();
            second.1.repeat(
                (((((first.0 as u32) & 0xF) << 8) | (second.0 as u32)) + 1) as u32,
                ((first.0 >> 4) + 3) as nat,
            )
        } else {
            self.take().1.give(self.take().0)
        }
    }

    /// The first `k` units that the flags of a block announce, highest flag
    /// first.
    pub open spec fn lz_units(self, flags: u8, k: nat) -> Unpacking
        decreases k,
    {
        if k == 0 {
            self
        } else {
            let t = self.lz_units(flags, (k - 1) as nat);
            if t.done() {
                t
            } else {
                t.lz_unit(flags & (0x80u8 >> ((k - 1) as u8)) != 0)
            }
        }
    }

    /// `n` LZ77 blocks: a byte of flags, then eight units.
    pub open spec fn lz_blocks(self, n: nat) -> Unpacking
        decreases n,
    {
        if n == 0 {
            self
        } else {
            let t = self.lz_blocks((n - 1) as nat);
            if t.done() {
                t
            } else {
                t.take().1.lz_units(t.take().0, 8)
            }
        }
    }

    /// One run: a byte repeated 3 to 130 times, or 1 to 128 literal bytes.
    pub open spec fn rl_run(self) -> Unpacking {
        let flag = self.take();
        if flag.0 & 0x80 != 0 {
            flag.1.take().1.fill(flag.1.take().0, ((flag.0 & 0x7F) + 3) as nat)
        } else {
            flag.1.literals(((flag.0 & 0x7F) + 1) as nat)
        }
    }

    /// `n` runs.
    pub open spec fn rl_runs(self, n: nat) -> Unpacking
        decreases n,
    {
        if n == 0 {
            self
        } else {
            let t = self.rl_runs((n - 1) as nat);
            if t.done() {
                t
            } else {
                t.rl_run()
            }
        }
    }

    /// How far the output has come: never further than it was to go.
    pub open spec fn progressed(self, from: Unpacking, least: int) -> bool {
        &&& self.out.remaining <= from.out.remaining
        &&& self.out.remaining <= (if from.out.remaining >= least {
            from.out.remaining - least
        } else {
            0
        })
        &&& self.out.dst == from.out.dst.wrapping_add(
            (from.out.remaining - self.out.remaining) as u32,
        )
    }
}

/// Taking a byte changes nothing of the output.
pub(crate) proof fn taken(s: Unpacking)
    ensures
        s.take().1.out == s.out,
{
    reveal(Unpacking::take);
}

/// Giving a byte moves the output on by one.
proof fn given(s: Unpacking, val: u8)
    ensures
        s.give(val).out.dst == s.out.dst.wrapping_add(1),
        s.give(val).out.remaining == (s.out.remaining - 1) as u32,
{
    reveal(Unpacking::give);
}

proof fn repeat_progress(s: Unpacking, offset: u32, n: nat)
    ensures
        s.repeat(offset, n).progressed(s, n as int),
    decreases n,
{
    if n > 0 {
        repeat_progress(s, offset, (n - 1) as nat);
        let t = s.repeat(offset, (n - 1) as nat);
        let r = t.bus.read8(t.out.dst.wrapping_sub(offset));
        given(Unpacking { bus: r.1, ..t }, r.0);
    }
}

proof fn fill_progress(s: Unpacking, val: u8, n: nat)
    ensures
        s.fill(val, n).progressed(s, n as int),
    decreases n,
{
    if n > 0 {
        fill_progress(s, val, (n - 1) as nat);
        given(s.fill(val, (n - 1) as nat), val);
    }
}

proof fn literals_progress(s: Unpacking, n: nat)
    ensures
        s.literals(n).progressed(s, n as int),
    decreases n,
{
    if n > 0 {
        literals_progress(s, (n - 1) as nat);
        let t = s.literals((n - 1) as nat);
        taken(t);
        given(t.take().1, t.take().0);
    }
}

proof fn lz_units_progress(s: Unpacking, flags: u8, k: nat)
    ensures
        s.lz_units(flags, k).progressed(s, k as int),
    decreases k,
{
    if k > 0 {
        lz_units_progress(s, flags, (k - 1) as nat);
        let t = s.lz_units(flags, (k - 1) as nat);
        let first = t.take();
        let second = first.1.take();
        taken(t);
        taken(first.1);
        given(first.1, first.0);
        repeat_progress(
            second.1,
            (((((first.0 as u32) & 0xF) << 8) | (second.0 as u32)) + 1) as u32,
            ((first.0 >> 4) + 3) as nat,
        );
    }
}

proof fn rl_run_progress(s: Unpacking)
    ensures
        s.rl_run().progressed(s, 1),
{
    let flag = s.take();
    taken(s);
    taken(flag.1);
    fill_progress(flag.1.take().1, flag.1.take().0, ((flag.0 & 0x7F) + 3) as nat);
    literals_progress(flag.1, ((flag.0 & 0x7F) + 1) as nat);
}

/// LZ77 makes progress with every block, so as many blocks as there are bytes
/// are enough: the output is then complete and has advanced by its size.
pub proof fn lz77_completes(s: Unpacking, n: nat)
    ensures
        s.lz_blocks(n).progressed(s, n as int),
        n >= s.out.remaining ==> s.lz_blocks(n).done() && s.lz_blocks(n).out.dst
            == s.out.dst.wrapping_add(s.out.remaining),
    decreases n,
{
    if n > 0 {
        lz77_completes(s, (n - 1) as nat);
        let t = s.lz_blocks((n - 1) as nat);
        taken(t);
        lz_units_progress(t.take().1, t.take().0, 8);
    }
}

/// Run lengths make progress with every run, so as many runs as there are
/// bytes are enough: the output is then complete and has advanced by its size.
pub proof fn run_lengths_complete(s: Unpacking, n: nat)
    ensures
        s.rl_runs(n).progressed(s, n as int),
        n >= s.out.remaining ==> s.rl_runs(n).done() && s.rl_runs(n).out.dst
            == s.out.dst.wrapping_add(s.out.remaining),
    decreases n,
{
    if n > 0 {
        run_lengths_complete(s, (n - 1) as nat);
        rl_run_progress(s.rl_runs((n - 1) as nat));
    }
}

proof fn lz_blocks_stay_done(s: Unpacking, m: nat, n: nat)
    requires
        m <= n,
        s.lz_blocks(m).done(),
    ensures
        s.lz_blocks(n) == s.lz_blocks(m),
    decreases n,
{
    if m < n {
        lz_blocks_stay_done(s, m, (n - 1) as nat);
    }
}

proof fn rl_runs_stay_done(s: Unpacking, m: nat, n: nat)
    requires
        m <= n,
        s.rl_runs(m).done(),
    ensures
        s.rl_runs(n) == s.rl_runs(m),
    decreases n,
{
    if m < n {
        rl_runs_stay_done(s, m, (n - 1) as nat);
    }
}

/// The executable side of `Unpacking`.
struct Unpacker {
    out: Output,
    src: u32,
}

impl Unpacker {
    spec fn at(self, b: BusState) -> Unpacking {
        Unpacking { out: self.out, src: self.src, bus: b }
    }

    fn begin(bus: &mut Bus, src: u32, dst: u32, to_vram: bool) -> (u: Unpacker)
        requires
            old(bus).wf(),
        ensures
            final(bus).wf(),
            u.at(final(bus)@) == Unpacking::begin(old(bus)@, src, dst, to_vram),
    {
        let header: u32 = bus.read32(src);
        Unpacker {
            out: Output {
                dst,
                remaining: header >> 8,
                to_vram,
                buffer: 0,
                half_full: false,
            },
            src: src.wrapping_add(4),
        }
    }

    fn take(&mut self, bus: &mut Bus) -> (val: u8)
        requires
            old(bus).wf(),
        ensures
            final(bus).wf(),
            (val, final(self).at(final(bus)@)) == old(self).at(old(bus)@).take(),
            final(self).out == old(self).out,
    {
        reveal(Unpacking::take);
        let val: u8 = bus.read8(self.src);
        self.src = self.src.wrapping_add(1);
        val
    }

    fn give(&mut self, bus: &mut Bus, val: u8)
        requires
            old(bus).wf(),
            old(self).out.remaining > 0,
        ensures
            final(bus).wf(),
            final(self).at(final(bus)@) == old(self).at(old(bus)@).give(val),
    {
        reveal(Unpacking::give);
        self.out.put_byte(bus, val);
    }

    fn repeat(&mut self, bus: &mut Bus, offset: u32, n: u32)
        requires
            old(bus).wf(),
        ensures
            final(bus).wf(),
            final(self).at(final(bus)@) == old(self).at(old(bus)@).repeat(offset, n as nat),
    {
        let ghost s0 = self.at(bus@);
        let mut i: u32 = 0;
        while i < n
            invariant
                i <= n,
                bus.wf(),
                self.at(bus@) == s0.repeat(offset, i as nat),
            decreases n - i,
        {
            if self.out.remaining > 0 {
                let val: u8 = bus.read8(self.out.dst.wrapping_sub(offset));
                self.give(bus, val);
            }
            i = i + 1;
        }
    }

    fn fill(&mut self, bus: &mut Bus, val: u8, n: u32)
        requires
            old(bus).wf(),
        ensures
            final(bus).wf(),
            final(self).at(final(bus)@) == old(self).at(old(bus)@).fill(val, n as nat),
    {
        let ghost s0 = self.at(bus@);
        let mut i: u32 = 0;
        while i < n
            invariant
                i <= n,
                bus.wf(),
                self.at(bus@) == s0.fill(val, i as nat),
            decreases n - i,
        {
            if self.out.remaining > 0 {
                self.give(bus, val);
            }
            i = i + 1;
        }
    }

    fn literals(&mut self, bus: &mut Bus, n: u32)
        requires
            old(bus).wf(),
        ensures
            final(bus).wf(),
            final(self).at(final(bus)@) == old(self).at(old(bus)@).literals(n as nat),
    {
        let ghost s0 = self.at(bus@);
        let mut i: u32 = 0;
        while i < n
            invariant
                i <= n,
                bus.wf(),
                self.at(bus@) == s0.literals(i as nat),
            decreases n - i,
        {
            if self.out.remaining > 0 {
                let val: u8 = self.take(bus);
                self.give(bus, val);
            }
            i = i + 1;
        }
    }

    fn lz_unit(&mut self, bus: &mut Bus, reference: bool)
        requires
            old(bus).wf(),
            old(self).out.remaining > 0,
        ensures
            final(bus).wf(),
            final(self).at(final(bus)@) == old(self).at(old(bus)@).lz_unit(reference),
    {
        if reference {
            let first: u8 = self.take(bus);
            let second: u8 = self.take(bus);
            proof {
                reference_bounds(first, second);
            }
            let offset: u32 = ((((first as u32) & 0xF) << 8) | (second as u32)) + 1;
            self.repeat(bus, offset, (first >> 4) as u32 + 3);
        } else {
            let val: u8 = self.take(bus);
            self.give(bus, val);
        }
    }

    fn lz_block(&mut self, bus: &mut Bus, flags: u8)
        requires
            old(bus).wf(),
        ensures
            final(bus).wf(),
            final(self).at(final(bus)@) == old(self).at(old(bus)@).lz_units(flags, 8),
    {
        let ghost s0 = self.at(bus@);
        let mut k: u8 = 0;
        while k < 8
            invariant
                k <= 8,
                bus.wf(),
                self.at(bus@) == s0.lz_units(flags, k as nat),
            decreases 8 - k,
        {
            if self.out.remaining > 0 {
                self.lz_unit(bus, flags & (0x80u8 >> k) != 0);
            }
            k = k + 1;
        }
    }
}

pub(crate) proof fn reference_bounds(first: u8, second: u8)
    by (bit_vector)
    ensures
        (((first as u32) & 0xF) << 8) | (second as u32) <= 0xFFF,
        first >> 4 <= 0xF,
{
}

/// What LZ77 decompression from `src` to `dst` leaves on the bus.
#[verifier::opaque]
pub open spec fn lz77(b: BusState, src: u32, dst: u32, to_vram: bool) -> BusState {
    let s = Unpacking::begin(b, src, dst, to_vram);
    s.lz_blocks(s.out.remaining as nat).bus
}

fn lz77_decompress(src: u32, dst: u32, bus: &mut Bus, to_vram: bool)
    requires
        old(bus).wf(),
    ensures
        final(bus).wf(),
        final(bus)@ == lz77(old(bus)@, src, dst, to_vram),
{
    reveal(lz77);
    let mut u = Unpacker::begin(bus, src, dst, to_vram);
    let ghost s0 = u.at(bus@);
    let ghost mut n: nat = 0;
    while u.out.remaining > 0
        invariant
            bus.wf(),
            u.at(bus@) == s0.lz_blocks(n),
            n + u.out.remaining <= s0.out.remaining,
        decreases u.out.remaining,
    {
        proof {
            lz77_completes(s0, n);
            let t = s0.lz_blocks(n);
            taken(t);
            lz_units_progress(t.take().1, t.take().0, 8);
            n = n + 1;
        }
        let flags: u8 = u.take(bus);
        u.lz_block(bus, flags);
    }
    proof {
        lz_blocks_stay_done(s0, n, s0.out.remaining as nat);
    }
}

/// LZ77UnCompWram: from R0 to R1, byte by byte.
pub fn swi_lz77_uncomp_wram(cpu: &Cpu, bus: &mut Bus)
    requires
        old(bus).wf(),
    ensures
        final(bus).wf(),
        final(bus)@ == lz77(old(bus)@, cpu.regs[0], cpu.regs[1], false),
{
    lz77_decompress(cpu.regs[0], cpu.regs[1], bus, false);
}

/// LZ77UnCompVram: from R0 to R1, by halfwords.
pub fn swi_lz77_uncomp_vram(cpu: &Cpu, bus: &mut Bus)
    requires
        old(bus).wf(),
    ensures
        final(bus).wf(),
        final(bus)@ == lz77(old(bus)@, cpu.regs[0], cpu.regs[1], true),
{
    lz77_decompress(cpu.regs[0], cpu.regs[1], bus, true);
}

/// What run-length decompression from `src` to `dst` leaves on the bus.
#[verifier::opaque]
pub open spec fn run_lengths(b: BusState, src: u32, dst: u32, to_vram: bool) -> BusState {
    let s = Unpacking::begin(b, src, dst, to_vram);
    s.rl_runs(s.out.remaining as nat).bus
}

fn rl_decompress(src: u32, dst: u32, bus: &mut Bus, to_vram: bool)
    requires
        old(bus).wf(),
    ensures
        final(bus).wf(),
        final(bus)@ == run_lengths(old(bus)@, src, dst, to_vram),
{
    reveal(run_lengths);
    let mut u = Unpacker::begin(bus, src, dst, to_vram);
    let ghost s0 = u.at(bus@);
    let ghost mut n: nat = 0;
    while u.out.remaining > 0
        invariant
            bus.wf(),
            u.at(bus@) == s0.rl_runs(n),
            n + u.out.remaining <= s0.out.remaining,
        decreases u.out.remaining,
    {
        proof {
            run_lengths_complete(s0, n);
            rl_run_progress(s0.rl_runs(n));
            n = n + 1;
        }
        let flag: u8 = u.take(bus);
        let length: u32 = (flag & 0x7F) as u32;
        if flag & 0x80 != 0 {
            let val: u8 = u.take(bus);
            u.fill(bus, val, length + 3);
        } else {
            u.literals(bus, length + 1);
        }
    }
    proof {
        rl_runs_stay_done(s0, n, s0.out.remaining as nat);
    }
}

/// RLUnCompWram: from R0 to R1, byte by byte.
pub fn swi_rl_uncomp_wram(cpu: &Cpu, bus: &mut Bus)
    requires
        old(bus).wf(),
    ensures
        final(bus).wf(),
        final(bus)@ == run_lengths(old(bus)@, cpu.regs[0], cpu.regs[1], false),
{
    rl_decompress(cpu.regs[0], cpu.regs[1], bus, false);
}

/// RLUnCompVram: from R0 to R1, by halfwords.
pub fn swi_rl_uncomp_vram(cpu: &Cpu, bus: &mut Bus)
    requires
        old(bus).wf(),
    ensures
        final(bus).wf(),
        final(bus)@ == run_lengths(old(bus)@, cpu.regs[0], cpu.regs[1], true),
{
    rl_decompress(cpu.regs[0], cpu.regs[1], bus, true);
}

} // verus!

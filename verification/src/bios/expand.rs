//! What the decompression calls make of their source: the text that a packed
//! stream stands for ends up in work RAM.

use vstd::prelude::*;

use crate::bits;
use crate::bus::{self, BusState};

use super::unpack::{self, Unpacking};

verus! {

broadcast use bits::group_and_bounds;

/// A stream that is being read: how much text there is to be, the text so far,
/// and the place in the stream.
pub struct Text {
    pub data: spec_fn(nat) -> u8,
    pub size: nat,
    pub out: Seq<u8>,
    pub pos: nat,
    /// Whether every reference so far pointed into the text.
    pub sound: bool,
}

impl Text {
    /// The start of a stream.
    pub open spec fn begin(data: spec_fn(nat) -> u8, size: nat) -> Text {
        Text { data, size, out: Seq::empty(), pos: 0, sound: true }
    }

    pub open spec fn done(self) -> bool {
        self.out.len() >= self.size
    }

    pub open spec fn next(self) -> u8 {
        (self.data)(self.pos)
    }

    pub open spec fn advanced(self) -> Text {
        Text { pos: self.pos + 1, ..self }
    }

    pub open spec fn with(self, val: u8) -> Text {
        Text { out: self.out.push(val), ..self }
    }

    /// `n` more bytes, each the one `offset` back, but not past the end.
    pub open spec fn repeated(self, offset: nat, n: nat) -> Text
        decreases n,
    {
        if n == 0 {
            self
        } else {
            let t = self.repeated(offset, (n - 1) as nat);
            if t.done() {
                t
            } else {
                t.with(t.out[t.out.len() - offset])
            }
        }
    }

    /// `n` times `val`, but not past the end.
    pub open spec fn filled(self, val: u8, n: nat) -> Text
        decreases n,
    {
        if n == 0 {
            self
        } else {
            let t = self.filled(val, (n - 1) as nat);
            if t.done() {
                t
            } else {
                t.with(val)
            }
        }
    }

    /// `n` bytes of the stream, but not past the end.
    pub open spec fn copied(self, n: nat) -> Text
        decreases n,
    {
        if n == 0 {
            self
        } else {
            let t = self.copied((n - 1) as nat);
            if t.done() {
                t
            } else {
                t.advanced().with(t.next())
            }
        }
    }

    /// The distance of a reference.
    pub open spec fn distance(self) -> nat {
        (((((self.next() as u32) & 0xF) << 8) | (self.advanced().next() as u32)) + 1) as nat
    }

    /// One unit: a byte of the stream, or a reference.
    pub open spec fn unit(self, reference: bool) -> Text {
        if reference {
            Text {
                sound: self.sound && self.distance() <= self.out.len(),
                ..self.advanced().advanced()
            }.repeated(self.distance(), ((self.next() >> 4) + 3) as nat)
        } else {
            self.advanced().with(self.next())
        }
    }

    pub open spec fn units(self, flags: u8, k: nat) -> Text
        decreases k,
    {
        if k == 0 {
            self
        } else {
            let t = self.units(flags, (k - 1) as nat);
            if t.done() {
                t
            } else {
                t.unit(flags & (0x80u8 >> ((k - 1) as u8)) != 0)
            }
        }
    }

    /// The text after `n` blocks of eight units with their flags.
    pub open spec fn blocks(self, n: nat) -> Text
        decreases n,
    {
        if n == 0 {
            self
        } else {
            let t = self.blocks((n - 1) as nat);
            if t.done() {
                t
            } else {
                t.advanced().units(t.next(), 8)
            }
        }
    }

    /// One run: a repeated byte, or bytes of the stream.
    pub open spec fn run(self) -> Text {
        let flag = self.next();
        let t = self.advanced();
        if flag & 0x80 != 0 {
            t.advanced().filled(t.next(), ((flag & 0x7F) + 3) as nat)
        } else {
            t.copied(((flag & 0x7F) + 1) as nat)
        }
    }

    /// The text after `n` runs.
    pub open spec fn runs(self, n: nat) -> Text
        decreases n,
    {
        if n == 0 {
            self
        } else {
            let t = self.runs((n - 1) as nat);
            if t.done() {
                t
            } else {
                t.run()
            }
        }
    }
}

/// The byte of work RAM at `addr`.
pub open spec fn byte_cell(addr: u32) -> (u32, u32) {
    (
        addr >> 24,
        if addr >> 24 == 0x02 {
            addr & 0x3FFFF
        } else {
            addr & 0x7FFF
        },
    )
}

/// Whether `addr` is none of the `size` bytes from `dst`.
pub open spec fn outside(addr: u32, dst: u32, size: nat) -> bool {
    forall|i: nat|
        i < size ==> byte_cell(#[trigger] dst.wrapping_add(i as u32)) != byte_cell(addr)
}

/// Whether `size` bytes from `dst` are different bytes of work RAM, and the
/// first `len` bytes from `src` are readable and none of them.
pub open spec fn apart(src: u32, len: nat, dst: u32, size: nat) -> bool {
    &&& forall|i: nat| i < size ==> bus::copies::in_work_ram(#[trigger] dst.wrapping_add(i as u32))
    &&& forall|i: nat, j: nat|
        i < j < size ==> byte_cell(#[trigger] dst.wrapping_add(i as u32)) != byte_cell(
            #[trigger] dst.wrapping_add(j as u32),
        )
    &&& forall|k: nat|
        k < len ==> bus::copies::readable(#[trigger] src.wrapping_add(k as u32)) && outside(
            src.wrapping_add(k as u32),
            dst,
            size,
        )
}

proof fn byte_written(b: BusState, addr: u32, val: u8)
    requires
        b.wf(),
        bus::copies::in_work_ram(addr),
    ensures
        b.write8(addr, val).wf(),
        b.write8(addr, val).read8(addr).0 == val,
        forall|x: u32|
            bus::copies::readable(x) && byte_cell(x) != byte_cell(addr) ==> (#[trigger] b.write8(
                addr,
                val,
            ).read8(x)).0 == b.read8(x).0,
{
    reveal(BusState::write8);
    reveal(BusState::memory_written8);
    reveal(BusState::lookup8);
}

proof fn byte_taken(b: BusState, a: u32)
    requires
        b.wf(),
        bus::copies::readable(a),
    ensures
        b.read8(a).1.wf(),
        forall|x: u32| bus::copies::readable(x) ==> (#[trigger] b.read8(a).1.read8(x)).0 == b.read8(x).0,
{
    reveal(BusState::lookup8);
}

proof fn header_taken(b: BusState, a: u32)
    requires
        b.wf(),
        bus::copies::readable(a),
    ensures
        b.read32(a).1.wf(),
        forall|x: u32| bus::copies::readable(x) ==> (#[trigger] b.read32(a).1.read8(x)).0 == b.read8(x).0,
{
    reveal(BusState::lookup8);
    reveal(BusState::lookup32);
    bus::laws::aligned_facts(a);
    bus::copies::next_half(a);
}

/// Whether a decompressor that started on `b0` stands where the text `t` stands.
spec fn stands(s: Unpacking, t: Text, b0: BusState, src: u32, dst: u32) -> bool {
    &&& s.bus.wf()
    &&& !s.out.to_vram
    &&& t.out.len() <= t.size <= 0xFFFF_FFFF
    &&& s.src == src.wrapping_add(t.pos as u32)
    &&& s.out.dst == dst.wrapping_add(t.out.len() as u32)
    &&& s.out.remaining == t.size - t.out.len()
    &&& t.data == (|k: nat| b0.read8(src.wrapping_add(k as u32)).0)
    &&& forall|i: nat|
        i < t.out.len() ==> (#[trigger] s.bus.read8(dst.wrapping_add(i as u32))).0 == t.out[
            i as int
        ]
    &&& forall|x: u32|
        bus::copies::readable(x) && outside(x, dst, t.size) ==> (#[trigger] s.bus.read8(x)).0 == b0.read8(x).0
}

proof fn take_step(s: Unpacking, t: Text, b0: BusState, src: u32, dst: u32, len: nat)
    requires
        stands(s, t, b0, src, dst),
        apart(src, len, dst, t.size),
        t.pos < len <= 0xFFFF_FFFF,
    ensures
        s.take().0 == t.next(),
        stands(s.take().1, t.advanced(), b0, src, dst),
{
    let a = src.wrapping_add(t.pos as u32);
    assert(bus::copies::readable(a) && outside(a, dst, t.size));
    byte_taken(s.bus, a);
    assert(src.wrapping_add(t.pos as u32).wrapping_add(1) == src.wrapping_add((t.pos + 1) as u32));
    reveal(Unpacking::take);
    let s1 = s.take().1;
    assert forall|i: nat| i < t.out.len() implies (#[trigger] s1.bus.read8(
        dst.wrapping_add(i as u32),
    )).0 == t.out[i as int] by {
        assert(bus::copies::in_work_ram(dst.wrapping_add(i as u32)));
        assert(s.bus.read8(dst.wrapping_add(i as u32)).0 == t.out[i as int]);
    }
    assert forall|x: u32| bus::copies::readable(x) && outside(x, dst, t.size) implies (
    #[trigger] s1.bus.read8(x)).0 == b0.read8(x).0 by {
        assert(s.bus.read8(x).0 == b0.read8(x).0);
    }
}

proof fn give_step(
    s: Unpacking,
    t: Text,
    b0: BusState,
    src: u32,
    dst: u32,
    len: nat,
    val: u8,
)
    requires
        stands(s, t, b0, src, dst),
        apart(src, len, dst, t.size),
        !t.done(),
    ensures
        stands(s.give(val), t.with(val), b0, src, dst),
{
    let n = t.out.len();
    let a = dst.wrapping_add(n as u32);
    assert(bus::copies::in_work_ram(a));
    byte_written(s.bus, a, val);
    reveal(Unpacking::give);
    let s1 = s.give(val);
    let t1 = t.with(val);
    assert(a.wrapping_add(1) == dst.wrapping_add((n + 1) as u32));
    assert forall|i: nat| i < t1.out.len() implies (#[trigger] s1.bus.read8(
        dst.wrapping_add(i as u32),
    )).0 == t1.out[i as int] by {
        let x = dst.wrapping_add(i as u32);
        assert(bus::copies::in_work_ram(x));
        if i < n {
            assert(byte_cell(x) != byte_cell(a));
            assert(s.bus.read8(x).0 == t.out[i as int]);
        }
    }
    assert forall|x: u32| bus::copies::readable(x) && outside(x, dst, t.size) implies (
    #[trigger] s1.bus.read8(x)).0 == b0.read8(x).0 by {
        assert(byte_cell(dst.wrapping_add(n as u32)) != byte_cell(x));
        assert(s.bus.read8(x).0 == b0.read8(x).0);
    }
}

proof fn repeat_step(
    s: Unpacking,
    t: Text,
    b0: BusState,
    src: u32,
    dst: u32,
    len: nat,
    offset: u32,
    n: nat,
)
    requires
        stands(s, t, b0, src, dst),
        apart(src, len, dst, t.size),
        1 <= offset <= t.out.len(),
    ensures
        stands(s.repeat(offset, n), t.repeated(offset as nat, n), b0, src, dst),
        t.repeated(offset as nat, n).out.len() >= t.out.len(),
        t.repeated(offset as nat, n).size == t.size,
        t.repeated(offset as nat, n).pos == t.pos,
    decreases n,
{
    if n > 0 {
        let m = (n - 1) as nat;
        repeat_step(s, t, b0, src, dst, len, offset, m);
        let s1 = s.repeat(offset, m);
        let t1 = t.repeated(offset as nat, m);
        if !t1.done() {
            let i = (t1.out.len() - offset) as nat;
            let a = dst.wrapping_add(i as u32);
            assert(dst.wrapping_add(t1.out.len() as u32).wrapping_sub(offset) == a);
            assert(bus::copies::in_work_ram(a));
            byte_taken(s1.bus, a);
            let s2 = Unpacking { bus: s1.bus.read8(a).1, ..s1 };
            assert(s1.bus.read8(a).0 == t1.out[i as int]);
            assert(stands(s2, t1, b0, src, dst)) by {
                assert forall|j: nat| j < t1.out.len() implies (#[trigger] s2.bus.read8(
                    dst.wrapping_add(j as u32),
                )).0 == t1.out[j as int] by {
                    assert(bus::copies::in_work_ram(dst.wrapping_add(j as u32)));
                    assert(s1.bus.read8(dst.wrapping_add(j as u32)).0 == t1.out[j as int]);
                }
                assert forall|x: u32| bus::copies::readable(x) && outside(x, dst, t1.size) implies (
                #[trigger] s2.bus.read8(x)).0 == b0.read8(x).0 by {
                    assert(s1.bus.read8(x).0 == b0.read8(x).0);
                }
            }
            give_step(s2, t1, b0, src, dst, len, t1.out[i as int]);
        }
    }
}

proof fn fill_step(
    s: Unpacking,
    t: Text,
    b0: BusState,
    src: u32,
    dst: u32,
    len: nat,
    val: u8,
    n: nat,
)
    requires
        stands(s, t, b0, src, dst),
        apart(src, len, dst, t.size),
    ensures
        stands(s.fill(val, n), t.filled(val, n), b0, src, dst),
        t.filled(val, n).size == t.size,
        t.filled(val, n).pos == t.pos,
    decreases n,
{
    if n > 0 {
        let m = (n - 1) as nat;
        fill_step(s, t, b0, src, dst, len, val, m);
        if !t.filled(val, m).done() {
            give_step(s.fill(val, m), t.filled(val, m), b0, src, dst, len, val);
        }
    }
}

proof fn copied_moves_on(t: Text, n: nat)
    ensures
        t.pos <= t.copied(n).pos,
        t.copied(n).size == t.size,
    decreases n,
{
    if n > 0 {
        copied_moves_on(t, (n - 1) as nat);
    }
}

proof fn literal_step(s: Unpacking, t: Text, b0: BusState, src: u32, dst: u32, len: nat)
    requires
        stands(s, t, b0, src, dst),
        apart(src, len, dst, t.size),
        t.pos < len <= 0xFFFF_FFFF,
        !t.done(),
    ensures
        stands(s.take().1.give(s.take().0), t.advanced().with(t.next()), b0, src, dst),
{
    take_step(s, t, b0, src, dst, len);
    give_step(s.take().1, t.advanced(), b0, src, dst, len, t.next());
}

proof fn copy_step(s: Unpacking, t: Text, b0: BusState, src: u32, dst: u32, len: nat, n: nat)
    requires
        stands(s, t, b0, src, dst),
        apart(src, len, dst, t.size),
        t.copied(n).pos <= len <= 0xFFFF_FFFF,
    ensures
        stands(s.literals(n), t.copied(n), b0, src, dst),
    decreases n,
{
    if n > 0 {
        let m = (n - 1) as nat;
        copied_moves_on(t, m);
        copy_step(s, t, b0, src, dst, len, m);
        if !t.copied(m).done() {
            literal_step(s.literals(m), t.copied(m), b0, src, dst, len);
        }
    }
}

proof fn run_step(s: Unpacking, t: Text, b0: BusState, src: u32, dst: u32, len: nat)
    requires
        stands(s, t, b0, src, dst),
        apart(src, len, dst, t.size),
        t.run().pos <= len <= 0xFFFF_FFFF,
        !t.done(),
    ensures
        stands(s.rl_run(), t.run(), b0, src, dst),
        t.run().size == t.size,
        t.pos < t.run().pos,
{
    let flag = t.next();
    let n = ((flag & 0x7F) + 1) as nat;
    let m = ((flag & 0x7F) + 3) as nat;
    let t1 = t.advanced();
    copied_moves_on(t1, n);
    filled_keeps(t1.advanced(), t1.next(), m);
    take_step(s, t, b0, src, dst, len);
    let s1 = s.take().1;
    if flag & 0x80 != 0 {
        take_step(s1, t1, b0, src, dst, len);
        fill_step(s1.take().1, t1.advanced(), b0, src, dst, len, t1.next(), m);
    } else {
        copy_step(s1, t1, b0, src, dst, len, n);
    }
}

proof fn filled_keeps(t: Text, val: u8, n: nat)
    ensures
        t.filled(val, n).pos == t.pos,
        t.filled(val, n).size == t.size,
    decreases n,
{
    if n > 0 {
        filled_keeps(t, val, (n - 1) as nat);
    }
}

proof fn repeated_keeps(t: Text, offset: nat, n: nat)
    ensures
        t.repeated(offset, n).pos == t.pos,
        t.repeated(offset, n).size == t.size,
        t.repeated(offset, n).sound == t.sound,
    decreases n,
{
    if n > 0 {
        repeated_keeps(t, offset, (n - 1) as nat);
    }
}

proof fn runs_move_on(t: Text, n: nat)
    ensures
        t.pos <= t.runs(n).pos,
        t.runs(n).size == t.size,
    decreases n,
{
    if n > 0 {
        runs_move_on(t, (n - 1) as nat);
        let u = t.runs((n - 1) as nat);
        let flag = u.next();
        copied_moves_on(u.advanced(), ((flag & 0x7F) + 1) as nat);
        filled_keeps(u.advanced().advanced(), u.advanced().next(), ((flag & 0x7F) + 3) as nat);
    }
}

proof fn runs_step(s: Unpacking, t: Text, b0: BusState, src: u32, dst: u32, len: nat, n: nat)
    requires
        stands(s, t, b0, src, dst),
        apart(src, len, dst, t.size),
        t.runs(n).pos <= len <= 0xFFFF_FFFF,
    ensures
        stands(s.rl_runs(n), t.runs(n), b0, src, dst),
        t.runs(n).size == t.size,
    decreases n,
{
    if n > 0 {
        let m = (n - 1) as nat;
        runs_move_on(t, m);
        runs_move_on(t.runs(m), 1);
        reveal_with_fuel(Text::runs, 2);
        runs_step(s, t, b0, src, dst, len, m);
        if !t.runs(m).done() {
            run_step(s.rl_runs(m), t.runs(m), b0, src, dst, len);
        }
    }
}

proof fn unit_moves_on(t: Text, reference: bool)
    ensures
        t.pos < t.unit(reference).pos,
        t.unit(reference).size == t.size,
        t.unit(reference).sound ==> t.sound,
        reference && t.unit(reference).sound ==> t.distance() <= t.out.len(),
        reference ==> t.unit(reference).pos == t.pos + 2,
        !reference ==> t.unit(reference).pos == t.pos + 1,
{
    if reference {
        repeated_keeps(
            Text {
                sound: t.sound && t.distance() <= t.out.len(),
                ..t.advanced().advanced()
            },
            t.distance(),
            ((t.next() >> 4) + 3) as nat,
        );
    }
}

proof fn unit_step(
    s: Unpacking,
    t: Text,
    b0: BusState,
    src: u32,
    dst: u32,
    len: nat,
    reference: bool,
)
    requires
        stands(s, t, b0, src, dst),
        apart(src, len, dst, t.size),
        t.unit(reference).pos <= len <= 0xFFFF_FFFF,
        t.unit(reference).sound,
        !t.done(),
    ensures
        stands(s.lz_unit(reference), t.unit(reference), b0, src, dst),
{
    unit_moves_on(t, reference);
    if reference {
        take_step(s, t, b0, src, dst, len);
        let s1 = s.take().1;
        let t1 = t.advanced();
        take_step(s1, t1, b0, src, dst, len);
        let s2 = s1.take().1;
        let t2 = Text { sound: t.sound && t.distance() <= t.out.len(), ..t1.advanced() };
        unpack::reference_bounds(t.next(), t1.next());
        assert(stands(s2, t2, b0, src, dst));
        repeat_step(
            s2,
            t2,
            b0,
            src,
            dst,
            len,
            t.distance() as u32,
            ((t.next() >> 4) + 3) as nat,
        );
    } else {
        literal_step(s, t, b0, src, dst, len);
    }
}

proof fn units_move_on(t: Text, flags: u8, j: nat, k: nat)
    requires
        j <= k,
    ensures
        t.units(flags, j).pos <= t.units(flags, k).pos,
        t.units(flags, k).size == t.size,
        t.units(flags, k).sound ==> t.units(flags, j).sound,
    decreases k,
{
    if k > 0 {
        let u = t.units(flags, (k - 1) as nat);
        unit_moves_on(u, flags & (0x80u8 >> ((k - 1) as u8)) != 0);
        if j < k {
            units_move_on(t, flags, j, (k - 1) as nat);
        } else {
            units_move_on(t, flags, (k - 1) as nat, (k - 1) as nat);
        }
    }
}

proof fn units_step(
    s: Unpacking,
    t: Text,
    b0: BusState,
    src: u32,
    dst: u32,
    len: nat,
    flags: u8,
    k: nat,
)
    requires
        stands(s, t, b0, src, dst),
        apart(src, len, dst, t.size),
        t.units(flags, k).pos <= len <= 0xFFFF_FFFF,
        t.units(flags, k).sound,
    ensures
        stands(s.lz_units(flags, k), t.units(flags, k), b0, src, dst),
    decreases k,
{
    if k > 0 {
        let m = (k - 1) as nat;
        units_move_on(t, flags, m, k);
        units_move_on(t, flags, m, m);
        units_step(s, t, b0, src, dst, len, flags, m);
        if !t.units(flags, m).done() {
            unit_step(
                s.lz_units(flags, m),
                t.units(flags, m),
                b0,
                src,
                dst,
                len,
                flags & (0x80u8 >> (m as u8)) != 0,
            );
        }
    }
}

proof fn block_moves_on(t: Text)
    ensures
        t.pos < t.advanced().units(t.next(), 8).pos,
        t.advanced().units(t.next(), 8).size == t.size,
        t.advanced().units(t.next(), 8).sound ==> t.sound,
{
    units_move_on(t.advanced(), t.next(), 0, 8);
}

proof fn blocks_keep_size(t: Text, n: nat)
    ensures
        t.blocks(n).size == t.size,
    decreases n,
{
    if n > 0 {
        blocks_keep_size(t, (n - 1) as nat);
        block_moves_on(t.blocks((n - 1) as nat));
    }
}

proof fn blocks_step(s: Unpacking, t: Text, b0: BusState, src: u32, dst: u32, len: nat, n: nat)
    requires
        stands(s, t, b0, src, dst),
        apart(src, len, dst, t.size),
        t.blocks(n).pos <= len <= 0xFFFF_FFFF,
        t.blocks(n).sound,
    ensures
        stands(s.lz_blocks(n), t.blocks(n), b0, src, dst),
    decreases n,
{
    if n > 0 {
        let m = (n - 1) as nat;
        let u = t.blocks(m);
        blocks_keep_size(t, m);
        block_moves_on(u);
        blocks_step(s, t, b0, src, dst, len, m);
        if !u.done() {
            let w = s.lz_blocks(m);
            take_step(w, u, b0, src, dst, len);
            units_step(w.take().1, u.advanced(), b0, src, dst, len, u.next(), 8);
        }
    }
}

/// The stream after a header at `src`, as it is on the bus.
pub open spec fn stream(b: BusState, src: u32) -> spec_fn(nat) -> u8 {
    |k: nat| b.read8(src.wrapping_add(4).wrapping_add(k as u32)).0
}

/// The text that the LZ77 stream at `src` stands for.
pub open spec fn lz77_text(b: BusState, src: u32) -> Text {
    let size = (b.read32(src).0 >> 8) as nat;
    Text::begin(stream(b, src), size).blocks(size)
}

/// The text that the run lengths at `src` stand for.
pub open spec fn run_length_text(b: BusState, src: u32) -> Text {
    let size = (b.read32(src).0 >> 8) as nat;
    Text::begin(stream(b, src), size).runs(size)
}

proof fn begins(b: BusState, src: u32, dst: u32)
    requires
        b.wf(),
        bus::copies::readable(src),
    ensures
        stands(
            Unpacking::begin(b, src, dst, false),
            Text::begin(stream(b, src), (b.read32(src).0 >> 8) as nat),
            b,
            src.wrapping_add(4),
            dst,
        ),
{
    header_taken(b, src);
}

/// Decompressing an LZ77 stream into work RAM leaves there the text that the
/// stream stands for, complete, if no reference points before the text and the
/// text does not overwrite the stream.
pub proof fn lz77_expands(b: BusState, src: u32, dst: u32)
    requires
        b.wf(),
        bus::copies::readable(src),
        lz77_text(b, src).sound,
        lz77_text(b, src).pos <= 0xFFFF_FFFF,
        apart(
            src.wrapping_add(4),
            lz77_text(b, src).pos,
            dst,
            (b.read32(src).0 >> 8) as nat,
        ),
    ensures
        lz77_text(b, src).out.len() == b.read32(src).0 >> 8,
        forall|i: nat|
            i < b.read32(src).0 >> 8 ==> (#[trigger] unpack::lz77(b, src, dst, false).read8(
                dst.wrapping_add(i as u32),
            )).0 == lz77_text(b, src).out[i as int],
{
    reveal(unpack::lz77);
    let size = (b.read32(src).0 >> 8) as nat;
    let s = Unpacking::begin(b, src, dst, false);
    let t = Text::begin(stream(b, src), size);
    begins(b, src, dst);
    blocks_step(s, t, b, src.wrapping_add(4), dst, lz77_text(b, src).pos, size);
    blocks_keep_size(t, size);
    unpack::lz77_completes(s, size);
}

/// Expanding run lengths into work RAM leaves there the text that they stand
/// for, complete, if the text does not overwrite them.
pub proof fn run_lengths_expand(b: BusState, src: u32, dst: u32)
    requires
        b.wf(),
        bus::copies::readable(src),
        run_length_text(b, src).pos <= 0xFFFF_FFFF,
        apart(
            src.wrapping_add(4),
            run_length_text(b, src).pos,
            dst,
            (b.read32(src).0 >> 8) as nat,
        ),
    ensures
        run_length_text(b, src).out.len() == b.read32(src).0 >> 8,
        forall|i: nat|
            i < b.read32(src).0 >> 8 ==> (#[trigger] unpack::run_lengths(
                b,
                src,
                dst,
                false,
            ).read8(dst.wrapping_add(i as u32))).0 == run_length_text(b, src).out[i as int],
{
    reveal(unpack::run_lengths);
    let size = (b.read32(src).0 >> 8) as nat;
    let s = Unpacking::begin(b, src, dst, false);
    let t = Text::begin(stream(b, src), size);
    begins(b, src, dst);
    runs_step(s, t, b, src.wrapping_add(4), dst, run_length_text(b, src).pos, size);
    unpack::run_lengths_complete(s, size);
}

} // verus!

//! Where transfers of several registers put and find their words.

use vstd::prelude::*;

use crate::bits;
use crate::bus::{self, BusState};

use super::access::{self, listed};
use super::arm::{self, ArmInstruction};
use super::laws::{self, stack_fits};
use super::psr;
use super::results;
use super::{Cpu, CpuMode};

verus! {

broadcast use bits::group_and_bounds;

/// Bit `i` of a register list stands for register `i`, and a list is counted
/// from its lowest bit.
#[verifier::rlimit(50)]
pub proof fn lists_are_bits(l: u16)
    ensures
        listed(l, 0) == (l % 2 == 1),
        listed(l, 1) == (l / 2 % 2 == 1),
        listed(l, 2) == (l / 4 % 2 == 1),
        listed(l, 3) == (l / 8 % 2 == 1),
        listed(l, 4) == (l / 0x10 % 2 == 1),
        listed(l, 5) == (l / 0x20 % 2 == 1),
        listed(l, 6) == (l / 0x40 % 2 == 1),
        listed(l, 7) == (l / 0x80 % 2 == 1),
        listed(l, 8) == (l / 0x100 % 2 == 1),
        listed(l, 9) == (l / 0x200 % 2 == 1),
        listed(l, 10) == (l / 0x400 % 2 == 1),
        listed(l, 11) == (l / 0x800 % 2 == 1),
        listed(l, 12) == (l / 0x1000 % 2 == 1),
        listed(l, 13) == (l / 0x2000 % 2 == 1),
        listed(l, 14) == (l / 0x4000 % 2 == 1),
        listed(l, 15) == (l / 0x8000 % 2 == 1),
        access::listed_below(l, 0) == 0,
        forall|i: nat|
            i < 16 ==> #[trigger] access::listed_below(l, i + 1) == access::listed_below(l, i) + (
            if listed(l, i as u8) {
                1int
            } else {
                0int
            }),
{
    bits::half_fields(l, 0, 0, 0);
}

/// The address of the first word of a block transfer of `count` registers: from
/// the base up or, with bit 23 clear, up to the base; bit 24 leaves out the
/// word at the base itself.
pub open spec fn first_word(o: u32, base: u32, count: nat) -> int {
    let up = o / 0x80_0000 % 2 == 1;
    let before = o / 0x100_0000 % 2 == 1;
    (if up && !before {
        base as int
    } else if up {
        base + 4
    } else if before {
        base - 4 * count
    } else {
        base - 4 * count + 4
    }) % 0x1_0000_0000
}

/// Where the base register of a block transfer ends.
pub open spec fn base_end(o: u32, base: u32, count: nat) -> int {
    (if o / 0x80_0000 % 2 == 1 {
        base + 4 * count
    } else {
        base - 4 * count
    }) % 0x1_0000_0000
}

proof fn block_fields(o: u32)
    requires
        o / 0x200_0000 % 8 == 4,
    ensures
        ArmInstruction::decode(o) is BlockTransfer,
        arm::field(o, 16) == o / 0x1_0000 % 16,
        arm::field(o, 16) & 0xF == arm::field(o, 16),
        arm::flag(o, 20) == (o / 0x10_0000 % 2 == 1),
        arm::flag(o, 21) == (o / 0x20_0000 % 2 == 1),
        arm::flag(o, 22) == (o / 0x40_0000 % 2 == 1),
        arm::flag(o, 23) == (o / 0x80_0000 % 2 == 1),
        arm::flag(o, 24) == (o / 0x100_0000 % 2 == 1),
        o & 0xFFFF == o % 0x1_0000,
{
    results::opcode_fields(o);
    results::opcode_classes(o);
}

proof fn block_begins(c: Cpu, o: u32, count: nat)
    requires
        o / 0x200_0000 % 8 == 4,
        count <= 16,
    ensures
        c.block_start(o, count as u32) == first_word(
            o,
            c.regs[(o / 0x1_0000 % 16) as int],
            count,
        ),
        c.indexed(o, (count * 4) as u32) == base_end(
            o,
            c.regs[(o / 0x1_0000 % 16) as int],
            count,
        ),
{
    block_fields(o);
}

/// A block store puts the listed registers at consecutive words, the lowest
/// register lowest. R15 is stored four bytes further than it reads. With bit
/// 21 the base register moves over the block.
#[verifier::rlimit(50)]
pub proof fn block_stores(c: Cpu, b: BusState, o: u32, i: int)
    requires
        o / 0x200_0000 % 8 == 4,
        o / 0x10_0000 % 2 == 0,
        o / 0x40_0000 % 2 == 0,
        o % 0x1_0000 != 0,
        b.wf(),
        0 <= i < 16,
        listed((o % 0x1_0000) as u16, i as u8),
        ({
            let n = access::listed_below((o % 0x1_0000) as u16, 16);
            stack_fits(first_word(o, c.regs[(o / 0x1_0000 % 16) as int], n) as u32, n)
        }),
    ensures
        ({
            let list = (o % 0x1_0000) as u16;
            let n = access::listed_below(list, 16);
            let rn = (o / 0x1_0000 % 16) as int;
            let at = first_word(o, c.regs[rn], n) + 4 * access::listed_below(list, i as nat);
            let out = c.arm_executed(b, o);
            &&& out.1.read32(at as u32).0 == (if i == 15 {
                (c.regs[15] + 4) % 0x1_0000_0000
            } else {
                c.regs[i] as int
            })
            &&& o / 0x20_0000 % 2 == 1 ==> out.0.regs[rn] == base_end(o, c.regs[rn], n)
            &&& forall|k: int|
                0 <= k < 16 && !(o / 0x20_0000 % 2 == 1 && k == rn) ==> #[trigger] out.0.regs[k]
                    == c.regs[k]
            &&& out.0.cpsr == c.cpsr
        }),
{
    let list = (o % 0x1_0000) as u16;
    let n = access::listed_below(list, 16);
    block_fields(o);
    laws::listed_below_is_monotone(list, 16, 16);
    laws::listed_below_is_monotone(list, i as nat, 16);
    block_begins(c, o, n);
    reveal(Cpu::block_transferred);
    reveal(Cpu::list_transferred);
    let start = c.block_start(o, n as u32);
    let user = arm::flag(o, 22) && list & 0x8000 == 0;
    let vals = |i: int| c.block_value(i as u8, user);
    laws::stored_block_reads_back(b, vals, list, start, 16, n);
    let k = access::listed_below(list, i as nat);
    laws::words_up_is_sum(start, k);
    laws::low_index(i as u8);
    laws::low_index(15);
    assert(c.arm_executed(b, o).1 == access::block_stored(b, vals, list, start, 16));
    assert(vals(i) == c.block_value(i as u8, user));
}

proof fn block_holds_words(
    c: Cpu,
    b: BusState,
    put: spec_fn(Cpu, int, u32) -> Cpu,
    rlist: u16,
    addr: u32,
    n: nat,
    size: nat,
)
    requires
        n <= 15,
        size <= 16,
        access::listed_below(rlist, n) <= size,
        stack_fits(addr, size),
        forall|c: Cpu, i: int, val: u32|
            0 <= i < 15 ==> #[trigger] put(c, i, val) == c.with_reg(i, val),
    ensures
        ({
            let r = access::block_loaded(c, b, put, rlist, addr, n);
            &&& r.1.ewram == b.ewram
            &&& r.1.iwram == b.iwram
            &&& r.0.cpsr == c.cpsr
            &&& forall|i: int|
                0 <= i < 16 ==> #[trigger] r.0.regs[i] == (if i < n && listed(rlist, i as u8) {
                    b.read32(access::words_up(addr, access::listed_below(rlist, i as nat))).0
                } else {
                    c.regs[i]
                })
        }),
    decreases n,
{
    if n > 0 {
        let p = (n - 1) as nat;
        laws::listed_below_is_monotone(rlist, p, n);
        block_holds_words(c, b, put, rlist, addr, p, size);
        let t = access::block_loaded(c, b, put, rlist, addr, p);
        if listed(rlist, p as u8) {
            let k = access::listed_below(rlist, p);
            laws::stack_words_are_separate(addr, size, k, k);
            laws::ram_reads_agree(t.1, b, access::words_up(addr, k));
        }
    }
}

/// A block load finds the words where a block store puts them. The base
/// register moves over the block with bit 21, whether it was loaded or not.
#[verifier::rlimit(50)]
pub proof fn block_loads(c: Cpu, b: BusState, o: u32, i: int)
    requires
        o / 0x200_0000 % 8 == 4,
        o / 0x10_0000 % 2 == 1,
        o / 0x40_0000 % 2 == 0,
        0 < o % 0x1_0000 < 0x8000,
        b.wf(),
        0 <= i < 15,
        ({
            let n = access::listed_below((o % 0x1_0000) as u16, 16);
            stack_fits(first_word(o, c.regs[(o / 0x1_0000 % 16) as int], n) as u32, n)
        }),
    ensures
        ({
            let list = (o % 0x1_0000) as u16;
            let n = access::listed_below(list, 16);
            let rn = (o / 0x1_0000 % 16) as int;
            let at = first_word(o, c.regs[rn], n) + 4 * access::listed_below(list, i as nat);
            let a = c.arm_executed(b, o).0;
            &&& o / 0x20_0000 % 2 == 1 ==> a.regs[rn] == base_end(o, c.regs[rn], n)
            &&& !(o / 0x20_0000 % 2 == 1 && i == rn) ==> a.regs[i] == (if listed(list, i as u8) {
                b.read32(at as u32).0
            } else {
                c.regs[i]
            })
            &&& a.cpsr == c.cpsr
        }),
{
    let list = (o % 0x1_0000) as u16;
    let n = access::listed_below(list, 16);
    block_fields(o);
    lists_are_bits(list);
    assert(!listed(list, 15));
    laws::listed_below_is_monotone(list, 15, 16);
    laws::listed_below_is_monotone(list, 16, 16);
    laws::listed_below_is_monotone(list, i as nat, 16);
    block_begins(c, o, n);
    reveal(Cpu::block_transferred);
    reveal(Cpu::list_transferred);
    let start = c.block_start(o, n as u32);
    let s = arm::flag(o, 22);
    let user = s && list & 0x8000 == 0;
    let put = |c: Cpu, i: int, val: u32| c.block_put(i as u8, val, s, user);
    block_holds_words(c, b, put, list, start, 15, n);
    laws::words_up_is_sum(start, access::listed_below(list, i as nat));
    assert(access::block_loaded(c, b, put, list, start, 16) == access::block_loaded(
        c,
        b,
        put,
        list,
        start,
        15,
    ));
}

/// The user registers that another mode reads and writes are those that
/// switching to user mode brings back.
#[verifier::rlimit(50)]
pub proof fn user_registers(c: Cpu, i: u8, val: u32)
    requires
        i < 15,
    ensures
        c.user_reg(i) == c.switched(CpuMode::User).regs[i as int],
        c.with_user_reg(i, val).user_reg(i) == val,
        c.with_user_reg(i, val).switched(CpuMode::User).regs[i as int] == val,
        c.with_user_reg(i, val).cpsr == c.cpsr,
        forall|k: u8|
            k < 15 && k != i ==> #[trigger] c.with_user_reg(i, val).user_reg(k) == c.user_reg(k),
{
    laws::low_index(i);
    let d = c.with_user_reg(i, val);
    psr::psr_mode_round_trip(c.cpsr, CpuMode::User);
    assert forall|k: u8| k < 15 && k != i implies #[trigger] d.user_reg(k) == c.user_reg(k) by {
        laws::low_index(k);
    }
}

/// PUSH leaves the listed low registers at consecutive words from the new
/// stack pointer up, the lowest register lowest, and R14 above them.
#[verifier::rlimit(50)]
pub proof fn pushes(c: Cpu, b: BusState, t: u16, i: int)
    requires
        t / 0x200 == 0x5A,
        b.wf(),
        0 <= i < 8,
        ({
            let n = access::listed_below((t % 256) as u16, 8) + t as int / 256 % 2;
            c.regs[13] >= 4 * n && stack_fits((c.regs[13] - 4 * n) as u32, n as nat)
        }),
    ensures
        ({
            let list = (t % 256) as u16;
            let low = access::listed_below(list, 8);
            let n = low + t as int / 256 % 2;
            let out = c.thumb_executed(b, t);
            let sp = c.regs[13] - 4 * n;
            &&& out.0.regs[13] == sp
            &&& listed(list, i as u8) ==> out.1.read32(
                (sp + 4 * access::listed_below(list, i as nat)) as u32,
            ).0 == c.regs[i]
            &&& t / 256 % 2 == 1 ==> out.1.read32((sp + 4 * low) as u32).0 == c.regs[14]
            &&& forall|k: int| 0 <= k < 16 && k != 13 ==> #[trigger] out.0.regs[k] == c.regs[k]
        }),
{
    bits::half_fields(t, 0, 0, 0);
    assert(t >> 8 == 0xB4 || t >> 8 == 0xB5);
    reveal(Cpu::pushed);
    let list = t & 0xFF;
    let low = access::listed_below(list, 8);
    let n = (low + t as int / 256 % 2) as nat;
    laws::listed_below_is_monotone(list, 8, 8);
    laws::listed_below_is_monotone(list, i as nat, 8);
    let sp = (c.regs[13] - 4 * n) as u32;
    assert(c.regs[13].wrapping_sub((4 * n) as u32) == sp);
    let vals = |i: int| c.reg(i as u8);
    laws::stored_block_reads_back(b, vals, list, sp, 8, n);
    laws::low_index(i as u8);
    let j = access::listed_below(list, i as nat);
    laws::words_up_is_sum(sp, j);
    laws::words_up_is_sum(sp, low);
    let d = access::block_stored(b, vals, list, sp, 8);
    assert(vals(i) == c.regs[i]);
    if t / 256 % 2 == 1 {
        let top = access::words_up(sp, low);
        laws::stack_words_are_separate(sp, n, low, low);
        bus::laws::word_reads_back(d, top, c.regs[14]);
        if listed(list, i as u8) {
            laws::stack_words_are_separate(sp, n, j, low);
            bus::laws::word_writes_are_separate(
                d,
                top,
                c.regs[14],
                access::words_up(sp, j),
            );
        }
    }
}

/// STMIA puts the listed low registers at consecutive words from the base up,
/// the lowest register lowest, and leaves the base behind them.
pub proof fn multiple_stores(c: Cpu, b: BusState, t: u16, i: int)
    requires
        0xC000 <= t < 0xC800,
        b.wf(),
        0 <= i < 8,
        stack_fits(
            c.regs[(t / 256 % 8) as int],
            access::listed_below((t % 256) as u16, 8),
        ),
    ensures
        ({
            let list = (t % 256) as u16;
            let rb = (t / 256 % 8) as int;
            let n = access::listed_below(list, 8);
            let out = c.thumb_executed(b, t);
            &&& listed(list, i as u8) ==> out.1.read32(
                (c.regs[rb] + 4 * access::listed_below(list, i as nat)) as u32,
            ).0 == c.regs[i]
            &&& out.0 == c.with_reg(rb, (c.regs[rb] + 4 * n) as u32)
        }),
{
    multiple_fields(t);
    reveal(Cpu::multiple_stored);
    let list = t & 0xFF;
    let rb = (t / 256 % 8) as int;
    let n = access::listed_below(list, 8);
    let addr = c.regs[rb];
    laws::listed_below_is_monotone(list, 8, 8);
    laws::listed_below_is_monotone(list, i as nat, 8);
    let vals = |i: int| c.reg(i as u8);
    laws::stored_block_reads_back(b, vals, list, addr, 8, n);
    laws::low_index(i as u8);
    laws::low_index(rb as u8);
    laws::words_up_is_sum(addr, access::listed_below(list, i as nat));
    laws::words_up_is_sum(addr, n);
    assert(vals(i) == c.regs[i]);
}

/// LDMIA loads the words that STMIA stores, and leaves the base behind them
/// unless it was loaded itself.
pub proof fn multiple_loads(c: Cpu, b: BusState, t: u16, i: int)
    requires
        0xC800 <= t < 0xD000,
        b.wf(),
        0 <= i < 16,
        stack_fits(
            c.regs[(t / 256 % 8) as int],
            access::listed_below((t % 256) as u16, 8),
        ),
    ensures
        ({
            let list = (t % 256) as u16;
            let rb = (t / 256 % 8) as int;
            let n = access::listed_below(list, 8);
            let a = c.thumb_executed(b, t).0;
            a.regs[i] == (if i < 8 && listed(list, i as u8) {
                b.read32((c.regs[rb] + 4 * access::listed_below(list, i as nat)) as u32).0 as int
            } else if i == rb {
                c.regs[rb] + 4 * n
            } else {
                c.regs[i] as int
            })
        }),
{
    multiple_fields(t);
    reveal(Cpu::multiple_loaded);
    let list = t & 0xFF;
    let rb = (t / 256 % 8) as int;
    let n = access::listed_below(list, 8);
    let addr = c.regs[rb];
    laws::listed_below_is_monotone(list, 8, 8);
    if i < 8 {
        laws::listed_below_is_monotone(list, i as nat, 8);
        laws::words_up_is_sum(addr, access::listed_below(list, i as nat));
    }
    laws::loaded_block_holds_words(c, b, list, addr, 8, n);
    laws::low_index(rb as u8);
    laws::words_up_is_sum(addr, n);
}

proof fn multiple_fields(t: u16)
    ensures
        t >> 8 == t / 256,
        t & 0xFF == t % 256,
        (t >> 8) & 7 == t / 256 % 8,
{
    bits::half_fields(t, 0, 0, 0);
}

} // verus!

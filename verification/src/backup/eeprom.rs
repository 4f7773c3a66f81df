//! Serial EEPROM, 512 bytes or 8 KB.
//!
//! The chip is driven one bit at a time, highest bit first. A read is the
//! command 11, the block address (6 or 14 bits) and a dummy bit; the chip then
//! puts out 4 dummy bits and the 64 bits of the block. A write is 10, the
//! address, 64 data bits and a dummy bit.

use vstd::prelude::*;

verus! {

/// Where a command stands.
#[derive(Debug, Clone, Copy, PartialEq, Eq, Structural)]
pub enum State {
    Idle,
    CmdType,
    Address,
    Data,
    ReadOut,
    WriteDone,
}

/// The size of the chip, once it is known.
#[derive(Debug, Clone, Copy, PartialEq, Eq, Structural)]
pub enum SizeKind {
    Unknown,
    /// 512 bytes, 6 address bits.
    Small,
    /// 8 KB, 14 address bits.
    Large,
}

#[derive(Debug)]
pub struct Eeprom {
    pub data: Vec<u8>,
    pub state: State,
    pub size: SizeKind,
    /// 2 is a write, 3 a read.
    pub cmd: u8,
    /// The bits of the current field.
    pub bit_buf: u64,
    pub bits_in: u32,
    /// The addressed block.
    pub address: u16,
    pub read_buf: u64,
    pub read_bits_left: u32,
    pub addr_width: u32,
}

/// What the chip holds.
#[verifier::ext_equal]
pub struct EepromChip {
    pub data: Seq<u8>,
    pub state: State,
    pub size: SizeKind,
    pub cmd: u8,
    pub bit_buf: u64,
    pub bits_in: u32,
    pub address: u16,
    pub read_buf: u64,
    pub read_bits_left: u32,
    pub addr_width: u32,
}

impl View for Eeprom {
    type V = EepromChip;

    open spec fn view(&self) -> EepromChip {
        EepromChip {
            data: self.data@,
            state: self.state,
            size: self.size,
            cmd: self.cmd,
            bit_buf: self.bit_buf,
            bits_in: self.bits_in,
            address: self.address,
            read_buf: self.read_buf,
            read_bits_left: self.read_bits_left,
            addr_width: self.addr_width,
        }
    }
}

/// The first `n` bytes of a block, highest first; bytes past the end of the
/// chip read as 0xFF.
pub open spec fn block(data: Seq<u8>, base: int, n: nat) -> u64
    decreases n,
{
    if n == 0 {
        0
    } else {
        let i = base + n - 1;
        (block(data, base, (n - 1) as nat) << 8) | (if i < data.len() {
            data[i]
        } else {
            0xFFu8
        }) as u64
    }
}

/// Byte `i` of a 64-bit block, counted from the highest.
pub open spec fn byte_of(value: u64, i: int) -> u8 {
    ((value >> ((56 - i * 8) as u64)) & 0xFF) as u8
}

/// The data with a block replaced, as far as it lies within the chip.
pub open spec fn stored(data: Seq<u8>, base: int, value: u64) -> Seq<u8> {
    Seq::new(
        data.len(),
        |i: int|
            if base <= i < base + 8 {
                byte_of(value, i - base)
            } else {
                data[i]
            },
    )
}

/// The data cut or padded to 512 bytes.
pub open spec fn small(data: Seq<u8>) -> Seq<u8> {
    Seq::new(
        512,
        |i: int|
            if i < data.len() {
                data[i]
            } else {
                0xFFu8
            },
    )
}

impl EepromChip {
    pub open spec fn wf(self) -> bool {
        &&& self.addr_width < 64
        &&& self.bits_in <= 64
        &&& self.state is CmdType ==> self.bits_in == 1
        &&& self.state is Address ==> self.bits_in < 63
        &&& self.read_bits_left <= 68
    }

    /// How many address bits the chip expects; 14 while nothing is known.
    pub open spec fn width(self) -> u32 {
        match self.size {
            SizeKind::Small => 6,
            SizeKind::Large => 14,
            SizeKind::Unknown => if self.addr_width > 0 {
                self.addr_width
            } else {
                14
            },
        }
    }

    /// The bit that the next read gives.
    pub open spec fn out_bit(self) -> u8 {
        if !(self.state is ReadOut) || self.read_bits_left == 0 {
            1
        } else if self.read_bits_left > 64 {
            0
        } else {
            ((self.read_buf >> 63) & 1) as u8
        }
    }

    /// The chip after a read: the output moves on, and after the last bit the
    /// chip is idle.
    pub open spec fn after_read(self) -> EepromChip {
        if self.state is ReadOut && self.read_bits_left > 0 {
            EepromChip {
                read_bits_left: (self.read_bits_left - 1) as u32,
                read_buf: if self.read_bits_left <= 64 {
                    self.read_buf << 1
                } else {
                    self.read_buf
                },
                state: if self.read_bits_left == 1 {
                    State::Idle
                } else {
                    State::ReadOut
                },
                ..self
            }
        } else {
            self
        }
    }

    /// The last address bit has come in: the address is complete, and if the
    /// size was unknown it now follows from the number of bits.
    pub open spec fn addressed(self) -> EepromChip {
        let mask = ((1u64 << self.width()) - 1) as u64;
        let a = EepromChip {
            address: (self.bit_buf & mask) as u16,
            bit_buf: 0,
            bits_in: 0,
            state: State::Data,
            ..self
        };
        if !(self.size is Unknown) {
            a
        } else if self.bits_in <= 6 {
            EepromChip {
                size: SizeKind::Small,
                data: small(self.data),
                addr_width: self.bits_in,
                ..a
            }
        } else {
            EepromChip { size: SizeKind::Large, addr_width: self.bits_in, ..a }
        }
    }

    /// The chip after it was sent the low bit of `val`.
    pub open spec fn written(self, val: u8) -> EepromChip {
        let bit = (val & 1) as u64;
        let shifted = EepromChip {
            bit_buf: (self.bit_buf << 1) | bit,
            bits_in: (self.bits_in + 1) as u32,
            ..self
        };
        match self.state {
            State::Idle => EepromChip { bit_buf: bit, bits_in: 1, state: State::CmdType, ..self },
            State::WriteDone => EepromChip {
                bit_buf: bit,
                bits_in: 1,
                state: State::CmdType,
                ..self
            },
            State::CmdType => if shifted.bits_in == 2 {
                let cmd = shifted.bit_buf as u8;
                EepromChip {
                    cmd,
                    bit_buf: 0,
                    bits_in: 0,
                    state: if cmd == 2 || cmd == 3 {
                        State::Address
                    } else {
                        State::Idle
                    },
                    ..shifted
                }
            } else {
                shifted
            },
            State::Address => if shifted.bits_in >= self.width() {
                shifted.addressed()
            } else {
                shifted
            },
            State::Data => if self.cmd == 3 {
                EepromChip {
                    read_buf: block(self.data, self.address * 8, 8),
                    read_bits_left: 68,
                    state: State::ReadOut,
                    ..self
                }
            } else if self.bits_in < 63 {
                shifted
            } else if self.bits_in == 63 {
                EepromChip {
                    data: stored(self.data, self.address * 8, shifted.bit_buf),
                    ..shifted
                }
            } else {
                EepromChip { state: State::WriteDone, bit_buf: 0, bits_in: 0, ..self }
            },
            State::ReadOut => self,
        }
    }

    /// The chip after the length of a command transfer gave away its size: 9
    /// or 73 units mean 6 address bits, 17 or 81 mean 14.
    pub open spec fn sized_by(self, count: u32) -> EepromChip {
        if !(self.size is Unknown) {
            self
        } else if count == 9 || count == 73 {
            EepromChip {
                size: SizeKind::Small,
                addr_width: 6,
                data: small(self.data),
                ..self
            }
        } else if count == 17 || count == 81 {
            EepromChip { size: SizeKind::Large, addr_width: 14, ..self }
        } else {
            self
        }
    }
}

impl Eeprom {
    pub open spec fn wf(self) -> bool {
        self@.wf()
    }

    pub open spec fn blank() -> EepromChip {
        EepromChip {
            data: Seq::new(8192, |i: int| 0xFFu8),
            state: State::Idle,
            size: SizeKind::Unknown,
            cmd: 0,
            bit_buf: 0,
            bits_in: 0,
            address: 0,
            read_buf: 0,
            read_bits_left: 0,
            addr_width: 0,
        }
    }

    /// An erased chip of unknown size.
    pub fn new() -> (e: Eeprom)
        ensures
            e.wf(),
            e@ == Eeprom::blank(),
    {
        let data: Vec<u8> = vec![0xFF; 8192];
        assert(data@ =~= Seq::new(8192, |i: int| 0xFFu8));
        Eeprom {
            data,
            state: State::Idle,
            size: SizeKind::Unknown,
            cmd: 0,
            bit_buf: 0,
            bits_in: 0,
            address: 0,
            read_buf: 0,
            read_bits_left: 0,
            addr_width: 0,
        }
    }

    fn effective_addr_width(&self) -> (w: u32)
        ensures
            w == self@.width(),
    {
        match self.size {
            SizeKind::Small => 6,
            SizeKind::Large => 14,
            SizeKind::Unknown => {
                if self.addr_width > 0 {
                    self.addr_width
                } else {
                    14
                }
            },
        }
    }

    /// The bit that the next read gives, without reading it.
    pub fn peek_bit(&self) -> (bit: u8)
        ensures
            bit == self@.out_bit(),
    {
        if self.state == State::ReadOut && self.read_bits_left > 0 {
            if self.read_bits_left > 64 {
                0
            } else {
                ((self.read_buf >> 63) & 1) as u8
            }
        } else {
            1
        }
    }

    /// Reads one bit and moves the output on. An idle chip reads 1: ready.
    pub fn read_bit(&mut self) -> (bit: u8)
        requires
            old(self).wf(),
        ensures
            final(self).wf(),
            bit == old(self)@.out_bit(),
            final(self)@ == old(self)@.after_read(),
    {
        if self.state == State::ReadOut && self.read_bits_left > 0 {
            let bit: u8 = if self.read_bits_left > 64 {
                0
            } else {
                ((self.read_buf >> 63) & 1) as u8
            };
            self.read_bits_left = self.read_bits_left - 1;
            if self.read_bits_left < 64 {
                self.read_buf = self.read_buf << 1;
            }
            if self.read_bits_left == 0 {
                self.state = State::Idle;
            }
            bit
        } else {
            1
        }
    }

    fn shrink(&mut self)
        ensures
            final(self)@ == (EepromChip { data: small(old(self)@.data), ..old(self)@ }),
    {
        self.data.resize(512, 0xFF);
        proof {
            let before = old(self)@.data;
            let after = self.data@;
            if before.len() < 512 {
                assert forall|i: int| 0 <= i < 512 implies after[i] == small(before)[i] by {
                    if i < before.len() {
                        assert(after.subrange(0, before.len() as int)[i] == after[i]);
                    }
                }
            }
            assert(after =~= small(before));
        }
    }

    /// Takes the last address bit of a command.
    fn finish_address(&mut self, width: u32)
        requires
            width == old(self)@.width(),
            width < 64,
            old(self).bits_in <= 63,
            old(self).addr_width < 64,
            old(self).read_bits_left <= 68,
        ensures
            final(self).wf(),
            final(self)@ == old(self)@.addressed(),
    {
        if self.size == SizeKind::Unknown {
            if self.bits_in <= 6 {
                self.size = SizeKind::Small;
                self.shrink();
            } else {
                self.size = SizeKind::Large;
            }
            self.addr_width = self.bits_in;
        }
        proof {
            register_facts(0, 0, 0, width, 0);
        }
        let mask: u64 = (1u64 << width) - 1;
        self.address = (self.bit_buf & mask) as u16;
        self.bit_buf = 0;
        self.bits_in = 0;
        self.state = State::Data;
    }

    /// Sends the chip one bit: the low bit of `val`.
    pub fn write(&mut self, _addr: u32, val: u8)
        requires
            old(self).wf(),
        ensures
            final(self).wf(),
            final(self)@ == old(self)@.written(val),
    {
        let bit: u64 = (val & 1) as u64;
        match self.state {
            State::Idle | State::WriteDone => {
                self.bit_buf = bit;
                self.bits_in = 1;
                self.state = State::CmdType;
            },
            State::CmdType => {
                self.bit_buf = (self.bit_buf << 1) | bit;
                self.bits_in = self.bits_in + 1;
                if self.bits_in == 2 {
                    self.cmd = self.bit_buf as u8;
                    self.bit_buf = 0;
                    self.bits_in = 0;
                    if self.cmd == 2 || self.cmd == 3 {
                        self.state = State::Address;
                    } else {
                        self.state = State::Idle;
                    }
                }
            },
            State::Address => {
                let width: u32 = self.effective_addr_width();
                self.bit_buf = (self.bit_buf << 1) | bit;
                self.bits_in = self.bits_in + 1;
                if self.bits_in >= width {
                    self.finish_address(width);
                }
            },
            State::Data => {
                if self.cmd == 3 {
                    self.begin_read();
                    self.state = State::ReadOut;
                } else if self.bits_in < 64 {
                    self.bit_buf = (self.bit_buf << 1) | bit;
                    self.bits_in = self.bits_in + 1;
                    if self.bits_in == 64 {
                        let value: u64 = self.bit_buf;
                        self.store_data(value);
                    }
                } else {
                    self.state = State::WriteDone;
                    self.bit_buf = 0;
                    self.bits_in = 0;
                }
            },
            State::ReadOut => {},
        }
    }

    /// Learns the chip size from the length of the transfer that drives a
    /// command, if it is not known yet.
    pub fn set_addr_width_from_dma(&mut self, count: u32)
        requires
            old(self).wf(),
        ensures
            final(self).wf(),
            final(self)@ == old(self)@.sized_by(count),
    {
        if self.size != SizeKind::Unknown {
            return ;
        }
        match count {
            9 | 73 => {
                self.size = SizeKind::Small;
                self.addr_width = 6;
                self.shrink();
            },
            17 | 81 => {
                self.size = SizeKind::Large;
                self.addr_width = 14;
            },
            _ => {},
        }
    }

    fn begin_read(&mut self)
        ensures
            final(self)@ == (EepromChip {
                read_buf: block(old(self)@.data, old(self)@.address * 8, 8),
                read_bits_left: 68,
                ..old(self)@
            }),
    {
        let base: usize = self.address as usize * 8;
        let mut val: u64 = 0;
        let mut i: usize = 0;
        while i < 8
            invariant
                i <= 8,
                base == self.address * 8,
                val == block(self.data@, base as int, i as nat),
            decreases 8 - i,
        {
            let byte: u8 = if base + i < self.data.len() {
                self.data[base + i]
            } else {
                0xFF
            };
            val = (val << 8) | byte as u64;
            i = i + 1;
        }
        self.read_buf = val;
        self.read_bits_left = 68;
    }

    fn store_data(&mut self, value: u64)
        ensures
            final(self)@ == (EepromChip {
                data: stored(old(self)@.data, old(self)@.address * 8, value),
                ..old(self)@
            }),
    {
        let base: usize = self.address as usize * 8;
        let ghost before = self.data@;
        let mut i: usize = 0;
        while i < 8
            invariant
                i <= 8,
                base == old(self).address * 8,
                before == old(self)@.data,
                self@ == (EepromChip {
                    data: Seq::new(
                        before.len(),
                        |k: int|
                            if base <= k < base + i {
                                byte_of(value, k - base)
                            } else {
                                before[k]
                            },
                    ),
                    ..old(self)@
                }),
            decreases 8 - i,
        {
            let byte: u8 = ((value >> ((56 - i * 8) as u64)) & 0xFF) as u8;
            if base + i < self.data.len() {
                self.data[base + i] = byte;
            }
            i = i + 1;
            assert(self@.data =~= Seq::new(
                before.len(),
                |k: int|
                    if base <= k < base + i {
                        byte_of(value, k - base)
                    } else {
                        before[k]
                    },
            ));
        }
        assert(self@.data =~= stored(before, base as int, value));
    }
}

/// The lowest `n` bits of `value`, highest first, one per entry.
pub open spec fn bits_of(value: u64, n: nat) -> Seq<u8>
    decreases n,
{
    if n == 0 {
        Seq::empty()
    } else {
        seq![((value >> ((n - 1) as u64)) & 1) as u8] + bits_of(value, (n - 1) as nat)
    }
}

/// The chip after it was sent `bits` one after the other.
pub open spec fn sent(e: EepromChip, bits: Seq<u8>) -> EepromChip
    decreases bits.len(),
{
    if bits.len() == 0 {
        e
    } else {
        sent(e.written(bits[0]), bits.drop_first())
    }
}

/// The chip after `n` reads.
pub open spec fn after_reads(e: EepromChip, n: nat) -> EepromChip
    decreases n,
{
    if n == 0 {
        e
    } else {
        after_reads(e, (n - 1) as nat).after_read()
    }
}

/// The write command for a block: 10, address, data, dummy bit.
pub open spec fn write_command(width: nat, address: u64, value: u64) -> Seq<u8> {
    seq![1u8, 0u8] + bits_of(address, width) + bits_of(value, 64) + seq![0u8]
}

/// The read command for a block: 11, address, dummy bit.
pub open spec fn read_command(width: nat, address: u64) -> Seq<u8> {
    seq![1u8, 1u8] + bits_of(address, width) + seq![0u8]
}

proof fn sent_appends(e: EepromChip, a: Seq<u8>, b: Seq<u8>)
    ensures
        sent(e, a + b) == sent(sent(e, a), b),
    decreases a.len(),
{
    if a.len() == 0 {
        assert(a + b =~= b);
    } else {
        assert((a + b).drop_first() =~= a.drop_first() + b);
        sent_appends(e.written(a[0]), a.drop_first(), b);
    }
}

proof fn sent_one(e: EepromChip, bit: u8)
    ensures
        sent(e, seq![bit]) == e.written(bit),
{
    assert(seq![bit].drop_first() =~= Seq::<u8>::empty());
    reveal_with_fuel(sent, 2);
}

proof fn sent_two(e: EepromChip, a: u8, b: u8)
    ensures
        sent(e, seq![a, b]) == e.written(a).written(b),
{
    assert(seq![a, b] =~= seq![a] + seq![b]);
    sent_appends(e, seq![a], seq![b]);
    sent_one(e, a);
    sent_one(e.written(a), b);
}

/// How the chip's shift registers behave: bits that come in from the right
/// rebuild the value they were taken from, bits that leave to the left are its
/// bits from the top, and eight bytes join to the value they came from.
proof fn register_facts(v: u64, k: u64, m: u64, w: u32, low: u8)
    by (bit_vector)
    ensures
        m < 64 && k < 64 && m == k + 1 ==> v >> k == ((v >> m) << 1) | ((((v >> k) & 1) as u8
            & 1) as u64),
        k == 63 ==> v >> k == (0u64 << 1) | ((((v >> k) & 1) as u8 & 1) as u64),
        ((v >> k) & 1) as u8 <= 1,
        v >> 0u64 == v,
        v << 0u64 == v,
        (w == 6 && v < 64 || w == 14 && v < 16384) ==> v & (((1u64 << w) - 1) as u64) == v,
        w < 64 ==> 1u64 << w >= 1,
        (m == 6 && v < 64 || m == 14 && v < 16384) ==> v >> m == 0,
        low <= 1 ==> low & 1 == low && ((1u64 << 1) | ((low & 1) as u64)) as u8 == 2 + low,
        1u8 & 1 == 1,
        0u8 & 1 == 0,
        k < 64 ==> ((v << k) >> 63) & 1 == (v >> ((63 - k) as u64)) & 1,
        k < 63 ==> (v << k) << 1 == v << ((k + 1) as u64),
        ((((((((0u64 << 8 | (v >> 56) & 0xFF) << 8 | (v >> 48) & 0xFF) << 8 | (v >> 40) & 0xFF)
            << 8 | (v >> 32) & 0xFF) << 8 | (v >> 24) & 0xFF) << 8 | (v >> 16) & 0xFF) << 8 | (v
            >> 8) & 0xFF) << 8 | (v >> 0) & 0xFF) == v,
        (v >> 56) & 0xFF <= 0xFF,
        (v >> 48) & 0xFF <= 0xFF,
        (v >> 40) & 0xFF <= 0xFF,
        (v >> 32) & 0xFF <= 0xFF,
        (v >> 24) & 0xFF <= 0xFF,
        (v >> 16) & 0xFF <= 0xFF,
        (v >> 8) & 0xFF <= 0xFF,
        (v >> 0) & 0xFF <= 0xFF,
{
}

/// A field that has taken in all but the lowest `n` bits of `value`.
spec fn upper(value: u64, n: nat) -> u64 {
    if n >= 64 {
        0
    } else {
        value >> (n as u64)
    }
}

proof fn upper_step(value: u64, n: nat)
    requires
        0 < n <= 64,
    ensures
        upper(value, (n - 1) as nat) == (upper(value, n) << 1) | (((value >> ((n - 1) as u64)) & 1) as u8 & 1) as u64,
        ((value >> ((n - 1) as u64)) & 1) as u8 <= 1,
{
    register_facts(value, (n - 1) as u64, n as u64, 0, 0);
}

/// While the address comes in, its bits gather in the buffer; after the last
/// one the address is complete.
proof fn address_gathers(e: EepromChip, address: u64, n: nat)
    requires
        e.state is Address,
        !(e.size is Unknown),
        0 < n <= e.width(),
        e.bits_in + n == e.width(),
        e.bit_buf == upper(address, n),
        address < 16384,
        e.width() == 6 ==> address < 64,
    ensures
        sent(e, bits_of(address, n)) == (EepromChip {
            address: address as u16,
            bit_buf: 0,
            bits_in: 0,
            state: State::Data,
            ..e
        }),
    decreases n,
{
    let b = ((address >> ((n - 1) as u64)) & 1) as u8;
    let rest = bits_of(address, (n - 1) as nat);
    upper_step(address, n);
    assert(bits_of(address, n).drop_first() =~= rest);
    assert(bits_of(address, n)[0] == b);
    let f = e.written(b);
    if n == 1 {
        reveal_with_fuel(sent, 2);
        reveal_with_fuel(bits_of, 2);
        let w = e.width();
        register_facts(address, 0, 1, w, 0);
        assert(rest =~= Seq::<u8>::empty());
    } else {
        address_gathers(f, address, (n - 1) as nat);
    }
}

/// While the data of a write comes in, its bits gather in the buffer; the last
/// one stores the block.
proof fn data_gathers(e: EepromChip, value: u64, n: nat)
    requires
        e.state is Data,
        e.cmd == 2,
        0 < n <= 64,
        e.bits_in + n == 64,
        e.bit_buf == upper(value, n),
    ensures
        sent(e, bits_of(value, n)) == (EepromChip {
            data: stored(e.data, e.address * 8, value),
            bit_buf: value,
            bits_in: 64,
            ..e
        }),
    decreases n,
{
    let b = ((value >> ((n - 1) as u64)) & 1) as u8;
    let rest = bits_of(value, (n - 1) as nat);
    upper_step(value, n);
    assert(bits_of(value, n).drop_first() =~= rest);
    assert(bits_of(value, n)[0] == b);
    let f = e.written(b);
    if n == 1 {
        reveal_with_fuel(sent, 2);
        reveal_with_fuel(bits_of, 2);
        register_facts(value, 0, 1, 0, 0);
        assert(rest =~= Seq::<u8>::empty());
    } else {
        data_gathers(f, value, (n - 1) as nat);
    }
}

/// A chip that is ready for a command and knows its size.
pub open spec fn ready(e: EepromChip) -> bool {
    (e.state is Idle || e.state is WriteDone) && !(e.size is Unknown)
}

/// Whether `address` is one that the chip can be sent.
pub open spec fn addressable(e: EepromChip, address: u64) -> bool {
    address < 16384 && (e.size is Small ==> address < 64)
}

proof fn command_decoded(e: EepromChip, low: u8, address: u64)
    requires
        ready(e),
        addressable(e, address),
        low <= 1,
    ensures
        sent(e, seq![1u8, low] + bits_of(address, e.width() as nat)) == (EepromChip {
            cmd: (2 + low) as u8,
            address: address as u16,
            bit_buf: 0,
            bits_in: 0,
            state: State::Data,
            ..e
        }),
{
    let w = e.width() as nat;
    sent_appends(e, seq![1u8, low], bits_of(address, w));
    sent_two(e, 1, low);
    register_facts(address, 0, w as u64, 0, low);
    let f = e.written(1).written(low);
    assert(f.state is Address && f.cmd == 2 + low && f.bit_buf == 0 && f.bits_in == 0);
    assert(upper(address, w) == 0);
    address_gathers(f, address, w);
}

/// A write command stores the block and leaves the chip ready.
pub proof fn eeprom_write_stores(e: EepromChip, address: u64, value: u64)
    requires
        ready(e),
        addressable(e, address),
    ensures
        ({
            let f = sent(e, write_command(e.width() as nat, address, value));
            &&& ready(f)
            &&& f.size == e.size
            &&& f.data == stored(e.data, address * 8, value)
            &&& f.out_bit() == 1
        }),
{
    let w = e.width() as nat;
    let head = seq![1u8, 0u8] + bits_of(address, w);
    command_decoded(e, 0, address);
    let f = sent(e, head);
    data_gathers(f, value, 64);
    sent_appends(e, head, bits_of(value, 64));
    let g = sent(f, bits_of(value, 64));
    sent_appends(e, head + bits_of(value, 64), seq![0u8]);
    sent_one(g, 0);
}

/// A read command makes the chip put out the block.
pub proof fn eeprom_read_starts(e: EepromChip, address: u64)
    requires
        ready(e),
        addressable(e, address),
    ensures
        ({
            let f = sent(e, read_command(e.width() as nat, address));
            &&& f.state is ReadOut
            &&& f.size == e.size
            &&& f.data == e.data
            &&& f.read_bits_left == 68
            &&& f.read_buf == block(e.data, address * 8, 8)
        }),
{
    let w = e.width() as nat;
    let head = seq![1u8, 1u8] + bits_of(address, w);
    command_decoded(e, 1, address);
    sent_appends(e, head, seq![0u8]);
    sent_one(sent(e, head), 0);
}

/// The state of the output after `k` reads.
proof fn output_after(e: EepromChip, value: u64, k: nat)
    requires
        e.state is ReadOut,
        e.read_bits_left == 68,
        e.read_buf == value,
        k <= 67,
    ensures
        ({
            let f = after_reads(e, k);
            &&& f.state is ReadOut
            &&& f.read_bits_left == 68 - k
            &&& f.read_buf == (if k <= 4 {
                value
            } else {
                value << ((k - 4) as u64)
            })
            &&& f.data == e.data
            &&& f.size == e.size
        }),
    decreases k,
{
    if k > 0 {
        output_after(e, value, (k - 1) as nat);
        if k > 4 {
            register_facts(value, (k - 5) as u64, 0, 0, 0);
        }
    }
}

/// A read command puts out four zeros, then the block from its highest bit
/// down, and leaves the chip ready.
pub proof fn eeprom_read_gives_block(e: EepromChip, address: u64)
    requires
        ready(e),
        addressable(e, address),
    ensures
        ({
            let f = sent(e, read_command(e.width() as nat, address));
            let value = block(e.data, address * 8, 8);
            &&& forall|k: nat| k < 4 ==> (#[trigger] after_reads(f, k)).out_bit() == 0
            &&& forall|k: nat|
                4 <= k < 68 ==> (#[trigger] after_reads(f, k)).out_bit() == ((value >> ((67
                    - k) as u64)) & 1) as u8
            &&& ready(after_reads(f, 68))
            &&& after_reads(f, 68).data == e.data
        }),
{
    eeprom_read_starts(e, address);
    let f = sent(e, read_command(e.width() as nat, address));
    let value = block(e.data, address * 8, 8);
    assert forall|k: nat| k < 4 implies (#[trigger] after_reads(f, k)).out_bit() == 0 by {
        output_after(f, value, k);
    }
    assert forall|k: nat| 4 <= k < 68 implies (#[trigger] after_reads(f, k)).out_bit() == ((value
        >> ((67 - k) as u64)) & 1) as u8 by {
        output_after(f, value, k);
        register_facts(value, (k - 4) as u64, 0, 0, 0);
        assert(63 - (k - 4) == 67 - k);
    }
    output_after(f, value, 67);
}

/// A stored block reads back, and no other block changes.
pub proof fn stored_block_reads_back(data: Seq<u8>, address: u64, value: u64, other: u64)
    requires
        address * 8 + 8 <= data.len(),
        other != address,
    ensures
        block(stored(data, address * 8, value), address * 8, 8) == value,
        block(stored(data, address * 8, value), other * 8, 8) == block(data, other * 8, 8),
{
    let base = address * 8;
    let s = stored(data, base, value);
    register_facts(value, 0, 0, 0, 0);
    reveal_with_fuel(block, 9);
    assert(s[base] == ((value >> 56) & 0xFF) as u8);
    assert(s[base + 1] == ((value >> 48) & 0xFF) as u8);
    assert(s[base + 2] == ((value >> 40) & 0xFF) as u8);
    assert(s[base + 3] == ((value >> 32) & 0xFF) as u8);
    assert(s[base + 4] == ((value >> 24) & 0xFF) as u8);
    assert(s[base + 5] == ((value >> 16) & 0xFF) as u8);
    assert(s[base + 6] == ((value >> 8) & 0xFF) as u8);
    assert(s[base + 7] == ((value >> 0) & 0xFF) as u8);
    let o = other * 8;
    assert(o + 8 <= base || base + 8 <= o);
}

/// What was written to a block is what a later read of that block puts out,
/// whatever the chip size, and every other block keeps its contents.
pub proof fn eeprom_round_trip(e: EepromChip, address: u64, value: u64, other: u64)
    requires
        ready(e),
        addressable(e, address),
        address * 8 + 8 <= e.data.len(),
        other != address,
    ensures
        ({
            let f = sent(e, write_command(e.width() as nat, address, value));
            let g = sent(f, read_command(e.width() as nat, address));
            &&& forall|k: nat| k < 4 ==> (#[trigger] after_reads(g, k)).out_bit() == 0
            &&& forall|k: nat|
                4 <= k < 68 ==> (#[trigger] after_reads(g, k)).out_bit() == ((value >> ((67
                    - k) as u64)) & 1) as u8
            &&& block(f.data, other * 8, 8) == block(e.data, other * 8, 8)
        }),
{
    eeprom_write_stores(e, address, value);
    stored_block_reads_back(e.data, address, value, other);
    eeprom_read_gives_block(sent(e, write_command(e.width() as nat, address, value)), address);
}

/// A block of 64 bits lies in eight bytes, the highest first.
pub proof fn blocks_are_big_endian(value: u64, i: int)
    requires
        0 <= i < 8,
    ensures
        byte_of(value, i) == value as nat / vstd::arithmetic::power2::pow2((56 - 8 * i) as nat)
            % 256,
{
    let x = value >> ((56 - i * 8) as u64);
    vstd::bits::lemma_u64_shr_is_div(value, (56 - i * 8) as u64);
    vstd::bits::lemma_u64_low_bits_mask_is_mod(x, 8);
    vstd::bits::lemma_low_bits_mask_values();
    vstd::arithmetic::power2::lemma2_to64();
}

} // verus!

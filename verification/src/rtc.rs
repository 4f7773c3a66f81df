//! The cartridge real-time clock: a serial chip behind three GPIO registers.
//!
//! The data register carries the pins SCK (bit 0), SIO (bit 1) and CS (bit 2).
//! While CS is high the game clocks in a command byte, highest bit first, and
//! then sends or receives data bytes, lowest bit first. Dates and times are
//! binary-coded decimal.

use vstd::prelude::*;

use crate::bits;
use crate::calendar::{bcd, split_time, DateTime};
use crate::search::contains_bytes;

verus! {

broadcast use bits::group_and_bounds;

/// Where a serial transaction stands.
#[derive(Debug, Clone, Copy, PartialEq, Eq, Structural)]
pub enum TransferState {
    Idle,
    ReceivingCommand,
    ReceivingData,
    SendingData,
}

/// The clock chip and its GPIO port.
#[derive(Debug, Clone, Copy)]
#[verifier::ext_equal]
pub struct Rtc {
    /// Whether the cartridge has the chip.
    pub enabled: bool,
    pub data_out: u8,
    /// One bit per pin; 1 is an output of the console.
    pub direction: u8,
    /// Bit 0 makes the registers readable.
    pub control: u8,
    pub state: TransferState,
    pub last_sck: bool,
    pub cs: bool,
    pub in_bits: u8,
    pub in_bit_count: u8,
    pub out_bits: u8,
    pub out_bit_count: u8,
    pub sio_out: bool,
    pub command: u8,
    pub data_buf: [u8; 8],
    pub data_idx: usize,
    pub data_len: usize,
    /// Bit 6 is 24-hour mode, bit 7 a failed battery.
    pub status: u8,
    /// The wall clock, in seconds since 1970.
    pub clock: u64,
}

/// The bytes `SIIRTC_V` that a cartridge with the chip carries.
pub open spec fn rtc_signature() -> Seq<u8> {
    seq![0x53u8, 0x49, 0x49, 0x52, 0x54, 0x43, 0x5F, 0x56]
}

/// The date and time at `clock` as seven BCD bytes: year, month, day, day of
/// the week, hour, minute, second.
pub open spec fn datetime_bytes(buf: [u8; 8], t: DateTime) -> [u8; 8] {
    [
        bcd(t.year % 100),
        bcd(t.month),
        bcd(t.day),
        bcd(t.weekday),
        bcd(t.hour),
        bcd(t.minute),
        bcd(t.second),
        buf[7],
    ]
}

/// The time at `clock` as three BCD bytes.
pub open spec fn time_bytes(buf: [u8; 8], t: DateTime) -> [u8; 8] {
    [bcd(t.hour), bcd(t.minute), bcd(t.second), buf[3], buf[4], buf[5], buf[6], buf[7]]
}

impl Rtc {
    pub open spec fn wf(self) -> bool {
        &&& self.in_bit_count < 8
        &&& self.out_bit_count <= 8
        &&& self.data_len <= 8
        &&& self.data_idx <= 8
    }

    pub open spec fn power_on() -> Rtc {
        Rtc {
            enabled: false,
            data_out: 0,
            direction: 0,
            control: 0,
            state: TransferState::Idle,
            last_sck: false,
            cs: false,
            in_bits: 0,
            in_bit_count: 0,
            out_bits: 0,
            out_bit_count: 0,
            sio_out: false,
            command: 0,
            data_buf: bits::filled(0),
            data_idx: 0,
            data_len: 0,
            status: 0x40,
            clock: 0,
        }
    }

    /// 24-hour mode, battery good, nothing in transfer.
    pub fn new() -> (r: Rtc)
        ensures
            r == Rtc::power_on(),
            r.wf(),
    {
        Rtc {
            enabled: false,
            data_out: 0,
            direction: 0,
            control: 0,
            state: TransferState::Idle,
            last_sck: false,
            cs: false,
            in_bits: 0,
            in_bit_count: 0,
            out_bits: 0,
            out_bit_count: 0,
            sio_out: false,
            command: 0,
            data_buf: [0;8],
            data_idx: 0,
            data_len: 0,
            status: 0x40,
            clock: 0,
        }
    }

    /// Whether the ROM carries the chip's signature.
    pub fn detect(rom: &[u8]) -> (found: bool)
        ensures
            found == crate::search::occurs(rom@, rtc_signature()),
    {
        let needle: [u8; 8] = [0x53, 0x49, 0x49, 0x52, 0x54, 0x43, 0x5F, 0x56];
        assert(needle@ =~= rtc_signature());
        contains_bytes(rom, needle.as_slice())
    }

    /// Sets the wall clock that date and time reads report.
    pub fn set_clock(&mut self, seconds: u64)
        ensures
            *final(self) == (Rtc { clock: seconds, ..*old(self) }),
    {
        self.clock = seconds;
    }

    /// Whether the GPIO registers show in place of the ROM: the cartridge has
    /// the chip and readback is switched on.
    #[verifier::allow_in_spec]
    pub fn readable(&self) -> bool
        returns
            self.enabled && self.control & 1 != 0,
    {
        self.enabled && self.control & 1 != 0
    }

    /// What a GPIO register reads: data, direction or control at offset 0, 2
    /// or 4. Output pins read as written, SIO as an input reads what the chip
    /// drives, and unreadable registers read as zero.
    #[verifier::allow_in_spec]
    pub fn read_reg(&self, offset: u32) -> u16
        returns
            (if self.control & 1 == 0 {
                0u16
            } else if offset == 0 {
                ((self.data_out & 5) | (if self.direction & 2 != 0 {
                    self.data_out & 2
                } else if self.sio_out {
                    2u8
                } else {
                    0u8
                })) as u16
            } else if offset == 2 {
                self.direction as u16
            } else if offset == 4 {
                self.control as u16
            } else {
                0u16
            }),
    {
        if self.control & 1 == 0 {
            return 0;
        }
        match offset {
            0 => {
                let sio: u8 = if self.direction & 2 != 0 {
                    self.data_out & 2
                } else if self.sio_out {
                    2
                } else {
                    0
                };
                ((self.data_out & 5) | sio) as u16
            },
            2 => self.direction as u16,
            4 => self.control as u16,
            _ => 0,
        }
    }

    /// The chip after `value` was written to a GPIO register.
    pub open spec fn reg_written(self, offset: u32, value: u16) -> Rtc {
        if offset == 0 {
            Rtc { data_out: (value & 0x0F) as u8, ..self }.pins_changed()
        } else if offset == 2 {
            Rtc { direction: (value & 0x0F) as u8, ..self }
        } else if offset == 4 {
            Rtc { control: (value & 1) as u8, ..self }
        } else {
            self
        }
    }

    /// Writes a GPIO register.
    pub fn write_reg(&mut self, offset: u32, value: u16)
        requires
            old(self).wf(),
        ensures
            *final(self) == old(self).reg_written(offset, value),
            final(self).wf(),
    {
        match offset {
            0 => {
                self.data_out = (value & 0x0F) as u8;
                self.pin_update();
            },
            2 => {
                self.direction = (value & 0x0F) as u8;
            },
            4 => {
                self.control = (value & 1) as u8;
            },
            _ => {},
        }
    }

    /// The chip after an edge of CS: a rising edge opens a transaction, a
    /// falling one ends it.
    pub open spec fn selected(self) -> Rtc {
        let cs = self.data_out & 4 != 0;
        if cs && !self.cs {
            Rtc {
                state: TransferState::ReceivingCommand,
                in_bits: 0,
                in_bit_count: 0,
                out_bit_count: 0,
                data_idx: 0,
                cs,
                ..self
            }
        } else if !cs && self.cs {
            Rtc { state: TransferState::Idle, cs, ..self }
        } else {
            self
        }
    }

    /// The chip's reaction to the pins as written: bits are taken in on a
    /// rising clock and put out on a falling one, while CS is high.
    #[verifier::opaque]
    pub open spec fn pins_changed(self) -> Rtc {
        let a = self.selected();
        let sck = self.data_out & 1 != 0;
        let sio = self.data_out & 2 != 0;
        let b = Rtc { last_sck: sck, ..a };
        let rising = sck && !a.last_sck;
        let falling = !sck && a.last_sck;
        if !a.cs {
            b
        } else if a.state is ReceivingCommand && rising {
            b.command_bit(sio)
        } else if a.state is SendingData && falling {
            b.bit_sent()
        } else if a.state is ReceivingData && rising {
            b.data_bit(sio)
        } else {
            b
        }
    }

    /// One more bit of the command byte; the eighth executes it.
    pub open spec fn command_bit(self, sio: bool) -> Rtc {
        let in_bits = (self.in_bits << 1) | (if sio { 1u8 } else { 0u8 });
        if self.in_bit_count == 7 {
            Rtc {
                in_bit_count: 0,
                in_bits: 0,
                ..(Rtc { command: in_bits, in_bits, in_bit_count: 8, ..self }).executed()
            }
        } else {
            Rtc { in_bits, in_bit_count: (self.in_bit_count + 1) as u8, ..self }
        }
    }

    /// One more bit to the game; after the last one the chip falls idle.
    pub open spec fn bit_sent(self) -> Rtc {
        if self.out_bit_count == 0 && self.data_idx >= self.data_len {
            Rtc { sio_out: false, ..self }
        } else {
            let a = if self.out_bit_count == 0 {
                Rtc {
                    out_bits: self.data_buf[self.data_idx as int],
                    data_idx: (self.data_idx + 1) as usize,
                    out_bit_count: 8,
                    ..self
                }
            } else {
                self
            };
            Rtc {
                sio_out: a.out_bits & 1 != 0,
                out_bits: a.out_bits >> 1,
                out_bit_count: (a.out_bit_count - 1) as u8,
                state: if a.out_bit_count == 1 && a.data_idx >= a.data_len {
                    TransferState::Idle
                } else {
                    a.state
                },
                ..a
            }
        }
    }

    /// One more bit from the game; each eighth completes a byte, and the last
    /// byte completes the write.
    pub open spec fn data_bit(self, sio: bool) -> Rtc {
        let in_bits = self.in_bits | ((if sio { 1u8 } else { 0u8 }) << self.in_bit_count);
        if self.in_bit_count == 7 {
            let a = if self.data_idx < 8 {
                Rtc {
                    data_buf: bits::upd(self.data_buf, self.data_idx as int, in_bits),
                    data_idx: (self.data_idx + 1) as usize,
                    in_bits: 0,
                    in_bit_count: 0,
                    ..self
                }
            } else {
                Rtc { in_bits: 0, in_bit_count: 0, ..self }
            };
            if a.data_idx >= a.data_len {
                Rtc { state: TransferState::Idle, ..a.write_finished() }
            } else {
                a
            }
        } else {
            Rtc { in_bits, in_bit_count: (self.in_bit_count + 1) as u8, ..self }
        }
    }

    /// A completed write: only the status register keeps what was written.
    pub open spec fn write_finished(self) -> Rtc {
        if self.command == 0x62 {
            Rtc { status: self.data_buf[0], ..self }
        } else {
            self
        }
    }

    /// Ready to receive `len` data bytes.
    pub open spec fn expecting(self, len: usize) -> Rtc {
        Rtc {
            data_len: len,
            data_idx: 0,
            in_bits: 0,
            in_bit_count: 0,
            state: TransferState::ReceivingData,
            ..self
        }
    }

    /// Ready to send the first `len` bytes of the buffer.
    pub open spec fn sending(self, len: usize) -> Rtc {
        Rtc {
            data_len: len,
            data_idx: 0,
            out_bit_count: 0,
            state: TransferState::SendingData,
            ..self
        }
    }

    /// The chip after the command byte: reset, write or read of the status,
    /// of date and time, or of the time alone. Anything else is ignored.
    #[verifier::opaque]
    pub open spec fn executed(self) -> Rtc {
        if self.command == 0x60 {
            Rtc { status: 0x40, state: TransferState::Idle, ..self }
        } else if self.command == 0x62 {
            self.expecting(1)
        } else if self.command == 0x63 {
            Rtc { data_buf: bits::upd(self.data_buf, 0, self.status), ..self }.sending(1)
        } else if self.command == 0x64 {
            self.expecting(7)
        } else if self.command == 0x65 {
            Rtc {
                data_buf: datetime_bytes(self.data_buf, crate::calendar::date_time(self.clock)),
                ..self
            }.sending(7)
        } else if self.command == 0x66 {
            self.expecting(3)
        } else if self.command == 0x67 {
            Rtc {
                data_buf: time_bytes(self.data_buf, crate::calendar::date_time(self.clock)),
                ..self
            }.sending(3)
        } else {
            Rtc { state: TransferState::Idle, ..self }
        }
    }

    fn pin_update(&mut self)
        requires
            old(self).wf(),
        ensures
            *final(self) == old(self).pins_changed(),
            final(self).wf(),
    {
        reveal(Rtc::pins_changed);
        let new_cs = self.data_out & 4 != 0;
        let new_sck = self.data_out & 1 != 0;
        let sio = self.data_out & 2 != 0;
        if new_cs && !self.cs {
            self.state = TransferState::ReceivingCommand;
            self.in_bits = 0;
            self.in_bit_count = 0;
            self.out_bit_count = 0;
            self.data_idx = 0;
        } else if !new_cs && self.cs {
            self.state = TransferState::Idle;
        }
        self.cs = new_cs;
        assert(*self == old(self).selected());
        if !self.cs {
            self.last_sck = new_sck;
            return ;
        }
        let rising = new_sck && !self.last_sck;
        let falling = !new_sck && self.last_sck;
        self.last_sck = new_sck;
        match self.state {
            TransferState::ReceivingCommand => {
                if rising {
                    self.receive_command_bit(sio);
                }
            },
            TransferState::SendingData => {
                if falling {
                    self.send_bit();
                }
            },
            TransferState::ReceivingData => {
                if rising {
                    self.receive_data_bit(sio);
                }
            },
            TransferState::Idle => {},
        }
    }

    fn receive_command_bit(&mut self, sio: bool)
        requires
            old(self).wf(),
        ensures
            *final(self) == old(self).command_bit(sio),
            final(self).wf(),
    {
        self.in_bits = (self.in_bits << 1) | (if sio {
            1u8
        } else {
            0u8
        });
        self.in_bit_count = self.in_bit_count + 1;
        if self.in_bit_count == 8 {
            self.command = self.in_bits;
            self.execute_command();
            self.in_bit_count = 0;
            self.in_bits = 0;
        }
    }

    fn send_bit(&mut self)
        requires
            old(self).wf(),
        ensures
            *final(self) == old(self).bit_sent(),
            final(self).wf(),
    {
        if self.out_bit_count == 0 {
            if self.data_idx < self.data_len {
                self.out_bits = self.data_buf[self.data_idx];
                self.data_idx = self.data_idx + 1;
                self.out_bit_count = 8;
            } else {
                self.sio_out = false;
                return ;
            }
        }
        self.sio_out = self.out_bits & 1 != 0;
        self.out_bits = self.out_bits >> 1;
        self.out_bit_count = self.out_bit_count - 1;
        if self.out_bit_count == 0 && self.data_idx >= self.data_len {
            self.state = TransferState::Idle;
        }
    }

    fn receive_data_bit(&mut self, sio: bool)
        requires
            old(self).wf(),
        ensures
            *final(self) == old(self).data_bit(sio),
            final(self).wf(),
    {
        self.in_bits = self.in_bits | ((if sio {
            1u8
        } else {
            0u8
        }) << self.in_bit_count);
        self.in_bit_count = self.in_bit_count + 1;
        if self.in_bit_count == 8 {
            if self.data_idx < 8 {
                self.data_buf[self.data_idx] = self.in_bits;
                self.data_idx = self.data_idx + 1;
            }
            self.in_bits = 0;
            self.in_bit_count = 0;
            if self.data_idx >= self.data_len {
                self.finish_write();
                self.state = TransferState::Idle;
            }
        }
    }

    fn finish_write(&mut self)
        ensures
            *final(self) == old(self).write_finished(),
    {
        if self.command == 0x62 {
            self.status = self.data_buf[0];
        }
    }

    fn expect(&mut self, len: usize)
        ensures
            *final(self) == old(self).expecting(len),
    {
        self.data_len = len;
        self.data_idx = 0;
        self.in_bits = 0;
        self.in_bit_count = 0;
        self.state = TransferState::ReceivingData;
    }

    fn send(&mut self, len: usize)
        ensures
            *final(self) == old(self).sending(len),
    {
        self.data_len = len;
        self.data_idx = 0;
        self.out_bit_count = 0;
        self.state = TransferState::SendingData;
    }

    fn execute_command(&mut self)
        requires
            old(self).out_bit_count <= 8,
            old(self).data_len <= 8,
            old(self).data_idx <= 8,
        ensures
            *final(self) == old(self).executed(),
            final(self).out_bit_count <= 8,
            final(self).data_len <= 8,
            final(self).data_idx <= 8,
    {
        reveal(Rtc::executed);
        match self.command {
            0x60 => {
                self.status = 0x40;
                self.state = TransferState::Idle;
            },
            0x62 => self.expect(1),
            0x63 => {
                self.data_buf[0] = self.status;
                self.send(1);
            },
            0x64 => self.expect(7),
            0x65 => {
                self.fill_datetime();
                self.send(7);
            },
            0x66 => self.expect(3),
            0x67 => {
                self.fill_time();
                self.send(3);
            },
            _ => {
                self.state = TransferState::Idle;
            },
        }
    }

    fn fill_datetime(&mut self)
        ensures
            *final(self) == (Rtc {
                data_buf: datetime_bytes(
                    old(self).data_buf,
                    crate::calendar::date_time(old(self).clock),
                ),
                ..*old(self)
            }),
    {
        let t = split_time(self.clock);
        self.data_buf[0] = bcd(t.year % 100);
        self.data_buf[1] = bcd(t.month);
        self.data_buf[2] = bcd(t.day);
        self.data_buf[3] = bcd(t.weekday);
        self.data_buf[4] = bcd(t.hour);
        self.data_buf[5] = bcd(t.minute);
        self.data_buf[6] = bcd(t.second);
    }

    fn fill_time(&mut self)
        ensures
            *final(self) == (Rtc {
                data_buf: time_bytes(
                    old(self).data_buf,
                    crate::calendar::date_time(old(self).clock),
                ),
                ..*old(self)
            }),
    {
        let t = split_time(self.clock);
        self.data_buf[0] = bcd(t.hour);
        self.data_buf[1] = bcd(t.minute);
        self.data_buf[2] = bcd(t.second);
    }
}

impl Rtc {
    /// The chip after `k` falling clocks of a transfer to the game.
    pub open spec fn clocked_out(self, k: nat) -> Rtc
        decreases k,
    {
        if k == 0 {
            self
        } else {
            self.clocked_out((k - 1) as nat).bit_sent()
        }
    }

    /// The chip after the `k` lowest bits of `v` were clocked in, lowest first.
    pub open spec fn clocked_in(self, v: u8, k: nat) -> Rtc
        decreases k,
    {
        if k == 0 {
            self
        } else {
            self.clocked_in(v, (k - 1) as nat).data_bit(v & (1u8 << ((k - 1) as u8)) != 0)
        }
    }
}

proof fn next_bit(v: u8, k: u8, n: u8)
    by (bit_vector)
    ensures
        k < 8 ==> ((v >> k) & 1 != 0) == (v & (1u8 << k) != 0),
        k < 8 ==> (v >> k) >> 1 == v >> ((k + 1) as u8),
        v >> 0u8 == v,
        k < 7 ==> (v & (((1u8 << k) - 1) as u8)) | ((if v & (1u8 << k) != 0 { 1u8 } else { 0u8 }) << k)
            == v & (((1u8 << ((k + 1) as u8)) - 1) as u8),
        (v & 0x7F) | ((if v & (1u8 << 7) != 0 { 1u8 } else { 0u8 }) << 7) == v,
        ((1u8 << 7u8) - 1) as u8 == 0x7F,
        v & (((1u8 << 0u8) - 1) as u8) == 0,
        1 <= n && n < 8 ==> ((v >> ((8 - n) as u8)) << 1) | (if v & (0x80u8 >> n) != 0 {
            1u8
        } else {
            0u8
        }) == v >> ((7 - n) as u8),
        (0u8 << 1) | (if v & (0x80u8 >> 0u8) != 0 {
            1u8
        } else {
            0u8
        }) == v >> 7u8,
        v >> 0u8 == v,
{
}

/// A byte of a reply is sent lowest bit first, in eight clocks; then the next
/// byte is at hand.
pub proof fn bytes_are_sent_lowest_bit_first(r: Rtc, k: nat)
    requires
        r.out_bit_count == 0,
        r.data_idx < r.data_len <= 8,
        1 <= k <= 8,
    ensures
        ({
            let byte = r.data_buf[r.data_idx as int];
            let s = r.clocked_out(k);
            &&& s.sio_out == (byte & (1u8 << ((k - 1) as u8)) != 0)
            &&& s.out_bits == byte >> (k as u8)
            &&& s.out_bit_count == 8 - k
            &&& s.data_idx == r.data_idx + 1
            &&& s.data_buf == r.data_buf && s.data_len == r.data_len
        }),
    decreases k,
{
    let byte = r.data_buf[r.data_idx as int];
    reveal_with_fuel(Rtc::clocked_out, 2);
    next_bit(byte, (k - 1) as u8, 0);
    next_bit(byte, 0, 0);
    if k > 1 {
        bytes_are_sent_lowest_bit_first(r, (k - 1) as nat);
    }
}

proof fn bits_gather(r: Rtc, v: u8, k: nat)
    requires
        r.in_bits == 0,
        r.in_bit_count == 0,
        k <= 7,
    ensures
        ({
            let s = r.clocked_in(v, k);
            s == (Rtc { in_bits: v & (((1u8 << (k as u8)) - 1) as u8), in_bit_count: k as u8, ..r })
        }),
    decreases k,
{
    reveal_with_fuel(Rtc::clocked_in, 2);
    next_bit(v, 0, 0);
    if k > 0 {
        bits_gather(r, v, (k - 1) as nat);
        next_bit(v, (k - 1) as u8, 0);
    }
}

/// The status that is written to the chip is the status that is read from it.
pub proof fn status_reads_back(r: Rtc, v: u8)
    ensures
        ({
            let written = (Rtc { command: 0x62, ..r }).executed().clocked_in(v, 8);
            let read = (Rtc { command: 0x63, ..written }).executed();
            &&& written.status == v && written.state is Idle
            &&& read.state is SendingData && read.data_len == 1 && read.data_idx == 0
            &&& read.out_bit_count == 0 && read.data_buf[0] == v
        }),
{
    reveal(Rtc::executed);
    let open = (Rtc { command: 0x62, ..r }).executed();
    bits_gather(open, v, 7);
    next_bit(v, 7, 0);
    reveal_with_fuel(Rtc::clocked_in, 2);
}

impl Rtc {
    /// A transaction opened over the pins: CS low, then high, the clock low.
    #[verifier::opaque]
    spec fn opened(self) -> Rtc {
        self.reg_written(0, 0).reg_written(0, 4)
    }

    /// One bit handed to the chip over the pins: SIO is set while the clock is
    /// low, then the clock rises.
    #[verifier::opaque]
    spec fn pulsed(self, bit: bool) -> Rtc {
        if bit {
            self.reg_written(0, 6).reg_written(0, 7)
        } else {
            self.reg_written(0, 4).reg_written(0, 5)
        }
    }

    /// The chip after the first `n` bits of a byte, highest first, were handed
    /// to it over the pins.
    spec fn handed_highest_first(self, byte: u8, n: nat) -> Rtc
        decreases n,
    {
        if n == 0 {
            self
        } else {
            self.handed_highest_first(byte, (n - 1) as nat).pulsed(
                byte & (0x80u8 >> ((n - 1) as u8)) != 0,
            )
        }
    }

    /// The chip after the first `n` bits of a byte, lowest first, were handed
    /// to it over the pins.
    spec fn handed_lowest_first(self, byte: u8, n: nat) -> Rtc
        decreases n,
    {
        if n == 0 {
            self
        } else {
            self.handed_lowest_first(byte, (n - 1) as nat).pulsed(
                byte & (1u8 << ((n - 1) as u8)) != 0,
            )
        }
    }

    /// The chip after the clock pin was raised and lowered `n` times.
    spec fn fallen(self, n: nat) -> Rtc
        decreases n,
    {
        if n == 0 {
            self
        } else {
            self.fallen((n - 1) as nat).reg_written(0, 5).reg_written(0, 4)
        }
    }

    /// A whole status write over the pins: the command byte highest bit first,
    /// then the status lowest bit first.
    spec fn status_written(self, status: u8) -> Rtc {
        self.opened().handed_highest_first(0x62, 8).handed_lowest_first(status, 8)
    }

    /// A status read over the pins up to its reply: the command byte, then the
    /// directions with SIO as an input.
    spec fn status_requested(self) -> Rtc {
        self.opened().handed_highest_first(0x63, 8).reg_written(2, 5)
    }

    /// Everything but the pins as last written.
    spec fn inside(self) -> Rtc {
        Rtc { data_out: 0, last_sck: false, ..self }
    }
}

proof fn pin_values()
    by (bit_vector)
    ensures
        (0u16 & 0x0F) as u8 == 0u8,
        (4u16 & 0x0F) as u8 == 4u8,
        (5u16 & 0x0F) as u8 == 5u8,
        (6u16 & 0x0F) as u8 == 6u8,
        (7u16 & 0x0F) as u8 == 7u8,
        (1u16 & 1) as u8 == 1u8,
        1u8 & 1 != 0,
        0u8 & 4 == 0,
        4u8 & 4 != 0,
        5u8 & 4 != 0,
        6u8 & 4 != 0,
        7u8 & 4 != 0,
        4u8 & 2 == 0,
        5u8 & 2 == 0,
        6u8 & 2 != 0,
        7u8 & 2 != 0,
        0u8 & 1 == 0,
        4u8 & 1 == 0,
        5u8 & 1 != 0,
        6u8 & 1 == 0,
        7u8 & 1 != 0,
        (((4u8 & 5) | 2u8) as u16) & 2 != 0,
        (((4u8 & 5) | 0u8) as u16) & 2 == 0,
{
}

proof fn pulse_is_a_bit(r: Rtc, bit: bool)
    requires
        r.cs,
    ensures
        r.state is ReceivingCommand ==> r.pulsed(bit).inside() == r.inside().command_bit(
            bit,
        ).inside(),
        r.state is ReceivingData ==> r.pulsed(bit).inside() == r.inside().data_bit(bit).inside(),
        r.state is ReceivingCommand && r.in_bit_count < 7 ==> r.pulsed(bit).cs,
{
    reveal(Rtc::pins_changed);
    reveal(Rtc::pulsed);
    reveal(Rtc::executed);
    pin_values();
}

proof fn fall_sends_a_bit(r: Rtc)
    requires
        r.cs,
        r.state is SendingData,
    ensures
        ({
            let t = r.reg_written(0, 5).reg_written(0, 4);
            &&& t.inside() == r.inside().bit_sent().inside()
            &&& t.cs
            &&& t.data_out == 4
        }),
{
    reveal(Rtc::pins_changed);
    pin_values();
}

proof fn opening_starts(r: Rtc)
    ensures
        r.opened().inside() == (Rtc {
            state: TransferState::ReceivingCommand,
            in_bits: 0,
            in_bit_count: 0,
            out_bit_count: 0,
            data_idx: 0,
            cs: true,
            ..r
        }).inside(),
{
    reveal(Rtc::pins_changed);
    reveal(Rtc::opened);
    pin_values();
}

proof fn leading_bits(v: u8, n: u8)
    ensures
        1 <= n && n < 8 ==> ((v >> ((8 - n) as u8)) << 1) | (if v & (0x80u8 >> n) != 0 {
            1u8
        } else {
            0u8
        }) == v >> ((7 - n) as u8),
        (0u8 << 1) | (if v & (0x80u8 >> 0u8) != 0 {
            1u8
        } else {
            0u8
        }) == v >> 7u8,
        v >> 0u8 == v,
{
    next_bit(v, 0, n);
}

proof fn command_gathers(r: Rtc, v: u8, n: nat)
    requires
        r.cs,
        r.state is ReceivingCommand,
        r.in_bits == 0,
        r.in_bit_count == 0,
        1 <= n <= 7,
    ensures
        r.handed_highest_first(v, n).inside() == (Rtc {
            in_bits: v >> ((8 - n) as u8),
            in_bit_count: n as u8,
            ..r
        }).inside(),
    decreases n,
{
    reveal_with_fuel(Rtc::handed_highest_first, 2);
    leading_bits(v, (n - 1) as u8);
    let before = r.handed_highest_first(v, (n - 1) as nat);
    if n > 1 {
        command_gathers(r, v, (n - 1) as nat);
    }
    assert(before.inside().cs == before.cs && before.inside().state == before.state);
    pulse_is_a_bit(before, v & (0x80u8 >> ((n - 1) as u8)) != 0);
}

proof fn command_is_executed(r: Rtc, v: u8)
    requires
        r.cs,
        r.state is ReceivingCommand,
        r.in_bits == 0,
        r.in_bit_count == 0,
    ensures
        r.handed_highest_first(v, 8).inside() == (Rtc {
            in_bits: 0,
            in_bit_count: 0,
            ..(Rtc { command: v, in_bits: v, in_bit_count: 8, ..r.inside() }).executed()
        }).inside(),
{
    reveal_with_fuel(Rtc::handed_highest_first, 2);
    leading_bits(v, 7);
    let before = r.handed_highest_first(v, 7);
    command_gathers(r, v, 7);
    assert(before.inside().cs == before.cs && before.inside().state == before.state);
    pulse_is_a_bit(before, v & (0x80u8 >> 7u8) != 0);
}

proof fn data_is_clocked_in(r: Rtc, v: u8, n: nat)
    requires
        r.cs,
        r.state is ReceivingData,
        r.in_bits == 0,
        r.in_bit_count == 0,
        n <= 8,
    ensures
        r.handed_lowest_first(v, n).inside() == r.inside().clocked_in(v, n).inside(),
    decreases n,
{
    reveal_with_fuel(Rtc::handed_lowest_first, 2);
    reveal_with_fuel(Rtc::clocked_in, 2);
    if n > 0 {
        let before = r.handed_lowest_first(v, (n - 1) as nat);
        data_is_clocked_in(r, v, (n - 1) as nat);
        bits_gather(r.inside(), v, (n - 1) as nat);
        assert(before.inside().cs == before.cs && before.inside().state == before.state);
        pulse_is_a_bit(before, v & (1u8 << ((n - 1) as u8)) != 0);
        assert(r.inside().clocked_in(v, (n - 1) as nat).inside() == r.inside().clocked_in(
            v,
            (n - 1) as nat,
        ));
    }
}

proof fn falls_clock_out(r: Rtc, n: nat)
    requires
        r.cs,
        r.state is SendingData,
        r.out_bit_count == 0,
        r.data_idx < r.data_len <= 8,
        n <= 8,
    ensures
        r.fallen(n).inside() == r.inside().clocked_out(n).inside(),
        n < 8 ==> r.fallen(n).state is SendingData && r.fallen(n).cs,
        n > 0 ==> r.fallen(n).data_out == 4,
        r.fallen(n).control == r.control && r.fallen(n).direction == r.direction,
    decreases n,
{
    reveal_with_fuel(Rtc::fallen, 2);
    reveal_with_fuel(Rtc::clocked_out, 2);
    if n > 0 {
        let before = r.fallen((n - 1) as nat);
        falls_clock_out(r, (n - 1) as nat);
        fall_sends_a_bit(before);
        if n > 1 {
            bytes_are_sent_lowest_bit_first(r.inside(), (n - 1) as nat);
        }
        assert(before.inside().bit_sent().inside() == r.inside().clocked_out(
            (n - 1) as nat,
        ).bit_sent().inside());
    }
}

/// A chip that was made readable sends the status it holds, lowest bit first,
/// one bit after each falling clock.
proof fn status_shows_on_the_pin(r: Rtc, k: nat)
    requires
        k < 8,
    ensures
        ({
            let asked = r.reg_written(4, 1).status_requested();
            (asked.fallen(k + 1).read_reg(0) & 2 != 0) == (r.status & (1u8 << (k as u8)) != 0)
        }),
{
    pin_values();
    let a = r.reg_written(4, 1);
    opening_starts(a);
    let b = a.opened();
    assert(b.inside().cs == b.cs && b.inside().state == b.state);
    command_is_executed(b, 0x63);
    reveal(Rtc::executed);
    let c = b.handed_highest_first(0x63, 8);
    assert(c.inside().cs == c.cs && c.inside().state == c.state);
    let d = c.reg_written(2, 5);
    assert(d == a.status_requested());
    falls_clock_out(d, k + 1);
    bytes_are_sent_lowest_bit_first(d.inside(), k + 1);
    assert(d.inside().data_buf[0] == r.status);
    let e = d.fallen(k + 1);
    assert(e.inside().sio_out == e.sio_out);
}

proof fn status_is_written(a: Rtc, status: u8)
    ensures
        a.status_written(status).status == status,
        a.status_written(status).control == a.control,
{
    opening_starts(a);
    let b = a.opened();
    assert(b.inside().cs == b.cs && b.inside().state == b.state);
    command_is_executed(b, 0x62);
    let c = b.handed_highest_first(0x62, 8);
    assert(c.inside().state is ReceivingData && c.inside().data_len == 1 && c.inside().data_idx == 0
        && c.inside().command == 0x62 && c.inside().cs && c.inside().in_bits == 0
        && c.inside().in_bit_count == 0 && c.inside().control == a.control) by {
        reveal(Rtc::executed);
    }
    assert(c.inside().cs == c.cs && c.inside().state == c.state);
    data_is_clocked_in(c, status, 8);
    bits_gather(c.inside(), status, 7);
    next_bit(status, 7, 0);
    reveal_with_fuel(Rtc::clocked_in, 2);
    let d = c.handed_lowest_first(status, 8);
    assert(d.inside().status == d.status);
    assert(d.inside().control == d.control);
}

/// The data register writes that hand one bit to the chip, with CS high: SIO is
/// set while SCK is low, then SCK rises.
pub open spec fn bit_writes(bit: bool) -> Seq<(u32, u16)> {
    if bit {
        seq![(0u32, 6u16), (0u32, 7u16)]
    } else {
        seq![(0u32, 4u16), (0u32, 5u16)]
    }
}

/// The writes for the first `n` bits of a command byte, highest bit first.
pub open spec fn command_writes(byte: u8, n: nat) -> Seq<(u32, u16)>
    decreases n,
{
    if n == 0 {
        seq![]
    } else {
        command_writes(byte, (n - 1) as nat) + bit_writes(byte & (0x80u8 >> ((n - 1) as u8)) != 0)
    }
}

/// The writes for the first `n` bits of a data byte, lowest bit first.
pub open spec fn data_writes(byte: u8, n: nat) -> Seq<(u32, u16)>
    decreases n,
{
    if n == 0 {
        seq![]
    } else {
        data_writes(byte, (n - 1) as nat) + bit_writes(byte & (1u8 << ((n - 1) as u8)) != 0)
    }
}

/// The writes for `n` falling edges of SCK, with CS high.
pub open spec fn fall_writes(n: nat) -> Seq<(u32, u16)>
    decreases n,
{
    if n == 0 {
        seq![]
    } else {
        fall_writes((n - 1) as nat) + seq![(0u32, 5u16), (0u32, 4u16)]
    }
}

impl Rtc {
    /// The chip after a series of register writes, each an offset and a value.
    pub open spec fn driven(self, writes: Seq<(u32, u16)>) -> Rtc
        decreases writes.len(),
    {
        if writes.len() == 0 {
            self
        } else {
            self.driven(writes.drop_last()).reg_written(writes.last().0, writes.last().1)
        }
    }
}

proof fn driven_on(r: Rtc, a: Seq<(u32, u16)>, b: Seq<(u32, u16)>)
    ensures
        r.driven(a + b) == r.driven(a).driven(b),
    decreases b.len(),
{
    if b.len() == 0 {
        assert(a + b =~= a);
    } else {
        assert((a + b).drop_last() =~= a + b.drop_last());
        driven_on(r, a, b.drop_last());
    }
}

proof fn driven_by_two(r: Rtc, a: (u32, u16), b: (u32, u16))
    ensures
        r.driven(seq![a]) == r.reg_written(a.0, a.1),
        r.driven(seq![a, b]) == r.reg_written(a.0, a.1).reg_written(b.0, b.1),
{
    assert(seq![a].drop_last() =~= seq![]);
    assert(seq![a, b].drop_last() =~= seq![a]);
    reveal_with_fuel(Rtc::driven, 3);
}

proof fn driven_by_a_bit(r: Rtc, bit: bool)
    ensures
        r.driven(bit_writes(bit)) == r.pulsed(bit),
{
    reveal(Rtc::pulsed);
    driven_by_two(r, (0, 6), (0, 7));
    driven_by_two(r, (0, 4), (0, 5));
}

proof fn driven_by_bytes(r: Rtc, byte: u8, n: nat)
    ensures
        r.driven(command_writes(byte, n)) == r.handed_highest_first(byte, n),
        r.driven(data_writes(byte, n)) == r.handed_lowest_first(byte, n),
        r.driven(fall_writes(n)) == r.fallen(n),
    decreases n,
{
    if n > 0 {
        let m = (n - 1) as nat;
        let high = byte & (0x80u8 >> (m as u8)) != 0;
        let low = byte & (1u8 << (m as u8)) != 0;
        driven_by_bytes(r, byte, m);
        driven_on(r, command_writes(byte, m), bit_writes(high));
        driven_by_a_bit(r.handed_highest_first(byte, m), high);
        driven_on(r, data_writes(byte, m), bit_writes(low));
        driven_by_a_bit(r.handed_lowest_first(byte, m), low);
        driven_on(r, fall_writes(m), seq![(0u32, 5u16), (0u32, 4u16)]);
        driven_by_two(r.fallen(m), (0, 5), (0, 4));
    }
}

proof fn opened_from_power_on()
    ensures
        Rtc::power_on().reg_written(4, 1).opened() == Rtc::power_on().reg_written(4, 1).reg_written(
            0,
            4,
        ),
{
    reveal(Rtc::pins_changed);
    reveal(Rtc::opened);
    pin_values();
}

/// The register writes of a status read, from a command byte with CS high to
/// the directions that make SIO an input.
pub open spec fn status_read_writes() -> Seq<(u32, u16)> {
    command_writes(0x63, 8) + seq![(2u32, 5u16)]
}

/// The register writes of a status write, with CS high, and of CS going low
/// and high after it.
pub open spec fn status_write_writes(status: u8) -> Seq<(u32, u16)> {
    command_writes(0x62, 8) + data_writes(status, 8) + seq![(0u32, 0u16), (0u32, 4u16)]
}

/// A whole exchange with a fresh chip, write by write. The registers are made
/// readable and CS goes high. Command 0x62 is clocked in, highest bit first,
/// then a status byte, lowest bit first; CS goes low and high; command 0x63 is
/// clocked in and SIO becomes an input. After each of the next eight falling
/// edges of SCK the SIO pin reads the next bit of that status, from bit 0 on.
/// Without the status write it reads the bits of 0x40.
pub proof fn status_exchange(status: u8, k: nat)
    requires
        k < 8,
    ensures
        ({
            let pin = Rtc::power_on().driven(
                seq![(4u32, 1u16), (0u32, 4u16)] + status_write_writes(status)
                    + status_read_writes() + fall_writes(k + 1),
            ).read_reg(0) & 2;
            (pin != 0) == (status & (1u8 << (k as u8)) != 0)
        }),
        ({
            let pin = Rtc::power_on().driven(
                seq![(4u32, 1u16), (0u32, 4u16)] + status_read_writes() + fall_writes(k + 1),
            ).read_reg(0) & 2;
            (pin != 0) == (0x40u8 & (1u8 << (k as u8)) != 0)
        }),
{
    let start = seq![(4u32, 1u16), (0u32, 4u16)];
    driven_by_two(Rtc::power_on(), (4, 1), (0, 4));
    opened_from_power_on();
    exchange_after(Rtc::power_on(), start, status, k);
}

/// The same exchange with a chip in any state, once CS has gone low and high: a
/// status that is written comes back over the pins, and without the write the
/// one that the chip holds does.
pub proof fn status_exchange_in_any_state(r: Rtc, status: u8, k: nat)
    requires
        k < 8,
    ensures
        ({
            let pin = r.driven(
                seq![(4u32, 1u16), (0u32, 0u16), (0u32, 4u16)] + status_write_writes(status)
                    + status_read_writes() + fall_writes(k + 1),
            ).read_reg(0) & 2;
            (pin != 0) == (status & (1u8 << (k as u8)) != 0)
        }),
        ({
            let pin = r.driven(
                seq![(4u32, 1u16), (0u32, 0u16), (0u32, 4u16)] + status_read_writes()
                    + fall_writes(k + 1),
            ).read_reg(0) & 2;
            (pin != 0) == (r.status & (1u8 << (k as u8)) != 0)
        }),
{
    let start = seq![(4u32, 1u16), (0u32, 0u16), (0u32, 4u16)];
    let select = seq![(0u32, 0u16), (0u32, 4u16)];
    assert(start =~= seq![(4u32, 1u16)] + select);
    driven_on(r, seq![(4u32, 1u16)], select);
    driven_by_two(r, (4, 1), (4, 1));
    driven_by_two(r.reg_written(4, 1), (0, 0), (0, 4));
    reveal(Rtc::opened);
    exchange_after(r, start, status, k);
}

proof fn exchange_after(r: Rtc, start: Seq<(u32, u16)>, status: u8, k: nat)
    requires
        k < 8,
        r.driven(start) == r.reg_written(4, 1).opened(),
    ensures
        (r.driven(
            start + status_write_writes(status) + status_read_writes() + fall_writes(k + 1),
        ).read_reg(0) & 2 != 0) == (status & (1u8 << (k as u8)) != 0),
        (r.driven(start + status_read_writes() + fall_writes(k + 1)).read_reg(0) & 2 != 0) == (
        r.status & (1u8 << (k as u8)) != 0),
{
    let a = r.reg_written(4, 1);
    let d = a.status_written(status);
    pin_values();
    reads_as_driven(r, start, k);
    status_shows_on_the_pin(r, k);
    written_and_read_as_driven(r, start, status, k);
    status_is_written(a, status);
    assert(d.reg_written(4, 1) == d);
    status_shows_on_the_pin(d, k);
}

proof fn reads_as_driven(r: Rtc, start: Seq<(u32, u16)>, k: nat)
    requires
        r.driven(start) == r.reg_written(4, 1).opened(),
    ensures
        r.driven(start + status_read_writes() + fall_writes(k + 1)) == r.reg_written(
            4,
            1,
        ).status_requested().fallen(k + 1),
{
    let a = r.reg_written(4, 1);
    driven_on(r, start + status_read_writes(), fall_writes(k + 1));
    driven_on(r, start, status_read_writes());
    requested_by_writes(a.opened());
    driven_by_bytes(a.status_requested(), 0, k + 1);
}

proof fn written_and_read_as_driven(r: Rtc, start: Seq<(u32, u16)>, status: u8, k: nat)
    requires
        r.driven(start) == r.reg_written(4, 1).opened(),
    ensures
        r.driven(start + status_write_writes(status) + status_read_writes() + fall_writes(k + 1))
            == r.reg_written(4, 1).status_written(status).status_requested().fallen(k + 1),
{
    let a = r.reg_written(4, 1);
    let open = a.opened();
    let written = start + status_write_writes(status);
    let sent = command_writes(0x62, 8) + data_writes(status, 8);
    driven_on(r, written + status_read_writes(), fall_writes(k + 1));
    driven_on(r, written, status_read_writes());
    driven_on(r, start, status_write_writes(status));
    driven_on(open, sent, seq![(0u32, 0u16), (0u32, 4u16)]);
    driven_on(open, command_writes(0x62, 8), data_writes(status, 8));
    driven_by_bytes(open, 0x62, 8);
    driven_by_bytes(open.handed_highest_first(0x62, 8), status, 8);
    let d = a.status_written(status);
    driven_by_two(d, (0, 0), (0, 4));
    assert(r.driven(written) == d.opened()) by {
        reveal(Rtc::opened);
    }
    requested_by_writes(d.opened());
    driven_by_bytes(d.status_requested(), 0, k + 1);
}

proof fn requested_by_writes(open: Rtc)
    ensures
        open.driven(status_read_writes()) == open.handed_highest_first(0x63, 8).reg_written(2, 5),
{
    driven_on(open, command_writes(0x63, 8), seq![(2u32, 5u16)]);
    driven_by_bytes(open, 0x63, 8);
    driven_by_two(open.handed_highest_first(0x63, 8), (2, 5), (2, 5));
}

/// The date and time that the clock sends, in two decimal digits a byte: year
/// of the century, month, day, weekday, hour, minute, second; or only the last
/// three.
pub proof fn clock_bytes(r: Rtc)
    requires
        r.command == 0x65 || r.command == 0x67,
        r.clock / 86400 <= 0xFFFF_FFFF,
    ensures
        ({
            let t = crate::calendar::date_time(r.clock);
            let e = r.executed();
            let digits = |k: int| e.data_buf[k] / 16 * 10 + e.data_buf[k] % 16;
            &&& e.state is SendingData
            &&& e.data_idx == 0
            &&& r.command == 0x65 ==> {
                &&& e.data_len == 7
                &&& digits(0) == t.year % 100
                &&& t.month < 100 ==> digits(1) == t.month
                &&& t.day < 100 ==> digits(2) == t.day
                &&& digits(3) == t.weekday
                &&& digits(4) == t.hour
                &&& digits(5) == t.minute
                &&& digits(6) == t.second
            }
            &&& r.command == 0x67 ==> {
                &&& e.data_len == 3
                &&& digits(0) == t.hour
                &&& digits(1) == t.minute
                &&& digits(2) == t.second
            }
        }),
{
    reveal(Rtc::executed);
    let t = crate::calendar::date_time(r.clock);
    crate::calendar::times_count(r.clock);
    crate::calendar::bcd_digits((t.year % 100) as u32);
    if t.month < 100 {
        crate::calendar::bcd_digits(t.month);
    }
    if t.day < 100 {
        crate::calendar::bcd_digits(t.day);
    }
    crate::calendar::bcd_digits(t.weekday);
    crate::calendar::bcd_digits(t.hour);
    crate::calendar::bcd_digits(t.minute);
    crate::calendar::bcd_digits(t.second);
}

/// The other commands: a reset sets the status, and writes of the date and of
/// the time wait for seven and three bytes, which change nothing.
pub proof fn clock_commands(r: Rtc)
    ensures
        r.command == 0x60 ==> r.executed().status == 0x40 && r.executed().state is Idle,
        r.command == 0x62 ==> r.executed().data_len == 1 && r.executed().state is ReceivingData,
        r.command == 0x64 ==> r.executed().data_len == 7 && r.executed().state is ReceivingData,
        r.command == 0x66 ==> r.executed().data_len == 3 && r.executed().state is ReceivingData,
        r.command != 0x60 ==> r.executed().status == r.status,
        r.executed().clock == r.clock,
        r.command != 0x62 ==> r.write_finished() == r,
{
    reveal(Rtc::executed);
}

} // verus!

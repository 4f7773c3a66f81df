//! The 16-bit instruction set.

use vstd::prelude::*;

use crate::bits::{self, bit};
use crate::bus::{Bus, BusState};

use super::access::{self, count_listed, listed, Outcome};
use super::alu::{self, add_with_carry, barrel_shift, sub_with_carry, ShiftType};
use super::Cpu;

verus! {

broadcast use bits::group_and_bounds;

/// The low-register field of an opcode whose lowest bit is `shift`.
#[verifier::allow_in_spec]
pub fn field3(opcode: u16, shift: u16) -> u8
    requires
        shift <= 13,
    returns
        ((opcode >> shift) & 7) as u8,
{
    ((opcode >> shift) & 7) as u8
}

/// The five-bit field at bit 6.
#[verifier::allow_in_spec]
pub fn offset5(opcode: u16) -> u32
    returns
        ((opcode >> 6) & 0x1F) as u32,
{
    ((opcode >> 6) & 0x1F) as u32
}

/// The eight-bit immediate.
#[verifier::allow_in_spec]
pub fn imm8(opcode: u16) -> u32
    returns
        (opcode & 0xFF) as u32,
{
    (opcode & 0xFF) as u32
}

/// Bit `n` of an opcode.
#[verifier::allow_in_spec]
pub fn flag16(opcode: u16, n: u16) -> bool
    requires
        n < 16,
    returns
        opcode & (1u16 << n) != 0,
{
    opcode & (1u16 << n) != 0
}

/// A four-bit register field: three bits at `shift` below the bit `high`.
#[verifier::allow_in_spec]
pub fn field4(opcode: u16, high: u16, shift: u16) -> u8
    requires
        high < 16,
        shift <= 13,
    returns
        ((((opcode >> high) & 1) << 3) | ((opcode >> shift) & 7)) as u8 & 0xF,
{
    ((((opcode >> high) & 1) << 3) | ((opcode >> shift) & 7)) as u8 & 0xF
}

/// The displacement of a conditional branch: eight bits of halfwords,
/// sign-extended.
#[verifier::allow_in_spec]
pub fn short_offset(opcode: u16) -> u32
    returns
        (if opcode & 0x80 != 0 {
            (((opcode & 0xFF) as u32) << 1) | 0xFFFF_FE00
        } else {
            ((opcode & 0xFF) as u32) << 1
        }),
{
    let halves: u32 = ((opcode & 0xFF) as u32) << 1;
    if opcode & 0x80 != 0 {
        halves | 0xFFFF_FE00
    } else {
        halves
    }
}

/// The displacement of a branch: eleven bits of halfwords, sign-extended.
#[verifier::allow_in_spec]
pub fn long_offset(opcode: u16) -> u32
    returns
        (if opcode & 0x400 != 0 {
            (((opcode & 0x7FF) as u32) << 1) | 0xFFFF_F000
        } else {
            ((opcode & 0x7FF) as u32) << 1
        }),
{
    let halves: u32 = ((opcode & 0x7FF) as u32) << 1;
    if opcode & 0x400 != 0 {
        halves | 0xFFFF_F000
    } else {
        halves
    }
}

/// The upper part of a long branch displacement: eleven bits from bit 12 on,
/// sign-extended.
#[verifier::allow_in_spec]
pub fn high_offset(opcode: u16) -> u32
    returns
        (if opcode & 0x400 != 0 {
            (((opcode & 0x7FF) as u32) << 12) | 0xFF80_0000
        } else {
            ((opcode & 0x7FF) as u32) << 12
        }),
{
    let high: u32 = ((opcode & 0x7FF) as u32) << 12;
    if opcode & 0x400 != 0 {
        high | 0xFF80_0000
    } else {
        high
    }
}

/// Which shift an immediate-shift opcode names.
#[verifier::allow_in_spec]
pub fn shift_kind(opcode: u16) -> ShiftType
    returns
        (if (opcode >> 11) & 3 == 0 {
            ShiftType::Lsl
        } else if (opcode >> 11) & 3 == 1 {
            ShiftType::Lsr
        } else {
            ShiftType::Asr
        }),
{
    match (opcode >> 11) & 3 {
        0 => ShiftType::Lsl,
        1 => ShiftType::Lsr,
        _ => ShiftType::Asr,
    }
}

impl Cpu {
    /// The processor after a shift result went to `rd`: N, Z and C are set.
    pub open spec fn with_shifted(self, rd: u8, r: (u32, bool)) -> Cpu {
        let c = self.with_reg(rd as int, r.0);
        Cpu { cpsr: c.cpsr.with_nz(r.0).with_bit(29, r.1), ..c }
    }

    fn put_shifted(&mut self, rd: u8, r: (u32, bool))
        requires
            rd < 16,
        ensures
            *final(self) == old(self).with_shifted(rd, r),
    {
        self.regs[rd as usize] = r.0;
        self.cpsr.set_nz(r.0);
        self.cpsr.set_c(r.1);
    }

    /// The processor after an adder result went to `rd`: all flags are set.
    pub open spec fn with_sum(self, rd: u8, r: (u32, bool, bool)) -> Cpu {
        let c = self.with_reg(rd as int, r.0);
        Cpu { cpsr: c.cpsr.with_nzcv(r), ..c }
    }

    fn put_sum(&mut self, rd: u8, r: (u32, bool, bool))
        requires
            rd < 16,
        ensures
            *final(self) == old(self).with_sum(rd, r),
    {
        self.regs[rd as usize] = r.0;
        self.cpsr.set_nzcv(r);
    }

    /// The processor after a comparison: only the flags are set.
    pub open spec fn compared(self, r: (u32, bool, bool)) -> Cpu {
        Cpu { cpsr: self.cpsr.with_nzcv(r), ..self }
    }

    /// The processor after a logical result went to `rd`: N and Z are set.
    pub open spec fn with_logical(self, rd: u8, r: u32) -> Cpu {
        let c = self.with_reg(rd as int, r);
        Cpu { cpsr: c.cpsr.with_nz(r), ..c }
    }

    fn put_logical(&mut self, rd: u8, r: u32)
        requires
            rd < 16,
        ensures
            *final(self) == old(self).with_logical(rd, r),
    {
        self.regs[rd as usize] = r;
        self.cpsr.set_nz(r);
    }

    /// Shifts by an immediate, three-operand additions and immediate
    /// arithmetic: opcodes below 0x4000.
    #[verifier::opaque]
    pub open spec fn thumb_arithmetic(self, opcode: u16) -> Cpu {
        let top = opcode >> 8;
        let rd = field3(opcode, 0);
        let rs = field3(opcode, 3);
        let r8 = field3(opcode, 8);
        if top < 0x18 {
            self.with_shifted(
                rd,
                barrel_shift(
                    self.reg(rs),
                    shift_kind(opcode),
                    offset5(opcode) as u8,
                    self.cpsr.c(),
                    true,
                ),
            )
        } else if top < 0x20 {
            let b = if top < 0x1C {
                self.reg(field3(opcode, 6))
            } else {
                field3(opcode, 6) as u32
            };
            self.with_sum(
                rd,
                if flag16(opcode, 9) {
                    alu::adder(self.reg(rs), !b, true)
                } else {
                    alu::adder(self.reg(rs), b, false)
                },
            )
        } else if top < 0x28 {
            self.with_logical(r8, imm8(opcode))
        } else if top < 0x30 {
            self.compared(alu::adder(self.reg(r8), !imm8(opcode), true))
        } else if top < 0x38 {
            self.with_sum(r8, alu::adder(self.reg(r8), imm8(opcode), false))
        } else {
            self.with_sum(r8, alu::adder(self.reg(r8), !imm8(opcode), true))
        }
    }

    fn execute_arithmetic(&mut self, opcode: u16)
        ensures
            *final(self) == old(self).thumb_arithmetic(opcode),
    {
        proof {
            reveal(Cpu::thumb_arithmetic);
        }
        let top: u16 = opcode >> 8;
        let rd: u8 = field3(opcode, 0);
        let rs: u8 = field3(opcode, 3);
        let r8: u8 = field3(opcode, 8);
        if top < 0x18 {
            let r = barrel_shift(
                self.reg(rs),
                shift_kind(opcode),
                offset5(opcode) as u8,
                self.cpsr.c(),
                true,
            );
            self.put_shifted(rd, r);
        } else if top < 0x20 {
            let b: u32 = if top < 0x1C {
                self.reg(field3(opcode, 6))
            } else {
                field3(opcode, 6) as u32
            };
            let r = if flag16(opcode, 9) {
                sub_with_carry(self.reg(rs), b, true)
            } else {
                add_with_carry(self.reg(rs), b, false)
            };
            self.put_sum(rd, r);
        } else if top < 0x28 {
            self.put_logical(r8, imm8(opcode));
        } else if top < 0x30 {
            let r = sub_with_carry(self.reg(r8), imm8(opcode), true);
            self.cpsr.set_nzcv(r);
        } else if top < 0x38 {
            let r = add_with_carry(self.reg(r8), imm8(opcode), false);
            self.put_sum(r8, r);
        } else {
            let r = sub_with_carry(self.reg(r8), imm8(opcode), true);
            self.put_sum(r8, r);
        }
    }

    /// The two-register operations.
    #[verifier::opaque]
    pub open spec fn thumb_alu_done(self, opcode: u16) -> Cpu {
        let op = (opcode >> 6) & 0xF;
        let rd = field3(opcode, 0);
        let a = self.reg(rd);
        let b = self.reg(field3(opcode, 3));
        let c = self.cpsr.c();
        if op == 0x0 {
            self.with_logical(rd, a & b)
        } else if op == 0x1 {
            self.with_logical(rd, a ^ b)
        } else if op == 0x2 {
            self.with_shifted(rd, barrel_shift(a, ShiftType::Lsl, b as u8, c, false))
        } else if op == 0x3 {
            self.with_shifted(rd, barrel_shift(a, ShiftType::Lsr, b as u8, c, false))
        } else if op == 0x4 {
            self.with_shifted(rd, barrel_shift(a, ShiftType::Asr, b as u8, c, false))
        } else if op == 0x5 {
            self.with_sum(rd, alu::adder(a, b, c))
        } else if op == 0x6 {
            self.with_sum(rd, alu::adder(a, !b, c))
        } else if op == 0x7 {
            self.with_shifted(rd, barrel_shift(a, ShiftType::Ror, b as u8, c, false))
        } else if op == 0x8 {
            Cpu { cpsr: self.cpsr.with_nz(a & b), ..self }
        } else if op == 0x9 {
            self.with_sum(rd, alu::adder(0, !b, true))
        } else if op == 0xA {
            self.compared(alu::adder(a, !b, true))
        } else if op == 0xB {
            self.compared(alu::adder(a, b, false))
        } else if op == 0xC {
            self.with_logical(rd, a | b)
        } else if op == 0xD {
            self.with_logical(rd, a.wrapping_mul(b))
        } else if op == 0xE {
            self.with_logical(rd, a & !b)
        } else {
            self.with_logical(rd, !b)
        }
    }

    fn thumb_alu(&mut self, opcode: u16)
        ensures
            *final(self) == old(self).thumb_alu_done(opcode),
    {
        proof {
            reveal(Cpu::thumb_alu_done);
        }
        let rd: u8 = field3(opcode, 0);
        let a: u32 = self.reg(rd);
        let b: u32 = self.reg(field3(opcode, 3));
        let c = self.cpsr.c();
        match (opcode >> 6) & 0xF {
            0x0 => self.put_logical(rd, a & b),
            0x1 => self.put_logical(rd, a ^ b),
            0x2 => self.put_shifted(rd, barrel_shift(a, ShiftType::Lsl, b as u8, c, false)),
            0x3 => self.put_shifted(rd, barrel_shift(a, ShiftType::Lsr, b as u8, c, false)),
            0x4 => self.put_shifted(rd, barrel_shift(a, ShiftType::Asr, b as u8, c, false)),
            0x5 => self.put_sum(rd, add_with_carry(a, b, c)),
            0x6 => self.put_sum(rd, sub_with_carry(a, b, c)),
            0x7 => self.put_shifted(rd, barrel_shift(a, ShiftType::Ror, b as u8, c, false)),
            0x8 => self.cpsr.set_nz(a & b),
            0x9 => self.put_sum(rd, sub_with_carry(0, b, true)),
            0xA => self.cpsr.set_nzcv(sub_with_carry(a, b, true)),
            0xB => self.cpsr.set_nzcv(add_with_carry(a, b, false)),
            0xC => self.put_logical(rd, a | b),
            0xD => self.put_logical(rd, a.wrapping_mul(b)),
            0xE => self.put_logical(rd, a & !b),
            _ => self.put_logical(rd, !b),
        }
    }

    /// Operations on all sixteen registers, and BX.
    #[verifier::opaque]
    pub open spec fn high_register_done(self, opcode: u16) -> (Cpu, u32) {
        let op = (opcode >> 8) & 3;
        let rs = field4(opcode, 6, 3);
        let rd = field4(opcode, 7, 0);
        let cycles = if rd == 15 {
            3u32
        } else {
            1u32
        };
        if op == 0 {
            (self.written(rd, self.reg(rd).wrapping_add(self.reg(rs))), cycles)
        } else if op == 1 {
            (self.compared(alu::adder(self.reg(rd), !self.reg(rs), true)), 1)
        } else if op == 2 {
            (self.written(rd, self.reg(rs)), cycles)
        } else {
            (self.exchanged(self.reg(rs)), 3)
        }
    }

    fn thumb_hi_reg_bx(&mut self, opcode: u16) -> (cycles: u32)
        ensures
            (*final(self), cycles) == old(self).high_register_done(opcode),
            1 <= cycles <= 18,
    {
        proof {
            reveal(Cpu::high_register_done);
        }
        let rs: u8 = field4(opcode, 6, 3);
        let rd: u8 = field4(opcode, 7, 0);
        let a: u32 = self.reg(rd);
        let b: u32 = self.reg(rs);
        match (opcode >> 8) & 3 {
            0 => {
                self.set_reg(rd, a.wrapping_add(b));
                if rd == 15 {
                    3
                } else {
                    1
                }
            },
            1 => {
                self.cpsr.set_nzcv(sub_with_carry(a, b, true));
                1
            },
            2 => {
                self.set_reg(rd, b);
                if rd == 15 {
                    3
                } else {
                    1
                }
            },
            _ => {
                self.branch_exchange(b);
                3
            },
        }
    }

    /// Loads and stores with a register offset.
    #[verifier::opaque]
    pub open spec fn register_offset_done(self, b: BusState, opcode: u16) -> (Cpu, BusState) {
        let kind = (opcode >> 9) & 7;
        let rd = field3(opcode, 0);
        let addr = self.reg(field3(opcode, 3)).wrapping_add(self.reg(field3(opcode, 6)));
        if kind == 0 {
            (self, b.write32(addr, self.reg(rd)))
        } else if kind == 1 {
            (self, b.write16(addr, self.reg(rd) as u16))
        } else if kind == 2 {
            (self, b.write8(addr, self.reg(rd) as u8))
        } else {
            let r = if kind == 3 {
                b.load_signed_byte(addr)
            } else if kind == 4 {
                b.load_word(addr)
            } else if kind == 5 {
                let r = b.read16(addr);
                (
                    if addr & 1 != 0 {
                        crate::bits::ror32(r.0 as u32, 8)
                    } else {
                        r.0 as u32
                    },
                    r.1,
                )
            } else if kind == 6 {
                (b.read8(addr).0 as u32, b.read8(addr).1)
            } else {
                b.load_signed_half(addr)
            };
            (self.with_reg(rd as int, r.0), r.1)
        }
    }

    fn thumb_load_store_reg(&mut self, bus: &mut Bus, opcode: u16)
        requires
            old(bus).wf(),
        ensures
            final(bus).wf(),
            (*final(self), final(bus)@) == old(self).register_offset_done(old(bus)@, opcode),
    {
        proof {
            reveal(Cpu::register_offset_done);
        }
        let rd: u8 = field3(opcode, 0);
        let addr: u32 = self.reg(field3(opcode, 3)).wrapping_add(self.reg(field3(opcode, 6)));
        match (opcode >> 9) & 7 {
            0 => bus.write32(addr, self.reg(rd)),
            1 => bus.write16(addr, self.reg(rd) as u16),
            2 => bus.write8(addr, self.reg(rd) as u8),
            3 => {
                self.regs[rd as usize] = bus.load_signed_byte(addr);
            },
            4 => {
                self.regs[rd as usize] = bus.load_word(addr);
            },
            5 => {
                let val: u32 = bus.read16(addr) as u32;
                self.regs[rd as usize] =
                if addr & 1 != 0 {
                    crate::bits::ror32(val, 8)
                } else {
                    val
                };
            },
            6 => {
                self.regs[rd as usize] = bus.read8(addr) as u32;
            },
            _ => {
                self.regs[rd as usize] = bus.load_signed_half(addr);
            },
        }
    }

    /// Loads and stores with an immediate offset, from the stack and relative
    /// to the instruction: opcodes 0x4800 to 0x9FFF but for the register
    /// offsets.
    #[verifier::opaque]
    pub open spec fn immediate_offset_done(self, b: BusState, opcode: u16) -> (Cpu, BusState) {
        let top = opcode >> 8;
        let load = flag16(opcode, 11);
        let base = self.reg(field3(opcode, 3));
        let low = field3(opcode, 0);
        let r8 = field3(opcode, 8);
        if top < 0x50 {
            let r = b.read32((self.regs[15] & !3u32).wrapping_add(imm8(opcode) << 2));
            (self.with_reg(r8 as int, r.0), r.1)
        } else if top < 0x80 {
            if flag16(opcode, 12) {
                let addr = base.wrapping_add(offset5(opcode));
                if load {
                    let r = b.read8(addr);
                    (self.with_reg(low as int, r.0 as u32), r.1)
                } else {
                    (self, b.write8(addr, self.reg(low) as u8))
                }
            } else {
                let addr = base.wrapping_add(offset5(opcode) << 2);
                if load {
                    let r = b.load_word(addr);
                    (self.with_reg(low as int, r.0), r.1)
                } else {
                    (self, b.write32(addr, self.reg(low)))
                }
            }
        } else if top < 0x90 {
            let addr = base.wrapping_add(offset5(opcode) << 1);
            if load {
                let r = b.read16(addr);
                (self.with_reg(low as int, r.0 as u32), r.1)
            } else {
                (self, b.write16(addr, self.reg(low) as u16))
            }
        } else {
            let addr = self.regs[13].wrapping_add(imm8(opcode) << 2);
            if load {
                let r = b.load_word(addr);
                (self.with_reg(r8 as int, r.0), r.1)
            } else {
                (self, b.write32(addr, self.reg(r8)))
            }
        }
    }

    fn load_store_immediate(&mut self, bus: &mut Bus, opcode: u16)
        requires
            old(bus).wf(),
        ensures
            final(bus).wf(),
            (*final(self), final(bus)@) == old(self).immediate_offset_done(old(bus)@, opcode),
    {
        proof {
            reveal(Cpu::immediate_offset_done);
        }
        let top: u16 = opcode >> 8;
        let load = flag16(opcode, 11);
        let base: u32 = self.reg(field3(opcode, 3));
        let low: u8 = field3(opcode, 0);
        let r8: u8 = field3(opcode, 8);
        if top < 0x50 {
            let addr: u32 = (self.regs[15] & !3u32).wrapping_add(imm8(opcode) << 2);
            self.regs[r8 as usize] = bus.read32(addr);
        } else if top < 0x80 {
            if flag16(opcode, 12) {
                let addr: u32 = base.wrapping_add(offset5(opcode));
                if load {
                    self.regs[low as usize] = bus.read8(addr) as u32;
                } else {
                    bus.write8(addr, self.reg(low) as u8);
                }
            } else {
                let addr: u32 = base.wrapping_add(offset5(opcode) << 2);
                if load {
                    self.regs[low as usize] = bus.load_word(addr);
                } else {
                    bus.write32(addr, self.reg(low));
                }
            }
        } else if top < 0x90 {
            let addr: u32 = base.wrapping_add(offset5(opcode) << 1);
            if load {
                self.regs[low as usize] = bus.read16(addr) as u32;
            } else {
                bus.write16(addr, self.reg(low) as u16);
            }
        } else {
            let addr: u32 = self.regs[13].wrapping_add(imm8(opcode) << 2);
            if load {
                self.regs[r8 as usize] = bus.load_word(addr);
            } else {
                bus.write32(addr, self.reg(r8));
            }
        }
    }

    /// The processor after an address was formed from PC or SP.
    pub open spec fn address_loaded(self, opcode: u16) -> Cpu {
        let base = if flag16(opcode, 11) {
            self.regs[13]
        } else {
            self.regs[15] & !2u32
        };
        self.with_reg(field3(opcode, 8) as int, base.wrapping_add(imm8(opcode) << 2))
    }

    fn thumb_load_address(&mut self, opcode: u16)
        ensures
            *final(self) == old(self).address_loaded(opcode),
    {
        let base: u32 = if flag16(opcode, 11) {
            self.regs[13]
        } else {
            self.regs[15] & !2u32
        };
        self.regs[field3(opcode, 8) as usize] = base.wrapping_add(imm8(opcode) << 2);
    }

    pub open spec fn stack_moved(self, opcode: u16) -> Cpu {
        let offset = ((opcode & 0x7F) as u32) << 2;
        self.with_reg(
            13,
            if flag16(opcode, 7) {
                self.regs[13].wrapping_sub(offset)
            } else {
                self.regs[13].wrapping_add(offset)
            },
        )
    }

    fn thumb_add_sp(&mut self, opcode: u16)
        ensures
            *final(self) == old(self).stack_moved(opcode),
    {
        let offset: u32 = ((opcode & 0x7F) as u32) << 2;
        self.regs[13] =
        if flag16(opcode, 7) {
            self.regs[13].wrapping_sub(offset)
        } else {
            self.regs[13].wrapping_add(offset)
        };
    }

    /// The bus after the low registers in `rlist` were stored from `addr` up.
    pub open spec fn low_stored(self, b: BusState, rlist: u16, addr: u32) -> BusState {
        access::block_stored(b, |i: int| self.reg(i as u8), rlist, addr, 8)
    }

    /// Processor and bus after the low registers in `rlist` were loaded from
    /// `addr` up.
    pub open spec fn low_loaded(self, b: BusState, rlist: u16, addr: u32) -> (Cpu, BusState) {
        access::block_loaded(
            self,
            b,
            |c: Cpu, i: int, val: u32| c.with_reg(i, val),
            rlist,
            addr,
            8,
        )
    }

    fn store_low(&self, bus: &mut Bus, rlist: u16, start: u32) -> (end: u32)
        requires
            old(bus).wf(),
        ensures
            final(bus).wf(),
            final(bus)@ == self.low_stored(old(bus)@, rlist, start),
            end == access::words_up(start, access::listed_below(rlist, 8)),
    {
        let ghost vals = |i: int| self.reg(i as u8);
        let ghost b0 = bus@;
        let mut addr: u32 = start;
        let mut i: u8 = 0;
        while i < 8
            invariant
                i <= 8,
                bus.wf(),
                addr == access::words_up(start, access::listed_below(rlist, i as nat)),
                bus@ == access::block_stored(b0, vals, rlist, start, i as nat),
                vals == (|i: int| self.reg(i as u8)),
            decreases 8 - i,
        {
            if listed(rlist, i) {
                bus.write32(addr, self.reg(i));
                addr = addr.wrapping_add(4);
            }
            i = i + 1;
        }
        addr
    }

    fn load_low(&mut self, bus: &mut Bus, rlist: u16, start: u32) -> (end: u32)
        requires
            old(bus).wf(),
        ensures
            final(bus).wf(),
            (*final(self), final(bus)@) == old(self).low_loaded(old(bus)@, rlist, start),
            end == access::words_up(start, access::listed_below(rlist, 8)),
    {
        let ghost put = |c: Cpu, i: int, val: u32| c.with_reg(i, val);
        let ghost c0 = *self;
        let ghost b0 = bus@;
        let mut addr: u32 = start;
        let mut i: u8 = 0;
        while i < 8
            invariant
                i <= 8,
                bus.wf(),
                addr == access::words_up(start, access::listed_below(rlist, i as nat)),
                (*self, bus@) == access::block_loaded(c0, b0, put, rlist, start, i as nat),
                put == (|c: Cpu, i: int, val: u32| c.with_reg(i, val)),
            decreases 8 - i,
        {
            if listed(rlist, i) {
                let val: u32 = bus.read32(addr);
                self.regs[i as usize] = val;
                addr = addr.wrapping_add(4);
            }
            i = i + 1;
        }
        addr
    }

    /// PUSH: SP moves down over all listed registers, then they are stored,
    /// LR last.
    #[verifier::opaque]
    pub open spec fn pushed(self, b: BusState, opcode: u16) -> Outcome {
        let rlist = opcode & 0xFF;
        let with_lr = flag16(opcode, 8);
        let count = (access::listed_below(rlist, 8) + bit(with_lr)) as u32;
        let addr = self.regs[13].wrapping_sub((count * 4) as u32);
        let t = self.low_stored(b, rlist, addr);
        (
            self.with_reg(13, addr),
            if with_lr {
                t.write32(
                    access::words_up(addr, access::listed_below(rlist, 8)),
                    self.regs[14],
                )
            } else {
                t
            },
            (count + 1) as u32,
        )
    }

    fn thumb_push(&mut self, bus: &mut Bus, opcode: u16) -> (cycles: u32)
        requires
            old(bus).wf(),
        ensures
            final(bus).wf(),
            (*final(self), final(bus)@, cycles) == old(self).pushed(old(bus)@, opcode),
            1 <= cycles <= 18,
    {
        proof {
            reveal(Cpu::pushed);
        }
        let rlist: u16 = opcode & 0xFF;
        let with_lr = flag16(opcode, 8);
        let count: u32 = count_listed(rlist, 8) + bit(with_lr);
        let addr: u32 = self.regs[13].wrapping_sub(count * 4);
        let end: u32 = self.store_low(bus, rlist, addr);
        if with_lr {
            bus.write32(end, self.regs[14]);
        }
        self.regs[13] = addr;
        count + 1
    }

    /// POP: the listed registers are loaded, PC last; SP moves up over them.
    #[verifier::opaque]
    pub open spec fn popped(self, b: BusState, opcode: u16) -> Outcome {
        let rlist = opcode & 0xFF;
        let with_pc = flag16(opcode, 8);
        let count = (access::listed_below(rlist, 8) + bit(with_pc)) as u32;
        let end = access::words_up(self.regs[13], access::listed_below(rlist, 8));
        let t = self.low_loaded(b, rlist, self.regs[13]);
        if with_pc {
            let r = t.1.read32(end);
            (t.0.exchanged(r.0).with_reg(13, end.wrapping_add(4)), r.1, (count + 2) as u32)
        } else {
            (t.0.with_reg(13, end), t.1, (count + 2) as u32)
        }
    }

    fn thumb_pop(&mut self, bus: &mut Bus, opcode: u16) -> (cycles: u32)
        requires
            old(bus).wf(),
        ensures
            final(bus).wf(),
            (*final(self), final(bus)@, cycles) == old(self).popped(old(bus)@, opcode),
            1 <= cycles <= 18,
    {
        proof {
            reveal(Cpu::popped);
        }
        let rlist: u16 = opcode & 0xFF;
        let with_pc = flag16(opcode, 8);
        let count: u32 = count_listed(rlist, 8) + bit(with_pc);
        let start: u32 = self.regs[13];
        let end: u32 = self.load_low(bus, rlist, start);
        if with_pc {
            let val: u32 = bus.read32(end);
            self.branch_exchange(val);
            self.regs[13] = end.wrapping_add(4);
        } else {
            self.regs[13] = end;
        }
        count + 2
    }

    /// STMIA: the base register moves up over what was stored.
    #[verifier::opaque]
    pub open spec fn multiple_stored(self, b: BusState, opcode: u16) -> Outcome {
        let rb = field3(opcode, 8);
        let rlist = opcode & 0xFF;
        (
            self.with_reg(
                rb as int,
                access::words_up(self.reg(rb), access::listed_below(rlist, 8)),
            ),
            self.low_stored(b, rlist, self.reg(rb)),
            (access::listed_below(rlist, 8) + 1) as u32,
        )
    }

    fn thumb_stmia(&mut self, bus: &mut Bus, opcode: u16) -> (cycles: u32)
        requires
            old(bus).wf(),
        ensures
            final(bus).wf(),
            (*final(self), final(bus)@, cycles) == old(self).multiple_stored(old(bus)@, opcode),
            1 <= cycles <= 18,
    {
        proof {
            reveal(Cpu::multiple_stored);
        }
        let rb: u8 = field3(opcode, 8);
        let rlist: u16 = opcode & 0xFF;
        let start: u32 = self.reg(rb);
        let end: u32 = self.store_low(bus, rlist, start);
        self.regs[rb as usize] = end;
        count_listed(rlist, 8) + 1
    }

    /// LDMIA: the base register moves up, unless it was itself loaded.
    #[verifier::opaque]
    pub open spec fn multiple_loaded(self, b: BusState, opcode: u16) -> Outcome {
        let rb = field3(opcode, 8);
        let rlist = opcode & 0xFF;
        let t = self.low_loaded(b, rlist, self.reg(rb));
        (
            if listed(rlist, rb) {
                t.0
            } else {
                t.0.with_reg(
                    rb as int,
                    access::words_up(self.reg(rb), access::listed_below(rlist, 8)),
                )
            },
            t.1,
            (access::listed_below(rlist, 8) + 2) as u32,
        )
    }

    fn thumb_ldmia(&mut self, bus: &mut Bus, opcode: u16) -> (cycles: u32)
        requires
            old(bus).wf(),
        ensures
            final(bus).wf(),
            (*final(self), final(bus)@, cycles) == old(self).multiple_loaded(old(bus)@, opcode),
            1 <= cycles <= 18,
    {
        proof {
            reveal(Cpu::multiple_loaded);
        }
        let rb: u8 = field3(opcode, 8);
        let rlist: u16 = opcode & 0xFF;
        let start: u32 = self.reg(rb);
        let end: u32 = self.load_low(bus, rlist, start);
        if !listed(rlist, rb) {
            self.regs[rb as usize] = end;
        }
        count_listed(rlist, 8) + 2
    }

    /// Branches, software interrupts and the two halves of a long call:
    /// opcodes from 0xD000 on.
    #[verifier::opaque]
    pub open spec fn thumb_branched(self, opcode: u16) -> (Cpu, u32) {
        let top = opcode >> 8;
        let pc = self.regs[15];
        if top <= 0xDD {
            if self.check_condition((top & 0xF) as u32) {
                (self.with_pc(pc.wrapping_add(short_offset(opcode))), 3)
            } else {
                (self, 1)
            }
        } else if top == 0xDF {
            (Cpu { pending_swi: Some((opcode & 0xFF) as u8), ..self }, 3)
        } else if 0xE0 <= top <= 0xE7 {
            (self.with_pc(pc.wrapping_add(long_offset(opcode))), 3)
        } else if 0xF0 <= top <= 0xF7 {
            (self.with_reg(14, pc.wrapping_add(high_offset(opcode))), 1)
        } else if top >= 0xF8 {
            (
                self.with_reg(14, pc.wrapping_sub(2) | 1).with_pc(
                    self.regs[14].wrapping_add(((opcode & 0x7FF) as u32) << 1),
                ),
                4,
            )
        } else {
            (self, 1)
        }
    }

    fn execute_branch(&mut self, opcode: u16) -> (cycles: u32)
        ensures
            (*final(self), cycles) == old(self).thumb_branched(opcode),
            1 <= cycles <= 18,
    {
        proof {
            reveal(Cpu::thumb_branched);
        }
        let top: u16 = opcode >> 8;
        let pc: u32 = self.regs[15];
        if top <= 0xDD {
            if !self.check_condition((top & 0xF) as u32) {
                return 1;
            }
            self.branch(pc.wrapping_add(short_offset(opcode)));
            3
        } else if top == 0xDF {
            self.pending_swi = Some((opcode & 0xFF) as u8);
            3
        } else if 0xE0 <= top && top <= 0xE7 {
            self.branch(pc.wrapping_add(long_offset(opcode)));
            3
        } else if 0xF0 <= top && top <= 0xF7 {
            self.regs[14] = pc.wrapping_add(high_offset(opcode));
            1
        } else if top >= 0xF8 {
            let target: u32 = self.regs[14].wrapping_add(((opcode & 0x7FF) as u32) << 1);
            self.regs[14] = pc.wrapping_sub(2) | 1;
            self.branch(target);
            4
        } else {
            1
        }
    }

    /// What executing an opcode does.
    pub open spec fn thumb_executed(self, b: BusState, opcode: u16) -> Outcome {
        let top = opcode >> 8;
        if top < 0x40 {
            (self.thumb_arithmetic(opcode), b, 1)
        } else if top < 0x44 {
            (self.thumb_alu_done(opcode), b, 1)
        } else if top < 0x48 {
            let r = self.high_register_done(opcode);
            (r.0, b, r.1)
        } else if 0x50 <= top < 0x60 {
            let r = self.register_offset_done(b, opcode);
            (r.0, r.1, 2)
        } else if top < 0xA0 {
            let r = self.immediate_offset_done(b, opcode);
            (
                r.0,
                r.1,
                if top < 0x50 {
                    3
                } else {
                    2
                },
            )
        } else if top < 0xB0 {
            (self.address_loaded(opcode), b, 1)
        } else if top == 0xB0 {
            (self.stack_moved(opcode), b, 1)
        } else if top == 0xB4 || top == 0xB5 {
            self.pushed(b, opcode)
        } else if top == 0xBC || top == 0xBD {
            self.popped(b, opcode)
        } else if 0xC0 <= top < 0xC8 {
            self.multiple_stored(b, opcode)
        } else if 0xC8 <= top < 0xD0 {
            self.multiple_loaded(b, opcode)
        } else if top >= 0xD0 {
            let r = self.thumb_branched(opcode);
            (r.0, b, r.1)
        } else {
            (self, b, 1)
        }
    }

    /// Executes an opcode. Returns its cycles.
    pub fn execute_thumb(&mut self, bus: &mut Bus, opcode: u16) -> (cycles: u32)
        requires
            old(bus).wf(),
        ensures
            final(bus).wf(),
            (*final(self), final(bus)@, cycles) == old(self).thumb_executed(old(bus)@, opcode),
            1 <= cycles <= 18,
    {
        match opcode >> 8 {
            0x00..=0x3F => {
                self.execute_arithmetic(opcode);
                1
            },
            0x40..=0x43 => {
                self.thumb_alu(opcode);
                1
            },
            0x44..=0x47 => self.thumb_hi_reg_bx(opcode),
            0x48..=0x4F => {
                self.load_store_immediate(bus, opcode);
                3
            },
            0x50..=0x5F => {
                self.thumb_load_store_reg(bus, opcode);
                2
            },
            0x60..=0x9F => {
                self.load_store_immediate(bus, opcode);
                2
            },
            0xA0..=0xAF => {
                self.thumb_load_address(opcode);
                1
            },
            0xB0 => {
                self.thumb_add_sp(opcode);
                1
            },
            0xB4..=0xB5 => self.thumb_push(bus, opcode),
            0xBC..=0xBD => self.thumb_pop(bus, opcode),
            0xC0..=0xC7 => self.thumb_stmia(bus, opcode),
            0xC8..=0xCF => self.thumb_ldmia(bus, opcode),
            0xB1..=0xB3 | 0xB6..=0xBB | 0xBE..=0xBF => 1,
            _ => self.execute_branch(opcode),
        }
    }
}

} // verus!

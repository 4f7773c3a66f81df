//! The 32-bit instruction set.

use vstd::prelude::*;

use crate::bits::{self, ror32};
use crate::bus::{Bus, BusState};

use super::access::{self, count_listed, listed, Outcome};
use super::alu::{self, add_with_carry, barrel_shift, sub_with_carry, AluOp, ShiftType};
use super::{Cpu, CpuMode, Psr};

verus! {

broadcast use bits::group_and_bounds;

/// The instruction classes.
#[derive(Debug, Clone, Copy, PartialEq, Eq, Structural)]
pub enum ArmInstruction {
    BranchExchange,
    Multiply,
    MultiplyLong,
    Swap,
    HalfwordTransfer,
    StatusRead,
    StatusWrite,
    DataProcessing,
    SingleTransfer,
    BlockTransfer,
    Branch,
    SoftwareInterrupt,
    Undefined,
}

impl ArmInstruction {
    /// The class of an opcode.
    #[verifier::allow_in_spec]
    pub fn decode(opcode: u32) -> ArmInstruction
        returns
            ({
                let high = (opcode >> 20) & 0xFF;
                let low = (opcode >> 4) & 0xF;
                let class = high >> 5;
                if class == 0 {
                    if high == 0x12 && low == 0x1 {
                        ArmInstruction::BranchExchange
                    } else if low == 0x9 {
                        if high & 0xFC == 0x00 {
                            ArmInstruction::Multiply
                        } else if high & 0xF8 == 0x08 {
                            ArmInstruction::MultiplyLong
                        } else if high & 0xFB == 0x10 {
                            ArmInstruction::Swap
                        } else {
                            ArmInstruction::Undefined
                        }
                    } else if low & 0x9 == 0x9 {
                        ArmInstruction::HalfwordTransfer
                    } else if high & 0xFB == 0x10 && low == 0x0 {
                        ArmInstruction::StatusRead
                    } else if high & 0xFB == 0x12 && low == 0x0 {
                        ArmInstruction::StatusWrite
                    } else {
                        ArmInstruction::DataProcessing
                    }
                } else if class == 1 {
                    if high & 0xFB == 0x32 {
                        ArmInstruction::StatusWrite
                    } else {
                        ArmInstruction::DataProcessing
                    }
                } else if class == 2 {
                    ArmInstruction::SingleTransfer
                } else if class == 3 {
                    if opcode & (1u32 << 4) != 0 {
                        ArmInstruction::Undefined
                    } else {
                        ArmInstruction::SingleTransfer
                    }
                } else if class == 4 {
                    ArmInstruction::BlockTransfer
                } else if class == 5 {
                    ArmInstruction::Branch
                } else if class == 7 && (opcode >> 24) & 0xF == 0xF {
                    ArmInstruction::SoftwareInterrupt
                } else {
                    ArmInstruction::Undefined
                }
            }),
    {
        let high: u32 = (opcode >> 20) & 0xFF;
        let low: u32 = (opcode >> 4) & 0xF;
        match high >> 5 {
            0 => {
                if high == 0x12 && low == 0x1 {
                    ArmInstruction::BranchExchange
                } else if low == 0x9 {
                    if high & 0xFC == 0x00 {
                        ArmInstruction::Multiply
                    } else if high & 0xF8 == 0x08 {
                        ArmInstruction::MultiplyLong
                    } else if high & 0xFB == 0x10 {
                        ArmInstruction::Swap
                    } else {
                        ArmInstruction::Undefined
                    }
                } else if low & 0x9 == 0x9 {
                    ArmInstruction::HalfwordTransfer
                } else if high & 0xFB == 0x10 && low == 0x0 {
                    ArmInstruction::StatusRead
                } else if high & 0xFB == 0x12 && low == 0x0 {
                    ArmInstruction::StatusWrite
                } else {
                    ArmInstruction::DataProcessing
                }
            },
            1 => {
                if high & 0xFB == 0x32 {
                    ArmInstruction::StatusWrite
                } else {
                    ArmInstruction::DataProcessing
                }
            },
            2 => ArmInstruction::SingleTransfer,
            3 => {
                if opcode & (1u32 << 4) != 0 {
                    ArmInstruction::Undefined
                } else {
                    ArmInstruction::SingleTransfer
                }
            },
            4 => ArmInstruction::BlockTransfer,
            5 => ArmInstruction::Branch,
            7 => {
                if (opcode >> 24) & 0xF == 0xF {
                    ArmInstruction::SoftwareInterrupt
                } else {
                    ArmInstruction::Undefined
                }
            },
            _ => ArmInstruction::Undefined,
        }
    }
}

/// The register field of an opcode whose lowest bit is `shift`.
#[verifier::allow_in_spec]
pub fn field(opcode: u32, shift: u32) -> u8
    requires
        shift <= 28,
    returns
        ((opcode >> shift) & 0xF) as u8,
{
    ((opcode >> shift) & 0xF) as u8
}

/// Bit `n` of an opcode.
#[verifier::allow_in_spec]
pub fn flag(opcode: u32, n: u32) -> bool
    requires
        n < 32,
    returns
        opcode & (1u32 << n) != 0,
{
    opcode & (1u32 << n) != 0
}

/// An 8-bit immediate rotated right by twice the 4-bit field above it.
#[verifier::allow_in_spec]
pub fn rotated_immediate(opcode: u32) -> u32
    returns
        ror32(opcode & 0xFF, (((opcode >> 8) & 0xF) * 2) as u32),
{
    ror32(opcode & 0xFF, ((opcode >> 8) & 0xF) * 2)
}

/// The displacement of a branch: 24 bits of words, sign-extended.
#[verifier::allow_in_spec]
pub fn branch_offset(opcode: u32) -> u32
    returns
        (if opcode & (1u32 << 23) != 0 {
            ((opcode & 0x00FF_FFFF) << 2) | 0xFC00_0000
        } else {
            (opcode & 0x00FF_FFFF) << 2
        }),
{
    let words: u32 = (opcode & 0x00FF_FFFF) << 2;
    if opcode & (1u32 << 23) != 0 {
        words | 0xFC00_0000
    } else {
        words
    }
}

/// Which bits of a status register an MSR instruction may write.
#[verifier::allow_in_spec]
pub fn status_mask(opcode: u32, user: bool) -> u32
    returns
        ({
            let f = (opcode >> 16) & 0xF;
            let m = (if f & 1 != 0 {
                0x0000_00FFu32
            } else {
                0
            }) | (if f & 2 != 0 {
                0x0000_FF00u32
            } else {
                0
            }) | (if f & 4 != 0 {
                0x00FF_0000u32
            } else {
                0
            }) | (if f & 8 != 0 {
                0xFF00_0000u32
            } else {
                0
            });
            if user {
                m & 0xFF00_0000
            } else {
                m
            }
        }),
{
    let f: u32 = (opcode >> 16) & 0xF;
    let b0: u32 = if f & 1 != 0 {
        0x0000_00FF
    } else {
        0
    };
    let b1: u32 = if f & 2 != 0 {
        0x0000_FF00
    } else {
        0
    };
    let b2: u32 = if f & 4 != 0 {
        0x00FF_0000
    } else {
        0
    };
    let b3: u32 = if f & 8 != 0 {
        0xFF00_0000
    } else {
        0
    };
    let m: u32 = b0 | b1 | b2 | b3;
    if user {
        m & 0xFF00_0000
    } else {
        m
    }
}

/// What an operation makes of its operands: the result, the carry and the
/// overflow. Logical operations pass the shifter's carry and the old overflow
/// through.
pub open spec fn alu_outcome(op: AluOp, a: u32, b: u32, shifter: bool, carry: bool, v: bool) -> (
    u32,
    bool,
    bool,
) {
    match op {
        AluOp::And => (a & b, shifter, v),
        AluOp::Tst => (a & b, shifter, v),
        AluOp::Eor => (a ^ b, shifter, v),
        AluOp::Teq => (a ^ b, shifter, v),
        AluOp::Sub => alu::adder(a, !b, true),
        AluOp::Cmp => alu::adder(a, !b, true),
        AluOp::Rsb => alu::adder(b, !a, true),
        AluOp::Add => alu::adder(a, b, false),
        AluOp::Cmn => alu::adder(a, b, false),
        AluOp::Adc => alu::adder(a, b, carry),
        AluOp::Sbc => alu::adder(a, !b, carry),
        AluOp::Rsc => alu::adder(b, !a, carry),
        AluOp::Orr => (a | b, shifter, v),
        AluOp::Mov => (b, shifter, v),
        AluOp::Bic => (a & !b, shifter, v),
        AluOp::Mvn => (!b, shifter, v),
    }
}

fn alu_compute(op: AluOp, a: u32, b: u32, shifter: bool, carry: bool, v: bool) -> (res: (
    u32,
    bool,
    bool,
))
    ensures
        res == alu_outcome(op, a, b, shifter, carry, v),
{
    match op {
        AluOp::And | AluOp::Tst => (a & b, shifter, v),
        AluOp::Eor | AluOp::Teq => (a ^ b, shifter, v),
        AluOp::Sub | AluOp::Cmp => sub_with_carry(a, b, true),
        AluOp::Rsb => sub_with_carry(b, a, true),
        AluOp::Add | AluOp::Cmn => add_with_carry(a, b, false),
        AluOp::Adc => add_with_carry(a, b, carry),
        AluOp::Sbc => sub_with_carry(a, b, carry),
        AluOp::Rsc => sub_with_carry(b, a, carry),
        AluOp::Orr => (a | b, shifter, v),
        AluOp::Mov => (b, shifter, v),
        AluOp::Bic => (a & !b, shifter, v),
        AluOp::Mvn => (!b, shifter, v),
    }
}

/// The 64-bit product of two registers, signed or not.
pub open spec fn long_product(a: u32, b: u32, signed: bool) -> u64 {
    if signed {
        ((a as i32) * (b as i32)) as i64 as u64
    } else {
        (a * b) as u64
    }
}

fn multiply_64(a: u32, b: u32, signed: bool) -> (p: u64)
    ensures
        p == long_product(a, b, signed),
{
    if signed {
        let x: i64 = a as i32 as i64;
        let y: i64 = b as i32 as i64;
        assert(-0x4000_0000_0000_0000 <= x * y <= 0x4000_0000_0000_0000) by (nonlinear_arith)
            requires
                -0x8000_0000 <= x <= 0x7FFF_FFFF,
                -0x8000_0000 <= y <= 0x7FFF_FFFF,
        ;
        (x * y) as u64
    } else {
        let x: u64 = a as u64;
        let y: u64 = b as u64;
        assert(0 <= x * y <= 0xFFFF_FFFE_0000_0001) by (nonlinear_arith)
            requires
                0 <= x <= 0xFFFF_FFFF,
                0 <= y <= 0xFFFF_FFFF,
        ;
        x * y
    }
}

impl Cpu {
    /// The second operand of a data-processing instruction and the carry out
    /// of the shifter.
    #[verifier::allow_in_spec]
    pub fn operand2(&self, opcode: u32) -> (u32, bool)
        returns
            (if flag(opcode, 25) {
                if (opcode >> 8) & 0xF == 0 {
                    (opcode & 0xFF, self.cpsr.c())
                } else {
                    (rotated_immediate(opcode), rotated_immediate(opcode) >> 31 != 0)
                }
            } else {
                let kind = ShiftType::from_u8(((opcode >> 5) & 3) as u8);
                if flag(opcode, 4) {
                    barrel_shift(
                        if field(opcode, 0) == 15 {
                            self.reg(15).wrapping_add(4)
                        } else {
                            self.reg(field(opcode, 0))
                        },
                        kind,
                        self.reg(field(opcode, 8)) as u8,
                        self.cpsr.c(),
                        false,
                    )
                } else {
                    barrel_shift(
                        self.reg(field(opcode, 0)),
                        kind,
                        ((opcode >> 7) & 0x1F) as u8,
                        self.cpsr.c(),
                        true,
                    )
                }
            }),
    {
        if flag(opcode, 25) {
            if (opcode >> 8) & 0xF == 0 {
                (opcode & 0xFF, self.cpsr.c())
            } else {
                let result: u32 = rotated_immediate(opcode);
                (result, result >> 31 != 0)
            }
        } else {
            let rm: u8 = field(opcode, 0);
            let kind = ShiftType::from_u8(((opcode >> 5) & 3) as u8);
            if flag(opcode, 4) {
                let amount: u8 = self.reg(field(opcode, 8)) as u8;
                let value: u32 = if rm == 15 {
                    self.reg(15).wrapping_add(4)
                } else {
                    self.reg(rm)
                };
                barrel_shift(value, kind, amount, self.cpsr.c(), false)
            } else {
                let amount: u8 = ((opcode >> 7) & 0x1F) as u8;
                barrel_shift(self.reg(rm), kind, amount, self.cpsr.c(), true)
            }
        }
    }

    #[verifier::opaque]
    pub open spec fn data_processed(self, opcode: u32) -> Cpu {
        let op = alu::alu_op(((opcode >> 21) & 0xF) as u8);
        let rd = field(opcode, 12);
        let second = self.operand2(opcode);
        let r = alu_outcome(
            op,
            self.reg(field(opcode, 16)),
            second.0,
            second.1,
            self.cpsr.c(),
            self.cpsr.v(),
        );
        if flag(opcode, 20) {
            if rd == 15 {
                self.written_with_flags(rd, r.0, true)
            } else {
                let flags = self.cpsr.with_nz(r.0).with_bit(29, r.1);
                let c = Cpu {
                    cpsr: if op.is_logical() {
                        flags
                    } else {
                        flags.with_bit(28, r.2)
                    },
                    ..self
                };
                if op.is_test() {
                    c
                } else {
                    c.with_reg(rd as int, r.0)
                }
            }
        } else if op.is_test() {
            self
        } else {
            self.written(rd, r.0)
        }
    }

    fn arm_data_processing(&mut self, opcode: u32)
        ensures
            *final(self) == old(self).data_processed(opcode),
    {
        proof {
            reveal(Cpu::data_processed);
        }
        let op = AluOp::from_u8(((opcode >> 21) & 0xF) as u8);
        let rd: u8 = field(opcode, 12);
        let op1: u32 = self.reg(field(opcode, 16));
        let (op2, shifter_carry): (u32, bool) = self.operand2(opcode);
        let (result, carry, overflow): (u32, bool, bool) = alu_compute(
            op,
            op1,
            op2,
            shifter_carry,
            self.cpsr.c(),
            self.cpsr.v(),
        );
        if flag(opcode, 20) {
            if rd == 15 {
                self.set_reg_with_flags(rd, result, true);
            } else {
                self.cpsr.set_nz(result);
                self.cpsr.set_c(carry);
                if !op.is_logical() {
                    self.cpsr.set_v(overflow);
                }
                if !op.is_test() {
                    self.regs[rd as usize] = result;
                }
            }
        } else if !op.is_test() {
            self.set_reg(rd, result);
        }
    }

    #[verifier::opaque]
    pub open spec fn multiplied(self, opcode: u32) -> Cpu {
        let product = self.reg(field(opcode, 0)).wrapping_mul(self.reg(field(opcode, 8)));
        let result = if flag(opcode, 21) {
            product.wrapping_add(self.reg(field(opcode, 12)))
        } else {
            product
        };
        let c = self.with_reg(field(opcode, 16) as int, result);
        if flag(opcode, 20) {
            Cpu { cpsr: c.cpsr.with_nz(result), ..c }
        } else {
            c
        }
    }

    fn arm_multiply(&mut self, opcode: u32)
        ensures
            *final(self) == old(self).multiplied(opcode),
    {
        proof {
            reveal(Cpu::multiplied);
        }
        let product: u32 = self.reg(field(opcode, 0)).wrapping_mul(self.reg(field(opcode, 8)));
        let result: u32 = if flag(opcode, 21) {
            product.wrapping_add(self.reg(field(opcode, 12)))
        } else {
            product
        };
        self.regs[field(opcode, 16) as usize] = result;
        if flag(opcode, 20) {
            self.cpsr.set_nz(result);
        }
    }

    #[verifier::opaque]
    pub open spec fn multiplied_long(self, opcode: u32) -> Cpu {
        let hi = field(opcode, 16);
        let lo = field(opcode, 12);
        let product = long_product(
            self.reg(field(opcode, 0)),
            self.reg(field(opcode, 8)),
            flag(opcode, 22),
        );
        let result = if flag(opcode, 21) {
            product.wrapping_add(((self.reg(hi) as u64) << 32) | (self.reg(lo) as u64))
        } else {
            product
        };
        let c = self.with_reg(lo as int, result as u32).with_reg(hi as int, (result >> 32) as u32);
        if flag(opcode, 20) {
            Cpu {
                cpsr: c.cpsr.with_bit(31, result >> 63 != 0).with_bit(30, result == 0),
                ..c
            }
        } else {
            c
        }
    }

    fn arm_multiply_long(&mut self, opcode: u32)
        ensures
            *final(self) == old(self).multiplied_long(opcode),
    {
        proof {
            reveal(Cpu::multiplied_long);
        }
        let hi: u8 = field(opcode, 16);
        let lo: u8 = field(opcode, 12);
        let product: u64 = multiply_64(
            self.reg(field(opcode, 0)),
            self.reg(field(opcode, 8)),
            flag(opcode, 22),
        );
        let result: u64 = if flag(opcode, 21) {
            product.wrapping_add(((self.reg(hi) as u64) << 32) | (self.reg(lo) as u64))
        } else {
            product
        };
        self.regs[lo as usize] = result as u32;
        self.regs[hi as usize] = (result >> 32) as u32;
        if flag(opcode, 20) {
            self.cpsr.set_n(result >> 63 != 0);
            self.cpsr.set_z(result == 0);
        }
    }

    /// The base register plus or minus an offset.
    #[verifier::allow_in_spec]
    pub fn indexed(&self, opcode: u32, offset: u32) -> u32
        returns
            (if flag(opcode, 23) {
                self.reg(field(opcode, 16)).wrapping_add(offset)
            } else {
                self.reg(field(opcode, 16)).wrapping_sub(offset)
            }),
    {
        if flag(opcode, 23) {
            self.reg(field(opcode, 16)).wrapping_add(offset)
        } else {
            self.reg(field(opcode, 16)).wrapping_sub(offset)
        }
    }

    /// The offset of a word or byte transfer.
    #[verifier::allow_in_spec]
    pub fn transfer_offset(&self, opcode: u32) -> u32
        returns
            (if !flag(opcode, 25) {
                opcode & 0xFFF
            } else {
                barrel_shift(
                    self.reg(field(opcode, 0)),
                    ShiftType::from_u8(((opcode >> 5) & 3) as u8),
                    ((opcode >> 7) & 0x1F) as u8,
                    self.cpsr.c(),
                    true,
                ).0
            }),
    {
        if !flag(opcode, 25) {
            opcode & 0xFFF
        } else {
            let kind = ShiftType::from_u8(((opcode >> 5) & 3) as u8);
            let amount: u8 = ((opcode >> 7) & 0x1F) as u8;
            barrel_shift(self.reg(field(opcode, 0)), kind, amount, self.cpsr.c(), true).0
        }
    }

    /// The offset of a halfword transfer.
    #[verifier::allow_in_spec]
    pub fn half_offset(&self, opcode: u32) -> u32
        returns
            (if flag(opcode, 22) {
                ((opcode >> 4) & 0xF0) | (opcode & 0xF)
            } else {
                self.reg(field(opcode, 0))
            }),
    {
        if flag(opcode, 22) {
            ((opcode >> 4) & 0xF0) | (opcode & 0xF)
        } else {
            self.reg(field(opcode, 0))
        }
    }

    /// The processor after a transfer's base register was updated, where the
    /// instruction asks for it.
    pub open spec fn base_updated(self, opcode: u32, addr: u32) -> Cpu {
        if (!flag(opcode, 24) || flag(opcode, 21)) && field(opcode, 16) != 15 {
            self.with_reg(field(opcode, 16) as int, addr)
        } else {
            self
        }
    }

    fn update_base(&mut self, opcode: u32, addr: u32)
        ensures
            *final(self) == old(self).base_updated(opcode, addr),
    {
        if !flag(opcode, 24) || flag(opcode, 21) {
            let rn: u8 = field(opcode, 16);
            if rn != 15 {
                self.regs[rn as usize] = addr;
            }
        }
    }

    #[verifier::opaque]
    pub open spec fn single_transferred(self, b: BusState, opcode: u32) -> Outcome {
        let rd = field(opcode, 12);
        let indexed = self.indexed(opcode, self.transfer_offset(opcode));
        let addr = if flag(opcode, 24) {
            indexed
        } else {
            self.reg(field(opcode, 16))
        };
        if flag(opcode, 20) {
            let r = if flag(opcode, 22) {
                (b.read8(addr).0 as u32, b.read8(addr).1)
            } else {
                b.load_word(addr)
            };
            (self.written(rd, r.0).base_updated(opcode, indexed), r.1, 2)
        } else {
            let val = if rd == 15 {
                self.reg(15).wrapping_add(4)
            } else {
                self.reg(rd)
            };
            (
                self.base_updated(opcode, indexed),
                if flag(opcode, 22) {
                    b.write8(addr, val as u8)
                } else {
                    b.write32(addr, val)
                },
                1,
            )
        }
    }

    fn arm_single_transfer(&mut self, bus: &mut Bus, opcode: u32) -> (cycles: u32)
        requires
            old(bus).wf(),
        ensures
            final(bus).wf(),
            (*final(self), final(bus)@, cycles) == old(self).single_transferred(
                old(bus)@,
                opcode,
            ),
            1 <= cycles <= 18,
    {
        proof {
            reveal(Cpu::single_transferred);
        }
        let rd: u8 = field(opcode, 12);
        let indexed: u32 = self.indexed(opcode, self.transfer_offset(opcode));
        let addr: u32 = if flag(opcode, 24) {
            indexed
        } else {
            self.reg(field(opcode, 16))
        };
        if flag(opcode, 20) {
            let val: u32 = if flag(opcode, 22) {
                bus.read8(addr) as u32
            } else {
                bus.load_word(addr)
            };
            self.set_reg(rd, val);
            self.update_base(opcode, indexed);
            2
        } else {
            let val: u32 = if rd == 15 {
                self.reg(15).wrapping_add(4)
            } else {
                self.reg(rd)
            };
            if flag(opcode, 22) {
                bus.write8(addr, val as u8);
            } else {
                bus.write32(addr, val);
            }
            self.update_base(opcode, indexed);
            1
        }
    }

    #[verifier::opaque]
    pub open spec fn half_transferred(self, b: BusState, opcode: u32) -> Outcome {
        let rd = field(opcode, 12);
        let kind = (opcode >> 5) & 3;
        let indexed = self.indexed(opcode, self.half_offset(opcode));
        let addr = if flag(opcode, 24) {
            indexed
        } else {
            self.reg(field(opcode, 16))
        };
        if flag(opcode, 20) {
            let r = if kind == 1 {
                (b.read16(addr).0 as u32, b.read16(addr).1)
            } else if kind == 2 {
                b.load_signed_byte(addr)
            } else if kind == 3 {
                b.load_signed_half(addr)
            } else {
                (0, b)
            };
            (self.written(rd, r.0).base_updated(opcode, indexed), r.1, 3)
        } else {
            (self.base_updated(opcode, indexed), b.write16(addr, self.reg(rd) as u16), 2)
        }
    }

    fn arm_halfword_transfer(&mut self, bus: &mut Bus, opcode: u32) -> (cycles: u32)
        requires
            old(bus).wf(),
        ensures
            final(bus).wf(),
            (*final(self), final(bus)@, cycles) == old(self).half_transferred(old(bus)@, opcode),
            1 <= cycles <= 18,
    {
        proof {
            reveal(Cpu::half_transferred);
        }
        let rd: u8 = field(opcode, 12);
        let indexed: u32 = self.indexed(opcode, self.half_offset(opcode));
        let addr: u32 = if flag(opcode, 24) {
            indexed
        } else {
            self.reg(field(opcode, 16))
        };
        if flag(opcode, 20) {
            let val: u32 = match (opcode >> 5) & 3 {
                1 => bus.read16(addr) as u32,
                2 => bus.load_signed_byte(addr),
                3 => bus.load_signed_half(addr),
                _ => 0,
            };
            self.set_reg(rd, val);
            self.update_base(opcode, indexed);
            3
        } else {
            bus.write16(addr, self.reg(rd) as u16);
            self.update_base(opcode, indexed);
            2
        }
    }

    /// What register `i` stores in a block transfer. `user` takes the
    /// User-mode registers.
    pub open spec fn block_value(self, i: u8, user: bool) -> u32 {
        if i == 15 {
            self.reg(15).wrapping_add(4)
        } else if user {
            self.user_reg(i)
        } else {
            self.reg(i)
        }
    }

    /// What a block load of `val` into register `i` does. Loading R15 jumps,
    /// and with `s` also returns from the current exception. `user` writes the
    /// User-mode registers.
    pub open spec fn block_put(self, i: u8, val: u32, s: bool, user: bool) -> Cpu {
        if i == 15 {
            (if s {
                self.status_restored()
            } else {
                self
            }).with_pc(val & !1u32)
        } else if user {
            self.with_user_reg(i, val)
        } else {
            self.with_reg(i as int, val)
        }
    }

    /// The lowest address of a block transfer of `count` registers.
    #[verifier::allow_in_spec]
    pub fn block_start(&self, opcode: u32, count: u32) -> u32
        requires
            count <= 16,
        returns
            ({
                let base = self.reg(field(opcode, 16));
                let low = if flag(opcode, 23) {
                    base
                } else {
                    base.wrapping_sub((count * 4) as u32)
                };
                if flag(opcode, 23) == flag(opcode, 24) {
                    low.wrapping_add(4)
                } else {
                    low
                }
            }),
    {
        let base: u32 = self.reg(field(opcode, 16));
        let low: u32 = if flag(opcode, 23) {
            base
        } else {
            base.wrapping_sub(count * 4)
        };
        if flag(opcode, 23) == flag(opcode, 24) {
            low.wrapping_add(4)
        } else {
            low
        }
    }

    /// A transfer with an empty list moves R15 and steps the base by 16 words.
    #[verifier::opaque]
    pub open spec fn empty_block_transferred(self, b: BusState, opcode: u32) -> (Cpu, BusState) {
        let base = self.reg(field(opcode, 16));
        if flag(opcode, 20) {
            let r = b.read32(base);
            (self.with_pc(r.0), r.1)
        } else {
            (self, b.write32(base, self.reg(15).wrapping_add(4)))
        }
    }

    /// A transfer of the registers in the list, before the base is updated.
    #[verifier::opaque]
    pub open spec fn list_transferred(self, b: BusState, opcode: u32) -> (Cpu, BusState) {
        let rlist = (opcode & 0xFFFF) as u16;
        let s = flag(opcode, 22);
        let user = s && rlist & 0x8000 == 0;
        let start = self.block_start(opcode, access::listed_below(rlist, 16) as u32);
        if flag(opcode, 20) {
            access::block_loaded(
                self,
                b,
                |c: Cpu, i: int, val: u32| c.block_put(i as u8, val, s, user),
                rlist,
                start,
                16,
            )
        } else {
            (
                self,
                access::block_stored(
                    b,
                    |i: int| self.block_value(i as u8, user),
                    rlist,
                    start,
                    16,
                ),
            )
        }
    }

    #[verifier::opaque]
    pub open spec fn block_transferred(self, b: BusState, opcode: u32) -> Outcome {
        let rlist = (opcode & 0xFFFF) as u16;
        let count = access::listed_below(rlist, 16) as u32;
        let r = if rlist == 0 {
            self.empty_block_transferred(b, opcode)
        } else {
            self.list_transferred(b, opcode)
        };
        let end = self.indexed(
            opcode,
            if rlist == 0 {
                0x40
            } else {
                (count * 4) as u32
            },
        );
        (
            if flag(opcode, 21) {
                r.0.with_reg(field(opcode, 16) as int, end)
            } else {
                r.0
            },
            r.1,
            if rlist == 0 {
                3
            } else if flag(opcode, 20) {
                (count + 2) as u32
            } else {
                (count + 1) as u32
            },
        )
    }

    fn block_load(&mut self, bus: &mut Bus, rlist: u16, start: u32, s: bool, user: bool)
        requires
            old(bus).wf(),
        ensures
            final(bus).wf(),
            (*final(self), final(bus)@) == access::block_loaded(
                *old(self),
                old(bus)@,
                |c: Cpu, i: int, val: u32| c.block_put(i as u8, val, s, user),
                rlist,
                start,
                16,
            ),
    {
        let ghost put = |c: Cpu, i: int, val: u32| c.block_put(i as u8, val, s, user);
        let ghost c0 = *self;
        let ghost b0 = bus@;
        let mut addr: u32 = start;
        let mut i: u8 = 0;
        while i < 16
            invariant
                i <= 16,
                bus.wf(),
                addr == access::words_up(start, access::listed_below(rlist, i as nat)),
                (*self, bus@) == access::block_loaded(c0, b0, put, rlist, start, i as nat),
                put == (|c: Cpu, i: int, val: u32| c.block_put(i as u8, val, s, user)),
            decreases 16 - i,
        {
            if listed(rlist, i) {
                let val: u32 = bus.read32(addr);
                if i == 15 {
                    if s {
                        self.restore_status();
                    }
                    self.branch(val & !1u32);
                } else if user {
                    self.write_user_reg(i, val);
                } else {
                    self.regs[i as usize] = val;
                }
                addr = addr.wrapping_add(4);
            }
            i = i + 1;
        }
    }

    fn block_store(&self, bus: &mut Bus, rlist: u16, start: u32, user: bool)
        requires
            old(bus).wf(),
        ensures
            final(bus).wf(),
            final(bus)@ == access::block_stored(
                old(bus)@,
                |i: int| self.block_value(i as u8, user),
                rlist,
                start,
                16,
            ),
    {
        let ghost vals = |i: int| self.block_value(i as u8, user);
        let ghost b0 = bus@;
        let mut addr: u32 = start;
        let mut i: u8 = 0;
        while i < 16
            invariant
                i <= 16,
                bus.wf(),
                addr == access::words_up(start, access::listed_below(rlist, i as nat)),
                bus@ == access::block_stored(b0, vals, rlist, start, i as nat),
                vals == (|i: int| self.block_value(i as u8, user)),
            decreases 16 - i,
        {
            if listed(rlist, i) {
                let val: u32 = if i == 15 {
                    self.reg(15).wrapping_add(4)
                } else if user {
                    self.read_user_reg(i)
                } else {
                    self.reg(i)
                };
                bus.write32(addr, val);
                addr = addr.wrapping_add(4);
            }
            i = i + 1;
        }
    }

    fn transfer_empty_block(&mut self, bus: &mut Bus, opcode: u32)
        requires
            old(bus).wf(),
        ensures
            final(bus).wf(),
            (*final(self), final(bus)@) == old(self).empty_block_transferred(old(bus)@, opcode),
    {
        proof {
            reveal(Cpu::empty_block_transferred);
        }
        let base: u32 = self.reg(field(opcode, 16));
        if flag(opcode, 20) {
            let val: u32 = bus.read32(base);
            self.branch(val);
        } else {
            bus.write32(base, self.reg(15).wrapping_add(4));
        }
    }

    fn transfer_list(&mut self, bus: &mut Bus, opcode: u32)
        requires
            old(bus).wf(),
        ensures
            final(bus).wf(),
            (*final(self), final(bus)@) == old(self).list_transferred(old(bus)@, opcode),
    {
        proof {
            reveal(Cpu::list_transferred);
        }
        let rlist: u16 = (opcode & 0xFFFF) as u16;
        let s = flag(opcode, 22);
        let user = s && rlist & 0x8000 == 0;
        let count: u32 = count_listed(rlist, 16);
        let start: u32 = self.block_start(opcode, count);
        if flag(opcode, 20) {
            self.block_load(bus, rlist, start, s, user);
        } else {
            self.block_store(bus, rlist, start, user);
        }
    }

    fn arm_block_transfer(&mut self, bus: &mut Bus, opcode: u32) -> (cycles: u32)
        requires
            old(bus).wf(),
        ensures
            final(bus).wf(),
            (*final(self), final(bus)@, cycles) == old(self).block_transferred(old(bus)@, opcode),
            1 <= cycles <= 18,
    {
        proof {
            reveal(Cpu::block_transferred);
        }
        let rlist: u16 = (opcode & 0xFFFF) as u16;
        let count: u32 = count_listed(rlist, 16);
        let end: u32 = self.indexed(
            opcode,
            if rlist == 0 {
                0x40
            } else {
                count * 4
            },
        );
        if rlist == 0 {
            self.transfer_empty_block(bus, opcode);
        } else {
            self.transfer_list(bus, opcode);
        }
        if flag(opcode, 21) {
            self.regs[field(opcode, 16) as usize] = end;
        }
        if rlist == 0 {
            3
        } else if flag(opcode, 20) {
            count + 2
        } else {
            count + 1
        }
    }

    pub open spec fn branched(self, opcode: u32) -> Cpu {
        let c = if flag(opcode, 24) {
            self.with_reg(14, self.regs[15].wrapping_sub(4))
        } else {
            self
        };
        c.with_pc(self.regs[15].wrapping_add(branch_offset(opcode)))
    }

    fn arm_branch(&mut self, opcode: u32)
        ensures
            *final(self) == old(self).branched(opcode),
    {
        let pc: u32 = self.regs[15];
        if flag(opcode, 24) {
            self.regs[14] = pc.wrapping_sub(4);
        }
        self.branch(pc.wrapping_add(branch_offset(opcode)));
    }

    #[verifier::opaque]
    pub open spec fn swapped(self, b: BusState, opcode: u32) -> Outcome {
        let addr = self.reg(field(opcode, 16));
        let rd = field(opcode, 12) as int;
        let val = self.reg(field(opcode, 0));
        if flag(opcode, 22) {
            let r = b.read8(addr);
            (self.with_reg(rd, r.0 as u32), r.1.write8(addr, val as u8), 4)
        } else {
            let r = b.load_word(addr);
            (self.with_reg(rd, r.0), r.1.write32(addr, val), 4)
        }
    }

    fn arm_swap(&mut self, bus: &mut Bus, opcode: u32) -> (cycles: u32)
        requires
            old(bus).wf(),
        ensures
            final(bus).wf(),
            (*final(self), final(bus)@, cycles) == old(self).swapped(old(bus)@, opcode),
            1 <= cycles <= 18,
    {
        proof {
            reveal(Cpu::swapped);
        }
        let addr: u32 = self.reg(field(opcode, 16));
        let rd: u8 = field(opcode, 12);
        let val: u32 = self.reg(field(opcode, 0));
        if flag(opcode, 22) {
            let old_val: u32 = bus.read8(addr) as u32;
            bus.write8(addr, val as u8);
            self.regs[rd as usize] = old_val;
        } else {
            let old_val: u32 = bus.load_word(addr);
            bus.write32(addr, val);
            self.regs[rd as usize] = old_val;
        }
        4
    }

    pub open spec fn status_read(self, opcode: u32) -> Cpu {
        self.with_reg(
            field(opcode, 12) as int,
            if flag(opcode, 22) {
                self.spsr().bits
            } else {
                self.cpsr.bits
            },
        )
    }

    fn arm_mrs(&mut self, opcode: u32)
        ensures
            *final(self) == old(self).status_read(opcode),
    {
        let psr: Psr = if flag(opcode, 22) {
            self.spsr()
        } else {
            self.cpsr
        };
        self.regs[field(opcode, 12) as usize] = psr.bits;
    }

    /// The processor after a status write. Where the mode changes, the banked
    /// registers of the old mode are put away first.
    #[verifier::opaque]
    pub open spec fn status_written(self, opcode: u32) -> Cpu {
        let mask = status_mask(opcode, self.cpsr.mode() is User);
        let val = if flag(opcode, 25) {
            rotated_immediate(opcode)
        } else {
            self.reg(field(opcode, 0))
        };
        if flag(opcode, 22) {
            self.with_spsr(Psr { bits: (self.spsr().bits & !mask) | (val & mask) })
        } else {
            let p = Psr { bits: (self.cpsr.bits & !mask) | (val & mask) };
            Cpu { cpsr: p, ..self.switched(p.mode()) }
        }
    }

    fn arm_msr(&mut self, opcode: u32)
        ensures
            *final(self) == old(self).status_written(opcode),
    {
        proof {
            reveal(Cpu::status_written);
        }
        let mask: u32 = status_mask(opcode, self.cpsr.mode() == CpuMode::User);
        let val: u32 = if flag(opcode, 25) {
            rotated_immediate(opcode)
        } else {
            self.reg(field(opcode, 0))
        };
        if flag(opcode, 22) {
            let psr = Psr { bits: (self.spsr().bits & !mask) | (val & mask) };
            self.set_spsr(psr);
        } else {
            let psr = Psr { bits: (self.cpsr.bits & !mask) | (val & mask) };
            self.switch_mode(psr.mode());
            self.cpsr = psr;
        }
    }

    /// What executing an opcode does. Its condition has already been found to
    /// hold.
    pub open spec fn arm_executed(self, b: BusState, opcode: u32) -> Outcome {
        match ArmInstruction::decode(opcode) {
            ArmInstruction::BranchExchange => (self.exchanged(self.reg(field(opcode, 0))), b, 3),
            ArmInstruction::Multiply => (self.multiplied(opcode), b, 4),
            ArmInstruction::MultiplyLong => (self.multiplied_long(opcode), b, 5),
            ArmInstruction::Swap => self.swapped(b, opcode),
            ArmInstruction::HalfwordTransfer => self.half_transferred(b, opcode),
            ArmInstruction::StatusRead => (self.status_read(opcode), b, 1),
            ArmInstruction::StatusWrite => (self.status_written(opcode), b, 1),
            ArmInstruction::DataProcessing => (self.data_processed(opcode), b, 1),
            ArmInstruction::SingleTransfer => self.single_transferred(b, opcode),
            ArmInstruction::BlockTransfer => self.block_transferred(b, opcode),
            ArmInstruction::Branch => (self.branched(opcode), b, 3),
            ArmInstruction::SoftwareInterrupt => (
                Cpu { pending_swi: Some(((opcode >> 16) & 0xFF) as u8), ..self },
                b,
                3,
            ),
            ArmInstruction::Undefined => (self, b, 1),
        }
    }

    /// Executes an opcode whose condition holds. Returns its cycles.
    pub fn execute_arm(&mut self, bus: &mut Bus, opcode: u32) -> (cycles: u32)
        requires
            old(bus).wf(),
        ensures
            final(bus).wf(),
            (*final(self), final(bus)@, cycles) == old(self).arm_executed(old(bus)@, opcode),
            1 <= cycles <= 18,
    {
        match ArmInstruction::decode(opcode) {
            ArmInstruction::BranchExchange => {
                let addr: u32 = self.reg(field(opcode, 0));
                self.branch_exchange(addr);
                3
            },
            ArmInstruction::Multiply => {
                self.arm_multiply(opcode);
                4
            },
            ArmInstruction::MultiplyLong => {
                self.arm_multiply_long(opcode);
                5
            },
            ArmInstruction::Swap => self.arm_swap(bus, opcode),
            ArmInstruction::HalfwordTransfer => self.arm_halfword_transfer(bus, opcode),
            ArmInstruction::StatusRead => {
                self.arm_mrs(opcode);
                1
            },
            ArmInstruction::StatusWrite => {
                self.arm_msr(opcode);
                1
            },
            ArmInstruction::DataProcessing => {
                self.arm_data_processing(opcode);
                1
            },
            ArmInstruction::SingleTransfer => self.arm_single_transfer(bus, opcode),
            ArmInstruction::BlockTransfer => self.arm_block_transfer(bus, opcode),
            ArmInstruction::Branch => {
                self.arm_branch(opcode);
                3
            },
            ArmInstruction::SoftwareInterrupt => {
                self.pending_swi = Some(((opcode >> 16) & 0xFF) as u8);
                3
            },
            ArmInstruction::Undefined => 1,
        }
    }
}

} // verus!

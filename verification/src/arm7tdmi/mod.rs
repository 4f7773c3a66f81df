//! The ARM7TDMI core: registers, modes, exceptions and the fetch pipeline.

use vstd::prelude::*;

use crate::bios::affine::MathCall;
use crate::bits;

pub use self::psr::{CpuMode, Psr};

pub mod access;
pub mod alu;
pub mod arm;
pub mod blocks;
pub mod disasm;
pub mod laws;
pub mod moves;
pub mod pipeline;
pub mod psr;
pub mod results;
pub mod short;
pub mod step;
pub mod thumb;
pub mod transfers;

verus! {

broadcast use bits::group_and_bounds;

/// The registers that are swapped when the mode changes.
#[derive(Debug, Clone, Copy)]
#[verifier::ext_equal]
pub struct BankedRegisters {
    /// SP per bank: User/System, FIQ, IRQ, Supervisor, Abort, Undefined.
    pub sp: [u32; 6],
    /// LR per bank, in the same order.
    pub lr: [u32; 6],
    /// R8 to R12 of FIQ mode while another mode runs.
    pub fiq_r8_r12: [u32; 5],
    /// R8 to R12 of the other modes while FIQ mode runs.
    pub usr_r8_r12: [u32; 5],
    /// Saved status: FIQ, IRQ, Supervisor, Abort, Undefined.
    pub spsr: [Psr; 5],
}

impl BankedRegisters {
    pub open spec fn zeroed() -> BankedRegisters {
        BankedRegisters {
            sp: bits::filled(0),
            lr: bits::filled(0),
            fiq_r8_r12: bits::filled(0),
            usr_r8_r12: bits::filled(0),
            spsr: bits::filled(Psr { bits: 0 }),
        }
    }

    /// All banked registers zero.
    pub fn new() -> (b: BankedRegisters)
        ensures
            b == BankedRegisters::zeroed(),
    {
        BankedRegisters {
            sp: [0; 6],
            lr: [0; 6],
            fiq_r8_r12: [0; 5],
            usr_r8_r12: [0; 5],
            spsr: [Psr { bits: 0 }; 5],
        }
    }
}

/// The processor.
#[derive(Debug, Clone, Copy)]
#[verifier::ext_equal]
pub struct Cpu {
    /// R0 to R15. While an instruction executes, R15 is two instructions ahead
    /// of it.
    pub regs: [u32; 16],
    pub cpsr: Psr,
    pub banked: BankedRegisters,
    /// The two fetched opcodes: the one to execute, and the one after it.
    pub pipeline: [u32; 2],
    /// Set by every jump: the pipeline is refilled from R15 before the next
    /// instruction.
    pub pipeline_flushed: bool,
    /// How many interrupts were taken.
    pub irq_entries: u64,
    /// Waiting for an interrupt.
    pub halted: bool,
    /// Number of the software interrupt that the last instruction raised.
    pub pending_swi: Option<u8>,
    /// The system call that waits for a function value.
    pub math_call: Option<MathCall>,
}

/// R8 to R12 out of the register file.
pub open spec fn r8_to_r12(regs: [u32; 16]) -> [u32; 5] {
    [regs[8], regs[9], regs[10], regs[11], regs[12]]
}

/// The register file with R8 to R12 taken from `bank`.
pub open spec fn load_r8_to_r12(regs: [u32; 16], bank: [u32; 5]) -> [u32; 16] {
    bits::upd(bits::upd(bits::upd(bits::upd(bits::upd(regs, 8, bank[0]), 9, bank[1]), 10, bank[2]), 11, bank[3]), 12, bank[4])
}

/// Where the saved status of a mode is kept.
pub open spec fn spsr_index(mode: CpuMode) -> int {
    mode.bank_index() - 1
}

impl Cpu {
    pub open spec fn power_on() -> Cpu {
        Cpu {
            regs: bits::filled(0),
            cpsr: Psr::new(CpuMode::Supervisor),
            banked: BankedRegisters::zeroed(),
            pipeline: bits::filled(0),
            pipeline_flushed: true,
            irq_entries: 0,
            halted: false,
            pending_swi: None,
            math_call: None,
        }
    }

    /// The state at the reset vector.
    pub fn new() -> (cpu: Cpu)
        ensures
            cpu == Cpu::power_on(),
    {
        Cpu {
            regs: [0; 16],
            cpsr: Psr::new(CpuMode::Supervisor),
            banked: BankedRegisters::new(),
            pipeline: [0; 2],
            pipeline_flushed: true,
            irq_entries: 0,
            halted: false,
            pending_swi: None,
            math_call: None,
        }
    }

    pub open spec fn after_boot() -> Cpu {
        let c = Cpu::power_on();
        Cpu {
            cpsr: Psr {
                bits: (Psr::new(CpuMode::System).bits & !(1u32 << 7)) & !(1u32 << 6),
            },
            regs: bits::upd(bits::upd(c.regs, 13, 0x0300_7F00), 15, 0x0800_0000),
            banked: BankedRegisters {
                sp: bits::upd(bits::upd(c.banked.sp, 2, 0x0300_7FA0), 3, 0x0300_7FE0),
                ..c.banked
            },
            ..c
        }
    }

    /// The state the boot ROM leaves behind: System mode, interrupts enabled,
    /// the three stacks set up, execution at the cartridge entry point.
    pub fn new_skip_bios() -> (cpu: Cpu)
        ensures
            cpu == Cpu::after_boot(),
    {
        let mut cpu = Cpu::new();
        cpu.cpsr = Psr::new(CpuMode::System);
        cpu.cpsr.bits = cpu.cpsr.bits & !(1u32 << 7);
        cpu.cpsr.bits = cpu.cpsr.bits & !(1u32 << 6);
        cpu.regs[13] = 0x0300_7F00;
        cpu.banked.sp[CpuMode::Irq.bank_index()] = 0x0300_7FA0;
        cpu.banked.sp[CpuMode::Supervisor.bank_index()] = 0x0300_7FE0;
        cpu.regs[15] = 0x0800_0000;
        cpu.pipeline_flushed = true;
        cpu
    }

    /// Whether the instruction condition `cond` (its low four bits) holds.
    #[verifier::allow_in_spec]
    pub fn check_condition(&self, cond: u32) -> bool
        returns
            ({
                let p = self.cpsr;
                let k = cond & 0xF;
                if k == 0x0 {
                    p.z()
                } else if k == 0x1 {
                    !p.z()
                } else if k == 0x2 {
                    p.c()
                } else if k == 0x3 {
                    !p.c()
                } else if k == 0x4 {
                    p.n()
                } else if k == 0x5 {
                    !p.n()
                } else if k == 0x6 {
                    p.v()
                } else if k == 0x7 {
                    !p.v()
                } else if k == 0x8 {
                    p.c() && !p.z()
                } else if k == 0x9 {
                    !p.c() || p.z()
                } else if k == 0xA {
                    p.n() == p.v()
                } else if k == 0xB {
                    p.n() != p.v()
                } else if k == 0xC {
                    !p.z() && p.n() == p.v()
                } else if k == 0xD {
                    p.z() || p.n() != p.v()
                } else {
                    true
                }
            }),
    {
        match cond & 0xF {
            0x0 => self.cpsr.z(),
            0x1 => !self.cpsr.z(),
            0x2 => self.cpsr.c(),
            0x3 => !self.cpsr.c(),
            0x4 => self.cpsr.n(),
            0x5 => !self.cpsr.n(),
            0x6 => self.cpsr.v(),
            0x7 => !self.cpsr.v(),
            0x8 => self.cpsr.c() && !self.cpsr.z(),
            0x9 => !self.cpsr.c() || self.cpsr.z(),
            0xA => self.cpsr.n() == self.cpsr.v(),
            0xB => self.cpsr.n() != self.cpsr.v(),
            0xC => !self.cpsr.z() && (self.cpsr.n() == self.cpsr.v()),
            0xD => self.cpsr.z() || (self.cpsr.n() != self.cpsr.v()),
            _ => true,
        }
    }

    /// The banks after the current SP, LR and, where FIQ mode is left or
    /// entered, R8 to R12 were put away.
    pub open spec fn banks_saved(self, new_mode: CpuMode) -> BankedRegisters {
        let old_mode = self.cpsr.mode();
        let b = self.banked;
        BankedRegisters {
            sp: bits::upd(b.sp, old_mode.bank_index() as int, self.regs[13]),
            lr: bits::upd(b.lr, old_mode.bank_index() as int, self.regs[14]),
            fiq_r8_r12: if old_mode is Fiq {
                r8_to_r12(self.regs)
            } else {
                b.fiq_r8_r12
            },
            usr_r8_r12: if !(old_mode is Fiq) && new_mode is Fiq {
                r8_to_r12(self.regs)
            } else {
                b.usr_r8_r12
            },
            spsr: b.spsr,
        }
    }

    /// The processor after a change to `new_mode`: the old mode's banked
    /// registers are put away, the new mode's are loaded.
    pub open spec fn switched(self, new_mode: CpuMode) -> Cpu {
        let old_mode = self.cpsr.mode();
        if old_mode == new_mode {
            self
        } else {
            let banked = self.banks_saved(new_mode);
            let regs = if old_mode is Fiq {
                load_r8_to_r12(self.regs, self.banked.usr_r8_r12)
            } else if new_mode is Fiq {
                load_r8_to_r12(self.regs, self.banked.fiq_r8_r12)
            } else {
                self.regs
            };
            Cpu {
                regs: bits::upd(
                    bits::upd(regs, 13, banked.sp[new_mode.bank_index() as int]),
                    14,
                    banked.lr[new_mode.bank_index() as int],
                ),
                cpsr: self.cpsr.with_mode(new_mode),
                banked,
                ..self
            }
        }
    }

    /// Switches the processor mode and swaps the banked registers.
    pub fn switch_mode(&mut self, new_mode: CpuMode)
        ensures
            *final(self) == old(self).switched(new_mode),
    {
        let old_mode = self.cpsr.mode();
        if old_mode == new_mode {
            return;
        }
        let old_bank: usize = old_mode.bank_index();
        self.banked.sp[old_bank] = self.regs[13];
        self.banked.lr[old_bank] = self.regs[14];
        if old_mode == CpuMode::Fiq {
            let bank = self.banked.usr_r8_r12;
            self.banked.fiq_r8_r12 =
            [self.regs[8], self.regs[9], self.regs[10], self.regs[11], self.regs[12]];
            self.load_high_registers(bank);
        } else if new_mode == CpuMode::Fiq {
            let bank = self.banked.fiq_r8_r12;
            self.banked.usr_r8_r12 =
            [self.regs[8], self.regs[9], self.regs[10], self.regs[11], self.regs[12]];
            self.load_high_registers(bank);
        }
        let new_bank: usize = new_mode.bank_index();
        self.regs[13] = self.banked.sp[new_bank];
        self.regs[14] = self.banked.lr[new_bank];
        self.cpsr.bits = (self.cpsr.bits & !0x1Fu32) | new_mode.bits();
    }

    fn load_high_registers(&mut self, bank: [u32; 5])
        ensures
            *final(self) == (Cpu { regs: load_r8_to_r12(old(self).regs, bank), ..*old(self) }),
    {
        self.regs[8] = bank[0];
        self.regs[9] = bank[1];
        self.regs[10] = bank[2];
        self.regs[11] = bank[3];
        self.regs[12] = bank[4];
    }

    /// The saved status of the current mode. User and System have none and
    /// read the current status.
    #[verifier::allow_in_spec]
    pub fn spsr(&self) -> Psr
        returns
            (if self.cpsr.mode().has_spsr() {
                self.banked.spsr[spsr_index(self.cpsr.mode())]
            } else {
                self.cpsr
            }),
    {
        match self.cpsr.mode() {
            CpuMode::Fiq => self.banked.spsr[0],
            CpuMode::Irq => self.banked.spsr[1],
            CpuMode::Supervisor => self.banked.spsr[2],
            CpuMode::Abort => self.banked.spsr[3],
            CpuMode::Undefined => self.banked.spsr[4],
            CpuMode::User | CpuMode::System => self.cpsr,
        }
    }

    pub open spec fn with_spsr(self, psr: Psr) -> Cpu {
        if self.cpsr.mode().has_spsr() {
            Cpu {
                banked: BankedRegisters {
                    spsr: bits::upd(self.banked.spsr, spsr_index(self.cpsr.mode()), psr),
                    ..self.banked
                },
                ..self
            }
        } else {
            self
        }
    }

    /// Stores the saved status of the current mode, where it has one.
    pub fn set_spsr(&mut self, psr: Psr)
        ensures
            *final(self) == old(self).with_spsr(psr),
    {
        let index: usize = match self.cpsr.mode() {
            CpuMode::Fiq => 0,
            CpuMode::Irq => 1,
            CpuMode::Supervisor => 2,
            CpuMode::Abort => 3,
            CpuMode::Undefined => 4,
            CpuMode::User | CpuMode::System => {
                return ;
            },
        };
        self.banked.spsr[index] = psr;
    }

    /// Entry to an exception: the mode changes, the status is saved, LR holds
    /// the return address, ARM state with IRQs masked continues at `vector`.
    pub open spec fn exception(self, mode: CpuMode, return_addr: u32, vector: u32) -> Cpu {
        let c = self.switched(mode).with_spsr(self.cpsr);
        Cpu {
            regs: bits::upd(bits::upd(c.regs, 14, return_addr), 15, vector),
            cpsr: Psr { bits: c.cpsr.with_bit(5, false).bits | (1u32 << 7) },
            pipeline_flushed: true,
            ..c
        }
    }

    fn enter_exception(&mut self, mode: CpuMode, return_addr: u32, vector: u32)
        ensures
            *final(self) == old(self).exception(mode, return_addr, vector),
    {
        let saved_cpsr = self.cpsr;
        self.switch_mode(mode);
        self.set_spsr(saved_cpsr);
        self.regs[14] = return_addr;
        self.cpsr.set_thumb(false);
        self.cpsr.bits = self.cpsr.bits | (1u32 << 7);
        self.regs[15] = vector;
        self.pipeline_flushed = true;
    }

    pub open spec fn interrupted(self) -> Cpu {
        self.exception(
            CpuMode::Irq,
            if self.cpsr.thumb() {
                self.regs[15]
            } else {
                self.regs[15].wrapping_sub(4)
            },
            0x0000_0018,
        )
    }

    /// Takes an IRQ. The return address is such that `SUBS PC, LR, #4` resumes
    /// the interrupted instruction.
    pub fn handle_interrupt(&mut self)
        ensures
            *final(self) == old(self).interrupted(),
    {
        let return_addr: u32 = if self.cpsr.thumb() {
            self.regs[15]
        } else {
            self.regs[15].wrapping_sub(4)
        };
        self.enter_exception(CpuMode::Irq, return_addr, 0x0000_0018);
    }

    pub open spec fn swi_entered(self) -> Cpu {
        self.exception(
            CpuMode::Supervisor,
            self.regs[15].wrapping_sub(if self.cpsr.thumb() { 2u32 } else { 4u32 }),
            0x0000_0008,
        )
    }

    /// Enters the software-interrupt vector of the boot ROM. The comment field
    /// is read by the handler there, not here.
    pub fn software_interrupt(&mut self, _comment: u32)
        ensures
            *final(self) == old(self).swi_entered(),
    {
        let return_addr: u32 = if self.cpsr.thumb() {
            self.regs[15].wrapping_sub(2)
        } else {
            self.regs[15].wrapping_sub(4)
        };
        self.enter_exception(CpuMode::Supervisor, return_addr, 0x0000_0008);
    }

    pub open spec fn with_pc(self, addr: u32) -> Cpu {
        Cpu { regs: bits::upd(self.regs, 15, addr), pipeline_flushed: true, ..self }
    }

    /// Continues at `addr` in the current instruction set.
    pub fn branch(&mut self, addr: u32)
        ensures
            *final(self) == old(self).with_pc(addr),
    {
        self.regs[15] = addr;
        self.pipeline_flushed = true;
    }

    pub open spec fn exchanged(self, addr: u32) -> Cpu {
        Cpu { cpsr: self.cpsr.with_bit(5, addr & 1 != 0), ..self.with_pc(addr & !1u32) }
    }

    /// Continues at `addr`, in THUMB state if its low bit is set.
    pub fn branch_exchange(&mut self, addr: u32)
        ensures
            *final(self) == old(self).exchanged(addr),
    {
        self.cpsr.set_thumb(addr & 1 != 0);
        self.regs[15] = addr & !1u32;
        self.pipeline_flushed = true;
    }

    #[verifier::allow_in_spec]
    pub fn reg(&self, r: u8) -> u32
        returns
            self.regs[(r & 0xF) as int],
    {
        self.regs[(r & 0xF) as usize]
    }

    pub open spec fn with_reg(self, i: int, val: u32) -> Cpu {
        Cpu { regs: bits::upd(self.regs, i, val), ..self }
    }

    /// A register write by an instruction: writing R15 jumps.
    pub open spec fn written(self, r: u8, val: u32) -> Cpu {
        if r & 0xF == 15 {
            self.with_pc(val & !1u32)
        } else {
            self.with_reg((r & 0xF) as int, val)
        }
    }

    pub fn set_reg(&mut self, r: u8, val: u32)
        ensures
            *final(self) == old(self).written(r, val),
    {
        let r: u8 = r & 0xF;
        if r == 15 {
            self.branch(val & !1u32);
        } else {
            self.regs[r as usize] = val;
        }
    }

    pub open spec fn user_reg(self, r: u8) -> u32 {
        let i = (r & 0xF) as int;
        let mode = self.cpsr.mode();
        if 8 <= i <= 12 && mode is Fiq {
            self.banked.usr_r8_r12[i - 8]
        } else if i == 13 && mode.bank_index() != 0 {
            self.banked.sp[0]
        } else if i == 14 && mode.bank_index() != 0 {
            self.banked.lr[0]
        } else {
            self.regs[i]
        }
    }

    /// The User-mode register `r`, whatever the current mode.
    pub fn read_user_reg(&self, r: u8) -> (val: u32)
        ensures
            val == self.user_reg(r),
    {
        let r: usize = (r & 0xF) as usize;
        let mode = self.cpsr.mode();
        match r {
            8..=12 => {
                if mode == CpuMode::Fiq {
                    self.banked.usr_r8_r12[r - 8]
                } else {
                    self.regs[r]
                }
            },
            13 => {
                if mode.bank_index() == 0 {
                    self.regs[13]
                } else {
                    self.banked.sp[0]
                }
            },
            14 => {
                if mode.bank_index() == 0 {
                    self.regs[14]
                } else {
                    self.banked.lr[0]
                }
            },
            _ => self.regs[r],
        }
    }

    pub open spec fn with_user_reg(self, r: u8, val: u32) -> Cpu {
        let i = (r & 0xF) as int;
        let mode = self.cpsr.mode();
        let b = self.banked;
        if 8 <= i <= 12 && mode is Fiq {
            Cpu { banked: BankedRegisters { usr_r8_r12: bits::upd(b.usr_r8_r12, i - 8, val), ..b }, ..self }
        } else if i == 13 && mode.bank_index() != 0 {
            Cpu { banked: BankedRegisters { sp: bits::upd(b.sp, 0, val), ..b }, ..self }
        } else if i == 14 && mode.bank_index() != 0 {
            Cpu { banked: BankedRegisters { lr: bits::upd(b.lr, 0, val), ..b }, ..self }
        } else {
            self.with_reg(i, val)
        }
    }

    /// Writes the User-mode register `r`, whatever the current mode.
    pub fn write_user_reg(&mut self, r: u8, val: u32)
        ensures
            *final(self) == old(self).with_user_reg(r, val),
    {
        let r: usize = (r & 0xF) as usize;
        let mode = self.cpsr.mode();
        match r {
            8..=12 => {
                if mode == CpuMode::Fiq {
                    self.banked.usr_r8_r12[r - 8] = val;
                } else {
                    self.regs[r] = val;
                }
            },
            13 => {
                if mode.bank_index() == 0 {
                    self.regs[13] = val;
                } else {
                    self.banked.sp[0] = val;
                }
            },
            14 => {
                if mode.bank_index() == 0 {
                    self.regs[14] = val;
                } else {
                    self.banked.lr[0] = val;
                }
            },
            _ => {
                self.regs[r] = val;
            },
        }
    }

    /// The return from an exception: the saved status becomes current again.
    pub open spec fn status_restored(self) -> Cpu {
        Cpu { cpsr: self.spsr(), ..self.switched(self.spsr().mode()) }
    }

    pub fn restore_status(&mut self)
        ensures
            *final(self) == old(self).status_restored(),
    {
        let spsr = self.spsr();
        self.switch_mode(spsr.mode());
        self.cpsr = spsr;
    }

    pub open spec fn written_with_flags(self, r: u8, val: u32, s: bool) -> Cpu {
        if r & 0xF == 15 {
            (if s { self.status_restored() } else { self }).with_pc(val & !1u32)
        } else {
            self.with_reg((r & 0xF) as int, val)
        }
    }

    /// A register write that, to R15 and with `s`, also returns from the
    /// current exception.
    pub fn set_reg_with_flags(&mut self, r: u8, val: u32, s: bool)
        ensures
            *final(self) == old(self).written_with_flags(r, val, s),
    {
        let r_idx: usize = (r & 0xF) as usize;
        if r_idx == 15 {
            if s {
                self.restore_status();
            }
            self.branch(val & !1u32);
        } else {
            self.regs[r_idx] = val;
        }
    }
}

} // verus!

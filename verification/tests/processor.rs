//! Modes, exceptions and the stack.

use gba_core::arm7tdmi::disasm::{disasm_arm, disasm_thumb};
use gba_core::arm7tdmi::{Cpu, CpuMode, Psr};
use gba_core::bios::handle_swi;
use gba_core::bus::Bus;
use gba_core::gba::Gba;
use gba_core::trace::{trace_is_frozen, CycleProfile, TraceRing};

fn machine() -> (Cpu, Bus) {
    (Cpu::new_skip_bios(), Bus::new(None, vec![0; 256]))
}

#[test]
fn mode_round_trip_keeps_registers() {
    let (mut cpu, _) = machine();
    for i in 0..15 {
        cpu.regs[i] = 100 + i as u32;
    }
    let before = cpu.regs;
    cpu.switch_mode(CpuMode::Fiq);
    cpu.regs[8] = 1;
    cpu.regs[13] = 2;
    cpu.regs[14] = 3;
    cpu.switch_mode(CpuMode::System);
    assert_eq!(cpu.regs, before);
    cpu.switch_mode(CpuMode::Fiq);
    assert_eq!((cpu.regs[8], cpu.regs[13], cpu.regs[14]), (1, 2, 3));
}

#[test]
fn interrupt_entry_and_return() {
    let (mut cpu, mut bus) = machine();
    cpu.regs[15] = 0x0800_0108;
    cpu.pipeline_flushed = false;
    let status = cpu.cpsr;
    cpu.handle_interrupt();
    assert_eq!(cpu.cpsr.mode(), CpuMode::Irq);
    assert!(cpu.cpsr.irq_disabled());
    assert!(!cpu.cpsr.thumb());
    assert_eq!(cpu.regs[15], 0x18);
    assert_eq!(cpu.regs[14], 0x0800_0104);
    assert_eq!(cpu.spsr(), status);
    // SUBS PC, LR, #4
    cpu.regs[15] = 0x20;
    cpu.execute_arm(&mut bus, 0xE25E_F004);
    assert_eq!(cpu.cpsr, status);
    assert_eq!(cpu.regs[15], 0x0800_0100);
}

#[test]
fn software_interrupt_enters_supervisor_mode() {
    let (mut cpu, _) = machine();
    let status = cpu.cpsr;
    cpu.software_interrupt(0);
    assert_eq!(cpu.cpsr.mode(), CpuMode::Supervisor);
    assert_eq!(cpu.regs[15], 0x08);
    assert_eq!(cpu.spsr(), status);
}

#[test]
fn push_and_pop_restore_registers() {
    let (mut cpu, mut bus) = machine();
    cpu.regs[13] = 0x0300_7F00;
    cpu.regs[0] = 11;
    cpu.regs[4] = 44;
    // PUSH {R0, R4}
    cpu.execute_thumb(&mut bus, 0xB411);
    assert_eq!(cpu.regs[13], 0x0300_7EF8);
    cpu.regs[0] = 0;
    cpu.regs[4] = 0;
    // POP {R0, R4}
    cpu.execute_thumb(&mut bus, 0xBC11);
    assert_eq!((cpu.regs[0], cpu.regs[4], cpu.regs[13]), (11, 44, 0x0300_7F00));
}

#[test]
fn status_bits_are_set_one_by_one() {
    let mut p = Psr::new(CpuMode::System);
    p.set_n(true);
    p.set_c(true);
    assert!(p.n() && p.c() && !p.z() && !p.v());
    p.set_n(false);
    assert!(!p.n() && p.c());
    assert_eq!(p.mode(), CpuMode::System);
    p.set_thumb(true);
    assert_eq!(p.mode(), CpuMode::System);
    assert_eq!(Psr::new(CpuMode::Irq).mode().bits(), 0x12);
}

#[test]
fn user_bank_is_read_from_other_modes() {
    let (mut cpu, _) = machine();
    cpu.regs[13] = 0xAAAA;
    cpu.switch_mode(CpuMode::Irq);
    assert_eq!(cpu.read_user_reg(13), 0xAAAA);
    cpu.write_user_reg(13, 0xBBBB);
    cpu.switch_mode(CpuMode::System);
    assert_eq!(cpu.regs[13], 0xBBBB);
}

#[test]
fn divisions_by_system_call() {
    let (mut cpu, mut bus) = machine();
    cpu.regs[0] = (-7i32) as u32;
    cpu.regs[1] = 2;
    handle_swi(&mut cpu, &mut bus, 0x06);
    assert_eq!((cpu.regs[0] as i32, cpu.regs[1] as i32, cpu.regs[3]), (-3, -1, 3));
    // The other call swaps the operands.
    cpu.regs[0] = 2;
    cpu.regs[1] = 9;
    handle_swi(&mut cpu, &mut bus, 0x07);
    assert_eq!((cpu.regs[0], cpu.regs[1], cpu.regs[3]), (4, 1, 4));
}

#[test]
fn square_roots_are_floors() {
    let (mut cpu, mut bus) = machine();
    for (n, root) in [(0u32, 0u32), (1, 1), (3, 1), (4, 2), (99, 9), (0xFFFF_FFFF, 0xFFFF)] {
        cpu.regs[0] = n;
        handle_swi(&mut cpu, &mut bus, 0x08);
        assert_eq!(cpu.regs[0], root);
    }
}

#[test]
fn boot_rom_checksum() {
    let (mut cpu, mut bus) = machine();
    handle_swi(&mut cpu, &mut bus, 0x0D);
    assert_eq!(cpu.regs[0], 0xBAAE_187F);
}

#[test]
fn opcodes_are_shown_as_numbers() {
    assert_eq!(disasm_arm(0xE3A0_002A, 0), "??? (0xE3A0002A)");
    assert_eq!(disasm_thumb(0x0411, 0), "??? (0x0411)");
}

/// MOV R0, #1 at every word, then a branch back.
fn looping_rom() -> Vec<u8> {
    let mut rom = vec![0u8; 0x100];
    for (i, op) in [0xE3A0_0001u32, 0xE280_0001, 0xEAFF_FFFC].iter().enumerate() {
        rom[i * 4..i * 4 + 4].copy_from_slice(&op.to_le_bytes());
    }
    rom
}

#[test]
fn trace_keeps_executed_instructions() {
    let mut gba = Gba::new(None, looping_rom());
    gba.cpu = Cpu::new_skip_bios();
    gba.bus.diagnostics.trace = Some(TraceRing::new(None));
    assert_eq!(gba.step_n(4), 4);
    let ring = gba.bus.diagnostics.trace.as_ref().unwrap();
    let pcs: Vec<u32> = ring.oldest_first().iter().map(|e| e.pc).collect();
    assert_eq!(pcs, [0x0800_0000, 0x0800_0004, 0x0800_0008, 0x0800_0000]);
    assert_eq!(ring.oldest_first()[1].r0, 1);
    assert_eq!(ring.oldest_first()[2].op, 0xEAFF_FFFC);
    assert!(!trace_is_frozen(ring));
}

#[test]
fn trace_stops_at_a_chosen_address() {
    let mut gba = Gba::new(None, looping_rom());
    gba.cpu = Cpu::new_skip_bios();
    gba.bus.diagnostics.trace = Some(TraceRing::new(Some(0x0800_0004)));
    gba.step_n(10);
    let ring = gba.bus.diagnostics.trace.as_ref().unwrap();
    assert!(trace_is_frozen(ring));
    assert_eq!(ring.oldest_first().last().unwrap().pc, 0x0800_0004);
}

#[test]
fn profile_counts_cycles() {
    let mut gba = Gba::new(None, looping_rom());
    gba.cpu = Cpu::new_skip_bios();
    gba.bus.diagnostics.profile = Some(CycleProfile::new());
    gba.run_cycles(280_896);
    let p = gba.bus.diagnostics.profile.unwrap();
    assert_eq!(p.frames, 1);
    assert_eq!(p.irq_cycles, 0);
    assert_eq!(p.user_cycles, gba.scheduler.timestamp());
    gba.cpu.halted = true;
    gba.run_cycles(1000);
    assert_eq!(gba.bus.diagnostics.profile.unwrap().halt_cycles, 1000);
}

//! Whole-machine behaviour: time, lines, halts, saves, and calls that wait.

use gba_core::arm7tdmi::Cpu;
use gba_core::backup::BackupMedia;
use gba_core::bios::affine::{MathReply, MathRequest, Matrix};
use gba_core::bios::handle_swi;
use gba_core::bus::Bus;
use gba_core::calendar::{bcd, days_to_ymd, split_time};
use gba_core::gba::Gba;
use gba_core::scheduler::{Event, EventKind, Scheduler};
use gba_core::{CYCLES_PER_FRAME, CYCLES_PER_LINE, LINES_PER_FRAME};

fn spinning() -> Gba {
    let mut rom = vec![0u8; 0x100];
    rom[..4].copy_from_slice(&0xEAFF_FFFEu32.to_le_bytes());
    let mut gba = Gba::new(None, rom);
    gba.cpu = Cpu::new_skip_bios();
    gba
}

#[test]
fn a_run_ends_at_its_target() {
    let mut gba = spinning();
    for cycles in [1u64, 100, 1232, 5000] {
        let start = gba.scheduler.timestamp();
        gba.run_cycles(cycles);
        let end = gba.scheduler.timestamp();
        assert!(start + cycles <= end && end <= start + cycles + 20);
    }
}

#[test]
fn lines_follow_each_other() {
    let mut gba = spinning();
    assert_eq!(CYCLES_PER_LINE as u64 * LINES_PER_FRAME as u64, CYCLES_PER_FRAME);
    gba.cpu.halted = true;
    gba.run_cycles(1231);
    assert_eq!(gba.bus.io.vcount, 0);
    gba.run_cycles(1);
    assert_eq!(gba.bus.io.vcount, 1);
    gba.run_cycles(159 * 1232);
    assert_eq!(gba.bus.io.vcount, 160);
    assert_eq!(gba.bus.io.dispstat & 1, 1);
    assert_eq!(gba.vblank_entries, 1);
    gba.run_cycles(67 * 1232);
    assert_eq!(gba.bus.io.vcount, 227);
    gba.run_cycles(1232);
    assert_eq!(gba.bus.io.vcount, 0);
    assert_eq!(gba.bus.io.dispstat & 1, 0);
}

#[test]
fn line_match_requests_its_interrupt() {
    let mut gba = spinning();
    gba.cpu.halted = true;
    gba.bus.write16(0x0400_0004, 0x0520);
    gba.run_cycles(5 * 1232);
    assert_eq!(gba.bus.io.dispstat & 4, 4);
    assert_eq!(gba.bus.interrupt.ir & 4, 4);
    gba.run_cycles(1232);
    assert_eq!(gba.bus.io.dispstat & 4, 0);
}

#[test]
fn an_enabled_request_ends_a_halt() {
    let mut gba = spinning();
    gba.cpu.halted = true;
    let regs = gba.cpu.regs;
    gba.run_cycles(280_896);
    assert!(gba.cpu.halted);
    assert_eq!(gba.cpu.regs, regs);
    // The request wakes the processor although interrupts are off.
    gba.bus.interrupt.ie = 1;
    gba.bus.write16(0x0400_0004, 0x0008);
    gba.bus.interrupt.ime = false;
    gba.run_cycles(280_896);
    assert!(!gba.cpu.halted);
    assert_eq!(gba.vblank_irqs_raised, 1);
}

#[test]
fn exported_save_imports_again() {
    let mut rom = vec![0u8; 0x200];
    rom[0x100..0x109].copy_from_slice(b"SRAM_V113");
    let mut gba = Gba::new(None, rom.clone());
    gba.bus.write8(0x0E00_0010, 0x42);
    let data = gba.export_save().unwrap();
    assert_eq!(data.len(), 32768);
    assert_eq!(data[0x10], 0x42);
    let mut other = Gba::new(None, rom);
    other.import_save(&data);
    assert_eq!(other.export_save().unwrap(), data);
    assert_eq!(other.bus.read8(0x0E00_0010), 0x42);
}

#[test]
fn a_cartridge_without_save_memory_exports_nothing() {
    let mut gba = Gba::new(None, vec![0; 64]);
    assert!(matches!(gba.bus.backup, BackupMedia::Absent));
    gba.import_save(&[1, 2, 3]);
    assert_eq!(gba.export_save(), None);
}

#[test]
fn a_machine_out_of_range_is_noticed() {
    let mut gba = spinning();
    assert!(gba.is_valid());
    assert!(gba.bus.is_valid());
    gba.bus.iwram.pop();
    assert!(!gba.is_valid());
    let mut gba = spinning();
    gba.bus.apu.fifo_a.count = 33;
    assert!(!gba.is_valid());
    let mut gba = spinning();
    gba.frame_buffer.push(0);
    assert!(!gba.is_valid());
    let mut gba = spinning();
    gba.target = u64::MAX;
    assert!(!gba.is_valid());
}

#[test]
fn arc_tangents_wait_for_their_value() {
    let mut cpu = Cpu::new_skip_bios();
    let mut bus = Bus::new(None, vec![0; 64]);
    cpu.regs[0] = 0x4000;
    handle_swi(&mut cpu, &mut bus, 0x09);
    let call = cpu.math_call.unwrap();
    assert_eq!(call.request(), MathRequest::ArcTan { tan: 0x4000 });
    gba_core::bios::affine::answer_math(&mut cpu, &mut bus, MathReply::Angle(0x2000));
    assert!(cpu.math_call.is_none());
    assert_eq!(cpu.regs[0], 0x2000);
}

#[test]
fn rotations_are_written_to_memory() {
    let mut cpu = Cpu::new_skip_bios();
    let mut bus = Bus::new(None, vec![0; 64]);
    bus.write16(0x0200_0000, 0x0100);
    bus.write16(0x0200_0002, 0x0200);
    bus.write16(0x0200_0004, 0x4000);
    cpu.regs[0] = 0x0200_0000;
    cpu.regs[1] = 0x0300_0000;
    cpu.regs[2] = 1;
    cpu.regs[3] = 2;
    handle_swi(&mut cpu, &mut bus, 0x0F);
    assert_eq!(
        cpu.math_call.unwrap().request(),
        MathRequest::Rotation { sx: 0x0100, sy: 0x0200, angle: 0x4000 }
    );
    let m = Matrix { pa: 1, pb: -2, pc: 3, pd: 4 };
    gba_core::bios::affine::answer_math(&mut cpu, &mut bus, MathReply::Transform(m));
    assert!(cpu.math_call.is_none());
    assert_eq!(bus.read16(0x0300_0000), 1);
    assert_eq!(bus.read16(0x0300_0002), 0xFFFE);
    assert_eq!(bus.read16(0x0300_0004), 3);
    assert_eq!(bus.read16(0x0300_0006), 4);
}

#[test]
fn a_run_stops_for_a_value_and_goes_on() {
    let mut rom = vec![0u8; 0x100];
    // SWI 0x09, then a branch to itself.
    for (i, op) in [0xEF09_0000u32, 0xEAFF_FFFE].iter().enumerate() {
        rom[i * 4..i * 4 + 4].copy_from_slice(&op.to_le_bytes());
    }
    let mut gba = Gba::new(None, rom);
    gba.cpu = Cpu::new_skip_bios();
    gba.cpu.regs[0] = 0x1234;
    gba.run_cycles(1000);
    assert!(gba.scheduler.timestamp() < 1000);
    assert_eq!(gba.math_request(), Some(MathRequest::ArcTan { tan: 0x1234 }));
    gba.answer_math(MathReply::Angle(0x0ABC));
    gba.resume();
    assert_eq!(gba.math_request(), None);
    assert_eq!(gba.cpu.regs[0], 0x0ABC);
    assert!(gba.scheduler.timestamp() >= 1000);
}

#[test]
fn events_come_out_by_time() {
    let mut s = Scheduler::new();
    s.schedule(Event { fire_time: 30, kind: EventKind::ApuSample });
    s.schedule(Event { fire_time: 10, kind: EventKind::HBlank });
    s.schedule(Event { fire_time: 10, kind: EventKind::HBlankEnd });
    assert_eq!(s.peek_time(), Some(10));
    assert!(s.pop_if_ready().is_none());
    s.add_cycles(10);
    assert_eq!(s.pop_if_ready().unwrap().kind, EventKind::HBlank);
    assert_eq!(s.pop_if_ready().unwrap().kind, EventKind::HBlankEnd);
    assert!(s.pop_if_ready().is_none());
    s.cancel(EventKind::ApuSample);
    assert_eq!(s.peek_time(), None);
}

#[test]
fn days_are_dates() {
    assert_eq!(days_to_ymd(0), (1970, 1, 1));
    assert_eq!(days_to_ymd(59), (1970, 3, 1));
    assert_eq!(days_to_ymd(11_016), (2000, 2, 29));
    assert_eq!(days_to_ymd(19_722), (2023, 12, 31));
    let t = split_time(86_399);
    assert_eq!((t.hour, t.minute, t.second), (23, 59, 59));
    assert_eq!(bcd(59), 0x59);
    assert_eq!(bcd(7), 0x07);
}

#[test]
fn one_step_handles_due_events() {
    let mut gba = spinning();
    gba.scheduler.add_cycles(959);
    gba.step_one();
    assert_eq!(gba.bus.io.dispstat & 2, 2);
}

#[test]
fn the_line_interrupt_can_be_switched_off() {
    let mut gba = spinning();
    gba.cpu.halted = true;
    gba.bus.write16(0x0400_0004, 0x0010);
    gba.bus.diagnostics.no_hblank_irq = true;
    gba.run_cycles(1232);
    assert_eq!(gba.bus.interrupt.ir, 0);
    gba.bus.diagnostics.no_hblank_irq = false;
    gba.run_cycles(1232);
    assert_eq!(gba.bus.interrupt.ir, 0x0002);
}

#[test]
fn interrupts_can_wait_for_the_save_memory() {
    let mut rom = vec![0u8; 0x200];
    rom[..4].copy_from_slice(&0xEAFF_FFFEu32.to_le_bytes());
    rom[0x100..0x10A].copy_from_slice(b"FLASH_V123");
    let mut gba = Gba::new(None, rom);
    gba.cpu = Cpu::new_skip_bios();
    gba.bus.diagnostics.hold_irqs = true;
    gba.bus.interrupt.ie = 1;
    gba.bus.interrupt.ir = 1;
    gba.bus.interrupt.ime = true;
    // A command that is not finished keeps the chip busy.
    gba.bus.write8(0x0E00_5555, 0xAA);
    assert!(gba.bus.backup_busy());
    gba.step_n(1);
    assert_eq!(gba.cpu.irq_entries, 0);
    gba.bus.diagnostics.hold_irqs = false;
    gba.step_n(1);
    assert_eq!(gba.cpu.irq_entries, 1);
}

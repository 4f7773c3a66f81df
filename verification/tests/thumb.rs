use gba_core::arm7tdmi::Cpu;
use gba_core::bus::Bus;

fn make_cpu_bus() -> (Cpu, Bus) {
    let mut cpu = Cpu::new_skip_bios();
    cpu.cpsr.set_thumb(true);
    let bus = Bus::new(None, vec![0; 256]);
    (cpu, bus)
}

#[test]
fn test_thumb_mov_imm() {
    let (mut cpu, mut bus) = make_cpu_bus();
    // MOV R0, #42
    cpu.execute_thumb(&mut bus, 0x202A);
    assert_eq!(cpu.regs[0], 42);
}

#[test]
fn test_thumb_add_imm() {
    let (mut cpu, mut bus) = make_cpu_bus();
    cpu.regs[0] = 10;
    // ADD R0, #5
    cpu.execute_thumb(&mut bus, 0x3005);
    assert_eq!(cpu.regs[0], 15);
}

#[test]
fn test_thumb_sub_imm() {
    let (mut cpu, mut bus) = make_cpu_bus();
    cpu.regs[0] = 10;
    // SUB R0, #5
    cpu.execute_thumb(&mut bus, 0x3805);
    assert_eq!(cpu.regs[0], 5);
}

#[test]
fn test_thumb_cmp_sets_flags() {
    let (mut cpu, mut bus) = make_cpu_bus();
    cpu.regs[0] = 42;
    // CMP R0, #42
    cpu.execute_thumb(&mut bus, 0x282A);
    assert!(cpu.cpsr.z());
}

#[test]
fn test_thumb_lsl() {
    let (mut cpu, mut bus) = make_cpu_bus();
    cpu.regs[1] = 1;
    // LSL R0, R1, #4
    cpu.execute_thumb(&mut bus, 0x0108);
    assert_eq!(cpu.regs[0], 16);
}

#[test]
fn test_thumb_push_pop() {
    let (mut cpu, mut bus) = make_cpu_bus();
    cpu.regs[0] = 0xAAAA;
    cpu.regs[1] = 0xBBBB;
    cpu.regs[13] = 0x0300_0100; // SP in IWRAM

    // PUSH {R0, R1}
    cpu.execute_thumb(&mut bus, 0xB403);
    assert_eq!(cpu.regs[13], 0x0300_00F8);

    cpu.regs[0] = 0;
    cpu.regs[1] = 0;

    // POP {R0, R1}
    cpu.execute_thumb(&mut bus, 0xBC03);
    assert_eq!(cpu.regs[0], 0xAAAA);
    assert_eq!(cpu.regs[1], 0xBBBB);
    assert_eq!(cpu.regs[13], 0x0300_0100);
}

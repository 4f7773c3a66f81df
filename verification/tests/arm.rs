use gba_core::arm7tdmi::Cpu;
use gba_core::bus::Bus;

fn make_cpu_bus() -> (Cpu, Bus) {
    let cpu = Cpu::new_skip_bios();
    let bus = Bus::new(None, vec![0; 256]);
    (cpu, bus)
}

#[test]
fn test_arm_mov_immediate() {
    let (mut cpu, mut bus) = make_cpu_bus();
    // MOV R0, #42 (condition AL)
    // 1110 00 1 1101 0 0000 0000 0000 00101010
    let opcode: u32 = 0xE3A0_002A;
    cpu.execute_arm(&mut bus, opcode);
    assert_eq!(cpu.regs[0], 42);
}

#[test]
fn test_arm_add() {
    let (mut cpu, mut bus) = make_cpu_bus();
    cpu.regs[1] = 10;
    cpu.regs[2] = 20;
    // ADD R0, R1, R2 (AL condition)
    let opcode: u32 = 0xE081_0002;
    cpu.execute_arm(&mut bus, opcode);
    assert_eq!(cpu.regs[0], 30);
}

#[test]
fn test_arm_sub_with_flags() {
    let (mut cpu, mut bus) = make_cpu_bus();
    cpu.regs[1] = 5;
    cpu.regs[2] = 5;
    // SUBS R0, R1, R2
    let opcode: u32 = 0xE051_0002;
    cpu.execute_arm(&mut bus, opcode);
    assert_eq!(cpu.regs[0], 0);
    assert!(cpu.cpsr.z());
    assert!(cpu.cpsr.c()); // No borrow
}

#[test]
fn test_arm_cmp() {
    let (mut cpu, mut bus) = make_cpu_bus();
    cpu.regs[0] = 10;
    // CMP R0, #10 (AL)
    let opcode: u32 = 0xE350_000A;
    cpu.execute_arm(&mut bus, opcode);
    assert!(cpu.cpsr.z());
}

#[test]
fn test_arm_branch() {
    let (mut cpu, mut bus) = make_cpu_bus();
    cpu.regs[15] = 0x0800_0008; // Pipeline: executing at 0x08000000
    cpu.pipeline_flushed = false;
    // B +0x100 (offset = 0x40 words = 0x100 bytes, but encoding is offset/4-2)
    // Actually: B with offset 0x00_003E (which is +0xF8 bytes from PC)
    // PC is at executing+8 = 0x08000008
    // Target = PC + offset*4 = 0x08000008 + 0xF8 = 0x08000100
    let opcode: u32 = 0xEA00_003E;
    cpu.execute_arm(&mut bus, opcode);
    assert_eq!(cpu.regs[15], 0x0800_0100);
}

#[test]
fn test_arm_str_ldr() {
    let (mut cpu, mut bus) = make_cpu_bus();
    cpu.regs[0] = 0xDEAD_BEEF;
    cpu.regs[1] = 0x0200_0000; // EWRAM
    // STR R0, [R1]
    let opcode_str: u32 = 0xE581_0000;
    cpu.execute_arm(&mut bus, opcode_str);
    // LDR R2, [R1]
    let opcode_ldr: u32 = 0xE591_2000;
    cpu.execute_arm(&mut bus, opcode_ldr);
    assert_eq!(cpu.regs[2], 0xDEAD_BEEF);
}

#[test]
fn test_arm_multiply() {
    let (mut cpu, mut bus) = make_cpu_bus();
    cpu.regs[0] = 7;
    cpu.regs[1] = 6;
    // MUL R2, R0, R1
    let opcode: u32 = 0xE002_0190;
    cpu.execute_arm(&mut bus, opcode);
    assert_eq!(cpu.regs[2], 42);
}

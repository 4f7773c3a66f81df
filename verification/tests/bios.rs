use gba_core::arm7tdmi::Cpu;
use gba_core::bios::{
    swi_cpu_set, swi_div, swi_lz77_uncomp_wram, swi_rl_uncomp_wram, swi_sqrt,
};
use gba_core::bus::Bus;

fn make_cpu_bus() -> (Cpu, Bus) {
    let cpu = Cpu::new_skip_bios();
    let bus = Bus::new(None, vec![0; 256]);
    (cpu, bus)
}

#[test]
fn test_swi_div() {
    let (mut cpu, _bus) = make_cpu_bus();
    cpu.regs[0] = 100;
    cpu.regs[1] = 7;
    swi_div(&mut cpu);
    assert_eq!(cpu.regs[0], 14);  // 100 / 7 = 14
    assert_eq!(cpu.regs[1], 2);   // 100 % 7 = 2
    assert_eq!(cpu.regs[3], 14);  // |14| = 14
}

#[test]
fn test_swi_div_negative() {
    let (mut cpu, _bus) = make_cpu_bus();
    cpu.regs[0] = (-100i32) as u32;
    cpu.regs[1] = 7;
    swi_div(&mut cpu);
    assert_eq!(cpu.regs[0] as i32, -14);
    assert_eq!(cpu.regs[1] as i32, -2);
    assert_eq!(cpu.regs[3], 14);
}

#[test]
fn test_swi_sqrt() {
    let (mut cpu, _bus) = make_cpu_bus();
    cpu.regs[0] = 144;
    swi_sqrt(&mut cpu);
    assert_eq!(cpu.regs[0], 12);
}

#[test]
fn test_swi_cpu_set_fill() {
    let (mut cpu, mut bus) = make_cpu_bus();
    // Fill 4 words at EWRAM with 0xDEADBEEF
    bus.write32(0x0300_0000, 0xDEAD_BEEF);
    cpu.regs[0] = 0x0300_0000; // src
    cpu.regs[1] = 0x0200_0000; // dst (EWRAM)
    cpu.regs[2] = 4 | (1 << 24) | (1 << 26); // 4 words, fill, 32-bit
    swi_cpu_set(&mut cpu, &mut bus);

    assert_eq!(bus.read32(0x0200_0000), 0xDEAD_BEEF);
    assert_eq!(bus.read32(0x0200_0004), 0xDEAD_BEEF);
    assert_eq!(bus.read32(0x0200_0008), 0xDEAD_BEEF);
    assert_eq!(bus.read32(0x0200_000C), 0xDEAD_BEEF);
}

#[test]
fn test_swi_lz77_decompress() {
    let (mut cpu, mut bus) = make_cpu_bus();
    // Create a simple LZ77 compressed stream in EWRAM
    // Header: type=0x10, size=8
    let src = 0x0200_0000u32;
    let dst = 0x0200_1000u32;

    // Header: 0x10 | (8 << 8) = 0x00000810
    bus.write32(src, 0x0000_0810);
    // Flag byte: 0x00 = 8 literal bytes
    bus.write8(src + 4, 0x00);
    // 8 literal bytes
    for i in 0..8u32 {
        bus.write8(src + 5 + i, (i + 1) as u8);
    }

    cpu.regs[0] = src;
    cpu.regs[1] = dst;
    swi_lz77_uncomp_wram(&mut cpu, &mut bus);

    for i in 0..8u32 {
        assert_eq!(bus.read8(dst + i), (i + 1) as u8);
    }
}

#[test]
fn test_swi_rl_decompress() {
    let (mut cpu, mut bus) = make_cpu_bus();
    let src = 0x0200_0000u32;
    let dst = 0x0200_1000u32;

    // Header: 0x30 | (10 << 8) = RLE type, 10 bytes decompressed
    bus.write32(src, 0x0000_0A30);
    // Compressed run: repeat byte 0xAB 5 times (flag = 0x80 | (5-3) = 0x82)
    bus.write8(src + 4, 0x82);
    bus.write8(src + 5, 0xAB);
    // Uncompressed run: 5 literal bytes (flag = 5-1 = 0x04)
    bus.write8(src + 6, 0x04);
    for i in 0..5u32 {
        bus.write8(src + 7 + i, (0x10 + i) as u8);
    }

    cpu.regs[0] = src;
    cpu.regs[1] = dst;
    swi_rl_uncomp_wram(&mut cpu, &mut bus);

    for i in 0..5u32 {
        assert_eq!(bus.read8(dst + i), 0xAB);
    }
    for i in 0..5u32 {
        assert_eq!(bus.read8(dst + 5 + i), (0x10 + i) as u8);
    }
}

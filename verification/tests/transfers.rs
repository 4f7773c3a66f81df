//! Transfers between memories: by the controller and by system calls.

use gba_core::arm7tdmi::Cpu;
use gba_core::bios::{
    swi_bit_unpack, swi_cpu_fast_set, swi_cpu_set, swi_huffman_uncomp, swi_lz77_uncomp_vram,
    swi_lz77_uncomp_wram, swi_rl_uncomp_vram, swi_rl_uncomp_wram,
};
use gba_core::bus::Bus;
use gba_core::dma::DmaTiming;

fn machine() -> (Cpu, Bus) {
    (Cpu::new_skip_bios(), Bus::new(None, vec![0; 256]))
}

#[test]
fn immediate_transfer_copies_words() {
    let (_, mut bus) = machine();
    for i in 0..8u32 {
        bus.write32(0x0200_0000 + i * 4, 0x0101_0101 * (i + 1));
    }
    bus.write32(0x0400_00D4, 0x0200_0000);
    bus.write32(0x0400_00D8, 0x0300_0000);
    bus.write16(0x0400_00DC, 8);
    bus.write16(0x0400_00DE, 0x8400);
    for i in 0..8u32 {
        assert_eq!(bus.read32(0x0300_0000 + i * 4), 0x0101_0101 * (i + 1));
    }
    assert!(!bus.dma.channels[3].active);
    assert_eq!(bus.dma.channels[3].control & 0x8000, 0);
}

#[test]
fn transfer_with_fixed_source_fills() {
    let (_, mut bus) = machine();
    bus.write16(0x0200_0000, 0x7777);
    bus.write32(0x0400_00D4, 0x0200_0000);
    bus.write32(0x0400_00D8, 0x0300_0000);
    bus.write16(0x0400_00DC, 3);
    bus.write16(0x0400_00DE, 0x8100);
    assert_eq!(bus.read16(0x0300_0000), 0x7777);
    assert_eq!(bus.read16(0x0300_0004), 0x7777);
    assert_eq!(bus.read16(0x0300_0006), 0);
}

#[test]
fn transfer_end_requests_its_interrupt() {
    let (_, mut bus) = machine();
    bus.write32(0x0400_00D4, 0x0200_0000);
    bus.write32(0x0400_00D8, 0x0300_0000);
    bus.write16(0x0400_00DC, 1);
    bus.write16(0x0400_00DE, 0xD000);
    assert_eq!(bus.interrupt.ir, 0);
    bus.run_dma_for_timing(DmaTiming::VBlank);
    assert_eq!(bus.interrupt.ir, 0x0800);
}

#[test]
fn blank_transfers_wait_for_their_blank() {
    let (_, mut bus) = machine();
    bus.write16(0x0200_0000, 0x1234);
    bus.write32(0x0400_00D4, 0x0200_0000);
    bus.write32(0x0400_00D8, 0x0300_0000);
    bus.write16(0x0400_00DC, 1);
    bus.write16(0x0400_00DE, 0x9000);
    assert_eq!(bus.read16(0x0300_0000), 0);
    bus.run_dma_for_timing(DmaTiming::HBlank);
    assert_eq!(bus.read16(0x0300_0000), 0);
    bus.run_dma_for_timing(DmaTiming::VBlank);
    assert_eq!(bus.read16(0x0300_0000), 0x1234);
}

#[test]
fn line_transfers_run_only_on_visible_lines() {
    let (_, mut bus) = machine();
    let mut picture = vec![0u16; 38400];
    bus.write16(0x0200_0000, 0x4321);
    bus.write32(0x0400_00D4, 0x0200_0000);
    bus.write32(0x0400_00D8, 0x0300_0000);
    bus.write16(0x0400_00DC, 1);
    bus.write16(0x0400_00DE, 0xA000);
    bus.io.vcount = 160;
    bus.begin_hblank(&mut picture);
    assert_eq!(bus.read16(0x0300_0000), 0);
    bus.io.vcount = 159;
    bus.begin_hblank(&mut picture);
    assert_eq!(bus.read16(0x0300_0000), 0x4321);
}

#[test]
fn cpu_set_copies_halves() {
    let (mut cpu, mut bus) = machine();
    for i in 0..5u32 {
        bus.write16(0x0200_0000 + i * 2, 0x1000 + i as u16);
    }
    cpu.regs[0] = 0x0200_0000;
    cpu.regs[1] = 0x0300_0000;
    cpu.regs[2] = 5;
    swi_cpu_set(&cpu, &mut bus);
    for i in 0..5u32 {
        assert_eq!(bus.read16(0x0300_0000 + i * 2), 0x1000 + i as u16);
    }
    assert_eq!(bus.read16(0x0300_000A), 0);
}

#[test]
fn cpu_fast_set_rounds_up_to_eight_words() {
    let (mut cpu, mut bus) = machine();
    bus.write32(0x0200_0000, 0xA5A5_5A5A);
    cpu.regs[0] = 0x0200_0000;
    cpu.regs[1] = 0x0300_0000;
    cpu.regs[2] = 1 | (1 << 24);
    swi_cpu_fast_set(&cpu, &mut bus);
    assert_eq!(bus.read32(0x0300_001C), 0xA5A5_5A5A);
    assert_eq!(bus.read32(0x0300_0020), 0);
}

fn put(bus: &mut Bus, addr: u32, bytes: &[u8]) {
    for (i, &b) in bytes.iter().enumerate() {
        bus.write8(addr + i as u32, b);
    }
}

#[test]
fn back_references_repeat_output() {
    let (mut cpu, mut bus) = machine();
    // "ab", then six bytes from two back.
    put(&mut bus, 0x0200_0000, &[0x10, 8, 0, 0, 0x20, b'a', b'b', 0x30, 0x01]);
    cpu.regs[0] = 0x0200_0000;
    cpu.regs[1] = 0x0200_1000;
    swi_lz77_uncomp_wram(&cpu, &mut bus);
    let out: Vec<u8> = (0..8).map(|i| bus.read8(0x0200_1000 + i)).collect();
    assert_eq!(out, b"abababab");
}

#[test]
fn video_memory_gets_whole_halves() {
    let (mut cpu, mut bus) = machine();
    put(&mut bus, 0x0200_0000, &[0x10, 4, 0, 0, 0x00, 1, 2, 3, 4]);
    cpu.regs[0] = 0x0200_0000;
    cpu.regs[1] = 0x0600_0000;
    swi_lz77_uncomp_vram(&cpu, &mut bus);
    assert_eq!(bus.read32(0x0600_0000), 0x0403_0201);
}

#[test]
fn run_lengths_expand() {
    let (mut cpu, mut bus) = machine();
    // Five times 7, then the three bytes 1, 2, 3.
    put(&mut bus, 0x0200_0000, &[0x30, 8, 0, 0, 0x82, 7, 0x02, 1, 2, 3]);
    cpu.regs[0] = 0x0200_0000;
    cpu.regs[1] = 0x0200_1000;
    swi_rl_uncomp_wram(&cpu, &mut bus);
    let out: Vec<u8> = (0..8).map(|i| bus.read8(0x0200_1000 + i)).collect();
    assert_eq!(out, [7, 7, 7, 7, 7, 1, 2, 3]);
    cpu.regs[1] = 0x0600_0000;
    swi_rl_uncomp_vram(&cpu, &mut bus);
    assert_eq!(bus.read32(0x0600_0000), 0x0707_0707);
    assert_eq!(bus.read32(0x0600_0004), 0x0302_0107);
}

#[test]
fn bits_are_widened() {
    let (mut cpu, mut bus) = machine();
    put(&mut bus, 0x0200_0000, &[0b1010_0101]);
    // One source byte, one bit wide, to four bits, nothing added.
    put(&mut bus, 0x0200_0100, &[1, 0, 1, 4, 0, 0, 0, 0]);
    cpu.regs[0] = 0x0200_0000;
    cpu.regs[1] = 0x0300_0000;
    cpu.regs[2] = 0x0200_0100;
    swi_bit_unpack(&cpu, &mut bus);
    assert_eq!(bus.read32(0x0300_0000), 0x1010_0101);
}

#[test]
fn huffman_codes_expand() {
    let (mut cpu, mut bus) = machine();
    // Eight-bit data, four bytes; a root whose children are the leaves 'A'
    // (code 0) and 'B' (code 1); the stream starts 0, 1, 1, 0.
    put(
        &mut bus,
        0x0200_0000,
        &[0x80, 4, 0, 0, 0x02, 0xC0, 0, b'A', b'B', 0, 0, 0, 0, 0, 0, 0x60],
    );
    cpu.regs[0] = 0x0200_0000;
    cpu.regs[1] = 0x0300_0000;
    swi_huffman_uncomp(&cpu, &mut bus);
    assert_eq!(bus.read32(0x0300_0000), 0x4142_4241);
}

#[test]
fn huffman_bits_that_lead_to_no_leaf_put_nothing_out() {
    let (mut cpu, mut bus) = machine();
    // The root has 'A' for 0 and an inner node for 1; of the stream 0, 1, 0,
    // 1, 1, 0, 0 the zeros count.
    put(
        &mut bus,
        0x0200_0000,
        &[0x80, 4, 0, 0, 0x02, 0x80, 0, b'A', 0xC0, 0, b'B', b'C', 0, 0, 0, 0x58],
    );
    cpu.regs[0] = 0x0200_0000;
    cpu.regs[1] = 0x0300_0000;
    swi_huffman_uncomp(&cpu, &mut bus);
    assert_eq!(bus.read32(0x0300_0000), 0x4141_4141);
}

#[test]
fn long_chains_of_transfers_run_to_their_end() {
    let (_, mut bus) = machine();
    let levels: u32 = 1200;
    let block: u32 = 0x0200_0000;
    // Channel 3 copies the block over the registers, from its own control
    // register round to the same one at the next mirror: it stops itself, has
    // channel 0 draw up the list behind the block by one word, and starts
    // itself again with the word that is now the list's first.
    let list: u32 = block + 256 * 4;
    let slot = |reg: u32| block + (0x400 + reg - 0xDC);
    bus.write32(block, 257);
    bus.write32(slot(0xB0), list + 4);
    bus.write32(slot(0xB4), list);
    bus.write32(slot(0xB8), (0x8400 << 16) | (levels + 1));
    bus.write32(slot(0xD4), block);
    bus.write32(slot(0xD8), 0x0400_00DC);
    for i in 1..=levels {
        bus.write32(list + i * 4, (0x8400 << 16) | 257);
    }
    bus.write32(list + (levels + 1) * 4, 257);
    bus.write32(0x0400_00D4, block);
    bus.write32(0x0400_00D8, 0x0400_00DC);
    bus.write32(0x0400_00DC, (0x8400 << 16) | 257);
    assert_eq!(bus.dma.channels[3].run_count, (levels + 1) as u64);
    assert_eq!(bus.dma.channels[0].run_count, (levels + 1) as u64);
}

#[test]
fn a_14_bit_count_moves_as_many_units() {
    let (_, mut bus) = machine();
    for i in 0..8u32 {
        bus.write16(0x0200_0000 + i * 2, 0x1111);
    }
    bus.write32(0x0400_00B0, 0x0200_0000);
    bus.write32(0x0400_00B4, 0x0300_0000);
    bus.write16(0x0400_00B8, 0x4005);
    bus.write16(0x0400_00BA, 0x8000);
    assert_eq!(bus.read16(0x0300_0008), 0x1111);
    assert_eq!(bus.read16(0x0300_000A), 0);
}

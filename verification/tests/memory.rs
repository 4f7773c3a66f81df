//! What is written reads back, and what memory keeps.

use gba_core::bus::{vram_addr, Bus};

fn bus() -> Bus {
    Bus::new(None, vec![0x11, 0x22, 0x33, 0x44, 0x55, 0x66, 0x77, 0x88])
}

#[test]
fn word_reads_back_in_every_ram() {
    let mut b = bus();
    for addr in [0x0200_0100u32, 0x0300_0100, 0x0500_0100, 0x0600_0100, 0x0700_0100] {
        b.write32(addr, 0x89AB_CDEF);
        assert_eq!(b.read32(addr), 0x89AB_CDEF);
        assert_eq!(b.read16(addr), 0xCDEF);
        assert_eq!(b.read16(addr + 2), 0x89AB);
        assert_eq!(b.read8(addr + 3), 0x89);
    }
}

#[test]
fn half_and_byte_read_back() {
    let mut b = bus();
    b.write16(0x0300_0200, 0xBEEF);
    assert_eq!(b.read16(0x0300_0200), 0xBEEF);
    b.write8(0x0200_0203, 0x5A);
    assert_eq!(b.read8(0x0200_0203), 0x5A);
    assert_eq!(b.read8(0x0200_0202), 0);
}

#[test]
fn separate_words_do_not_touch() {
    let mut b = bus();
    b.write32(0x0200_0010, 0x1111_1111);
    b.write32(0x0200_0014, 0x2222_2222);
    b.write32(0x0300_0010, 0x3333_3333);
    assert_eq!(b.read32(0x0200_0010), 0x1111_1111);
    assert_eq!(b.read32(0x0200_0014), 0x2222_2222);
}

#[test]
fn work_ram_is_mirrored() {
    let mut b = bus();
    b.write32(0x0200_0010, 0xCAFE_F00D);
    assert_eq!(b.read32(0x0204_0010), 0xCAFE_F00D);
    b.write32(0x0300_0010, 0x0BAD_F00D);
    assert_eq!(b.read32(0x0300_8010), 0x0BAD_F00D);
}

#[test]
fn video_memory_repeats_its_last_part() {
    assert_eq!(vram_addr(0x0600_0000), 0);
    assert_eq!(vram_addr(0x0601_7FFF), 0x17FFF);
    assert_eq!(vram_addr(0x0601_8000), 0x10000);
    assert_eq!(vram_addr(0x0601_FFFF), 0x17FFF);
    assert_eq!(vram_addr(0x0602_0000), 0);
}

#[test]
fn roms_cannot_be_written() {
    let mut b = bus();
    b.write32(0x0800_0000, 0);
    b.write16(0x0800_0004, 0);
    b.write8(0x0000_0000, 0xFF);
    assert_eq!(b.read32(0x0800_0000), 0x4433_2211);
    assert_eq!(b.read16(0x0800_0004), 0x6655);
    assert_eq!(b.rom, vec![0x11, 0x22, 0x33, 0x44, 0x55, 0x66, 0x77, 0x88]);
}

#[test]
fn past_the_rom_the_address_shows() {
    let mut b = bus();
    assert_eq!(b.read16(0x0800_1234), 0x091A);
    assert_eq!(b.read16(0x0800_0008), 0x0004);
}

#[test]
fn peeking_changes_nothing() {
    let mut b = bus();
    b.write32(0x0300_0000, 0x0403_0201);
    let before = b.last_read;
    assert_eq!(b.peek8(0x0300_0002), 3);
    assert_eq!(b.peek32(0x0300_0000), 0x0403_0201);
    assert_eq!(b.last_read, before);
}

#[test]
fn status_registers_read_what_the_devices_hold() {
    let mut b = bus();
    b.write16(0x0400_0200, 0x0009);
    b.write16(0x0400_0208, 1);
    assert_eq!(b.read16(0x0400_0200), 0x0009);
    assert_eq!(b.read16(0x0400_0208), 1);
    b.keypad.set_keys(0x0001);
    assert_eq!(b.read16(0x0400_0130), 0x03FE);
}

#[test]
fn requests_are_acknowledged_by_writing_ones() {
    let mut b = bus();
    b.interrupt.ir = 0x0007;
    b.write16(0x0400_0202, 0x0002);
    assert_eq!(b.read16(0x0400_0202), 0x0005);
}

#[test]
fn halt_is_requested_by_its_register() {
    let mut b = bus();
    assert!(!b.halt_requested);
    b.write8(0x0400_0301, 0x00);
    assert!(b.halt_requested);
}

#[test]
fn reference_point_is_written_in_halves() {
    let mut b = bus();
    b.write16(0x0400_0028, 0x1234);
    b.write16(0x0400_002A, 0x0FFF);
    assert_eq!(b.io.bg2x_latch, (0xFFFF_1234u32) as i32);
}

#[test]
fn reference_points_keep_28_bits() {
    let mut b = bus();
    b.write16(0x0400_0028, 0);
    b.write16(0x0400_002A, 0x7000);
    assert_eq!(b.io.bg2x_latch, 0);
    b.write16(0x0400_002E, 0xF7FF);
    b.write16(0x0400_002C, 0xFFFF);
    assert_eq!(b.io.bg2y_latch, (1 << 27) - 1);
    b.write16(0x0400_003A, 0x0800);
    b.write16(0x0400_0038, 0);
    assert_eq!(b.io.bg3x_latch, -(1 << 27));
}

#[test]
fn bytes_fill_the_halfword_of_video_memory() {
    let mut b = bus();
    b.write8(0x0600_0001, 0xAB);
    assert_eq!((b.vram[0], b.vram[1], b.vram[2]), (0xAB, 0xAB, 0));
    b.write8(0x0601_7FFF, 0xCD);
    assert_eq!((b.vram[0x17FFE], b.vram[0x17FFF]), (0xCD, 0xCD));
}

#[test]
fn bitmap_modes_ignore_bytes_to_the_sprite_part() {
    let mut b = bus();
    for mode in 0..6u16 {
        b.io.dispcnt = mode;
        b.write8(0x0601_4000, 0x10 + mode as u8);
        b.write8(0x0601_C000, 0x10 + mode as u8);
        b.write8(0x0601_3FFE, 0x20 + mode as u8);
        b.write8(0x0601_0000, 0x30 + mode as u8);
        let last = if mode < 3 { mode } else { 2 };
        assert_eq!(b.vram[0x14000], 0x10 + last as u8);
        assert_eq!(b.vram[0x13FFF], 0x20 + mode as u8);
        assert_eq!(b.vram[0x10000], 0x30 + mode as u8);
    }
}

#[test]
fn a_byte_acknowledges_only_its_own_requests() {
    let mut b = bus();
    b.interrupt.ir = 0x0101;
    b.write8(0x0400_0202, 0x01);
    assert_eq!(b.read16(0x0400_0202), 0x0100);
    b.interrupt.ir = 0x0101;
    b.write8(0x0400_0203, 0x01);
    assert_eq!(b.read16(0x0400_0202), 0x0001);
}

#[test]
fn a_byte_write_keeps_the_other_half_of_a_register() {
    let mut b = bus();
    b.write16(0x0400_0008, 0x1234);
    b.write8(0x0400_0008, 0x56);
    assert_eq!(b.io.bgcnt[0], 0x1256);
    b.write16(0x0400_0010, 0x0123);
    b.write8(0x0400_0010, 0x45);
    assert_eq!(b.io.bg_ofs[0][0], 0x0145);
    b.write16(0x0400_0020, 0x0100);
    b.write8(0x0400_0020, 0x7F);
    assert_eq!(b.io.bg2_affine[0], 0x017F);
    b.write32(0x0400_0028, 0x0012_3456);
    b.write8(0x0400_0029, 0x99);
    b.write8(0x0400_002A, 0x88);
    assert_eq!(b.io.bg2x_latch, 0x0088_9956);
    b.write32(0x0400_00B0, 0x0212_3456);
    b.write8(0x0400_00B1, 0xAA);
    assert_eq!(b.dma.channels[0].sad, 0x0212_AA56);
    b.write16(0x0400_00B8, 0x0102);
    b.write8(0x0400_00B8, 0x03);
    assert_eq!(b.dma.channels[0].count, 0x0103);
    b.write16(0x0400_0100, 0xFF00);
    b.write8(0x0400_0100, 0x80);
    assert_eq!(b.timers.timers[0].reload, 0xFF80);
    b.write16(0x0400_0072, 0x4001);
    b.write8(0x0400_0073, 0x20);
    assert_eq!((b.apu.ch3.length_load, b.apu.ch3.volume_code), (1, 1));
}

#[test]
fn transfer_control_reads_back() {
    let mut b = bus();
    for addr in [0x0400_00BAu32, 0x0400_00C6, 0x0400_00D2, 0x0400_00DE] {
        b.write16(addr, 0x9140);
        assert_eq!(b.read16(addr), 0x9140);
        assert_eq!(b.read16(addr - 2), 0);
    }
}

#[test]
fn clock_registers_show_only_while_readable() {
    let mut rom = vec![0u8; 0x200];
    rom[0xC4] = 0x12;
    rom[0xC5] = 0x34;
    rom[0xC8] = 0x56;
    rom[0x100..0x108].copy_from_slice(b"SIIRTC_V");
    let mut b = Bus::new(None, rom);
    assert!(b.rtc.enabled);
    assert_eq!(b.read16(0x0800_00C4), 0x3412);
    assert_eq!(b.read8(0x0800_00C8), 0x56);
    b.write16(0x0800_00C6, 0x0007);
    b.write16(0x0800_00C8, 0x0001);
    b.write16(0x0800_00C4, 0x0004);
    assert_eq!(b.read16(0x0800_00C4), 0x0004);
    assert_eq!(b.read16(0x0800_00C6), 0x0007);
    assert_eq!(b.read8(0x0800_00C8), 0x01);
    b.write16(0x0800_00C8, 0x0000);
    assert_eq!(b.read8(0x0800_00C4), 0x12);
}

#[test]
fn palette_and_object_memory_are_mirrored() {
    let mut b = bus();
    let pairs = [
        (0x0200_0124u32, 0x02FC_0124u32),
        (0x0300_7F10, 0x03FF_FF12),
        (0x0500_0040, 0x0512_3440),
        (0x0700_03FC, 0x07FF_FFFF),
    ];
    for (a, m) in pairs {
        b.write32(a, 0x89AB_CDEF);
        assert_eq!(b.read32(m), 0x89AB_CDEF);
        assert_eq!(b.read16(m & !3), 0xCDEF);
        assert_eq!(b.read16((m & !3) + 2), 0x89AB);
    }
}

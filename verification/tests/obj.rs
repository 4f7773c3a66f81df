use gba_core::bus::io_regs::IoRegisters;
use gba_core::ppu::obj::{parse_obj, render_obj_line, OBJ_SIZES};

#[test]
fn test_obj_sizes() {
    assert_eq!(OBJ_SIZES[0][0], (8, 8));
    assert_eq!(OBJ_SIZES[0][3], (64, 64));
    assert_eq!(OBJ_SIZES[1][0], (16, 8));
    assert_eq!(OBJ_SIZES[2][3], (32, 64));
}

#[test]
fn test_parse_obj_disabled() {
    let mut oam = vec![0u8; 0x400];
    // Set mode = 2 (disabled) in attr0 bits 8-9
    oam[1] = 0x02; // bits 8-9 = 10 = mode 2

    let obj = parse_obj(&oam, 0);
    assert_eq!(obj.mode, 2);
}

#[test]
fn test_render_simple_sprite() {
    let mut io = IoRegisters::new();
    io.dispcnt = 0x1040; // OBJ enable, 1D mapping

    let mut palette = vec![0u8; 0x400];
    // OBJ palette index 1 in palette 0 = green (0x03E0)
    let pal_addr = 0x200 + 2; // index 1
    palette[pal_addr] = 0xE0;
    palette[pal_addr + 1] = 0x03;

    let mut vram = vec![0u8; 0x18000];
    // Tile 0 at OBJ VRAM (0x10000): 4bpp, pixel 0 = index 1
    let tile_addr = 0x10000;
    vram[tile_addr] = 0x01;

    let mut oam = vec![0u8; 0x400];
    // OBJ 0: Y=0, mode=normal, 4bpp, square shape
    oam[0] = 0;   // Y=0
    oam[1] = 0;   // mode=0, gfx=0, 4bpp, square
    // X=0, size=0 (8x8)
    oam[2] = 0;
    oam[3] = 0;
    // Tile 0, priority 0, palette 0
    oam[4] = 0;
    oam[5] = 0;

    let mut output = [None; 240];
    render_obj_line(0, &io, &palette, &vram, &oam, &mut output);

    assert!(output[0].is_some());
    assert_eq!(output[0].unwrap().color, 0x03E0);
    assert_eq!(output[0].unwrap().layer, 4);
}

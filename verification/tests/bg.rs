use gba_core::bus::io_regs::IoRegisters;
use gba_core::ppu::bg::render_text_bg_line;

#[test]
fn test_text_bg_basic() {
    let mut io = IoRegisters::new();
    // BG0: priority 0, char base 0, screen base 0, 4bpp, 256x256
    io.bgcnt[0] = 0x0000;

    let mut palette = vec![0u8; 0x400];
    // Set palette entry 1 in palette 0 to red (0x001F)
    palette[2] = 0x1F;
    palette[3] = 0x00;

    let mut vram = vec![0u8; 0x18000];
    // Tile map at screen base 0: tile 1 at position (0,0)
    vram[0] = 1; // Tile number = 1
    vram[1] = 0; // No flip, palette 0

    // Tile 1 character data at char base 0: 4bpp, first pixel = palette index 1
    // 4bpp: 32 bytes per tile, 4 bytes per row
    // Byte 0 of row 0: low nibble = pixel 0, high nibble = pixel 1
    let tile_offset = 1 * 32; // Tile 1
    vram[tile_offset] = 0x01; // pixel 0 = index 1, pixel 1 = index 0

    let mut output = [None; 240];
    render_text_bg_line(0, 0, &io, &palette, &vram, &mut output);

    // Pixel 0 should be red
    assert!(output[0].is_some());
    assert_eq!(output[0].unwrap().color, 0x001F);
    // Pixel 1 should be transparent (index 0)
    assert!(output[1].is_none());
}

#[test]
fn test_text_bg_hflip() {
    let mut io = IoRegisters::new();
    io.bgcnt[0] = 0x0000; // 4bpp

    let mut palette = vec![0u8; 0x400];
    palette[2] = 0x1F; // index 1 = red

    let mut vram = vec![0u8; 0x18000];
    // Tile map: tile 1, H-flip
    vram[0] = 1;
    vram[1] = 0x04; // H-flip bit (bit 10 of map entry = bit 2 of byte 1)

    // Tile 1: first row, pixel 0 = index 1 (rest = 0)
    let tile_offset = 1 * 32;
    vram[tile_offset] = 0x01;

    let mut output = [None; 240];
    render_text_bg_line(0, 0, &io, &palette, &vram, &mut output);

    // With H-flip, pixel 0 should now be at x=7
    assert!(output[0].is_none()); // Was index 1, flipped to x=7
    assert!(output[7].is_some()); // Now pixel 0 (index 1) is here
    assert_eq!(output[7].unwrap().color, 0x001F);
}

#[test]
fn test_text_bg_scrolling() {
    let mut io = IoRegisters::new();
    io.bgcnt[0] = 0x0000;
    io.bg_ofs[0][0] = 4; // Scroll X by 4 pixels

    let mut palette = vec![0u8; 0x400];
    palette[2] = 0x1F;

    let mut vram = vec![0u8; 0x18000];
    // Tile 1 at (0,0)
    vram[0] = 1;
    vram[1] = 0;
    let tile_offset = 1 * 32;
    vram[tile_offset] = 0x01; // pixel 0 = index 1

    let mut output = [None; 240];
    render_text_bg_line(0, 0, &io, &palette, &vram, &mut output);

    // With scroll X=4, tile pixel 0 is now at screen pixel (240-4)=236
    // Actually: screen_x=0 maps to tile (0+4)/8=0, pixel (0+4)%8=4
    // So pixel 0 of tile (index 1) is at screen_x that maps to x=0
    // screen_x + scroll_x = 0+4=4, tile pixel 4 of tile 0 -> transparent
    assert!(output[0].is_none());
}

use gba_core::ppu::effects::BlendMode;
use gba_core::ppu::window::WindowFlags;
use gba_core::ppu::{PixelInfo, Ppu};

#[test]
fn test_composite_backdrop_only() {
    let ppu = Ppu::new();
    let bg_lines: [Option<[Option<PixelInfo>; 240]>; 4] = [None, None, None, None];
    let obj_line = [None; 240];
    let win = WindowFlags::all_enabled();
    let color = ppu.composite_pixel_with_effects(0, &bg_lines, &obj_line, 0x7C00, &win, 0, BlendMode::Off, 0, 0, 0);
    assert_eq!(color, 0x7C00);
}

#[test]
fn test_composite_bg_over_backdrop() {
    let ppu = Ppu::new();
    let mut bg0 = [None; 240];
    bg0[0] = Some(PixelInfo { color: 0x001F, priority: 0, layer: 0, semi_transparent: false });
    let bg_lines = [Some(bg0), None, None, None];
    let obj_line = [None; 240];
    let win = WindowFlags::all_enabled();
    let color = ppu.composite_pixel_with_effects(0, &bg_lines, &obj_line, 0x7C00, &win, 0, BlendMode::Off, 0, 0, 0);
    assert_eq!(color, 0x001F);
}

#[test]
fn test_composite_obj_over_bg_same_priority() {
    let ppu = Ppu::new();
    let mut bg0 = [None; 240];
    bg0[0] = Some(PixelInfo { color: 0x001F, priority: 0, layer: 0, semi_transparent: false });
    let bg_lines = [Some(bg0), None, None, None];
    let mut obj_line = [None; 240];
    obj_line[0] = Some(PixelInfo { color: 0x03E0, priority: 0, layer: 4, semi_transparent: false });
    let win = WindowFlags::all_enabled();
    let color = ppu.composite_pixel_with_effects(0, &bg_lines, &obj_line, 0, &win, 0, BlendMode::Off, 0, 0, 0);
    assert_eq!(color, 0x03E0); // OBJ wins
}

#[test]
fn test_alpha_blend_bg_layers() {
    let ppu = Ppu::new();
    let mut bg0 = [None; 240];
    bg0[0] = Some(PixelInfo { color: 0x001F, priority: 0, layer: 0, semi_transparent: false }); // Red
    let mut bg1 = [None; 240];
    bg1[0] = Some(PixelInfo { color: 0x7C00, priority: 1, layer: 1, semi_transparent: false }); // Blue
    let bg_lines = [Some(bg0), Some(bg1), None, None];
    let obj_line = [None; 240];
    let win = WindowFlags::all_enabled();

    // BLDCNT: alpha mode, 1st target=BG0, 2nd target=BG1
    let bldcnt: u16 = (1 << 6) | (1 << 0) | (1 << 9); // Alpha | BG0 1st | BG1 2nd
    let color = ppu.composite_pixel_with_effects(0, &bg_lines, &obj_line, 0, &win, bldcnt, BlendMode::Alpha, 8, 8, 0);

    // 50/50 blend: R=(31*8)/16=15, B=(31*8)/16=15
    let r = color & 0x1F;
    let b = (color >> 10) & 0x1F;
    assert_eq!(r, 15);
    assert_eq!(b, 15);
}

#[test]
fn test_brightness_increase_on_first_target() {
    let ppu = Ppu::new();
    let mut bg0 = [None; 240];
    bg0[0] = Some(PixelInfo { color: 0x0000, priority: 0, layer: 0, semi_transparent: false }); // Black
    let bg_lines = [Some(bg0), None, None, None];
    let obj_line = [None; 240];
    let win = WindowFlags::all_enabled();

    // BLDCNT: brightness increase, 1st target=BG0
    let bldcnt: u16 = (2 << 6) | (1 << 0); // BrightnessIncrease | BG0
    let color = ppu.composite_pixel_with_effects(0, &bg_lines, &obj_line, 0, &win, bldcnt, BlendMode::BrightnessIncrease, 0, 0, 16);
    assert_eq!(color, 0x7FFF); // Full brightness = white
}

#[test]
fn test_window_hides_layer() {
    let ppu = Ppu::new();
    let mut bg0 = [None; 240];
    bg0[0] = Some(PixelInfo { color: 0x001F, priority: 0, layer: 0, semi_transparent: false });
    let bg_lines = [Some(bg0), None, None, None];
    let obj_line = [None; 240];

    // Window that hides BG0
    let win = WindowFlags {
        bg_enable: [false, true, true, true],
        obj_enable: true,
        effects_enable: true,
    };

    let color = ppu.composite_pixel_with_effects(0, &bg_lines, &obj_line, 0x7C00, &win, 0, BlendMode::Off, 0, 0, 0);
    assert_eq!(color, 0x7C00); // Backdrop shows through since BG0 is hidden
}

#[test]
fn test_semi_transparent_obj_always_blends() {
    let ppu = Ppu::new();
    let mut bg0 = [None; 240];
    bg0[0] = Some(PixelInfo { color: 0x7C00, priority: 1, layer: 0, semi_transparent: false }); // Blue BG
    let bg_lines = [Some(bg0), None, None, None];
    let mut obj_line = [None; 240];
    obj_line[0] = Some(PixelInfo { color: 0x001F, priority: 0, layer: 4, semi_transparent: true }); // Red OBJ, semi-transparent
    let win = WindowFlags::all_enabled();

    // BLDCNT: no 1st target for OBJ, but BG0 is 2nd target
    // Semi-transparent OBJ should still blend
    let bldcnt: u16 = 1 << 8; // Only BG0 as 2nd target, no 1st target
    let color = ppu.composite_pixel_with_effects(0, &bg_lines, &obj_line, 0, &win, bldcnt, BlendMode::Alpha, 8, 8, 0);

    // Should blend: semi-transparent ignores 1st target flag
    let r = color & 0x1F;
    let b = (color >> 10) & 0x1F;
    assert_eq!(r, 15); // 50/50 of red
    assert_eq!(b, 15); // 50/50 of blue
}

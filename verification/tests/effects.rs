use gba_core::ppu::effects::{
    alpha_blend, brightness_decrease, brightness_increase, is_first_target, is_second_target,
};

#[test]
fn test_alpha_blend_equal() {
    // 50/50 blend of red and blue
    let red = 0x001F;   // R=31, G=0, B=0
    let blue = 0x7C00;  // R=0, G=0, B=31
    let result = alpha_blend(red, blue, 8, 8);
    // Each component: (31*8 + 0*8)/16 = 15, (0+0)/16 = 0, (0*8+31*8)/16 = 15
    let r = result & 0x1F;
    let b = (result >> 10) & 0x1F;
    assert_eq!(r, 15);
    assert_eq!(b, 15);
}

#[test]
fn test_alpha_blend_full_first() {
    let red = 0x001F;
    let blue = 0x7C00;
    let result = alpha_blend(red, blue, 16, 0);
    assert_eq!(result, red); // 100% first target
}

#[test]
fn test_alpha_blend_clamped() {
    // Both at max: (31*16 + 31*16)/16 = 62 → clamped to 31
    let white = 0x7FFF;
    let result = alpha_blend(white, white, 16, 16);
    assert_eq!(result, 0x7FFF); // Stays white (clamped)
}

#[test]
fn test_brightness_increase() {
    let black = 0x0000;
    // Full brightness increase: 0 + (31-0)*16/16 = 31 → white
    let result = brightness_increase(black, 16);
    assert_eq!(result, 0x7FFF);

    // Half increase of red=16: 16 + (31-16)*8/16 = 16+7 = 23
    let color = 16; // R=16
    let result = brightness_increase(color, 8);
    assert_eq!(result & 0x1F, 23);
}

#[test]
fn test_brightness_decrease() {
    let white = 0x7FFF;
    // Full decrease: 31 - 31*16/16 = 0 → black
    let result = brightness_decrease(white, 16);
    assert_eq!(result, 0x0000);

    // Half decrease of red=20: 20 - 20*8/16 = 20-10 = 10
    let color = 20;
    let result = brightness_decrease(color, 8);
    assert_eq!(result & 0x1F, 10);
}

#[test]
fn test_target_flags() {
    // BG0 + OBJ as 1st target: bits 0 and 4
    let bldcnt: u16 = 0x0011;
    assert!(is_first_target(bldcnt, 0)); // BG0
    assert!(is_first_target(bldcnt, 4)); // OBJ
    assert!(!is_first_target(bldcnt, 1)); // BG1 not set

    // 2nd target bits start at bit 8
    let bldcnt2: u16 = 0x0200; // BG1 as 2nd target (bit 9)
    assert!(is_second_target(bldcnt2, 1));
    assert!(!is_second_target(bldcnt2, 0));

    // Backdrop as 1st target: bit 5
    let bldcnt3: u16 = 0x0020;
    assert!(is_first_target(bldcnt3, 5));
}

use gba_core::bus::io_regs::IoRegisters;
use gba_core::ppu::window::{compute_window_line, is_in_window_range, WindowFlags};

#[test]
fn test_window_flags_from_bits() {
    let flags = WindowFlags::from_bits(0x3F);
    assert!(flags.bg_enable[0]);
    assert!(flags.bg_enable[3]);
    assert!(flags.obj_enable);
    assert!(flags.effects_enable);

    let flags = WindowFlags::from_bits(0x00);
    assert!(!flags.bg_enable[0]);
    assert!(!flags.obj_enable);
    assert!(!flags.effects_enable);
}

#[test]
fn test_no_windows_returns_none() {
    let io = IoRegisters::new();
    let obj_win = [false; 240];
    assert!(compute_window_line(0, &io, &obj_win).is_none());
}

#[test]
fn test_win0_basic() {
    let mut io = IoRegisters::new();
    io.dispcnt = 1 << 13; // WIN0 enabled
    io.winh[0] = (10 << 8) | 50; // X: 10..50
    io.winv[0] = (0 << 8) | 100; // Y: 0..100
    io.winin = 0x3F; // WIN0: all layers + effects
    io.winout = 0x00; // Outside: nothing visible

    let obj_win = [false; 240];
    let result = compute_window_line(5, &io, &obj_win).unwrap();

    // Inside WIN0 (x=20)
    assert!(result[20].bg_enable[0]);
    assert!(result[20].effects_enable);

    // Outside WIN0 (x=5)
    assert!(!result[5].bg_enable[0]);
    assert!(!result[5].effects_enable);
}

#[test]
fn test_window_range_wrap() {
    // Wrapped range: start > end means [start..max) ∪ [0..end)
    assert!(is_in_window_range(250, 200, 50, 256));
    assert!(is_in_window_range(10, 200, 50, 256));
    assert!(!is_in_window_range(100, 200, 50, 256));
}

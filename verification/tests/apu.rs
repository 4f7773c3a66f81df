use gba_core::apu::Apu;
use gba_core::CPU_CLOCK_HZ;

#[test]
fn test_apu_master_enable() {
    let mut apu = Apu::new();
    apu.write_reg(0x24, 1 << 7);
    assert!(apu.master_enable);
    apu.write_reg(0x24, 0);
    assert!(!apu.master_enable);
}

#[test]
fn test_apu_generates_samples_at_48khz() {
    let mut apu = Apu::new();
    apu.master_enable = true;
    apu.sample_buffer_max = 200_000; // lift cap for the test

    // 16777216 CPU cycles = 1 emulated second = 48000 samples = 96000 i16 values.
    apu.tick(CPU_CLOCK_HZ);
    let n_samples = apu.sample_buffer.len() / 2;
    // Allow ±1 due to fractional rounding
    assert!(
        (n_samples as i64 - 48000).abs() <= 1,
        "expected ~48000 samples, got {}",
        n_samples
    );
}

#[test]
fn test_fifo_timer_overflow() {
    let mut apu = Apu::new();
    apu.fifo_a.timer_select = 0;
    apu.fifo_a.volume_full = true;
    apu.fifo_a.enable_left = true;
    apu.fifo_a.enable_right = true;
    apu.fifo_a.write32(0x10203040);

    let (needs_a, _) = apu.on_timer_overflow(0);
    assert_eq!(apu.fifo_a.current_sample, 0x40);
    assert!(needs_a);
}

#[test]
fn test_soundcnt_h_parse() {
    let mut apu = Apu::new();
    let val: u16 = (1 << 2) | (1 << 8) | (1 << 9) | (1 << 12) | (1 << 14);
    apu.write_reg(0x22, val);
    assert!(apu.fifo_a.volume_full);
    assert!(apu.fifo_a.enable_right);
    assert!(apu.fifo_a.enable_left);
    assert_eq!(apu.fifo_a.timer_select, 0);
    assert!(!apu.fifo_b.volume_full);
    assert!(apu.fifo_b.enable_right);
    assert!(!apu.fifo_b.enable_left);
    assert_eq!(apu.fifo_b.timer_select, 1);
}

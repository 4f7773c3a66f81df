use gba_core::timer::Timers;

#[test]
fn test_timer_basic_tick() {
    let mut timers = Timers::new();
    // Timer 0: reload=0xFFF0, prescaler=1, enabled
    timers.write_reload(0, 0xFFF0);
    timers.write_control(0, 1 << 7); // Enable

    assert_eq!(timers.timers[0].counter, 0xFFF0);

    // Tick 10 cycles — counter should advance to 0xFFFA
    let result = timers.tick(10);
    assert_eq!(timers.timers[0].counter, 0xFFFA);
    assert!(!result.irqs[0]); // No overflow yet
}

#[test]
fn test_timer_overflow() {
    let mut timers = Timers::new();
    timers.write_reload(0, 0xFFF0);
    timers.write_control(0, (1 << 7) | (1 << 6)); // Enable + IRQ

    // Tick 20 cycles — should overflow (0xFFF0 + 20 = 0x10004 → reload + 4)
    let result = timers.tick(20);
    assert_eq!(timers.timers[0].counter, 0xFFF4); // Reloaded + 4
    assert!(result.irqs[0]);
    assert!(result.timer0_overflow);
}

#[test]
fn test_timer_prescaler() {
    let mut timers = Timers::new();
    timers.write_reload(0, 0);
    timers.write_control(0, (1 << 7) | 1); // Enable, prescaler=64

    // 63 cycles: not enough for a tick
    timers.tick(63);
    assert_eq!(timers.timers[0].counter, 0);

    // 1 more cycle (total 64): one tick
    timers.tick(1);
    assert_eq!(timers.timers[0].counter, 1);
}

#[test]
fn test_timer_cascade() {
    let mut timers = Timers::new();
    // Timer 0: will overflow quickly
    timers.write_reload(0, 0xFFFF);
    timers.write_control(0, 1 << 7); // Enable, prescaler=1

    // Timer 1: cascade from timer 0
    timers.write_reload(1, 0);
    timers.write_control(1, (1 << 7) | (1 << 2)); // Enable + cascade

    assert_eq!(timers.timers[1].counter, 0);

    // Tick 1: timer 0 overflows (0xFFFF + 1 = 0x10000)
    let result = timers.tick(1);
    assert!(result.timer0_overflow);
    // Timer 1 should have incremented by cascade
    assert_eq!(timers.timers[1].counter, 1);
}

#[test]
fn test_timer_reload_on_enable() {
    let mut timers = Timers::new();
    timers.write_reload(0, 0x1234);

    // Counter starts at 0
    assert_eq!(timers.timers[0].counter, 0);

    // Enable: counter reloads
    timers.write_control(0, 1 << 7);
    assert_eq!(timers.timers[0].counter, 0x1234);
}

use gba_core::apu::psg::{Channel1, Channel2, Channel4};

#[test]
fn test_ch1_trigger_and_tick() {
    let mut ch = Channel1::new();
    ch.duty = 2; // 50%
    ch.frequency = 2000;
    ch.envelope_init = 15;
    ch.envelope_dir = false;
    ch.envelope_period = 0;
    ch.trigger();
    assert!(ch.enabled);
    // Tick a few times — should produce non-zero samples
    let mut found_nonzero = false;
    for _ in 0..1000 {
        let s = ch.tick();
        if s != 0 { found_nonzero = true; break; }
    }
    assert!(found_nonzero);
}

#[test]
fn test_ch4_noise() {
    let mut ch = Channel4::new();
    ch.envelope_init = 15;
    ch.clock_shift = 0;
    ch.divisor_code = 1;
    ch.trigger();
    assert!(ch.enabled);
    // LFSR should produce varying output. At divisor_code=1, shift=0
    // the LFSR clocks every 64 CPU cycles (16 PSG ticks × 4), so we
    // need enough cycles to see ≥1 bit transition — the LFSR starts at
    // 0x7FFF (all ones in the low bits) and takes ~15 steps before
    // bit 0 changes.
    let mut samples = std::collections::HashSet::new();
    for _ in 0..4000 {
        samples.insert(ch.tick());
    }
    assert!(samples.len() > 1, "Noise should produce varied output");
}

/// The frequency of channel 1 is 131072 / (2048-F) Hz. For F=1024 that's
/// 128 Hz, so a full waveform takes 131072 CPU cycles.
#[test]
fn ch1_full_waveform_period_matches_gba_spec() {
    let mut ch = Channel1::new();
    ch.duty = 2; // 50%
    ch.frequency = 1024;
    ch.envelope_init = 15;
    ch.envelope_dir = false;
    ch.envelope_period = 0;
    ch.length_enabled = false;
    ch.trigger();

    // Find the first H→L transition (output goes from + to -).
    let mut last = ch.tick();
    let mut first_h_to_l = 0u64;
    for c in 2u64..400_000 {
        let v = ch.tick();
        if v < last && last > 0 { first_h_to_l = c; last = v; break; }
        last = v;
    }
    assert!(first_h_to_l != 0, "never saw first H→L transition");

    // Find the next H→L transition. The gap is one full waveform.
    let mut second_h_to_l = 0u64;
    for c in first_h_to_l + 1..1_000_000 {
        let v = ch.tick();
        if v < last && last > 0 { second_h_to_l = c; break; }
        last = v;
    }
    let waveform_cycles = second_h_to_l - first_h_to_l;
    let expected = (2048u64 - 1024) * 16 * 8; // 131072 cycles
    assert_eq!(
        waveform_cycles, expected,
        "ch1 full-waveform period: got {} CPU cycles, expected {} for F=1024",
        waveform_cycles, expected,
    );
}

#[test]
fn test_length_counter_disables() {
    let mut ch = Channel2::new();
    ch.duty = 2;
    ch.frequency = 2000;
    ch.envelope_init = 15;
    ch.length_enabled = true;
    ch.trigger();
    ch.length_counter = 2;

    ch.clock_length();
    assert!(ch.enabled);
    ch.clock_length();
    assert!(!ch.enabled); // Length reached 0
}

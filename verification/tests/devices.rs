//! Sound queue and rate, timers, keys, save chips, windows and colours.

use gba_core::apu::fifo::FifoChannel;
use gba_core::apu::psg::{Channel1, Channel2, Channel3};
use gba_core::apu::Apu;
use gba_core::backup::eeprom::Eeprom;
use gba_core::backup::flash::Flash;
use gba_core::backup::sram::Sram;
use gba_core::bus::timing::{n_extra, Prefetch, WaitTable};
use gba_core::bus::io_regs::IoRegisters;
use gba_core::dma::unit_count;
use gba_core::interrupt::{InterruptController, Irq};
use gba_core::keypad::Keypad;
use gba_core::ppu::effects::{alpha_blend, brightness_decrease, brightness_increase, BlendMode};
use gba_core::ppu::window::WindowFlags;
use gba_core::ppu::{PixelInfo, Ppu};
use gba_core::timer::Timers;

#[test]
fn queued_samples_play_in_order() {
    let mut f = FifoChannel::new();
    f.write32(0x0403_0201);
    f.write16(0x0605);
    for expected in 1..=6i8 {
        f.pop_sample();
        assert_eq!(f.current_sample, expected);
    }
    assert_eq!(f.len(), 0);
}

#[test]
fn a_refill_fits_when_it_is_asked_for() {
    let mut f = FifoChannel::new();
    for _ in 0..8 {
        f.write32(0x0101_0101);
    }
    assert_eq!(f.len(), 32);
    while !f.pop_sample() {}
    assert!(f.len() + 16 <= 32);
}

#[test]
fn a_second_gives_48000_samples() {
    let mut apu = Apu::new();
    apu.sample_buffer_max = 200_000;
    for _ in 0..1024 {
        apu.tick(16_384);
    }
    assert_eq!(apu.sample_buffer.len(), 96_000);
}

#[test]
fn a_timer_overflows_on_time() {
    let mut t = Timers::new();
    t.write_reload(0, 0xFFF0);
    t.write_control(0, 0x00C0);
    assert_eq!(t.cycles_to_next_fifo_overflow(), 16);
    assert!(!t.tick(15).timer0_overflow);
    let r = t.tick(1);
    assert!(r.timer0_overflow && r.irqs[0]);
    assert_eq!(t.read_counter(0), 0xFFF0);
}

#[test]
fn a_cascading_timer_counts_overflows() {
    let mut t = Timers::new();
    t.write_reload(0, 0xFFFF);
    t.write_control(0, 0x0080);
    t.write_control(1, 0x0084);
    for _ in 0..5 {
        t.tick(1);
    }
    assert_eq!(t.read_counter(1), 5);
}

#[test]
fn keys_are_low_when_pressed() {
    let mut k = Keypad::new();
    assert_eq!(k.read_keyinput(), 0x03FF);
    k.set_keys(0xFC05);
    assert_eq!(k.read_keyinput(), 0x03FA);
}

#[test]
fn requests_stay_until_acknowledged() {
    let mut c = InterruptController::new();
    c.write_ie(Irq::Timer0.mask());
    c.write_ime(1);
    c.request_irq(Irq::Timer0);
    c.request_irq(Irq::VBlank);
    assert!(c.has_pending());
    c.acknowledge(Irq::Timer0.mask());
    assert!(!c.has_pending());
    assert_eq!(c.read_if(), Irq::VBlank.mask());
}

#[test]
fn sram_keeps_bytes() {
    let mut s = Sram::new();
    s.write(0x10, 0x99);
    assert_eq!(s.read(0x10), 0x99);
    assert_eq!(s.read(0x8010), 0x99);
    assert_eq!(s.read(0x11), 0xFF);
}

fn command(f: &mut Flash, c: u8) {
    f.write(0x5555, 0xAA);
    f.write(0x2AAA, 0x55);
    f.write(0x5555, c);
}

#[test]
fn flash_programs_erases_and_switches() {
    let mut f = Flash::new(131_072);
    command(&mut f, 0xA0);
    f.write(0x1234, 0x5A);
    assert_eq!(f.read(0x1234), 0x5A);
    command(&mut f, 0xB0);
    f.write(0, 1);
    assert_eq!(f.read(0x1234), 0xFF);
    command(&mut f, 0xB0);
    f.write(0, 0);
    f.tick(1_000_000);
    command(&mut f, 0x80);
    f.write(0x5555, 0xAA);
    f.write(0x2AAA, 0x55);
    f.write(0x1000, 0x30);
    f.tick(1_000_000);
    assert_eq!(f.read(0x1234), 0xFF);
}

fn send(e: &mut Eeprom, value: u64, n: u32) {
    for i in (0..n).rev() {
        e.write(0, ((value >> i) & 1) as u8);
    }
}

#[test]
fn eeprom_blocks_read_back() {
    let mut e = Eeprom::new();
    e.set_addr_width_from_dma(73);
    send(&mut e, 0b10, 2);
    send(&mut e, 5, 6);
    send(&mut e, 0x0123_4567_89AB_CDEF, 64);
    send(&mut e, 0, 1);
    e.read_bit();
    send(&mut e, 0b11, 2);
    send(&mut e, 5, 6);
    send(&mut e, 0, 1);
    let mut out: u64 = 0;
    for i in 0..68 {
        let bit = e.read_bit() as u64;
        if i >= 4 {
            out = (out << 1) | bit;
        }
    }
    assert_eq!(out, 0x0123_4567_89AB_CDEF);
}

#[test]
fn blending_has_its_extremes() {
    assert_eq!(alpha_blend(0x1234, 0x7FFF, 16, 0), 0x1234);
    assert_eq!(alpha_blend(0x1234, 0x0421, 0, 16), 0x0421);
    assert_eq!(alpha_blend(0x7FFF, 0x7FFF, 16, 16), 0x7FFF);
    assert_eq!(brightness_increase(0x1234, 0), 0x1234);
    assert_eq!(brightness_increase(0x1234, 16), 0x7FFF);
    assert_eq!(brightness_decrease(0x1234, 0), 0x1234);
    assert_eq!(brightness_decrease(0x1234, 16), 0);
}

#[test]
fn wait_states_follow_their_register() {
    assert_eq!((n_extra(0), n_extra(1), n_extra(2), n_extra(3)), (3, 2, 1, 7));
    assert_eq!(WaitTable::rom_region(0x0800_0000), 0);
    assert_eq!(WaitTable::rom_region(0x0A00_0000), 1);
    assert_eq!(WaitTable::rom_region(0x0C00_0000), 2);
    let mut t = WaitTable::new();
    t.update(0x4317);
    assert_eq!(t.rom_n16, [2, 3, 7]);
    assert_eq!(t.rom_s16, [0, 3, 7]);
    assert_eq!((t.sram, t.prefetch_enabled), (7, true));
    let mut p = Prefetch::new();
    p.advance(10, 4);
    assert_eq!(p.credit, 0);
    p.restart();
    p.advance(3, 4);
    p.advance(3, 4);
    assert_eq!(p.credit, 4);
}

#[test]
fn mixing_registers_read_back() {
    let mut apu = Apu::new();
    for v in [0u16, 0xFFFF, 0x1234, 0x8F31] {
        apu.write_reg(0x20, v);
        apu.write_reg(0x22, v);
        apu.write_reg(0x28, v);
        assert_eq!(apu.read_reg(0x20), v & 0xFF77);
        assert_eq!(apu.read_reg(0x22), v & 0x770F);
        assert_eq!(apu.read_reg(0x28), v & 0x03FF);
    }
}

#[test]
fn master_switch_stops_channels() {
    let mut apu = Apu::new();
    apu.write_reg(0x24, 0x80);
    apu.write_reg(0x02, 0xF000);
    apu.write_reg(0x04, 0x8400);
    assert_eq!(apu.read_reg(0x24), 0x81);
    apu.write_reg(0x24, 0);
    assert_eq!(apu.read_reg(0x24), 0);
}

#[test]
fn unfetched_output_is_bounded() {
    let mut apu = Apu::new();
    for _ in 0..300 {
        apu.tick(16_384);
    }
    assert!(apu.sample_buffer.len() <= apu.sample_buffer_max + 1);
}

#[test]
fn a_cascading_timer_counts_every_overflow_of_a_span() {
    let mut t = Timers::new();
    t.write_reload(0, 0xFFFF);
    t.write_control(0, 0x0080);
    t.write_control(1, 0x0084);
    let r = t.tick(5);
    assert_eq!((t.read_counter(0), t.read_counter(1)), (0xFFFF, 5));
    assert!(r.timer0_overflow && !r.timer1_overflow);
}

#[test]
fn two_spans_tick_as_their_sum() {
    let start = || {
        let mut t = Timers::new();
        t.write_reload(0, 0xFFF0);
        t.write_control(0, 0x00C0);
        t.write_reload(1, 0xFFFE);
        t.write_control(1, 0x00C4);
        t.write_reload(2, 0xFFFF);
        t.write_control(2, 0x00C1);
        t.write_reload(3, 0x1234);
        t.write_control(3, 0x0084);
        t
    };
    for (a, b) in [(10u32, 7u32), (63, 1), (1000, 2345), (0, 64)] {
        let mut once = start();
        let mut twice = start();
        let all = once.tick(a + b);
        let first = twice.tick(a);
        let second = twice.tick(b);
        assert_eq!(once.timers, twice.timers);
        for i in 0..4 {
            assert_eq!(all.irqs[i], first.irqs[i] || second.irqs[i]);
        }
        assert_eq!(all.timer0_overflow, first.timer0_overflow || second.timer0_overflow);
        assert_eq!(all.timer1_overflow, first.timer1_overflow || second.timer1_overflow);
    }
}

#[test]
fn the_last_halfword_of_a_rom_may_name_the_chip() {
    let mut f = Flash::new_with_rom(65_536, Some(&[0x00, 0x00, 0xBF, 0xD4]));
    command(&mut f, 0x90);
    assert_eq!((f.read(0), f.read(1)), (0xBF, 0xD4));
    let mut g = Flash::new_with_rom(65_536, Some(&[0x00, 0xBF, 0xD4, 0x00]));
    command(&mut g, 0x90);
    assert_eq!((g.read(0), g.read(1)), (0x32, 0x1B));
}

#[test]
fn the_selected_wave_bank_plays() {
    let mut apu = Apu::new();
    for i in 0..32 {
        apu.ch3.wave_ram[i] = if i < 16 { 0xA0 } else { 0xC0 };
    }
    apu.ch3.volume_code = 1;
    apu.write_reg(0x10, 0x0080);
    apu.write_reg(0x14, 0x8000);
    assert_eq!(apu.ch3.output(), 2);
    apu.write_reg(0x10, 0x00C0);
    assert_eq!(apu.ch3.output(), 4);
}

#[test]
fn counts_have_14_or_16_bits() {
    assert_eq!(unit_count(0, 0x4005), 5);
    assert_eq!(unit_count(2, 0x4000), 0x4000);
    assert_eq!(unit_count(1, 0), 0x4000);
    assert_eq!(unit_count(3, 0x4005), 0x4005);
    assert_eq!(unit_count(3, 0), 0x10000);
}

#[test]
fn the_pixel_behind_is_ordered_like_the_front_one() {
    let ppu = Ppu::new();
    let mut bg0 = [None; 240];
    let mut bg1 = [None; 240];
    let mut obj = [None; 240];
    bg0[0] = Some(PixelInfo { color: 0x001F, priority: 0, layer: 0, semi_transparent: false });
    bg1[0] = Some(PixelInfo { color: 0x7C00, priority: 1, layer: 1, semi_transparent: false });
    obj[0] = Some(PixelInfo { color: 0x03E0, priority: 1, layer: 4, semi_transparent: false });
    let color = ppu.composite_pixel_with_effects(
        0,
        &[Some(bg0), Some(bg1), None, None],
        &obj,
        0,
        &WindowFlags::all_enabled(),
        (1 << 6) | 1 | (1 << 12),
        BlendMode::Alpha,
        8,
        8,
        0,
    );
    assert_eq!(color, 0x01EF);
}

#[test]
fn window_sprites_open_their_window() {
    let mut io = IoRegisters::new();
    io.dispcnt = (1 << 8) | (1 << 12) | (1 << 15);
    io.bgcnt[0] = 1 << 8;
    io.winout = 0x0100;
    let mut palette = vec![0u8; 1024];
    palette[0] = 0xE0;
    palette[1] = 0x03;
    palette[2] = 0x1F;
    let mut vram = vec![0u8; 0x18000];
    for i in 0..32 {
        vram[i] = 0x11;
        vram[0x10000 + 32 + i] = 0x11;
    }
    let mut oam = vec![0u8; 1024];
    oam[1] = 0x08;
    oam[2] = 10;
    oam[4] = 1;
    let mut picture = vec![0u16; 240 * 160];
    Ppu::new().render_scanline(3, &io, &palette, &vram, &oam, &mut picture);
    let row = &picture[3 * 240..4 * 240];
    for (x, color) in row.iter().enumerate() {
        assert_eq!(*color, if (10..18).contains(&x) { 0x001F } else { 0x03E0 });
    }
}

#[test]
fn square_waveforms_repeat_after_eight_steps() {
    for frequency in [0u16, 1024, 2000, 2047] {
        let period = (2048 - frequency as u32) * 16;
        let mut one = Channel1::new();
        one.frequency = frequency;
        one.envelope_init = 9;
        one.duty = 1;
        one.trigger();
        let mut two = Channel2::new();
        two.frequency = frequency;
        two.envelope_init = 9;
        two.duty = 3;
        two.trigger();
        assert!(one.enabled && two.enabled);
        for step in 1..=8u8 {
            for _ in 0..period - 1 {
                one.tick();
                two.tick();
            }
            assert_eq!((one.duty_pos, two.duty_pos), (step - 1, step - 1));
            one.tick();
            two.tick();
            assert_eq!((one.duty_pos, two.duty_pos), (step % 8, step % 8));
        }
        assert_eq!((one.timer, two.timer), (period, period));
    }
}

#[test]
fn a_wave_table_starts_over_after_its_samples() {
    for (both, samples) in [(false, 32u8), (true, 64)] {
        let mut c = Channel3::new();
        c.frequency = 2040;
        c.dac_enabled = true;
        c.dimension = both;
        c.trigger();
        for k in 1..=samples {
            for _ in 0..64 {
                c.tick();
            }
            assert_eq!(c.sample_pos, k % samples);
        }
    }
}

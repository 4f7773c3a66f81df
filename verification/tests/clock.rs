//! The cartridge's clock, pin by pin.

use gba_core::rtc::Rtc;

const SCK: u16 = 1;
const SIO: u16 = 2;
const CS: u16 = 4;

fn start(r: &mut Rtc) {
    r.write_reg(2, 0x07);
    r.write_reg(4, 1);
    r.write_reg(0, SCK);
    r.write_reg(0, SCK | CS);
}

fn clock_in(r: &mut Rtc, bit: bool) {
    let sio = if bit { SIO } else { 0 };
    r.write_reg(0, CS | sio);
    r.write_reg(0, CS | SCK | sio);
}

/// Commands come highest bit first.
fn command(r: &mut Rtc, c: u8) {
    for i in (0..8).rev() {
        clock_in(r, (c >> i) & 1 != 0);
    }
}

fn read_byte(r: &mut Rtc) -> u8 {
    r.write_reg(2, 0x05);
    let mut byte = 0;
    for i in 0..8 {
        r.write_reg(0, CS);
        if r.read_reg(0) & SIO != 0 {
            byte |= 1 << i;
        }
        r.write_reg(0, CS | SCK);
    }
    byte
}

#[test]
fn status_is_written_and_read() {
    let mut r = Rtc::new();
    start(&mut r);
    command(&mut r, 0x62);
    for i in 0..8 {
        clock_in(&mut r, (0x6Au8 >> i) & 1 != 0);
    }
    r.write_reg(0, SCK);
    start(&mut r);
    command(&mut r, 0x63);
    assert_eq!(read_byte(&mut r), 0x6A);
}

#[test]
fn date_and_time_are_sent() {
    let mut r = Rtc::new();
    // 2000-02-29 12:34:56.
    r.set_clock(11_016 * 86_400 + 12 * 3600 + 34 * 60 + 56);
    start(&mut r);
    command(&mut r, 0x65);
    let bytes: Vec<u8> = (0..7).map(|_| read_byte(&mut r)).collect();
    assert_eq!(&bytes[0..3], &[0x00, 0x02, 0x29]);
    assert_eq!(&bytes[4..7], &[0x12, 0x34, 0x56]);
    r.write_reg(0, SCK);
    start(&mut r);
    command(&mut r, 0x67);
    assert_eq!((read_byte(&mut r), read_byte(&mut r), read_byte(&mut r)), (0x12, 0x34, 0x56));
}

/// Asks for the status and gathers the pin after each falling clock.
fn exchange_status(r: &mut Rtc) -> u8 {
    r.write_reg(0, 0);
    r.write_reg(0, CS);
    command(r, 0x63);
    read_byte(r)
}

#[test]
fn a_written_status_comes_back_over_the_pins() {
    for s in 0..=255u8 {
        let mut r = Rtc::new();
        r.write_reg(4, 1);
        r.write_reg(0, CS);
        command(&mut r, 0x62);
        for i in 0..8 {
            clock_in(&mut r, (s >> i) & 1 != 0);
        }
        assert_eq!(exchange_status(&mut r), s);
    }
}

#[test]
fn a_fresh_chip_reports_24_hour_mode() {
    let mut r = Rtc::new();
    r.write_reg(4, 1);
    assert_eq!(exchange_status(&mut r), 0x40);
}

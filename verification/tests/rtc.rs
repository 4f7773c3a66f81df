use gba_core::calendar::days_to_ymd;
use gba_core::rtc::Rtc;

#[test]
fn test_rtc_detect() {
    let rom = b"random data SIIRTC_V001 more data".to_vec();
    assert!(Rtc::detect(&rom));

    let rom2 = b"no signature here".to_vec();
    assert!(!Rtc::detect(&rom2));
}

#[test]
fn test_bcd_conversion() {
    let bcd = |n: u32| -> u8 { ((n / 10) << 4) as u8 | (n % 10) as u8 };
    assert_eq!(bcd(0), 0x00);
    assert_eq!(bcd(9), 0x09);
    assert_eq!(bcd(10), 0x10);
    assert_eq!(bcd(59), 0x59);
    assert_eq!(bcd(99), 0x99);
}

#[test]
fn test_days_to_ymd() {
    // 1970-01-01 = day 0
    let (y, m, d) = days_to_ymd(0);
    assert_eq!((y, m, d), (1970, 1, 1));
    // 2000-01-01 = day 10957
    let (y, m, d) = days_to_ymd(10957);
    assert_eq!((y, m, d), (2000, 1, 1));
}

#[test]
fn test_rtc_status_read() {
    let mut rtc = Rtc::new();
    rtc.enabled = true;
    rtc.control = 1; // Enable readback

    // Initial state: status = 0x40 (24h mode, battery OK)
    assert_eq!(rtc.status, 0x40);
    // POWER bit (bit 7) is clear → game sees "battery OK"
    assert_eq!(rtc.status & 0x80, 0);
}

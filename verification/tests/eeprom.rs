use gba_core::backup::eeprom::{Eeprom, SizeKind};

fn send_bits(eeprom: &mut Eeprom, val: u64, count: u32) {
    for i in (0..count).rev() {
        eeprom.write(0, ((val >> i) & 1) as u8);
    }
}

fn read_bits(eeprom: &mut Eeprom, count: u32) -> u64 {
    let mut result = 0u64;
    for _ in 0..count {
        let bit = eeprom.read_bit() as u64; // read_bit advances internally
        result = (result << 1) | bit;
    }
    result
}

#[test]
fn test_eeprom_write_read_small() {
    let mut eeprom = Eeprom::new();
    eeprom.size = SizeKind::Small;
    eeprom.addr_width = 6;

    let data: u64 = 0x0102030405060708;

    // Write: 10 (cmd) + 000000 (addr=0) + 64 data bits + 0 (dummy)
    send_bits(&mut eeprom, 0b10, 2);     // cmd = write
    send_bits(&mut eeprom, 0, 6);         // addr = 0
    send_bits(&mut eeprom, data, 64);     // data
    send_bits(&mut eeprom, 0, 1);         // dummy

    assert_eq!(eeprom.data[0], 0x01);
    assert_eq!(eeprom.data[7], 0x08);

    // Read: 11 (cmd) + 000000 (addr=0) + 0 (dummy)
    send_bits(&mut eeprom, 0b11, 2);
    send_bits(&mut eeprom, 0, 6);
    send_bits(&mut eeprom, 0, 1); // dummy → triggers read

    // Read out: 4 dummy + 64 data
    let _dummy = read_bits(&mut eeprom, 4);
    let result = read_bits(&mut eeprom, 64);

    assert_eq!(result, data);
}

#[test]
fn test_eeprom_write_done_ready() {
    let mut eeprom = Eeprom::new();
    eeprom.size = SizeKind::Small;
    eeprom.addr_width = 6;

    send_bits(&mut eeprom, 0b10, 2);
    send_bits(&mut eeprom, 0, 6);
    send_bits(&mut eeprom, 0xAAAAAAAAAAAAAAAA, 64);
    send_bits(&mut eeprom, 0, 1);

    // After write, reading should return 1 (ready)
    assert_eq!(eeprom.read_bit(), 1);
}

// Exercise DMA-length-based width detection + a full round-trip at the
// large (14-bit / 8 KB) width.
#[test]
fn test_eeprom_large_width_from_dma_roundtrip() {
    let mut eeprom = Eeprom::new();
    // A write command on an 8 KB chip is 2+14+64+1 = 81 units.
    eeprom.set_addr_width_from_dma(81);
    assert_eq!(eeprom.size, SizeKind::Large);
    assert_eq!(eeprom.addr_width, 14);

    let data: u64 = 0xDEADBEEF_CAFEF00D;
    // Write block 5: 10 (cmd) + 14-bit addr + 64 data + dummy.
    send_bits(&mut eeprom, 0b10, 2);
    send_bits(&mut eeprom, 5, 14);
    send_bits(&mut eeprom, data, 64);
    send_bits(&mut eeprom, 0, 1);

    // Read block 5 back: 11 (cmd) + 14-bit addr + dummy, then 4+64 out.
    send_bits(&mut eeprom, 0b11, 2);
    send_bits(&mut eeprom, 5, 14);
    send_bits(&mut eeprom, 0, 1);
    let _dummy = read_bits(&mut eeprom, 4);
    assert_eq!(read_bits(&mut eeprom, 64), data);
}

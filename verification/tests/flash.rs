use gba_core::backup::flash::Flash;

#[test]
fn test_flash_chip_id_64k() {
    let mut flash = Flash::new(64 * 1024);
    // Enter chip ID mode
    flash.write(0x5555, 0xAA);
    flash.write(0x2AAA, 0x55);
    flash.write(0x5555, 0x90);

    assert_eq!(flash.read(0), 0x32); // Panasonic manufacturer
    assert_eq!(flash.read(1), 0x1B); // Panasonic MN63F805MNP device

    // Exit chip ID
    flash.write(0x5555, 0xAA);
    flash.write(0x2AAA, 0x55);
    flash.write(0x5555, 0xF0);

    // Should read normal data now (0xFF = erased)
    assert_eq!(flash.read(0), 0xFF);
}

#[test]
fn test_flash_write_byte() {
    let mut flash = Flash::new(64 * 1024);
    // Write 0x42 to address 0x100
    flash.write(0x5555, 0xAA);
    flash.write(0x2AAA, 0x55);
    flash.write(0x5555, 0xA0);
    flash.write(0x0100, 0x42);

    assert_eq!(flash.read(0x0100), 0x42);
}

#[test]
fn test_flash_sector_erase() {
    let mut flash = Flash::new(64 * 1024);
    // Write a byte first
    flash.write(0x5555, 0xAA);
    flash.write(0x2AAA, 0x55);
    flash.write(0x5555, 0xA0);
    flash.write(0x0100, 0x42);
    assert_eq!(flash.read(0x0100), 0x42);

    // Erase sector 0 (0x0000-0x0FFF)
    flash.write(0x5555, 0xAA);
    flash.write(0x2AAA, 0x55);
    flash.write(0x5555, 0x80);
    flash.write(0x5555, 0xAA);
    flash.write(0x2AAA, 0x55);
    flash.write(0x0000, 0x30);

    assert_eq!(flash.read(0x0100), 0xFF); // Erased
}

#[test]
fn test_flash_128k_bank_switch() {
    let mut flash = Flash::new(128 * 1024);

    // Write to bank 0
    flash.write(0x5555, 0xAA);
    flash.write(0x2AAA, 0x55);
    flash.write(0x5555, 0xA0);
    flash.write(0x0000, 0xAA);

    // Switch to bank 1
    flash.write(0x5555, 0xAA);
    flash.write(0x2AAA, 0x55);
    flash.write(0x5555, 0xB0);
    flash.write(0x0000, 0x01);

    // Write to bank 1
    flash.write(0x5555, 0xAA);
    flash.write(0x2AAA, 0x55);
    flash.write(0x5555, 0xA0);
    flash.write(0x0000, 0xBB);

    // Read bank 1
    assert_eq!(flash.read(0x0000), 0xBB);

    // Switch back to bank 0 and verify
    flash.write(0x5555, 0xAA);
    flash.write(0x2AAA, 0x55);
    flash.write(0x5555, 0xB0);
    flash.write(0x0000, 0x00);

    assert_eq!(flash.read(0x0000), 0xAA);
}

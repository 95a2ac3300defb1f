use rewinds::gba::cartridge::flash::{Flash, FlashSize};

/// Drive the unlock sequence and a command byte.
fn flash_command(f: &mut Flash, cmd: u8) {
    f.write8(0x0E00_5555, 0xAA);
    f.write8(0x0E00_2AAA, 0x55);
    f.write8(0x0E00_5555, cmd);
}

#[test]
fn identify_mode_reports_chip_id() {
    let mut f = Flash::new(FlashSize::K64);
    flash_command(&mut f, 0x90);
    assert_eq!(f.read8(0x0E00_0000), 0x32); // manufacturer
    assert_eq!(f.read8(0x0E00_0001), 0x1B); // device
    flash_command(&mut f, 0xF0); // exit
    assert_eq!(f.read8(0x0E00_0000), 0xFF); // back to data
}

#[test]
fn program_a_byte() {
    let mut f = Flash::new(FlashSize::K64);
    flash_command(&mut f, 0xA0);
    f.write8(0x0E00_1234, 0x42);
    assert_eq!(f.read8(0x0E00_1234), 0x42);
    assert!(f.dirty());
}

#[test]
fn sector_erase_only_clears_its_sector() {
    let mut f = Flash::new(FlashSize::K64);
    flash_command(&mut f, 0xA0);
    f.write8(0x0E00_0000, 0x00);
    flash_command(&mut f, 0xA0);
    f.write8(0x0E00_2000, 0x00); // a different sector
    // Erase the sector containing 0x0000.
    flash_command(&mut f, 0x80);
    f.write8(0x0E00_5555, 0xAA);
    f.write8(0x0E00_2AAA, 0x55);
    f.write8(0x0E00_0000, 0x30);
    assert_eq!(f.read8(0x0E00_0000), 0xFF); // erased
    assert_eq!(f.read8(0x0E00_2000), 0x00); // untouched
}

#[test]
fn chip_erase_clears_everything() {
    let mut f = Flash::new(FlashSize::K64);
    flash_command(&mut f, 0xA0);
    f.write8(0x0E00_0000, 0x00);
    flash_command(&mut f, 0x80);
    f.write8(0x0E00_5555, 0xAA);
    f.write8(0x0E00_2AAA, 0x55);
    f.write8(0x0E00_5555, 0x10);
    assert_eq!(f.read8(0x0E00_0000), 0xFF);
}

#[test]
fn bank_switch_selects_upper_64k_on_128k_part() {
    let mut f = Flash::new(FlashSize::K128);
    // Write 0x11 to bank 0 offset 0.
    flash_command(&mut f, 0xA0);
    f.write8(0x0E00_0000, 0x11);
    // Switch to bank 1, write 0x22 at the same offset.
    flash_command(&mut f, 0xB0);
    f.write8(0x0E00_0000, 0x01);
    flash_command(&mut f, 0xA0);
    f.write8(0x0E00_0000, 0x22);
    assert_eq!(f.read8(0x0E00_0000), 0x22); // bank 1
    // Back to bank 0.
    flash_command(&mut f, 0xB0);
    f.write8(0x0E00_0000, 0x00);
    assert_eq!(f.read8(0x0E00_0000), 0x11);
}

#[test]
fn bank_command_ignored_on_64k_part() {
    let mut f = Flash::new(FlashSize::K64);
    flash_command(&mut f, 0xB0);
    // The write that would select a bank is treated as a stray write.
    f.write8(0x0E00_0000, 0x01);
    flash_command(&mut f, 0xA0);
    f.write8(0x0E00_0000, 0x33);
    assert_eq!(f.read8(0x0E00_0000), 0x33);
}

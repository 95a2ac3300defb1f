use rewinds::gba::cartridge::{detect_save_type, Cartridge, SaveType};

fn rom_with(id: &[u8]) -> Vec<u8> {
    let mut rom = vec![0u8; 0x200];
    rom[0x100..0x100 + id.len()].copy_from_slice(id);
    rom
}

#[test]
fn detects_each_save_type() {
    assert_eq!(detect_save_type(&rom_with(b"SRAM_V113")), SaveType::Sram);
    assert_eq!(detect_save_type(&rom_with(b"FLASH_V123")), SaveType::Flash64);
    assert_eq!(detect_save_type(&rom_with(b"FLASH512_V130")), SaveType::Flash64);
    assert_eq!(detect_save_type(&rom_with(b"FLASH1M_V102")), SaveType::Flash128);
    assert_eq!(detect_save_type(&rom_with(b"EEPROM_V120")), SaveType::Eeprom512);
    assert_eq!(detect_save_type(&rom_with(b"no id here")), SaveType::Absent);
}

#[test]
fn load_rom_provisions_matching_backup() {
    let mut c = Cartridge::default();
    c.load_rom(rom_with(b"FLASH1M_V102"));
    assert_eq!(c.save_type(), SaveType::Flash128);
    assert_eq!(c.backup_bytes().len(), 0x2_0000);
}

#[test]
fn none_backup_reads_all_ones_and_drops_writes() {
    let mut c = Cartridge::default();
    c.load_rom(rom_with(b"no save"));
    assert_eq!(c.save_type(), SaveType::Absent);
    c.backup.write8(0x0E00_0000, 0x42);
    assert_eq!(c.backup.read8(0x0E00_0000), 0xFF);
}

#[test]
fn save_type_override_swaps_the_backup() {
    let mut c = Cartridge::default();
    c.load_rom(rom_with(b"no id"));
    c.set_save_type(SaveType::Sram);
    c.backup.write8(0x0E00_0000, 0x7E);
    assert_eq!(c.backup.read8(0x0E00_0000), 0x7E);
}

/// Forcing a save type gives a fresh chip of that very type.
#[test]
fn a_forced_save_type_is_the_reported_one() {
    let mut c = Cartridge::default();
    for save_type in [
        SaveType::Absent,
        SaveType::Sram,
        SaveType::Flash64,
        SaveType::Flash128,
        SaveType::Eeprom512,
        SaveType::Eeprom8k,
    ] {
        c.set_save_type(save_type);
        assert_eq!(c.save_type(), save_type);
        assert_eq!(c.backup_bytes().len(), save_type.backup_size());
        assert!(c.backup_bytes().iter().all(|&b| b == 0xFF));
        assert!(!c.backup_dirty());
    }
}

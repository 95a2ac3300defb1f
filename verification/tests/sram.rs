use rewinds::gba::cartridge::sram::Sram;

#[test]
fn read_write_roundtrip_and_dirty() {
    let mut s = Sram::new();
    assert_eq!(s.read8(0), 0xFF); // blank
    assert!(!s.dirty());
    s.write8(0x10, 0xAB);
    assert_eq!(s.read8(0x10), 0xAB);
    assert!(s.dirty());
}

#[test]
fn thirty_two_kib_mirrors_across_the_region() {
    let mut s = Sram::new();
    s.write8(0x0000, 0x5A);
    // 0x8000 mirrors 0x0000.
    assert_eq!(s.read8(0x8000), 0x5A);
}

#[test]
fn load_replaces_contents_and_clears_dirty() {
    let mut s = Sram::new();
    s.write8(0, 0x11);
    s.load(&[0x22, 0x33]);
    assert_eq!(s.read8(0), 0x22);
    assert_eq!(s.read8(1), 0x33);
    assert_eq!(s.read8(2), 0xFF);
    assert!(!s.dirty());
}

use rewinds::emulator::{button, Console, Emulator, Input, Load};
use rewinds::gba::Key;

/// A minimal valid-looking BIOS/ROM pair for boot smoke tests (contents do not
/// matter; the machine just needs bytes to fetch).
fn tiny_bios() -> Vec<u8> {
    vec![0; 0x4000]
}

#[test]
fn detects_gba_by_header_byte() {
    let mut rom = vec![0u8; 0x200];
    rom[0xB2] = 0x96;
    assert_eq!(Console::detect(&rom), Some(Console::Gba));
}

#[test]
fn gba_boots_bios_only_and_presents_one_screen() {
    let bios = tiny_bios();
    let mut emu = Emulator::load(Load {
        console: Some(Console::Gba),
        rom: None,
        bios: Some(&bios),
        ..Load::default()
    }, &tiny_bios())
    .expect("bios-only GBA boot")
    .machine()
    .expect("a machine");
    assert_eq!(emu.console(), Console::Gba);
    assert_eq!(emu.screen_count(), 1);
    let screen = emu.screen(0).expect("screen 0");
    assert_eq!(screen.width, 240);
    assert_eq!(screen.height, 160);
    assert_eq!(screen.rgba.len(), 240 * 160 * 4);
    assert!(emu.screen(1).is_none());
}

#[test]
fn gba_without_bios_falls_back_to_the_builtin() {
    // No BIOS supplied: the GBA boots on the built-in replacement image.
    let emu = Emulator::load(Load {
        console: Some(Console::Gba),
        rom: None,
        bios: None,
        ..Load::default()
    }, &tiny_bios())
    .expect("GBA boots without a supplied BIOS")
    .machine()
    .expect("a machine");
    assert_eq!(emu.console(), Console::Gba);
}

#[test]
fn input_maps_buttons_and_ignores_ds_only_bits() {
    let bios = tiny_bios();
    let mut emu = Emulator::load(Load {
        console: Some(Console::Gba),
        rom: None,
        bios: Some(&bios),
        ..Load::default()
    }, &tiny_bios())
    .unwrap()
    .machine()
    .unwrap();
    let mut input = Input::default();
    input.set(button::A, true);
    input.set(button::X, true); // DS-only, must be harmless on GBA
    emu.set_input(input);
    let system = emu.as_gba().unwrap();
    assert!(system.keypad.is_pressed(Key::A));
}

#[test]
fn a_machine_without_a_cartridge_has_plain_sram() {
    let mut emu = Emulator::load(Load {
        console: Some(Console::Gba),
        rom: None,
        bios: None,
        ..Load::default()
    }, &tiny_bios())
    .unwrap()
    .machine()
    .unwrap();
    assert_eq!(emu.save_type_name(), "SRAM");
    assert_eq!(emu.save_data(), &[0xFFu8; 0x8000][..]);
    assert!(emu.set_save_type_by_name("EEPROM8K"));
    assert_eq!(emu.save_type_name(), "EEPROM8K");
    assert_eq!(emu.save_data().len(), 0x2000);
}

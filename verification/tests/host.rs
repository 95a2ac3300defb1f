//! The facade: what a host loads, presents and saves.

use rewinds::emulator::codes::{
    console_asked, console_code, load_error_code, REWINDS_BTN_L, REWINDS_BTN_Y,
    REWINDS_ERR_BAD_IMAGE, REWINDS_ERR_MISSING_BIOS, REWINDS_ERR_UNKNOWN_CONSOLE,
    REWINDS_ERR_UNSUPPORTED,
};
use rewinds::emulator::{
    bgr555_to_rgba8, button, Console, Emulator, Input, Load, LoadError, Loaded, NdsBoot,
    NdsCartridge,
};
use rewinds::gba::ppu::state::Color15;
use rewinds::gba::system::System;
use rewinds::gba::Key;

fn load_error(cfg: Load<'_>) -> LoadError {
    match Emulator::load(cfg, &[]) {
        Ok(_) => panic!("it loads"),
        Err(error) => error,
    }
}

#[test]
fn an_unknown_image_is_refused() {
    let rom = vec![0u8; 0x400];
    let error = load_error(Load { console: None, rom: Some(&rom), ..Load::default() });
    assert_eq!(error, LoadError::UnknownConsole);
    assert_eq!(error.message(), "could not determine the console");
    assert_eq!(
        load_error(Load::default()),
        LoadError::UnknownConsole
    );
}

fn nds_boot(cfg: Load<'_>) -> NdsBoot<'_> {
    match Emulator::load(cfg, &[]) {
        Ok(Loaded::Nds(boot)) => boot,
        _ => panic!("a DS is to be booted"),
    }
}

#[test]
fn a_ds_image_is_recognised() {
    let mut rom = vec![0u8; 0x6000];
    rom[0x21] = 0x40; // ARM9 binary at 0x4000
    assert_eq!(Console::detect(&rom), Some(Console::Nds));
    let boot = nds_boot(Load { rom: Some(&rom), ..Load::default() });
    assert!(boot.bios.is_none());
    assert!(matches!(boot.cartridge, NdsCartridge::Direct(image) if image == &rom[..]));
    // An offset inside the header, or past the image, is not plausible.
    rom[0x21] = 0x01;
    assert_eq!(Console::detect(&rom), None);
    rom[0x21] = 0x60;
    assert_eq!(Console::detect(&rom), None);
}

#[test]
fn a_ds_boots_through_its_firmware_only_with_both_bios_images() {
    let (rom, arm9, arm7, firmware) = ([1u8], [2u8], [3u8], [4u8]);
    let all = || Load {
        console: Some(Console::Nds),
        rom: Some(&rom),
        bios: Some(&arm9),
        bios7: Some(&arm7),
        firmware: Some(&firmware),
    };
    let boot = nds_boot(all());
    assert_eq!(boot.bios, Some((&arm9[..], &arm7[..])));
    assert!(matches!(
        boot.cartridge,
        NdsCartridge::Firmware { rom: [1], firmware: [4] }
    ));
    let boot = nds_boot(Load { bios7: None, ..all() });
    assert!(boot.bios.is_none());
    assert!(matches!(boot.cartridge, NdsCartridge::Direct([1])));
    let boot = nds_boot(Load { firmware: None, ..all() });
    assert!(boot.bios.is_some());
    assert!(matches!(boot.cartridge, NdsCartridge::Direct([1])));
    let boot = nds_boot(Load { rom: None, ..all() });
    assert!(matches!(boot.cartridge, NdsCartridge::Absent));
}

#[test]
fn load_errors_have_messages() {
    assert_eq!(LoadError::MissingBios.message(), "a BIOS image is required");
    assert_eq!(LoadError::Unsupported(Console::Nds).message(), "Nds is not yet supported");
    let bad = LoadError::BadImage("TooShort".to_string());
    assert_eq!(bad.message(), "invalid .nds image: TooShort");
    assert_eq!(load_error_code(&bad), REWINDS_ERR_BAD_IMAGE);
}

#[test]
fn a_rom_boots_at_the_reset_vector() {
    let mut rom = vec![0u8; 0x200];
    rom[0xB2] = 0x96;
    rom[0..4].copy_from_slice(&[0xEF, 0xBE, 0xAD, 0xDE]);
    rom[0x100..0x109].copy_from_slice(b"SRAM_V113");
    let emu = Emulator::load(Load { console: None, rom: Some(&rom), ..Load::default() }, &[1, 2, 3])
        .expect("a GBA image")
        .machine()
        .expect("a machine");
    let system = emu.as_gba().unwrap();
    assert_eq!(system.cpu.register(15), 0);
    assert_eq!(&system.gba.bus.memory.bios[0..4], &[1, 2, 3, 0]);
    assert_eq!(&system.gba.bus.memory.rom[0..4], &[0xEF, 0xBE, 0xAD, 0xDE]);
    assert_eq!(emu.save_type_name(), "SRAM");
    assert_eq!(emu.save_data().len(), 0x8000);
    assert_eq!(emu.frame(), 0);
}

#[test]
fn colors_are_scaled_by_replication() {
    assert_eq!(bgr555_to_rgba8(0x0000), [0, 0, 0, 255]);
    assert_eq!(bgr555_to_rgba8(0x7FFF), [255, 255, 255, 255]);
    assert_eq!(bgr555_to_rgba8(0x001F), [255, 0, 0, 255]);
    assert_eq!(bgr555_to_rgba8(0x03E0), [0, 255, 0, 255]);
    assert_eq!(bgr555_to_rgba8(0x0010), [132, 0, 0, 255]);
}

#[test]
fn present_shows_the_framebuffer() {
    let mut emu = Emulator::from_gba_system(System::new());
    if let Some(system) = emu.as_gba_mut() {
        system.gba.bus.io.video.framebuffer.pixels[1] = Color15(0x7C00);
    }
    assert_eq!(&emu.screen(0).unwrap().rgba[4..8], &[0, 0, 0, 255]);
    emu.present();
    assert_eq!(&emu.screen(0).unwrap().rgba[4..8], &[0, 0, 255, 255]);
    assert!(emu.into_gba().is_some());
}

#[test]
fn finishing_a_frame_presents_and_drains() {
    let mut emu = Emulator::from_gba_system(System::new());
    if let Some(system) = emu.as_gba_mut() {
        system.gba.bus.io.video.framebuffer.pixels[0] = Color15(0x001F);
        system.gba.bus.io.apu.generate_sample();
    }
    assert_eq!(emu.finish_frame(), (vec![0, 0], true));
    assert_eq!(&emu.screen(0).unwrap().rgba[0..4], &[255, 0, 0, 255]);
    emu.set_audio_muted(true);
    assert_eq!(emu.finish_frame(), (Vec::new(), false));
}

#[test]
fn every_button_decides_its_own_key() {
    let mut emu = Emulator::from_gba_system(System::new());
    emu.set_input(Input { buttons: button::L | button::DOWN | button::Y, ..Input::default() });
    for key in Key::all() {
        let pressed = emu.as_gba().unwrap().keypad.is_pressed(key);
        assert_eq!(pressed, key == Key::L || key == Key::Down);
    }
    emu.set_input(Input::default());
    assert!(!emu.as_gba().unwrap().keypad.is_pressed(Key::L));
    let mut input = Input::default();
    input.set(button::A | button::B, true);
    input.set(button::A, false);
    assert_eq!(input.buttons, button::B);
}

#[test]
fn saves_are_restored_and_flushed() {
    let mut emu = Emulator::from_gba_system(System::new());
    assert!(emu.set_save_type_by_name("FLASH1M"));
    assert_eq!(emu.save_type_name(), "FLASH1M");
    assert!(!emu.set_save_type_by_name("TAPE"));
    assert_eq!(emu.save_type_name(), "FLASH1M");
    let saved: Vec<u8> = (0..0x2_0000).map(|i| (i % 251) as u8).collect();
    emu.load_save_data(&saved);
    assert_eq!(emu.save_data(), &saved[..]);
    assert!(!emu.save_dirty());

    assert!(emu.set_save_type_by_name("SRAM"));
    if let Some(system) = emu.as_gba_mut() {
        system.cartridge.backup.write8(0x0E00_0000, 0x42);
    }
    assert!(emu.save_dirty());
    emu.clear_save_dirty();
    assert!(!emu.save_dirty());
    assert_eq!(emu.save_data()[0], 0x42);
    emu.set_audio_muted(true);
}

#[test]
fn codes_name_consoles_and_failures() {
    assert_eq!(console_asked(0), Some(Console::Gba));
    assert_eq!(console_asked(1), Some(Console::Nds));
    assert_eq!(console_asked(-1), None);
    assert_eq!(console_code(Some(Console::Gba)), 0);
    assert_eq!(console_code(Some(Console::Nds)), 1);
    assert_eq!(console_code(None), -1);
    assert_eq!(load_error_code(&LoadError::UnknownConsole), REWINDS_ERR_UNKNOWN_CONSOLE);
    assert_eq!(load_error_code(&LoadError::MissingBios), REWINDS_ERR_MISSING_BIOS);
    assert_eq!(load_error_code(&LoadError::Unsupported(Console::Nds)), REWINDS_ERR_UNSUPPORTED);
    assert_eq!((REWINDS_BTN_L, REWINDS_BTN_Y), (button::L, button::Y));
}

#[test]
fn an_explanation_is_whole() {
    let mut system = System::new();
    let explanation = system.explain_pixel(3, 4).expect("a pixel of the picture");
    assert!(!explanation.partial);
    assert_eq!(explanation.effect.result, explanation.final_color);
    assert_eq!(explanation.window.layers_enabled, [true; 5]);
    assert!(explanation.window.effects_enabled);
    let mut emu = Emulator::from_gba_system(system);
    // A fresh machine is not muted: what it generates is to be played.
    assert!(emu.finish_frame().1);
    emu.set_audio_muted(true);
    assert!(!emu.finish_frame().1);
}

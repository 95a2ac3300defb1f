use rewinds::debug::Debugger;
use rewinds::emu_core::Access;
use rewinds::emulator::{Console, Emulator};
use rewinds::gba::ppu::state::Color15;
use rewinds::gba::system::System;

/// Build a bare GBA emulator around a freshly-constructed system for API tests.
fn gba_emulator() -> Emulator {
    Emulator::from_gba_system(System::new())
}

#[test]
fn video_namespace_reports_mode_and_pixel_source() {
    let mut emu = gba_emulator();
    if let Some(system) = emu.as_gba_mut() {
        // Mode 3, BG2; set pixel (0,0) green in VRAM.
        system
            .gba
            .bus
            .write16(0x0400_0000, 0x0003 | (1 << 10), Access::cpu_data(), &mut system.scheduler);
        system.gba.bus.memory.vram[0..2].copy_from_slice(&0x03E0u16.to_le_bytes());
    }

    let mut dbg = Debugger::new(&mut emu);
    assert_eq!(dbg.video().current_mode(0), 3);
    let explanation = dbg.video().explain_pixel(0, 0, 0).unwrap();
    assert_eq!(explanation.final_color, Color15(0x03E0));
    assert_eq!(dbg.emulator().console(), Console::Gba);
}

#[test]
fn cpu_and_memory_namespaces_read_state() {
    let mut emu = gba_emulator();
    if let Some(system) = emu.as_gba_mut() {
        system.gba.bus.memory.vram[0x10..0x12].copy_from_slice(&0xBEEFu16.to_le_bytes());
    }
    let mut dbg = Debugger::new(&mut emu);
    assert_eq!(dbg.memory().read16(0, 0x0600_0010), 0xBEEF);
    let (r, _cpsr) = dbg.cpu().registers(0);
    assert_eq!(r.len(), 16);
}

#[test]
fn input_namespace_presses_by_name() {
    let mut emu = gba_emulator();
    let mut dbg = Debugger::new(&mut emu);
    assert!(dbg.input().press_name("start"));
    assert!(!dbg.input().press_name("nonsense"));
}

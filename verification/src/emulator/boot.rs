//! Booting a GBA.

use vstd::prelude::*;

use super::Load;
use crate::arm::cpu::{ArmVersion, CpuState};
use crate::gba::cartridge::{declared_save_type, SaveType};
use crate::gba::keypad::Keypad;
use crate::gba::memory::MemoryState;
use crate::gba::prefetch::Prefetch;
use crate::gba::system::System;

verus! {

/// The system is as it comes out of reset with the image in its slot: the processor at the
/// reset vector, an empty timeline, no key pressed, a blank save chip of the type that the
/// image declares (plain SRAM without one), and nothing in memory but the image and the
/// BIOS.
pub open spec fn booted(system: System, cfg: Load<'_>, builtin: Seq<u8>) -> bool {
    &&& system.cartridge.rom@ == cfg.image()
    &&& system.cpu@ == (CpuState {
        r: CpuState::reset(ArmVersion::Armv4T).r.update(15, 0),
        sequential: false,
        ..CpuState::reset(ArmVersion::Armv4T)
    })
    &&& system.scheduler@.now == 0 && system.scheduler@.next_sequence == 0
    &&& system.scheduler@.events.len() == 0
    &&& system.keypad == (Keypad { pressed: 0, keycnt: 0 })
    &&& cfg.rom is Some ==> system.cartridge.save_type == declared_save_type(
        cfg.image(),
    )
    &&& cfg.rom is None ==> system.cartridge.save_type == SaveType::Sram
    &&& system.cartridge.backup@ == system.cartridge.save_type.blank_backup()
    &&& forall|i: int|
        0 <= i < 0x4000 ==> #[trigger] system.gba.bus@.memory.bios[i] == (if i
            < cfg.bios_image(builtin).len() {
            cfg.bios_image(builtin)[i]
        } else {
            0
        })
    &&& system.gba.bus@.memory == (MemoryState {
        rom: cfg.image(),
        bios: system.gba.bus@.memory.bios,
        ..MemoryState::initial()
    })
    &&& system.gba.bus@.io.is_initial()
    &&& system.gba.bus@.prefetch == Prefetch::off()
    &&& system.gba.bus@.stall == 0
}

fn copied(bytes: &[u8]) -> (copy: Vec<u8>)
    ensures
        copy@ == bytes@,
{
    let mut copy: Vec<u8> = Vec::new();
    let mut i: usize = 0;
    while i < bytes.len()
        invariant
            i <= bytes@.len(),
            copy@ == bytes@.take(i as int),
        decreases bytes@.len() - i,
    {
        copy.push(bytes[i]);
        assert(bytes@.take(i + 1) =~= bytes@.take(i as int).push(bytes@[i as int]));
        i = i + 1;
    }
    assert(bytes@.take(bytes@.len() as int) =~= bytes@);
    copy
}

/// Boot a GBA, on the built-in BIOS unless one is given.
pub fn boot(cfg: &Load<'_>, builtin_bios: &[u8]) -> (system: System)
    ensures
        system.valid(),
        booted(system, *cfg, builtin_bios@),
{
    reveal(System::valid);
    // A real BIOS image is optional: without one, fall back to the built-in freely
    // redistributable replacement.
    let bios: &[u8] = match cfg.bios {
        Some(bios) => bios,
        None => builtin_bios,
    };
    let mut system = System::new();
    system.gba.bus.load_bios(bios);
    if let Some(rom) = cfg.rom {
        system.gba.bus.load_rom(copied(rom));
        system.cartridge.load_rom(copied(rom));
    }
    // The CPU begins at the BIOS reset vector.
    system.cpu.set_pc(0);
    system
}

} // verus!

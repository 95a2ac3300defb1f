//! Laws of the facade: which console an image is for, and how its picture is shown.

use vstd::prelude::*;

use super::boot::booted;
use super::{presented, rgba_of, Console, Load, LoadError, NdsCartridge};
use crate::gba::ppu::Color15;
use crate::gba::system::System;

verus! {

/// An image with the fixed byte of a GBA header is for the GBA, whatever else it holds.
/// Without that byte it is for the DS where it is large enough for a DS header and the
/// first program lies behind the header and within the image, and otherwise unknown.
pub proof fn header_names_the_console(rom: Seq<u8>)
    requires
        rom.len() <= 0xFFFF_FFFF,
    ensures
        ({
            let marked = rom.len() >= 0xB3 && rom[0xB2] == 0x96;
            let program = rom[0x20] + 0x100 * (rom[0x21] + 0x100 * (rom[0x22] + 0x100 * rom[0x23]));
            let ds = rom.len() >= 512 && 512 <= program < rom.len();
            &&& marked <==> Console::of_header(rom) == Some(Console::Gba)
            &&& !marked && ds <==> Console::of_header(rom) == Some(Console::Nds)
            &&& !marked && !ds <==> Console::of_header(rom) is None
        }),
{
}

/// A console that is asked for is booted, whatever the image says.
pub proof fn forced_console_wins(cfg: Load<'_>)
    ensures
        cfg.console is Some ==> cfg.target() == cfg.console,
        cfg.console is None && cfg.rom is None ==> cfg.target() is None,
        cfg.console is None && cfg.rom is Some ==> cfg.target() == Console::of_header(cfg.rom->0@),
        cfg.rom is None ==> cfg.image().len() == 0,
        cfg.rom is Some ==> cfg.image() == cfg.rom->0@,
{
}

/// A given BIOS image is used before the built-in one.
pub proof fn given_bios_wins(cfg: Load<'_>, builtin: Seq<u8>)
    ensures
        cfg.bios is Some ==> cfg.bios_image(builtin) == cfg.bios->0@,
        cfg.bios is None ==> cfg.bios_image(builtin) == builtin,
{
}

/// The DS gets both BIOS images or neither, the first for the ARM9 and the second for the
/// ARM7; it boots through its firmware only where it has both.
pub proof fn ds_boots_with_both_images_or_none(cfg: Load<'_>)
    ensures
        ({
            let boot = cfg.spec_nds_boot();
            let both = cfg.bios is Some && cfg.bios7 is Some;
            &&& boot.bios is Some <==> both
            &&& both ==> (boot.bios->0).0 == cfg.bios->0 && (boot.bios->0).1 == cfg.bios7->0
            &&& boot.cartridge is Absent <==> cfg.rom is None
            &&& boot.cartridge is Firmware <==> cfg.rom is Some && cfg.firmware is Some && both
            &&& boot.cartridge matches NdsCartridge::Direct(rom) ==> rom == cfg.rom->0
            &&& boot.cartridge matches NdsCartridge::Firmware { rom, firmware } ==> rom
                == cfg.rom->0 && firmware == cfg.firmware->0
        }),
{
}

/// What a failure to load is told.
pub proof fn load_errors_are_told(reason: String)
    ensures
        LoadError::UnknownConsole.spec_message() == "could not determine the console"@,
        LoadError::MissingBios.spec_message() == "a BIOS image is required"@,
        LoadError::Unsupported(Console::Nds).spec_message() == "Nds is not yet supported"@,
        LoadError::Unsupported(Console::Gba).spec_message() == "Gba is not yet supported"@,
        LoadError::BadImage(reason).spec_message() == "invalid .nds image: "@ + reason@,
{
}

/// A five-bit level spread over eight bits: the high bits are repeated below.
pub open spec fn spread(level: int) -> int {
    level * 8 + level / 4
}

/// A color is five bits each of red, green and blue, from the low end up, and is shown
/// opaque with each spread over a byte: red first, then green, then blue.
pub proof fn shown_color(color: u16)
    ensures
        ({
            let shown = rgba_of(Color15(color));
            &&& shown.len() == 4
            &&& shown[0] == spread(color as int % 32)
            &&& shown[1] == spread(color as int / 32 % 32)
            &&& shown[2] == spread(color as int / 1024 % 32)
            &&& shown[3] == 255
        }),
{
}

/// A picture is shown pixel by pixel, four bytes each, in the order of the framebuffer.
pub proof fn shown_pixels(framebuffer: Seq<Color15>, i: int, byte: int)
    requires
        0 <= i < framebuffer.len(),
        0 <= byte < 4,
    ensures
        presented(framebuffer).len() == 4 * framebuffer.len(),
        presented(framebuffer)[4 * i + byte] == rgba_of(framebuffer[i])[byte],
{
    assert((4 * i + byte) / 4 == i);
    assert((4 * i + byte) % 4 == byte);
}

/// A machine boots with the processor at address zero and nothing in its registers, no key
/// held, no event pending, and its memory clear but for the image and the BIOS.
pub proof fn boots_from_reset(system: System, cfg: Load<'_>, builtin: Seq<u8>, i: int)
    requires
        booted(system, cfg, builtin),
    ensures
        0 <= i < 16 ==> system.cpu@.r[i] == 0,
        system.scheduler@.now == 0 && system.scheduler@.events.len() == 0,
        system.keypad.pressed == 0,
        0 <= i < 0x4_0000 ==> system.gba.bus@.memory.ewram[i] == 0,
        0 <= i < 0x8000 ==> system.gba.bus@.memory.iwram[i] == 0,
        0 <= i < 0x1_8000 ==> system.gba.bus@.memory.vram[i] == 0,
        system.gba.bus@.memory.rom == cfg.image(),
        cfg.bios is Some && i < cfg.bios->0@.len() && 0 <= i < 0x4000
            ==> system.gba.bus@.memory.bios[i] == cfg.bios->0@[i],
        system.gba.bus@.io.control.waitcnt == 0,
        !system.gba.bus@.io.irq.ime,
{
}

} // verus!

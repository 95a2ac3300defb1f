//! The console-agnostic emulator facade.
//!
//! [`Emulator`] carries a machine behind one uniform surface - load, feed input, read
//! screens, exchange save data - so a frontend never needs to know which console it is
//! holding.
//!
//! The host boundary is made of plain bytes: ROMs and save data cross as byte slices
//! ([`Load`], [`Emulator::save_data`]), never file paths - the host owns the
//! filesystem. The core owns the presentable pixel buffer ([`Screen`], RGBA8), so the
//! host blits it straight into a texture. [`Input`] is a button bitmask plus touch,
//! consumed by whichever subset a console models (the GBA ignores the DS-only bits).

pub mod boot;
pub mod button;
pub mod codes;
pub mod views;

use vstd::prelude::*;

use crate::gba::apu::ApuState;
use crate::gba::bus::BusState;
use crate::gba::cartridge::SaveType;
use crate::gba::io::IoState;
use crate::gba::keypad::{Key, Keypad};
use crate::gba::ppu::Color15;
use crate::gba::system::System;
use crate::text;

verus! {

/// Which console an image targets.
#[derive(Clone, Copy, Debug, PartialEq, Eq, Structural)]
pub enum Console {
    Gba,
    Nds,
}

/// The ARM9 ROM offset in an NDS header.
pub open spec fn arm9_offset(rom: Seq<u8>) -> int {
    rom[0x20] + rom[0x21] * 0x100 + rom[0x22] * 0x1_0000 + rom[0x23] * 0x100_0000
}

impl Console {
    /// The console that a ROM image's header suggests.
    pub open spec fn of_header(rom: Seq<u8>) -> Option<Console> {
        if rom.len() > 0xB2 && rom[0xB2] == 0x96 {
            Some(Console::Gba)
        } else if rom.len() >= 0x200 && 0x200 <= arm9_offset(rom) < (rom.len() as u32) {
            Some(Console::Nds)
        } else {
            None
        }
    }

    /// Guess the console from a ROM image's header. The GBA header carries a fixed
    /// `0x96` at offset `0xB2`; an NDS image is guessed from a plausible ARM9 ROM
    /// offset in its 512-byte header. Returns `None` when neither matches - the
    /// caller can still force a console via [`Load::console`].
    pub fn detect(rom: &[u8]) -> (console: Option<Console>)
        ensures
            console == Console::of_header(rom@),
    {
        if rom.len() > 0xB2 && rom[0xB2] == 0x96 {
            return Some(Console::Gba);
        }
        if rom.len() >= 0x200 {
            let arm9_off: u32 = rom[0x20] as u32 + rom[0x21] as u32 * 0x100 + rom[0x22] as u32
                * 0x1_0000 + rom[0x23] as u32 * 0x100_0000;
            if 0x200 <= arm9_off && arm9_off < rom.len() as u32 {
                return Some(Console::Nds);
            }
        }
        None
    }
}

/// A full input snapshot for one frame. A console consumes only the subset it
/// models: the GBA reads the low ten buttons and ignores touch and `X`/`Y`.
#[derive(Clone, Copy, Debug, PartialEq, Eq, Structural)]
pub struct Input {
    /// A bitmask of [`button`] constants (set bit = pressed).
    pub buttons: u32,
    /// DS touch coordinate (screen pixels); ignored on the GBA.
    pub touch_x: i16,
    pub touch_y: i16,
    /// Whether the DS touchscreen is being pressed.
    pub touch_pressed: bool,
}

impl Default for Input {
    fn default() -> (input: Self)
        ensures
            input == (Input { buttons: 0, touch_x: 0, touch_y: 0, touch_pressed: false }),
    {
        Input { buttons: 0, touch_x: 0, touch_y: 0, touch_pressed: false }
    }
}

impl Input {
    /// Set or clear one button by its [`button`] bit.
    pub fn set(&mut self, button: u32, pressed: bool)
        ensures
            *final(self) == (Input {
                buttons: if pressed {
                    old(self).buttons | button
                } else {
                    old(self).buttons & !button
                },
                ..*old(self)
            }),
    {
        if pressed {
            self.buttons = self.buttons | button;
        } else {
            self.buttons = self.buttons & !button;
        }
    }
}

/// A presentable screen: `width` x `height` pixels of RGBA8 (`rgba.len() ==
/// width * height * 4`), owned by the emulator and valid until it next changes.
pub struct Screen<'a> {
    pub width: u32,
    pub height: u32,
    pub rgba: &'a [u8],
}

/// Why [`Emulator::load`] could not build a machine.
#[derive(Debug, Clone, PartialEq, Eq)]
pub enum LoadError {
    /// No console was given and none could be detected from the ROM.
    UnknownConsole,
    /// The GBA requires a BIOS image and none was supplied.
    MissingBios,
    /// The console is recognised but not implemented.
    Unsupported(Console),
    /// A `.nds` image could not be booted; the reason, as the machine gives it.
    BadImage(String),
}

impl LoadError {
    /// What the error says.
    pub open spec fn spec_message(self) -> Seq<char> {
        match self {
            LoadError::UnknownConsole => "could not determine the console"@,
            LoadError::MissingBios => "a BIOS image is required"@,
            LoadError::Unsupported(Console::Gba) => "Gba is not yet supported"@,
            LoadError::Unsupported(Console::Nds) => "Nds is not yet supported"@,
            LoadError::BadImage(reason) => "invalid .nds image: "@ + reason@,
        }
    }

    /// A message for the user.
    pub fn message(&self) -> (message: String)
        ensures
            message@ == self.spec_message(),
    {
        match self {
            LoadError::UnknownConsole => text::text("could not determine the console"),
            LoadError::MissingBios => text::text("a BIOS image is required"),
            LoadError::Unsupported(Console::Gba) => text::text("Gba is not yet supported"),
            LoadError::Unsupported(Console::Nds) => text::text("Nds is not yet supported"),
            LoadError::BadImage(reason) => {
                let mut message = text::text("invalid .nds image: ");
                message.append(reason.as_str());
                message
            },
        }
    }
}

/// What to boot. ROMs and BIOS images cross as byte slices; the host reads the
/// files. Save data is restored separately via [`Emulator::load_save_data`], so
/// the host keeps sole ownership of persistence.
pub struct Load<'a> {
    /// Force a console; `None` detects it from `rom`.
    pub console: Option<Console>,
    /// The cartridge image (a `.gba`, or a `.nds`). May be absent for a
    /// BIOS-only GBA boot, in which case `console` must be set.
    pub rom: Option<&'a [u8]>,
    /// The BIOS image; the ARM9 BIOS for the DS. A GBA without one falls back to the
    /// built-in image.
    pub bios: Option<&'a [u8]>,
    /// The DS ARM7 BIOS. Optional (BIOS-free homebrew runs without it).
    pub bios7: Option<&'a [u8]>,
    /// A DS firmware dump. When present (with both BIOS images), the DS runs the real
    /// firmware boot instead of direct boot - required by games that reject direct boot.
    pub firmware: Option<&'a [u8]>,
}

impl<'a> Default for Load<'a> {
    fn default() -> (load: Self)
        ensures
            load == (Load { console: None, rom: None, bios: None, bios7: None, firmware: None }),
    {
        Load { console: None, rom: None, bios: None, bios7: None, firmware: None }
    }
}

/// What goes into the slot of a DS, and how it starts.
pub enum NdsCartridge<'a> {
    /// Nothing: a bare DS still runs and presents its two screens.
    Absent,
    /// The image is booted directly.
    Direct(&'a [u8]),
    /// The image is booted through the real firmware.
    Firmware { rom: &'a [u8], firmware: &'a [u8] },
}

/// How a DS is to be booted.
pub struct NdsBoot<'a> {
    /// The ARM9 and the ARM7 BIOS to load, if both were given.
    pub bios: Option<(&'a [u8], &'a [u8])>,
    pub cartridge: NdsCartridge<'a>,
}

/// What [`Emulator::load`] comes to.
pub enum Loaded<'a> {
    /// A machine, ready to run.
    Machine(Emulator),
    /// A DS, which the host boots as told.
    Nds(NdsBoot<'a>),
}

impl<'a> Loaded<'a> {
    /// The machine, if it is one that is ready to run.
    pub fn machine(self) -> (machine: Option<Emulator>)
        ensures
            machine == (match self {
                Loaded::Machine(emulator) => Some(emulator),
                Loaded::Nds(_) => None,
            }),
    {
        match self {
            Loaded::Machine(emulator) => Some(emulator),
            Loaded::Nds(_) => None,
        }
    }
}

impl<'a> Load<'a> {
    /// The console to boot, if one is given or can be detected.
    pub open spec fn target(self) -> Option<Console> {
        match self.console {
            Some(console) => Some(console),
            None => match self.rom {
                Some(rom) => Console::of_header(rom@),
                None => None,
            },
        }
    }

    /// The ROM to put in the slot.
    pub open spec fn image(self) -> Seq<u8> {
        match self.rom {
            Some(rom) => rom@,
            None => Seq::empty(),
        }
    }

    /// How the DS is to be booted: with both BIOS images or none, and through the firmware
    /// only where all three are there.
    pub open spec fn spec_nds_boot(self) -> NdsBoot<'a> {
        NdsBoot {
            bios: match (self.bios, self.bios7) {
                (Some(arm9), Some(arm7)) => Some((arm9, arm7)),
                _ => None,
            },
            cartridge: match self.rom {
                None => NdsCartridge::Absent,
                Some(rom) => match (self.firmware, self.bios, self.bios7) {
                    (Some(firmware), Some(_), Some(_)) => NdsCartridge::Firmware { rom, firmware },
                    _ => NdsCartridge::Direct(rom),
                },
            },
        }
    }

    /// How the DS is to be booted.
    pub fn nds_boot(&self) -> (boot: NdsBoot<'a>)
        ensures
            boot == self.spec_nds_boot(),
    {
        let bios = match (self.bios, self.bios7) {
            (Some(arm9), Some(arm7)) => Some((arm9, arm7)),
            _ => None,
        };
        let cartridge = match self.rom {
            None => NdsCartridge::Absent,
            Some(rom) => match (self.firmware, self.bios, self.bios7) {
                (Some(firmware), Some(_), Some(_)) => NdsCartridge::Firmware { rom, firmware },
                _ => NdsCartridge::Direct(rom),
            },
        };
        NdsBoot { bios, cartridge }
    }

    /// The BIOS to boot, given the built-in one.
    pub open spec fn bios_image(self, builtin: Seq<u8>) -> Seq<u8> {
        match self.bios {
            Some(bios) => bios@,
            None => builtin,
        }
    }
}

/// The RGBA8 bytes of a color, opaque.
pub open spec fn rgba_of(color: Color15) -> Seq<u8> {
    seq![
        Color15::expanded(color.channels().0),
        Color15::expanded(color.channels().1),
        Color15::expanded(color.channels().2),
        0xFFu8,
    ]
}

/// The presentable image of a framebuffer.
pub open spec fn presented(framebuffer: Seq<Color15>) -> Seq<u8> {
    Seq::new(framebuffer.len() * 4, |i: int| rgba_of(framebuffer[i / 4])[i % 4])
}

/// Convert a BGR555 pixel to RGBA8, scaling 5-bit to 8-bit by replicating the high
/// bits into the low.
pub fn bgr555_to_rgba8(color: u16) -> (rgba: [u8; 4])
    ensures
        rgba@ == rgba_of(Color15(color)),
{
    Color15(color).to_rgba8()
}

/// A machine behind one surface.
pub enum Emulator {
    Gba(GbaEmulator),
}

/// A GBA behind the facade: the system plus the host-facing buffers the facade
/// owns.
pub struct GbaEmulator {
    pub system: System,
    /// The presentable image, RGBA8, refreshed from the BGR555 framebuffer.
    pub rgba: Vec<u8>,
    pub audio_muted: bool,
}

/// The pressed keys with the ten GBA buttons taken from an input snapshot.
pub open spec fn buttons_applied(pressed: u16, buttons: u32) -> u16 {
    (pressed & !0x03FF) | ((buttons & 0x03FF) as u16)
}

spec fn step(pressed: u16, buttons: u32, bit: u16) -> u16 {
    if buttons & (bit as u32) != 0 {
        pressed | bit
    } else {
        pressed & !bit
    }
}

proof fn lemma_buttons(p: u16, b: u32)
    by (bit_vector)
    ensures
        step(
            step(
                step(
                    step(
                        step(
                            step(
                                step(step(step(step(p, b, 1), b, 2), b, 4), b, 8),
                                b,
                                0x10,
                            ),
                            b,
                            0x20,
                        ),
                        b,
                        0x40,
                    ),
                    b,
                    0x80,
                ),
                b,
                0x100,
            ),
            b,
            0x200,
        ) == (p & !0x03FFu16) | ((b & 0x03FF) as u16),
{
}

impl GbaEmulator {
    /// The system is valid and the image presents its framebuffer.
    pub open spec fn valid(self) -> bool {
        self.system.valid() && self.rgba@.len() == 153600
    }

    /// Everything but the cartridge is as in `other`.
    pub open spec fn same_but_cartridge(self, other: GbaEmulator) -> bool {
        &&& self.rgba == other.rgba
        &&& self.audio_muted == other.audio_muted
        &&& self.system.cpu == other.system.cpu
        &&& self.system.gba == other.system.gba
        &&& self.system.scheduler == other.system.scheduler
        &&& self.system.keypad == other.system.keypad
    }

    fn new(system: System) -> (gba: Self)
        requires
            system.valid(),
        ensures
            gba.valid(),
            gba.system == system,
            gba.rgba@ == presented(system.gba.bus@.io.video.framebuffer),
            !gba.audio_muted,
    {
        reveal(System::valid);
        let rgba = present(system.framebuffer());
        GbaEmulator { system, rgba, audio_muted: false }
    }

    /// Convert the canonical BGR555 framebuffer into the RGBA8 present buffer.
    fn refresh_rgba(&mut self)
        requires
            old(self).valid(),
        ensures
            final(self).valid(),
            final(self).system == old(self).system,
            final(self).audio_muted == old(self).audio_muted,
            final(self).rgba@ == presented(old(self).system.gba.bus@.io.video.framebuffer),
    {
        reveal(System::valid);
        self.rgba = present(self.system.framebuffer());
    }

    /// Present the frame that was just run and drain its sound: the levels, and whether
    /// they are to be played. The buffer is drained even while muted, so it cannot grow
    /// unbounded.
    #[verifier::spinoff_prover]
    fn finish_frame(&mut self) -> (sound: (Vec<i32>, bool))
        requires
            old(self).valid(),
        ensures
            final(self).valid(),
            final(self).frame_finished(*old(self)),
            sound.0@ == old(self).system.gba.bus@.io.apu.buffer,
            sound.1 == !old(self).audio_muted,
    {
        self.refresh_rgba();
        let levels = self.system.take_audio();
        (levels, !self.audio_muted)
    }

    /// What finishing a frame makes of `before`: its framebuffer is presented, its sound
    /// is drained, and nothing else changes.
    pub open spec fn frame_finished(self, before: GbaEmulator) -> bool {
        let bus = before.system.gba.bus@;
        &&& self.rgba@ == presented(bus.io.video.framebuffer)
        &&& self.audio_muted == before.audio_muted
        &&& self.system.same_but_bus(before.system)
        &&& self.system.gba.bus@ == (BusState {
            io: IoState { apu: ApuState { buffer: Seq::empty(), ..bus.io.apu }, ..bus.io },
            ..bus
        })
    }

    /// Take the ten GBA buttons from an input snapshot. Touch and `X`/`Y` have no GBA
    /// equivalent and are ignored.
    #[verifier::spinoff_prover]
    fn set_input(&mut self, input: Input)
        requires
            old(self).valid(),
        ensures
            final(self).valid(),
            *final(self) == (GbaEmulator {
                system: System {
                    keypad: Keypad {
                        pressed: buttons_applied(old(self).system.keypad.pressed, input.buttons),
                        ..old(self).system.keypad
                    },
                    ..old(self).system
                },
                ..*old(self)
            }),
    {
        reveal(System::valid);
        proof {
            lemma_buttons(self.system.keypad.pressed, input.buttons);
        }
        self.system.set_key(Key::A, input.buttons & button::A != 0);
        self.system.set_key(Key::B, input.buttons & button::B != 0);
        self.system.set_key(Key::Select, input.buttons & button::SELECT != 0);
        self.system.set_key(Key::Start, input.buttons & button::START != 0);
        self.system.set_key(Key::Right, input.buttons & button::RIGHT != 0);
        self.system.set_key(Key::Left, input.buttons & button::LEFT != 0);
        self.system.set_key(Key::Up, input.buttons & button::UP != 0);
        self.system.set_key(Key::Down, input.buttons & button::DOWN != 0);
        self.system.set_key(Key::R, input.buttons & button::R != 0);
        self.system.set_key(Key::L, input.buttons & button::L != 0);
    }
}

/// The presentable image of a framebuffer.
fn present(framebuffer: &[Color15]) -> (rgba: Vec<u8>)
    requires
        framebuffer@.len() == 38400,
    ensures
        rgba@ == presented(framebuffer@),
{
    let mut rgba: Vec<u8> = Vec::new();
    let mut i: usize = 0;
    while i < framebuffer.len()
        invariant
            i <= framebuffer@.len(),
            rgba@ == presented(framebuffer@).take(i * 4),
        decreases framebuffer@.len() - i,
    {
        let pixel = framebuffer[i].to_rgba8();
        let ghost before = rgba@;
        rgba.push(pixel[0]);
        rgba.push(pixel[1]);
        rgba.push(pixel[2]);
        rgba.push(pixel[3]);
        assert(rgba@ =~= presented(framebuffer@).take((i + 1) * 4)) by {
            let goal = presented(framebuffer@).take((i + 1) * 4);
            assert forall|k: int| 0 <= k < (i + 1) * 4 implies rgba@[k] == goal[k] by {
                if k < i * 4 {
                    assert(before[k] == presented(framebuffer@).take(i * 4)[k]);
                } else {
                    assert(k / 4 == i && k % 4 == k - i * 4);
                    assert(pixel@ == rgba_of(framebuffer@[i as int]));
                }
            }
        }
        i = i + 1;
    }
    assert(presented(framebuffer@).take(153600) =~= presented(framebuffer@));
    rgba
}

impl Emulator {
    /// The machine behind the facade.
    pub open spec fn gba(self) -> GbaEmulator {
        match self {
            Emulator::Gba(g) => g,
        }
    }

    /// Which console this is.
    pub open spec fn spec_console(self) -> Console {
        match self {
            Emulator::Gba(_) => Console::Gba,
        }
    }

    /// The machine is in a valid state.
    pub open spec fn valid(self) -> bool {
        self.gba().valid()
    }

    /// Build a machine from the given image, with a BIOS to fall back on. See
    /// [`LoadError`] for the failures. A DS is not built here: what comes back says how it
    /// is to be booted.
    #[verifier::spinoff_prover]
    pub fn load<'a>(cfg: Load<'a>, builtin_bios: &[u8]) -> (result: Result<
        Loaded<'a>,
        LoadError,
    >)
        ensures
            match result {
                Ok(Loaded::Machine(emulator)) => {
                    let system = emulator.gba().system;
                    &&& cfg.target() == Some(Console::Gba)
                    &&& emulator.valid()
                    &&& boot::booted(system, cfg, builtin_bios@)
                    &&& emulator.gba().rgba@ == presented(system.gba.bus@.io.video.framebuffer)
                    &&& !emulator.gba().audio_muted
                },
                Ok(Loaded::Nds(boot)) => {
                    &&& cfg.target() == Some(Console::Nds)
                    &&& boot == cfg.spec_nds_boot()
                },
                Err(error) => error is UnknownConsole && cfg.target() is None,
            },
    {
        let console = match cfg.console {
            Some(console) => console,
            None => match cfg.rom {
                Some(rom) => match Console::detect(rom) {
                    Some(console) => console,
                    None => return Err(LoadError::UnknownConsole),
                },
                None => return Err(LoadError::UnknownConsole),
            },
        };
        match console {
            Console::Gba => {
                let system = boot::boot(&cfg, builtin_bios);
                Ok(Loaded::Machine(Emulator::Gba(GbaEmulator::new(system))))
            },
            Console::Nds => Ok(Loaded::Nds(cfg.nds_boot())),
        }
    }

    /// Which console this is.
    pub fn console(&self) -> (console: Console)
        ensures
            console == self.spec_console(),
    {
        match self {
            Emulator::Gba(_) => Console::Gba,
        }
    }

    /// The number of video frames presented so far (for frame-targeted run control).
    pub fn frame(&self) -> (frame: u64)
        ensures
            frame == self.gba().system.gba.bus@.io.video.frame_counter,
    {
        match self {
            Emulator::Gba(g) => g.system.gba.bus.io.video.frame(),
        }
    }

    /// Present the frame that was just run and drain its sound: the levels, left and
    /// right in turn, and whether they are to be played.
    #[verifier::spinoff_prover]
    pub fn finish_frame(&mut self) -> (sound: (Vec<i32>, bool))
        requires
            old(self).valid(),
        ensures
            final(self).valid(),
            final(self).gba().frame_finished(old(self).gba()),
            sound.0@ == old(self).gba().system.gba.bus@.io.apu.buffer,
            sound.1 == !old(self).gba().audio_muted,
    {
        match self {
            Emulator::Gba(g) => g.finish_frame(),
        }
    }

    /// Set the input state applied on subsequent frames.
    #[verifier::spinoff_prover]
    pub fn set_input(&mut self, input: Input)
        requires
            old(self).valid(),
        ensures
            final(self).valid(),
            final(self).gba() == (GbaEmulator {
                system: System {
                    keypad: Keypad {
                        pressed: buttons_applied(
                            old(self).gba().system.keypad.pressed,
                            input.buttons,
                        ),
                        ..old(self).gba().system.keypad
                    },
                    ..old(self).gba().system
                },
                ..old(self).gba()
            }),
    {
        match self {
            Emulator::Gba(g) => g.set_input(input),
        }
    }

    /// Mute audio capture: while muted, the samples a frame produces are dropped
    /// instead of fed to the host. Used for fast-forward.
    pub fn set_audio_muted(&mut self, muted: bool)
        ensures
            final(self).gba() == (GbaEmulator { audio_muted: muted, ..old(self).gba() }),
    {
        match self {
            Emulator::Gba(g) => g.audio_muted = muted,
        }
    }

    /// How many screens this console presents.
    pub fn screen_count(&self) -> (count: usize)
        ensures
            count == 1,
    {
        match self {
            Emulator::Gba(_) => 1,
        }
    }

    /// Re-derive the RGBA present buffers from the machine's current framebuffer,
    /// so [`Self::screen`] reflects the latest rendered frame even after partial
    /// runs (single-stepping).
    pub fn present(&mut self)
        requires
            old(self).valid(),
        ensures
            final(self).valid(),
            final(self).gba().system == old(self).gba().system,
            final(self).gba().audio_muted == old(self).gba().audio_muted,
            final(self).gba().rgba@ == presented(
                old(self).gba().system.gba.bus@.io.video.framebuffer,
            ),
    {
        match self {
            Emulator::Gba(g) => g.refresh_rgba(),
        }
    }

    /// The presentable screen at `index`, or `None` if out of range. Screen 0 is
    /// the top screen.
    pub fn screen(&self, index: usize) -> (screen: Option<Screen<'_>>)
        ensures
            match screen {
                Some(s) => index == 0 && s.width == 240 && s.height == 160 && s.rgba@
                    == self.gba().rgba@,
                None => index > 0,
            },
    {
        match self {
            Emulator::Gba(g) => if index == 0 {
                Some(Screen { width: 240, height: 160, rgba: g.rgba.as_slice() })
            } else {
                None
            },
        }
    }

    // --- Save data (host persists) ---

    /// The current battery-backed save contents, for the host to write out.
    pub fn save_data(&self) -> (bytes: &[u8])
        ensures
            bytes@ == self.gba().system.cartridge.backup@.contents(),
    {
        match self {
            Emulator::Gba(g) => g.system.cartridge.backup_bytes(),
        }
    }

    /// Restore previously saved contents: what fits of them, the rest erased.
    #[verifier::spinoff_prover]
    pub fn load_save_data(&mut self, data: &[u8])
        requires
            old(self).valid(),
        ensures
            final(self).valid(),
            final(self).gba().same_but_cartridge(old(self).gba()),
            final(self).gba().system.cartridge.rom == old(self).gba().system.cartridge.rom,
            final(self).gba().system.cartridge.save_type == old(
                self,
            ).gba().system.cartridge.save_type,
            final(self).gba().system.cartridge.backup@ == old(
                self,
            ).gba().system.cartridge.backup@.restored(data@),
    {
        reveal(System::valid);
        match self {
            Emulator::Gba(g) => g.system.cartridge.load_backup(data),
        }
    }

    /// Whether the save has been written since the last [`Self::clear_save_dirty`]
    /// - the host flushes only when this is true.
    pub fn save_dirty(&self) -> (dirty: bool)
        ensures
            dirty == self.gba().system.cartridge.backup@.dirty(),
    {
        match self {
            Emulator::Gba(g) => g.system.cartridge.backup_dirty(),
        }
    }

    /// Acknowledge that the host has persisted the current save.
    #[verifier::spinoff_prover]
    pub fn clear_save_dirty(&mut self)
        requires
            old(self).valid(),
        ensures
            final(self).valid(),
            final(self).gba().same_but_cartridge(old(self).gba()),
            final(self).gba().system.cartridge.rom == old(self).gba().system.cartridge.rom,
            final(self).gba().system.cartridge.save_type == old(
                self,
            ).gba().system.cartridge.save_type,
            final(self).gba().system.cartridge.backup@ == old(
                self,
            ).gba().system.cartridge.backup@.flushed(),
    {
        reveal(System::valid);
        match self {
            Emulator::Gba(g) => g.system.cartridge.clear_backup_dirty(),
        }
    }

    /// The save type's name (e.g. `"FLASH1M"`), for a sidecar the host writes.
    pub fn save_type_name(&self) -> (name: &'static str)
        ensures
            name@ == self.gba().system.cartridge.live_save_type().spec_name(),
    {
        match self {
            Emulator::Gba(g) => g.system.cartridge.save_type().name(),
        }
    }

    /// Override the save type by name (from a host sidecar). Returns `false` for
    /// an unknown name.
    #[verifier::spinoff_prover]
    pub fn set_save_type_by_name(&mut self, name: &str) -> (known: bool)
        requires
            old(self).valid(),
        ensures
            final(self).valid(),
            if known {
                let cartridge = final(self).gba().system.cartridge;
                &&& name@ == cartridge.save_type.spec_name()
                &&& cartridge.backup@ == cartridge.save_type.blank_backup()
                &&& cartridge.live_save_type() == cartridge.save_type
                &&& cartridge.rom == old(self).gba().system.cartridge.rom
                &&& final(self).gba().same_but_cartridge(old(self).gba())
            } else {
                &&& forall|save_type: SaveType| name@ != #[trigger] save_type.spec_name()
                &&& *final(self) == *old(self)
            },
    {
        reveal(System::valid);
        match self {
            Emulator::Gba(g) => match SaveType::from_name(name) {
                Some(save_type) => {
                    g.system.cartridge.set_save_type(save_type);
                    true
                },
                None => false,
            },
        }
    }

    // --- Escape hatches (GBA-specific tooling) ---

    /// The underlying GBA system, if this is a GBA. For GBA-specific tooling (the
    /// debug inspector, dev toggles) that has no console-agnostic equivalent.
    pub fn as_gba(&self) -> (system: Option<&System>)
        ensures
            system == Some(&self.gba().system),
    {
        match self {
            Emulator::Gba(g) => Some(&g.system),
        }
    }

    /// The underlying GBA system, mutably.
    pub fn as_gba_mut(&mut self) -> (system: Option<&mut System>)
        ensures
            match system {
                Some(system) => *system == old(self).gba().system && final(self).gba() == (
                GbaEmulator { system: *final(system), ..old(self).gba() }),
                None => false,
            },
    {
        match self {
            Emulator::Gba(g) => Some(&mut g.system),
        }
    }

    /// Wrap an already-constructed GBA system as an emulator (for tooling and tests
    /// that build a system directly rather than through [`Self::load`]).
    pub fn from_gba_system(system: System) -> (emulator: Emulator)
        requires
            system.valid(),
        ensures
            emulator.valid(),
            emulator.gba().system == system,
            emulator.gba().rgba@ == presented(system.gba.bus@.io.video.framebuffer),
            !emulator.gba().audio_muted,
    {
        Emulator::Gba(GbaEmulator::new(system))
    }

    /// Take the underlying GBA system, consuming the facade.
    pub fn into_gba(self) -> (system: Option<System>)
        ensures
            system == Some(self.gba().system),
    {
        match self {
            Emulator::Gba(g) => Some(g.system),
        }
    }
}

proof fn lemma_button_bits(pressed: u16, buttons: u32, bit: u16)
    by (bit_vector)
    requires
        bit & !0x03FFu16 == 0,
    ensures
        ((pressed & !0x03FFu16) | ((buttons & 0x03FF) as u16)) & bit != 0 <==> buttons & (bit as u32)
            != 0,
{
}

/// An input snapshot decides each GBA key by its own bit, and nothing else does: the
/// DS-only bits are harmless.
pub proof fn input_decides_each_key(keypad: Keypad, buttons: u32, key: Key)
    ensures
        (Keypad { pressed: buttons_applied(keypad.pressed, buttons), ..keypad }).is_pressed(key) == (
        buttons & (key.bit() as u32) != 0),
{
    crate::gba::keypad::lemma_single_bits(key, key);
    lemma_button_bits(keypad.pressed, buttons, key.bit());
}

/// A host that hands back what it was given to save restores the save.
pub proof fn saved_contents_are_restored(emulator: Emulator)
    requires
        emulator.valid(),
    ensures
        ({
            let backup = emulator.gba().system.cartridge.backup@;
            backup.restored(backup.contents()).contents() == backup.contents()
        }),
{
    reveal(System::valid);
    let backup = emulator.gba().system.cartridge.backup@;
    crate::gba::cartridge::save_round_trips(backup, backup);
}

} // verus!

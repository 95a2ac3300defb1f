//! A structured debug interface over a running emulator.
//!
//! This is the richer, semantic layer an external debugger or agent drives. It borrows
//! an [`Emulator`] and presents namespaced accessors (`video`, `cpu`, `memory`,
//! `scheduler`, `interrupts`, `input`).
//!
//! The DS has two 2D engines (0 = A/main, 1 = B/sub) and two CPUs (0 = ARM9,
//! 1 = ARM7); those selectors are ignored on the GBA (one engine, one CPU).
//!
//! Everything here reads (or re-derives) live state without perturbing the guest
//! timeline.

pub mod answers;
pub mod base64;
pub mod counts;
pub mod json;
pub mod laws;
pub mod readout;
pub mod replies;
pub mod request;
pub mod run;
pub mod server;
pub mod session;

use vstd::prelude::*;

use crate::arm::cpu::Mode;
use crate::emu_core::{AccessWidth, Timestamp};
use crate::emulator::{Console, Emulator, GbaEmulator};
use crate::gba::event::EventKind;
use crate::gba::keypad::Key;
use crate::gba::ppu::debug::explain::{ExplainError, PixelExplanation, ScanlineExplanation};
use crate::gba::ppu::obj;
use crate::gba::ppu::scanline;
use crate::gba::ppu::state::LatchedState;
use crate::gba::system::System;
use crate::text;

/// Debug clients name GBA buttons by this.
pub use crate::gba::keypad::Key as Button;

verus! {

/// The two emulators are in the same state: the same processor, timeline, cartridge and
/// keypad, and the same machine behind the bus.
pub open spec fn undisturbed(before: GbaEmulator, after: GbaEmulator) -> bool {
    &&& after.rgba == before.rgba
    &&& after.audio_muted == before.audio_muted
    &&& readout::unchanged(before.system, after.system)
}

/// What an explanation of the pixel at `(x, y)` says.
pub open spec fn explained(system: System, x: u16, y: u16, explanation: PixelExplanation) -> bool {
    let video = system.gba.bus@.io.video;
    let mem = system.gba.bus@.video_memory();
    let state = LatchedState::from_registers(&video.registers);
    &&& explanation.x == x && explanation.y == y
    &&& explanation.frame == video.frame_counter
    &&& explanation.final_color == scanline::color_at(state, mem, x as int, y as int)
    &&& explanation.video_mode == state.mode
    &&& explanation.scanline_state@ == scanline::scanline_summary(state, y)
    &&& explanation.candidates@ == scanline::pixel_record(state, mem, x, y).candidates
    &&& explanation.resolved == scanline::resolved_at(state, mem, x as int, y as int).explain()
    &&& explanation.window == scanline::pixel_record(state, mem, x, y).final_window()
    &&& explanation.effect == scanline::pixel_record(state, mem, x, y).final_effect()
    &&& !explanation.partial
}

/// What a summary of scanline `y` says.
pub open spec fn summarised(system: System, y: u16, explanation: ScanlineExplanation) -> bool {
    let line = if y < 160 {
        y
    } else {
        159u16
    };
    let mem = system.gba.bus@.video_memory();
    let state = LatchedState::from_registers(&system.gba.bus@.io.video.registers);
    &&& explanation.state@ == scanline::scanline_summary(state, line)
    &&& explanation.sprites@ == obj::sprites_on(state, mem, line as int)
    &&& explanation.final_line@ == Seq::new(
        240,
        |x: int| scanline::color_at(state, mem, x, line as int),
    )
}

/// Looking at the picture draws it again and leaves the rest of the machine alone.
pub open spec fn redrawn(before: GbaEmulator, after: GbaEmulator, y: u16) -> bool {
    &&& after.rgba == before.rgba
    &&& after.audio_muted == before.audio_muted
    &&& after.system.same_but_bus(before.system)
    &&& after.system.gba.bus@ == before.system.redrawn(y)
}

/// A borrowed, structured debug view of an emulator.
pub struct Debugger<'a> {
    pub emu: &'a mut Emulator,
}

impl<'a> Debugger<'a> {
    /// A debug view of an emulator.
    pub fn new(emu: &'a mut Emulator) -> (debugger: Self)
        ensures
            *debugger.emu == *old(emu),
            *final(debugger.emu) == *final(emu),
    {
        Debugger { emu }
    }

    /// Escape hatch to the underlying emulator facade.
    pub fn emulator(&mut self) -> (emu: &mut Emulator)
        ensures
            *emu == *old(self).emu,
            *final(self).emu == *final(emu),
            *final(final(self).emu) == *final(old(self).emu),
    {
        self.emu
    }

    /// Which console is looked at.
    pub open spec fn console(&self) -> Console {
        self.emu.spec_console()
    }

    /// Whether the loaded machine is a DS (two engines / two CPUs).
    pub fn is_nds(&self) -> (nds: bool)
        ensures
            nds == (self.console() == Console::Nds),
    {
        matches!(self.emu.console(), Console::Nds)
    }

    /// The graphics namespace.
    pub fn video(&mut self) -> (video: Video<'_>)
        ensures
            *video.emu == *old(self).emu,
            *final(self).emu == *final(video.emu),
            *final(final(self).emu) == *final(old(self).emu),
    {
        Video { emu: self.emu }
    }

    /// The processor namespace.
    pub fn cpu(&mut self) -> (cpu: Cpu<'_>)
        ensures
            *cpu.emu == *old(self).emu,
            *final(self).emu == *final(cpu.emu),
            *final(final(self).emu) == *final(old(self).emu),
    {
        Cpu { emu: self.emu }
    }

    /// The memory namespace.
    pub fn memory(&mut self) -> (memory: Memory<'_>)
        ensures
            *memory.emu == *old(self).emu,
            *final(self).emu == *final(memory.emu),
            *final(final(self).emu) == *final(old(self).emu),
    {
        Memory { emu: self.emu }
    }

    /// The timeline namespace.
    pub fn scheduler(&mut self) -> (scheduler: Scheduler<'_>)
        ensures
            *scheduler.emu == *old(self).emu,
            *final(self).emu == *final(scheduler.emu),
            *final(final(self).emu) == *final(old(self).emu),
    {
        Scheduler { emu: self.emu }
    }

    /// The interrupt namespace.
    pub fn interrupts(&mut self) -> (interrupts: Interrupts<'_>)
        ensures
            *interrupts.emu == *old(self).emu,
            *final(self).emu == *final(interrupts.emu),
            *final(final(self).emu) == *final(old(self).emu),
    {
        Interrupts { emu: self.emu }
    }

    /// The input namespace.
    pub fn input(&mut self) -> (input: Input<'_>)
        ensures
            *input.emu == *old(self).emu,
            *final(self).emu == *final(input.emu),
            *final(final(self).emu) == *final(old(self).emu),
    {
        Input { emu: self.emu }
    }
}

/// `emu.video.*` - graphics inspection and pixel provenance. Methods take an `engine`
/// (0 = GBA / DS Engine A, 1 = DS Engine B); the GBA ignores it.
pub struct Video<'a> {
    pub emu: &'a mut Emulator,
}

impl Video<'_> {
    /// The active BG mode (`DISPCNT` bits 0-2) of the engine.
    pub fn current_mode(&mut self, engine: usize) -> (mode: u8)
        ensures
            mode == old(self).emu.gba().system.gba.bus@.io.video.registers.dispcnt % 8,
            *final(self).emu == *old(self).emu,
            *final(final(self).emu) == *final(old(self).emu),
    {
        match self.emu.as_gba() {
            Some(g) => g.gba.bus.io.video.current_mode(),
            None => 0,
        }
    }

    /// Explain how the pixel at `(x, y)` on `engine` came to be its color - the winning
    /// layer, every rejected candidate with its reason, and each one's tile/map/palette
    /// source.
    pub fn explain_pixel(&mut self, engine: usize, x: u16, y: u16) -> (result: Result<
        PixelExplanation,
        ExplainError,
    >)
        requires
            old(self).emu.valid(),
        ensures
            final(self).emu.valid(),
            *final(final(self).emu) == *final(old(self).emu),
            match result {
                Ok(explanation) => {
                    &&& x < 240 && y < 160
                    &&& explained(old(self).emu.gba().system, x, y, explanation)
                    &&& redrawn(old(self).emu.gba(), final(self).emu.gba(), y)
                },
                Err(error) => {
                    &&& x >= 240 || y >= 160
                    &&& error == (ExplainError::PixelOutsideFramebuffer { x, y })
                    &&& undisturbed(old(self).emu.gba(), final(self).emu.gba())
                },
            },
    {
        match self.emu.as_gba_mut() {
            Some(g) => g.explain_pixel(x, y),
            None => Err(ExplainError::PixelOutsideFramebuffer { x, y }),
        }
    }

    /// A whole-scanline summary for `engine` (latched state, evaluated sprites, final
    /// line).
    pub fn scanline(&mut self, engine: usize, y: u16) -> (explanation: ScanlineExplanation)
        requires
            old(self).emu.valid(),
        ensures
            final(self).emu.valid(),
            *final(final(self).emu) == *final(old(self).emu),
            summarised(old(self).emu.gba().system, y, explanation),
            redrawn(
                old(self).emu.gba(),
                final(self).emu.gba(),
                if y < 160 {
                    y
                } else {
                    159u16
                },
            ),
    {
        match self.emu {
            Emulator::Gba(g) => g.system.inspect_scanline(y),
        }
    }
}

/// `emu.cpu.*` - processor state. `core` selects the DS CPU (0 = ARM9, 1 = ARM7);
/// the GBA ignores it.
pub struct Cpu<'a> {
    pub emu: &'a mut Emulator,
}

impl Cpu<'_> {
    /// The emulator that is looked at.
    pub open spec fn gba(&self) -> GbaEmulator {
        self.emu.gba()
    }

    fn selected(&self, core: usize) -> (cpu: &crate::arm::cpu::Cpu)
        ensures
            *cpu == self.gba().system.cpu,
    {
        match &*self.emu {
            Emulator::Gba(g) => &g.system.cpu,
        }
    }

    /// General-purpose register `index` (0-15).
    pub fn register(&self, core: usize, index: usize) -> (value: u32)
        requires
            index < 16,
        ensures
            value == self.gba().system.cpu@.r[index as int],
    {
        self.selected(core).register(index)
    }

    /// The program counter (R15).
    pub fn pc(&self, core: usize) -> (pc: u32)
        ensures
            pc == self.gba().system.cpu@.r[15],
    {
        self.selected(core).register(15)
    }

    /// The current processor mode.
    pub fn mode(&self, core: usize) -> (mode: Option<Mode>)
        ensures
            mode == self.gba().system.cpu@.cpsr.mode(),
    {
        self.selected(core).mode()
    }

    /// All sixteen registers plus the CPSR (as a raw word).
    pub fn registers(&self, core: usize) -> (registers: ([u32; 16], u32))
        ensures
            forall|i: int| 0 <= i < 16 ==> #[trigger] registers.0@[i] == self.gba().system.cpu@.r[i],
            registers.1 == self.gba().system.cpu@.cpsr.bits(),
    {
        let cpu = self.selected(core);
        (readout::register_file(cpu), cpu.cpsr().bits())
    }
}

/// `emu.memory.*` - bus reads. `core` selects the DS bus (0 = ARM9, 1 = ARM7); the GBA
/// ignores it.
pub struct Memory<'a> {
    pub emu: &'a mut Emulator,
}

impl Memory<'_> {
    /// Read a byte via the bus (side-effect-free - does not advance the timeline).
    pub fn read8(&mut self, core: usize, address: u32) -> (value: u8)
        requires
            old(self).emu.valid(),
        ensures
            final(self).emu.valid(),
            value == (readout::value_at(old(self).emu.gba().system, address, AccessWidth::Byte) % 0x100) as u8,
            undisturbed(old(self).emu.gba(), final(self).emu.gba()),
            *final(final(self).emu) == *final(old(self).emu),
    {
        match self.emu {
            Emulator::Gba(g) => readout::read8(&mut g.system, address),
        }
    }

    /// Read a halfword via the bus.
    pub fn read16(&mut self, core: usize, address: u32) -> (value: u16)
        requires
            old(self).emu.valid(),
        ensures
            final(self).emu.valid(),
            value == (readout::value_at(old(self).emu.gba().system, address, AccessWidth::Half)
                % 0x1_0000) as u16,
            undisturbed(old(self).emu.gba(), final(self).emu.gba()),
            *final(final(self).emu) == *final(old(self).emu),
    {
        match self.emu {
            Emulator::Gba(g) => readout::read16(&mut g.system, address),
        }
    }

    /// Read a word via the bus.
    pub fn read32(&mut self, core: usize, address: u32) -> (value: u32)
        requires
            old(self).emu.valid(),
        ensures
            final(self).emu.valid(),
            value == readout::value_at(old(self).emu.gba().system, address, AccessWidth::Word),
            undisturbed(old(self).emu.gba(), final(self).emu.gba()),
            *final(final(self).emu) == *final(old(self).emu),
    {
        match self.emu {
            Emulator::Gba(g) => readout::read32(&mut g.system, address),
        }
    }
}

/// `emu.scheduler.*` - the event timeline.
pub struct Scheduler<'a> {
    pub emu: &'a mut Emulator,
}

impl Scheduler<'_> {
    /// The emulator that is looked at.
    pub open spec fn gba(&self) -> GbaEmulator {
        self.emu.gba()
    }

    fn timeline(&self) -> (scheduler: &crate::emu_core::Scheduler<EventKind>)
        ensures
            *scheduler == self.gba().system.scheduler,
    {
        match &*self.emu {
            Emulator::Gba(g) => &g.system.scheduler,
        }
    }

    /// The current guest timestamp.
    pub fn now(&self) -> (now: Timestamp)
        ensures
            now == self.gba().system.scheduler@.now,
    {
        self.timeline().now()
    }

    /// The earliest pending event's time, if any.
    pub fn next_deadline(&self) -> (deadline: Option<Timestamp>)
        ensures
            deadline == self.gba().system.scheduler@.deadline(),
    {
        self.timeline().next_deadline()
    }

    /// The number of pending events, stale ones included.
    pub fn pending_count(&self) -> (count: usize)
        ensures
            count == self.gba().system.scheduler@.events.len(),
    {
        self.timeline().pending_count()
    }

    /// A chronologically sorted snapshot of the pending events as `(time, kind)` pairs.
    pub fn pending_events(&self) -> (events: Vec<(u64, EventKind)>)
        ensures
            events@ == readout::listed(self.gba().system.scheduler@.events),
    {
        readout::event_list(self.timeline())
    }
}

/// `emu.interrupts.*` - interrupt controller state. `core` selects the DS controller
/// (0 = ARM9, 1 = ARM7); the GBA ignores it.
pub struct Interrupts<'a> {
    pub emu: &'a mut Emulator,
}

impl Interrupts<'_> {
    /// The emulator that is looked at.
    pub open spec fn gba(&self) -> GbaEmulator {
        self.emu.gba()
    }

    fn controller(&self, core: usize) -> (irq: &crate::gba::InterruptController)
        ensures
            *irq == self.gba().system.gba.bus@.io.irq,
    {
        match &*self.emu {
            Emulator::Gba(g) => &g.system.gba.bus.io.irq,
        }
    }

    /// `IE` - the enabled interrupt sources.
    pub fn enabled(&self, core: usize) -> (enabled: u32)
        ensures
            enabled == self.gba().system.gba.bus@.io.irq.ie,
    {
        self.controller(core).ie() as u32
    }

    /// `IF` - the pending (requested) interrupt flags.
    pub fn flags(&self, core: usize) -> (flags: u32)
        ensures
            flags == self.gba().system.gba.bus@.io.irq.iflags,
    {
        self.controller(core).iflags() as u32
    }

    /// `IME` - the master interrupt enable.
    pub fn master_enable(&self, core: usize) -> (enabled: bool)
        ensures
            enabled == self.gba().system.gba.bus@.io.irq.ime,
    {
        self.controller(core).ime()
    }

    /// Whether any enabled interrupt is pending (`IE & IF`).
    pub fn pending(&self, core: usize) -> (pending: bool)
        ensures
            pending == self.gba().system.gba.bus@.io.irq.pending(),
    {
        self.controller(core).pending()
    }

    /// Whether the CPU's interrupt line is asserted (pending and `IME`).
    pub fn line_asserted(&self, core: usize) -> (asserted: bool)
        ensures
            asserted == self.gba().system.gba.bus@.io.irq.line_asserted(),
    {
        self.controller(core).line_asserted()
    }
}

/// `emu.input.*` - keypad input injection (by button name).
pub struct Input<'a> {
    pub emu: &'a mut Emulator,
}

/// The names of the DS buttons, in the order of their keypad bits.
pub open spec fn nds_button_name(bit: int) -> Seq<char> {
    if bit == 0 {
        "A"@
    } else if bit == 1 {
        "B"@
    } else if bit == 2 {
        "SELECT"@
    } else if bit == 3 {
        "START"@
    } else if bit == 4 {
        "RIGHT"@
    } else if bit == 5 {
        "LEFT"@
    } else if bit == 6 {
        "UP"@
    } else if bit == 7 {
        "DOWN"@
    } else if bit == 8 {
        "R"@
    } else if bit == 9 {
        "L"@
    } else if bit == 10 {
        "X"@
    } else {
        "Y"@
    }
}

/// The DS keypad bit for a button name in any case, or `None` if unknown.
pub fn nds_button_bit(name: &str) -> (bit: Option<u32>)
    ensures
        match bit {
            Some(bit) => bit < 12 && text::uppercase(name@) == nds_button_name(bit as int),
            None => forall|bit: int|
                0 <= bit < 12 ==> text::uppercase(name@) != #[trigger] nds_button_name(bit),
        },
{
    if text::is_uppercased(name, "A") {
        return Some(0);
    }
    if text::is_uppercased(name, "B") {
        return Some(1);
    }
    if text::is_uppercased(name, "SELECT") {
        return Some(2);
    }
    if text::is_uppercased(name, "START") {
        return Some(3);
    }
    if text::is_uppercased(name, "RIGHT") {
        return Some(4);
    }
    if text::is_uppercased(name, "LEFT") {
        return Some(5);
    }
    if text::is_uppercased(name, "UP") {
        return Some(6);
    }
    if text::is_uppercased(name, "DOWN") {
        return Some(7);
    }
    if text::is_uppercased(name, "R") {
        return Some(8);
    }
    if text::is_uppercased(name, "L") {
        return Some(9);
    }
    if text::is_uppercased(name, "X") {
        return Some(10);
    }
    if text::is_uppercased(name, "Y") {
        return Some(11);
    }
    None
}

/// The emulator with a key pressed or released.
pub open spec fn with_key(emu: GbaEmulator, key: Key, pressed: bool) -> GbaEmulator {
    GbaEmulator {
        system: System { keypad: emu.system.keypad.with_key(key, pressed), ..emu.system },
        ..emu
    }
}

/// What setting a named button does: an unknown name does nothing.
pub open spec fn name_set(
    before: GbaEmulator,
    after: GbaEmulator,
    name: Seq<char>,
    pressed: bool,
    known: bool,
) -> bool {
    if known {
        exists|key: Key| #[trigger]
            key.spec_name() == text::uppercase(name) && after == with_key(before, key, pressed)
    } else {
        &&& forall|key: Key| #[trigger] key.spec_name() != text::uppercase(name)
        &&& after == before
    }
}

impl Input<'_> {
    /// Set a button (named `"A"`, `"Right"`, ...) pressed or released; returns `false`
    /// for an unknown name.
    pub fn set_name(&mut self, name: &str, pressed: bool) -> (known: bool)
        ensures
            name_set(old(self).emu.gba(), final(self).emu.gba(), name@, pressed, known),
            *final(final(self).emu) == *final(old(self).emu),
    {
        match self.emu {
            Emulator::Gba(g) => match Key::from_name(name) {
                Some(key) => {
                    g.system.set_key(key, pressed);
                    true
                },
                None => false,
            },
        }
    }

    /// Press a named button (returns `false` for an unknown name).
    pub fn press_name(&mut self, name: &str) -> (known: bool)
        ensures
            name_set(old(self).emu.gba(), final(self).emu.gba(), name@, true, known),
            *final(final(self).emu) == *final(old(self).emu),
    {
        self.set_name(name, true)
    }

    /// Release a named button (returns `false` for an unknown name).
    pub fn release_name(&mut self, name: &str) -> (known: bool)
        ensures
            name_set(old(self).emu.gba(), final(self).emu.gba(), name@, false, known),
            *final(final(self).emu) == *final(old(self).emu),
    {
        self.set_name(name, false)
    }
}

} // verus!

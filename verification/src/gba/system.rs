//! A complete GBA: the processor, the machine behind its bus, the timeline they
//! share, the cartridge and the keypad.

use vstd::prelude::*;

use super::apu::ApuState;
use super::bus::BusState;
use super::cartridge::Cartridge;
use super::event::EventKind;
use super::io::IoState;
use super::keypad::{Key, Keypad};
use super::machine::Gba;
use super::ppu::debug::explain::{ExplainError, PixelExplanation, ScanlineExplanation};
use super::ppu::memory::PpuMemoryView;
use super::ppu::obj;
use super::ppu::scanline;
use super::ppu::state::LatchedState;
use super::ppu::Color15;
use crate::arm::cpu::{ArmVersion, Cpu, CpuState};
use crate::emu_core::Scheduler;

verus! {

/// A GBA.
pub struct System {
    pub cpu: Cpu,
    pub gba: Gba,
    pub scheduler: Scheduler<EventKind>,
    pub cartridge: Cartridge,
    pub keypad: Keypad,
}

impl System {
    /// Every part is in a valid state.
    #[verifier::opaque]
    pub open spec fn valid(self) -> bool {
        &&& self.gba.bus@.valid()
        &&& self.scheduler@.valid()
        &&& self.cartridge.backup@.valid()
    }

    /// Everything but the machine behind the bus is as in `other`.
    pub open spec fn same_but_bus(self, other: System) -> bool {
        &&& self.cpu == other.cpu
        &&& self.scheduler == other.scheduler
        &&& self.cartridge == other.cartridge
        &&& self.keypad == other.keypad
    }

    /// The machine behind the bus, with scanline `y` drawn from the current registers.
    pub open spec fn redrawn(self, y: u16) -> BusState {
        let bus = self.gba.bus@;
        BusState {
            io: IoState { video: bus.io.video.poised(y).drawn(y, bus.video_memory()), ..bus.io },
            ..bus
        }
    }

    /// A GBA in its reset state, with no cartridge.
    pub fn new() -> (system: Self)
        ensures
            system.valid(),
            system.cpu@ == CpuState::reset(ArmVersion::Armv4T),
            system.gba.bus@.is_initial(),
            system.scheduler@.now == 0,
            system.scheduler@.next_sequence == 0,
            system.scheduler@.events.len() == 0,
            system.cartridge.rom@ == Seq::<u8>::empty(),
            system.cartridge.save_type == super::cartridge::SaveType::Sram,
            system.cartridge.backup@ == super::cartridge::SaveType::Sram.blank_backup(),
            system.keypad == (Keypad { pressed: 0, keycnt: 0 }),
    {
        reveal(System::valid);
        System {
            cpu: Cpu::new(),
            gba: Gba::new(),
            scheduler: Scheduler::new(),
            cartridge: Cartridge::default(),
            keypad: Keypad::new(),
        }
    }

    /// The current output image, in canonical BGR555.
    pub fn framebuffer(&self) -> (pixels: &[Color15])
        ensures
            pixels@ == self.gba.bus@.io.video.framebuffer,
    {
        self.gba.bus.io.video.framebuffer()
    }

    /// Press or release a button.
    pub fn set_key(&mut self, key: Key, pressed: bool)
        ensures
            *final(self) == (System { keypad: old(self).keypad.with_key(key, pressed), ..*old(self) }),
    {
        self.keypad.set_key(key, pressed);
    }

    /// Explain how the pixel at `(x, y)` in the current state came to be its color.
    pub fn explain_pixel(&mut self, x: u16, y: u16) -> (result: Result<
        PixelExplanation,
        ExplainError,
    >)
        requires
            old(self).valid(),
        ensures
            final(self).valid(),
            final(self).same_but_bus(*old(self)),
            ({
                let video = old(self).gba.bus@.io.video;
                let mem = old(self).gba.bus@.video_memory();
                let state = LatchedState::from_registers(&video.registers);
                match result {
                    Ok(explanation) => {
                        &&& x < 240 && y < 160
                        &&& explanation.x == x && explanation.y == y
                        &&& explanation.frame == video.frame_counter
                        &&& explanation.final_color == scanline::color_at(
                            state,
                            mem,
                            x as int,
                            y as int,
                        )
                        &&& explanation.video_mode == state.mode
                        &&& explanation.scanline_state@ == scanline::scanline_summary(state, y)
                        &&& explanation.candidates@ == scanline::pixel_record(
                            state,
                            mem,
                            x,
                            y,
                        ).candidates
                        &&& explanation.resolved == scanline::resolved_at(
                            state,
                            mem,
                            x as int,
                            y as int,
                        ).explain()
                        &&& explanation.window == scanline::pixel_record(
                            state,
                            mem,
                            x,
                            y,
                        ).final_window()
                        &&& explanation.effect == scanline::pixel_record(
                            state,
                            mem,
                            x,
                            y,
                        ).final_effect()
                        &&& !explanation.partial
                        &&& final(self).gba.bus@ == old(self).redrawn(y)
                    },
                    Err(error) => {
                        &&& x >= 240 || y >= 160
                        &&& error == (ExplainError::PixelOutsideFramebuffer { x, y })
                        &&& final(self).gba.bus@ == old(self).gba.bus@
                    },
                }
            }),
    {
        reveal(System::valid);
        let view = PpuMemoryView::new(&self.gba.bus.memory);
        self.gba.bus.io.video.explain_current_pixel(x, y, &view)
    }

    /// A whole-scanline summary - the latched state, the sprites and the final line of
    /// pixels.
    pub fn inspect_scanline(&mut self, y: u16) -> (explanation: ScanlineExplanation)
        requires
            old(self).valid(),
        ensures
            final(self).valid(),
            final(self).same_but_bus(*old(self)),
            ({
                let line = if y < 160 {
                    y
                } else {
                    159u16
                };
                let mem = old(self).gba.bus@.video_memory();
                let state = LatchedState::from_registers(&old(self).gba.bus@.io.video.registers);
                &&& explanation.state@ == scanline::scanline_summary(state, line)
                &&& explanation.sprites@ == obj::sprites_on(state, mem, line as int)
                &&& explanation.final_line@ == Seq::new(
                    240,
                    |x: int| scanline::color_at(state, mem, x, line as int),
                )
                &&& final(self).gba.bus@ == old(self).redrawn(line)
            }),
    {
        reveal(System::valid);
        let view = PpuMemoryView::new(&self.gba.bus.memory);
        self.gba.bus.io.video.inspect_scanline(y, &view)
    }

    /// Move the generated samples out for the host to play.
    pub fn take_audio(&mut self) -> (samples: Vec<i32>)
        requires
            old(self).valid(),
        ensures
            final(self).valid(),
            final(self).same_but_bus(*old(self)),
            final(self).gba.bus@ == (BusState {
                io: IoState {
                    apu: ApuState { buffer: Seq::empty(), ..old(self).gba.bus@.io.apu },
                    ..old(self).gba.bus@.io
                },
                ..old(self).gba.bus@
            }),
            samples@ == old(self).gba.bus@.io.apu.buffer,
    {
        reveal(System::valid);
        self.gba.bus.io.apu.take_samples()
    }
}

} // verus!

//! The GBA picture processing unit: timing, the video register block, register
//! latching, and the software scanline renderer.
//!
//! The aggregate [`Ppu`] owns the CPU-visible register state, the snapshots that
//! govern the line being drawn, the internal affine reference state, the output
//! framebuffer, and reused per-scanline scratch. Timing lives in
//! [`timing::TimingState`]; the renderer is driven from
//! [`machine`](crate::gba::machine) at each visible line's HBlank.

pub mod accounts;
pub mod bg;
pub mod compositor;
pub mod debug;
pub mod display;
pub mod effects;
pub mod inspect;
pub mod latch;
pub mod memory;
pub mod obj;
pub mod overview;
pub mod priority;
pub mod registers;
pub mod scanline;
pub mod state;
pub mod timing;
pub mod window;

use vstd::prelude::*;

use crate::emu_core::scheduler::Timeline;
use crate::emu_core::{Scheduler, Timestamp};
use crate::gba::event::{EventKind, PpuEvent};
use crate::gba::interrupt::InterruptController;

pub use state::{Color15, LayerId, HEIGHT, WIDTH};

verus! {

/// The picture processing unit.
#[derive(Clone, Debug)]
pub struct Ppu {
    pub timing: timing::TimingState,
    pub registers: registers::Registers,
    pub latched: state::LatchedState,
    pub affine: state::AffineInternalState,
    pub framebuffer: state::Framebuffer,
    /// The register snapshots that govern the scanline being drawn, left to right.
    pub segments: Vec<state::ScanlineSegment>,
    /// When the current scanline began.
    pub line_start_time: Timestamp,
    pub scratch: state::Scratch,
    pub frame_counter: u64,
}

/// What the picture processing unit stands for. The scratch is not part of it:
/// nothing outlives the scanline it is used for.
#[verifier::ext_equal]
pub struct PpuState {
    pub timing: timing::TimingState,
    pub registers: registers::Registers,
    pub latched: state::LatchedState,
    pub affine: state::AffineInternalState,
    pub framebuffer: Seq<Color15>,
    pub segments: Seq<state::ScanlineSegment>,
    pub line_start_time: Timestamp,
    pub frame_counter: u64,
}

impl View for Ppu {
    type V = PpuState;

    open spec fn view(&self) -> PpuState {
        PpuState {
            timing: self.timing,
            registers: self.registers,
            latched: self.latched,
            affine: self.affine,
            framebuffer: self.framebuffer.pixels@,
            segments: self.segments@,
            line_start_time: self.line_start_time,
            frame_counter: self.frame_counter,
        }
    }
}

impl Default for Ppu {
    fn default() -> (ppu: Self)
        ensures
            ppu@.is_initial(),
            ppu@.valid(),
    {
        let registers = registers::Registers::default();
        Ppu {
            timing: timing::TimingState::default(),
            registers,
            latched: state::LatchedState::from_registers(&registers),
            affine: state::AffineInternalState::default(),
            framebuffer: state::Framebuffer::default(),
            segments: Vec::new(),
            line_start_time: 0,
            scratch: state::Scratch::default(),
            frame_counter: 0,
        }
    }
}

impl PpuState {
    /// A blank display before its first line.
    pub open spec fn is_initial(self) -> bool {
        &&& self.timing == timing::TimingState::initial()
        &&& self.registers.is_cleared()
        &&& self.latched == state::LatchedState::from_registers(&self.registers)
        &&& self.affine == state::AffineInternalState::origin()
        &&& self.framebuffer == state::Framebuffer::black()
        &&& self.segments == Seq::<state::ScanlineSegment>::empty()
        &&& self.line_start_time == 0
        &&& self.frame_counter == 0
    }

    /// The timing is within the frame, and the framebuffer holds one.
    pub open spec fn valid(self) -> bool {
        self.timing.valid() && self.framebuffer.len() == 38400
    }

    /// Whether the display is force-blanked (`DISPCNT` bit 7).
    pub open spec fn forced_blank(self) -> bool {
        self.registers.dispcnt & 0x80 != 0
    }

    /// The unit after LCD timing began.
    pub open spec fn started(self, now: Timestamp) -> PpuState {
        PpuState {
            timing: timing::TimingState { vcount: 0, hblank_flag: false, ..self.timing },
            line_start_time: now,
            ..self
        }.line_latched()
    }

    /// The unit, interrupt controller and timeline after a timing event.
    pub open spec fn advanced(
        self,
        event: PpuEvent,
        irq: InterruptController,
        timeline: Timeline<EventKind>,
    ) -> Option<(PpuState, InterruptController, Timeline<EventKind>)> {
        match self.timing.advanced(event, irq, timeline) {
            Some((timing, after_irq, after_timeline)) => {
                let moved = PpuState { timing, ..self };
                let after = if event == PpuEvent::LineStart {
                    let begun = PpuState { line_start_time: timeline.now, ..moved };
                    if timing.vcount < HEIGHT {
                        begun.line_latched()
                    } else {
                        begun
                    }
                } else {
                    moved
                };
                Some((after, after_irq, after_timeline))
            },
            None => None,
        }
    }
}

impl Ppu {
    /// A blank display before its first line.
    pub fn new() -> (ppu: Self)
        ensures
            ppu@.is_initial(),
            ppu@.valid(),
    {
        Self::default()
    }

    // --- timing delegators ---

    /// The current scanline (VCOUNT), 0..=227.
    pub fn vcount(&self) -> (line: u16)
        ensures
            line == self@.timing.vcount,
    {
        self.timing.vcount()
    }

    /// Whether the current scanline is within the VBlank flag window.
    pub fn vblank_flag(&self) -> (flag: bool)
        ensures
            flag == self@.timing.vblank_flag(),
    {
        self.timing.vblank_flag()
    }

    /// Whether the current scanline is in its horizontal blank.
    pub fn hblank_flag(&self) -> (flag: bool)
        ensures
            flag == self@.timing.hblank_flag,
    {
        self.timing.hblank_flag()
    }

    /// Whether VCOUNT currently matches the V-count target.
    pub fn vcount_match(&self) -> (flag: bool)
        ensures
            flag == self@.timing.vcount_match(),
    {
        self.timing.vcount_match()
    }

    /// Read `DISPSTAT` (`4000004h`).
    pub fn read_dispstat(&self) -> (value: u16)
        requires
            self@.valid(),
        ensures
            value == self@.timing.dispstat(),
    {
        self.timing.read_dispstat()
    }

    /// Write `DISPSTAT`.
    pub fn write_dispstat(&mut self, value: u16)
        ensures
            final(self)@ == (PpuState {
                timing: old(self)@.timing.dispstat_written(value),
                ..old(self)@
            }),
            old(self)@.valid() ==> final(self)@.valid(),
    {
        self.timing.write_dispstat(value);
    }

    /// Read `VCOUNT` (`4000006h`).
    pub fn read_vcount(&self) -> (line: u16)
        ensures
            line == self@.timing.vcount,
    {
        self.timing.read_vcount()
    }

    // --- DISPCNT and the rest of the video register block ---

    /// Read `DISPCNT` (`4000000h`).
    pub fn read_dispcnt(&self) -> (value: u16)
        ensures
            value == self@.registers.dispcnt,
    {
        self.registers.dispcnt
    }

    /// Write `DISPCNT`.
    pub fn write_dispcnt(&mut self, value: u16)
        ensures
            final(self)@ == (PpuState {
                registers: registers::Registers { dispcnt: value, ..old(self)@.registers },
                ..old(self)@
            }),
    {
        self.registers.dispcnt = value;
    }

    /// Read a video register in the `0x008..=0x054` block.
    pub fn read_video_register(&self, offset: u32) -> (value: u16)
        ensures
            value == self@.registers.register(offset),
    {
        self.registers.read16(offset)
    }

    /// Apply a masked write to a video register in the `0x008..=0x054` block.
    pub fn write_video_register(&mut self, offset: u32, value: u16, mask: u16)
        ensures
            final(self)@ == (PpuState {
                registers: old(self)@.registers.written(offset, value, mask),
                ..old(self)@
            }),
    {
        self.registers.write16(offset, value, mask);
    }

    /// Whether the display is force-blanked (`DISPCNT` bit 7), during which the
    /// PPU does not access video memory.
    pub fn forced_blank(&self) -> (blank: bool)
        ensures
            blank == self@.forced_blank(),
    {
        self.registers.dispcnt & 0x80 != 0
    }

    /// Whether the PPU is actively drawing and thus contending for video memory:
    /// a visible scanline, outside HBlank, with the display enabled. A CPU or DMA
    /// access to VRAM/palette/OAM during this window costs one extra cycle.
    pub fn is_rendering(&self) -> (rendering: bool)
        ensures
            rendering == (self@.timing.vcount < HEIGHT && !self@.timing.hblank_flag
                && !self@.forced_blank()),
    {
        (self.vcount() as usize) < HEIGHT && !self.hblank_flag() && !self.forced_blank()
    }

    // --- framebuffer / frame accounting ---

    /// The current output image, in canonical BGR555.
    pub fn framebuffer(&self) -> (pixels: &[Color15])
        ensures
            pixels@ == self@.framebuffer,
    {
        self.framebuffer.pixels.as_slice()
    }

    /// The number of frames completed so far.
    pub fn frame(&self) -> (frame: u64)
        ensures
            frame == self@.frame_counter,
    {
        self.frame_counter
    }

    /// Mark the end of a frame (called at the start of VBlank).
    pub fn end_frame(&mut self)
        ensures
            final(self)@ == (PpuState {
                frame_counter: old(self)@.frame_counter.wrapping_add(1),
                ..old(self)@
            }),
    {
        self.frame_counter = self.frame_counter.wrapping_add(1);
    }

    // --- timing lifecycle ---

    /// Begin LCD timing at `now`, latching scanline 0's registers.
    pub fn start(&mut self, now: Timestamp, scheduler: &mut Scheduler<EventKind>)
        requires
            old(scheduler)@.valid(),
            timing::line_scheduled(old(scheduler)@, now) is Some,
        ensures
            final(self)@ == old(self)@.started(now),
            timing::line_scheduled(old(scheduler)@, now) == Some(final(scheduler)@),
            final(scheduler)@.valid(),
    {
        self.timing.start(now, scheduler);
        self.line_start_time = now;
        self.latch_for_scanline();
    }

    /// Dispatch a PPU timing event, latching registers when a visible line begins.
    pub fn handle_event(
        &mut self,
        event: PpuEvent,
        irq: &mut InterruptController,
        scheduler: &mut Scheduler<EventKind>,
    )
        requires
            old(self)@.valid(),
            old(scheduler)@.valid(),
            old(self)@.advanced(event, *old(irq), old(scheduler)@) is Some,
        ensures
            final(self)@.valid(),
            final(scheduler)@.valid(),
            old(self)@.advanced(event, *old(irq), old(scheduler)@) == Some(
                (final(self)@, *final(irq), final(scheduler)@),
            ),
    {
        let now: Timestamp = scheduler.now();
        self.timing.handle_event(event, irq, scheduler);
        if event == PpuEvent::LineStart {
            self.line_start_time = now;
            if (self.vcount() as usize) < HEIGHT {
                self.latch_for_scanline();
            }
        }
    }
}

} // verus!

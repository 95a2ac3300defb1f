//! The PPU's scanline/blank timing machine.
//!
//! No pixels here - this drives VCOUNT, the HBlank/VBlank/V-counter flags, and the
//! display interrupts that the rest of the timing model attaches to. The display
//! runs continuously: each of the 228 scanlines is 1232 cycles - the line starts
//! (VCOUNT advances), the horizontal blank begins at cycle 1006, and the next line
//! starts at 1232. Two scheduled events per line drive this; VBlank and V-counter
//! transitions are derived at line start. No generation invalidation is needed
//! because DISPSTAT writes change only which interrupts fire and the V-count
//! target, never the timing itself.

use vstd::prelude::*;

use crate::emu_core::scheduler::Timeline;
use crate::emu_core::{Scheduler, Timestamp};
use crate::gba::event::{EventKind, PpuEvent};
use crate::gba::interrupt::{InterruptController, IrqSource};

verus! {

/// Cycles per scanline (308 dots x 4 cycles).
pub const CYCLES_PER_LINE: Timestamp = 1232;

/// Cycle within a scanline at which the HBlank flag is raised. Drawing ends at
/// 960, but hardware holds the flag low for 1006 cycles.
pub const HBLANK_START_CYCLE: Timestamp = 1006;

/// Scanlines per frame (160 visible + 68 blank).
pub const TOTAL_LINES: u16 = 228;

/// First scanline of the vertical blank.
pub const VBLANK_START_LINE: u16 = 160;

/// Last scanline for which the VBlank flag is set (227 clears it).
pub const VBLANK_FLAG_LAST_LINE: u16 = 226;

/// The PPU timing state: the `DISPSTAT` control bits and the current scanline.
#[derive(Clone, Copy, Debug, PartialEq, Eq, Structural)]
pub struct TimingState {
    pub vcount: u16,
    pub hblank_flag: bool,
    /// `DISPSTAT` V-count target (LYC).
    pub vcount_target: u16,
    pub vblank_irq_enable: bool,
    pub hblank_irq_enable: bool,
    pub vcount_irq_enable: bool,
}

impl Default for TimingState {
    fn default() -> (timing: Self)
        ensures
            timing == TimingState::initial(),
            timing.valid(),
    {
        TimingState {
            vcount: 0,
            hblank_flag: false,
            vcount_target: 0,
            vblank_irq_enable: false,
            hblank_irq_enable: false,
            vcount_irq_enable: false,
        }
    }
}

/// The weight of a flag at a bit position.
pub open spec fn weight(flag: bool, bit: int) -> int {
    if flag {
        bit
    } else {
        0
    }
}

/// The timeline with a scanline's HBlank and the following line start queued;
/// `None` past the end of the timeline.
pub open spec fn line_scheduled(timeline: Timeline<EventKind>, line_start: Timestamp) -> Option<
    Timeline<EventKind>,
> {
    if timeline.can_schedule(line_start + HBLANK_START_CYCLE) && line_start + CYCLES_PER_LINE
        <= u64::MAX && timeline.next_sequence + 1 < u64::MAX {
        Some(
            timeline.scheduled(
                (line_start + HBLANK_START_CYCLE) as u64,
                EventKind::Ppu(PpuEvent::HBlank),
            ).scheduled(
                (line_start + CYCLES_PER_LINE) as u64,
                EventKind::Ppu(PpuEvent::LineStart),
            ),
        )
    } else {
        None
    }
}

impl TimingState {
    /// Scanline 0, nothing enabled.
    pub open spec fn initial() -> TimingState {
        TimingState {
            vcount: 0,
            hblank_flag: false,
            vcount_target: 0,
            vblank_irq_enable: false,
            hblank_irq_enable: false,
            vcount_irq_enable: false,
        }
    }

    /// VCOUNT names a scanline, and the target fits its register field.
    pub open spec fn valid(self) -> bool {
        self.vcount < TOTAL_LINES && self.vcount_target <= 0xFF
    }

    /// The current scanline (VCOUNT), 0..=227.
    #[verifier::allow_in_spec]
    pub fn vcount(&self) -> u16
        returns
            self.vcount,
    {
        self.vcount
    }

    /// Whether the current scanline is within the VBlank flag window (160..=226).
    #[verifier::allow_in_spec]
    pub fn vblank_flag(&self) -> bool
        returns
            VBLANK_START_LINE <= self.vcount && self.vcount <= VBLANK_FLAG_LAST_LINE,
    {
        VBLANK_START_LINE <= self.vcount && self.vcount <= VBLANK_FLAG_LAST_LINE
    }

    /// Whether the current scanline is in its horizontal blank.
    #[verifier::allow_in_spec]
    pub fn hblank_flag(&self) -> bool
        returns
            self.hblank_flag,
    {
        self.hblank_flag
    }

    /// Whether VCOUNT currently matches the V-count target.
    #[verifier::allow_in_spec]
    pub fn vcount_match(&self) -> bool
        returns
            self.vcount == self.vcount_target,
    {
        self.vcount == self.vcount_target
    }

    /// `DISPSTAT` as a number: flags in bits 0-2, interrupt enables in bits 3-5, the
    /// V-count target in bits 8-15.
    pub open spec fn dispstat(self) -> int {
        weight(self.vblank_flag(), 1) + weight(self.hblank_flag, 2) + weight(self.vcount_match(), 4)
            + weight(self.vblank_irq_enable, 8) + weight(self.hblank_irq_enable, 16) + weight(
            self.vcount_irq_enable,
            32,
        ) + self.vcount_target * 256
    }

    /// Read `DISPSTAT` (`4000004h`).
    pub fn read_dispstat(&self) -> (value: u16)
        requires
            self.valid(),
        ensures
            value == self.dispstat(),
    {
        let mut value: u16 = self.vcount_target * 256;
        if self.vblank_flag() {
            value = value + 1;
        }
        if self.hblank_flag {
            value = value + 2;
        }
        if self.vcount_match() {
            value = value + 4;
        }
        if self.vblank_irq_enable {
            value = value + 8;
        }
        if self.hblank_irq_enable {
            value = value + 16;
        }
        if self.vcount_irq_enable {
            value = value + 32;
        }
        value
    }

    /// The timing state after a `DISPSTAT` write.
    pub open spec fn dispstat_written(self, value: u16) -> TimingState {
        TimingState {
            vblank_irq_enable: value & 0x08 != 0,
            hblank_irq_enable: value & 0x10 != 0,
            vcount_irq_enable: value & 0x20 != 0,
            vcount_target: value / 256,
            ..self
        }
    }

    /// Write `DISPSTAT`. Bits 0-2 are read-only flags and ignored; bits 3-5 are
    /// the interrupt enables; bits 8-15 are the V-count target.
    pub fn write_dispstat(&mut self, value: u16)
        ensures
            *final(self) == old(self).dispstat_written(value),
            old(self).valid() ==> final(self).valid(),
    {
        self.vblank_irq_enable = value & 0x08 != 0;
        self.hblank_irq_enable = value & 0x10 != 0;
        self.vcount_irq_enable = value & 0x20 != 0;
        self.vcount_target = value / 256;
    }

    /// Read `VCOUNT` (`4000006h`).
    #[verifier::allow_in_spec]
    pub fn read_vcount(&self) -> u16
        returns
            self.vcount,
    {
        self.vcount
    }

    /// Begin LCD timing at `now`, on scanline 0.
    pub fn start(&mut self, now: Timestamp, scheduler: &mut Scheduler<EventKind>)
        requires
            old(scheduler)@.valid(),
            line_scheduled(old(scheduler)@, now) is Some,
        ensures
            *final(self) == (TimingState { vcount: 0, hblank_flag: false, ..*old(self) }),
            line_scheduled(old(scheduler)@, now) == Some(final(scheduler)@),
            final(scheduler)@.valid(),
    {
        self.vcount = 0;
        self.hblank_flag = false;
        self.schedule_line_events(now, scheduler);
    }

    /// The timing state and interrupt controller once the horizontal blank begins.
    pub open spec fn hblanked(self, irq: InterruptController) -> (
        TimingState,
        InterruptController,
    ) {
        (
            TimingState { hblank_flag: true, ..self },
            if self.hblank_irq_enable {
                irq.requested(IrqSource::HBlank)
            } else {
                irq
            },
        )
    }

    /// The timing state and interrupt controller once the next line has begun.
    /// Entering the vertical blank raises the VBlank interrupt once per frame, and
    /// the V-counter interrupt fires on the line whose number matches LYC.
    pub open spec fn line_started(self, irq: InterruptController) -> (
        TimingState,
        InterruptController,
    ) {
        let next = TimingState {
            vcount: ((self.vcount + 1) % TOTAL_LINES as int) as u16,
            hblank_flag: false,
            ..self
        };
        let vblank = if next.vcount == VBLANK_START_LINE && next.vblank_irq_enable {
            irq.requested(IrqSource::VBlank)
        } else {
            irq
        };
        let matched = if next.vcount_match() && next.vcount_irq_enable {
            vblank.requested(IrqSource::VCounterMatch)
        } else {
            vblank
        };
        (next, matched)
    }

    /// The timing state, interrupt controller and timeline after a timing event.
    pub open spec fn advanced(
        self,
        event: PpuEvent,
        irq: InterruptController,
        timeline: Timeline<EventKind>,
    ) -> Option<(TimingState, InterruptController, Timeline<EventKind>)> {
        match event {
            PpuEvent::HBlank => Some((self.hblanked(irq).0, self.hblanked(irq).1, timeline)),
            PpuEvent::LineStart => match line_scheduled(timeline, timeline.now) {
                Some(after) => Some((self.line_started(irq).0, self.line_started(irq).1, after)),
                None => None,
            },
        }
    }

    /// Dispatch a PPU timing event.
    pub fn handle_event(
        &mut self,
        event: PpuEvent,
        irq: &mut InterruptController,
        scheduler: &mut Scheduler<EventKind>,
    )
        requires
            old(self).valid(),
            old(scheduler)@.valid(),
            old(self).advanced(event, *old(irq), old(scheduler)@) is Some,
        ensures
            final(self).valid(),
            final(scheduler)@.valid(),
            old(self).advanced(event, *old(irq), old(scheduler)@) == Some(
                (*final(self), *final(irq), final(scheduler)@),
            ),
    {
        match event {
            PpuEvent::HBlank => self.on_hblank(irq),
            PpuEvent::LineStart => self.on_line_start(irq, scheduler),
        }
    }

    /// Enter the horizontal blank. The HBlank interrupt fires on every scanline,
    /// VBlank lines included - matching hardware. (It is HBlank-triggered *DMA* that
    /// is restricted to the visible lines, which the machine enforces separately.)
    pub fn on_hblank(&mut self, irq: &mut InterruptController)
        ensures
            (*final(self), *final(irq)) == old(self).hblanked(*old(irq)),
    {
        self.hblank_flag = true;
        if self.hblank_irq_enable {
            irq.request(IrqSource::HBlank);
        }
    }

    fn on_line_start(&mut self, irq: &mut InterruptController, scheduler: &mut Scheduler<EventKind>)
        requires
            old(self).valid(),
            old(scheduler)@.valid(),
            line_scheduled(old(scheduler)@, old(scheduler)@.now) is Some,
        ensures
            final(self).valid(),
            final(scheduler)@.valid(),
            (*final(self), *final(irq)) == old(self).line_started(*old(irq)),
            line_scheduled(old(scheduler)@, old(scheduler)@.now) == Some(final(scheduler)@),
    {
        self.vcount = (self.vcount + 1) % TOTAL_LINES;
        self.hblank_flag = false;

        // Entering the vertical blank raises the VBlank interrupt once per frame.
        if self.vcount == VBLANK_START_LINE && self.vblank_irq_enable {
            irq.request(IrqSource::VBlank);
        }
        // The V-counter interrupt fires on the line whose number matches LYC.
        if self.vcount_match() && self.vcount_irq_enable {
            irq.request(IrqSource::VCounterMatch);
        }
        let now: Timestamp = scheduler.now();
        self.schedule_line_events(now, scheduler);
    }

    /// Queue this scanline's HBlank and the following line start.
    fn schedule_line_events(&self, line_start: Timestamp, scheduler: &mut Scheduler<EventKind>)
        requires
            old(scheduler)@.valid(),
            line_scheduled(old(scheduler)@, line_start) is Some,
        ensures
            final(scheduler)@.valid(),
            line_scheduled(old(scheduler)@, line_start) == Some(final(scheduler)@),
    {
        scheduler.schedule_at(line_start + HBLANK_START_CYCLE, EventKind::Ppu(PpuEvent::HBlank));
        scheduler.schedule_at(line_start + CYCLES_PER_LINE, EventKind::Ppu(PpuEvent::LineStart));
    }
}

proof fn lemma_enable_bits(value: u16)
    by (bit_vector)
    ensures
        (value / 8) % 8 == (if value & 0x08 != 0 {
            1u16
        } else {
            0u16
        }) + (if value & 0x10 != 0 {
            2u16
        } else {
            0u16
        }) + (if value & 0x20 != 0 {
            4u16
        } else {
            0u16
        }),
{
}

proof fn lemma_fields(flags: int, enables: int, target: int)
    requires
        0 <= flags < 8,
        0 <= enables < 8,
        0 <= target,
    ensures
        (flags + enables * 8 + target * 256) / 256 == target,
        ((flags + enables * 8 + target * 256) / 8) % 8 == enables,
{
}

/// The control bits of `DISPSTAT` read back as written - the interrupt enables
/// (bits 3-5) and the V-count target (bits 8-15) - whatever the flags read.
pub proof fn dispstat_control_bits_round_trip(timing: TimingState, value: u16)
    requires
        timing.valid(),
    ensures
        timing.dispstat_written(value).dispstat() / 256 == value as int / 256,
        (timing.dispstat_written(value).dispstat() / 8) % 8 == (value as int / 8) % 8,
{
    let after = timing.dispstat_written(value);
    let flags = weight(after.vblank_flag(), 1) + weight(after.hblank_flag, 2) + weight(
        after.vcount_match(),
        4,
    );
    let enables = weight(after.vblank_irq_enable, 1) + weight(after.hblank_irq_enable, 2) + weight(
        after.vcount_irq_enable,
        4,
    );
    lemma_enable_bits(value);
    lemma_fields(flags, enables, after.vcount_target as int);
    assert(after.dispstat() == flags + enables * 8 + after.vcount_target * 256);
    assert(enables == (value as int / 8) % 8);
}

/// Writing `DISPSTAT` never disturbs the timing itself.
pub proof fn dispstat_write_keeps_timing(timing: TimingState, value: u16)
    ensures
        timing.dispstat_written(value).vcount == timing.vcount,
        timing.dispstat_written(value).hblank_flag == timing.hblank_flag,
{
}

/// The timing state after some number of line starts.
pub open spec fn after_lines(timing: TimingState, irq: InterruptController, lines: nat) -> (
    TimingState,
    InterruptController,
)
    decreases lines,
{
    if lines == 0 {
        (timing, irq)
    } else {
        let (before, before_irq) = after_lines(timing, irq, (lines - 1) as nat);
        before.line_started(before_irq)
    }
}

/// The display runs through its 228 scanlines in order and starts over: `n` line
/// starts advance VCOUNT by `n`, modulo the frame.
pub proof fn scanlines_cycle(timing: TimingState, irq: InterruptController, lines: nat)
    requires
        timing.valid(),
    ensures
        after_lines(timing, irq, lines).0.vcount == (timing.vcount + lines) % 228,
    decreases lines,
{
    if lines > 0 {
        scanlines_cycle(timing, irq, (lines - 1) as nat);
    }
}

} // verus!

//! The GBA machine: the memory bus (storage plus MMIO devices) that shares the
//! guest timeline.
//!
//! The scheduler is owned outside the machine so that a device can schedule
//! follow-up events through the event context, and so the CPU can thread it into bus
//! writes, without a self-borrow.

use vstd::prelude::*;

use super::apu::CYCLES_PER_SAMPLE;
use super::bus::{Bus, BusState};
use super::dma::DmaTiming;
use super::event::{ApuEvent, EventKind, PpuEvent, TimerEvent};
use super::io::{IoState, PowerState, SystemControl};
use super::ppu::PpuState;
use super::timer::Timers;
use crate::emu_core::scheduler::Timeline;
use crate::emu_core::{EventContext, EventHandler, HandlerModel, Scheduler, Timestamp};

verus! {

/// The first scanline of the vertical blank.
pub const VBLANK_LINE: u16 = 160;

/// The GBA machine state: everything reachable through the bus.
#[derive(Clone, Debug)]
pub struct Gba {
    pub bus: Bus,
}

impl Default for Gba {
    fn default() -> (gba: Self)
        ensures
            gba.bus@.is_initial(),
            gba.bus@.valid(),
    {
        Gba { bus: Bus::default() }
    }
}

/// What the machine stands for.
#[verifier::ext_equal]
pub struct GbaState {
    pub bus: BusState,
}

/// The bus after DirectSound was clocked by timer `id`, if it is among the timers that
/// wrapped: drained FIFOs pull a DMA refill. `None` past the end of the stall counter.
pub open spec fn sound_clocked(bus: BusState, fired: u8, id: usize, now: Timestamp) -> Option<
    BusState,
> {
    let bit = if id == 0 {
        1u8
    } else {
        2u8
    };
    if fired & bit == 0 {
        Some(bus)
    } else {
        let before = bus.io.apu;
        let clocked = BusState {
            io: IoState { apu: before.clocked(0, id).clocked(1, id), ..bus.io },
            ..bus
        };
        let first = if before.needs_refill(0, id) {
            clocked.fifo_refilled(0, now)
        } else {
            Some(clocked)
        };
        match first {
            Some(after) => if before.needs_refill(1, id) {
                after.fifo_refilled(1, now)
            } else {
                Some(after)
            },
            None => None,
        }
    }
}

impl GbaState {
    /// The machine and the timeline after a timer event. Timers 0 and 1 clock the
    /// DirectSound FIFOs.
    pub open spec fn timer_handled(
        self,
        event: TimerEvent,
        timeline: Timeline<EventKind>,
    ) -> Option<(GbaState, Timeline<EventKind>)> {
        match Timers::overflowed(self.bus.io.timers, event, self.bus.io.irq, timeline) {
            Some((timers, irq, after_timeline, fired)) => {
                let wrapped = BusState { io: IoState { timers, irq, ..self.bus.io }, ..self.bus };
                match sound_clocked(wrapped, fired, 0, timeline.now) {
                    Some(first) => match sound_clocked(first, fired, 1, timeline.now) {
                        Some(bus) => Some((GbaState { bus }, after_timeline)),
                        None => None,
                    },
                    None => None,
                }
            },
            None => None,
        }
    }

    /// The machine and the timeline after an output sample came due: the sample is
    /// mixed and the next one scheduled.
    pub open spec fn sample_handled(self, timeline: Timeline<EventKind>) -> Option<
        (GbaState, Timeline<EventKind>),
    > {
        let at = timeline.now + CYCLES_PER_SAMPLE;
        if timeline.can_schedule(at) {
            Some(
                (
                    GbaState {
                        bus: BusState {
                            io: IoState { apu: self.bus.io.apu.sampled(), ..self.bus.io },
                            ..self.bus
                        },
                    },
                    timeline.scheduled(at as u64, EventKind::Apu(ApuEvent::Sample)),
                ),
            )
        } else {
            None
        }
    }

    /// The machine and the timeline after a display event. A blank transition can
    /// trigger DMA: HBlank DMA fires only on visible scanlines, after the line that
    /// just finished is drawn; VBlank DMA fires as line 160 begins, when the frame is
    /// complete.
    pub open spec fn display_handled(
        self,
        event: PpuEvent,
        timeline: Timeline<EventKind>,
    ) -> Option<(GbaState, Timeline<EventKind>)> {
        match self.bus.io.video.advanced(event, self.bus.io.irq, timeline) {
            Some((video, irq, after_timeline)) => {
                let moved = BusState { io: IoState { video, irq, ..self.bus.io }, ..self.bus };
                let line = video.timing.vcount;
                if event == PpuEvent::HBlank && line < VBLANK_LINE {
                    blank_dma(moved.scanline_drawn(), DmaTiming::HBlank, after_timeline)
                } else if event == PpuEvent::LineStart && line == VBLANK_LINE {
                    let frame_counter = video.frame_counter.wrapping_add(1);
                    let ended = BusState {
                        io: IoState {
                            video: PpuState { frame_counter, ..video },
                            ..moved.io
                        },
                        ..moved
                    };
                    blank_dma(ended, DmaTiming::VBlank, after_timeline)
                } else {
                    Some((GbaState { bus: moved }, after_timeline))
                }
            },
            None => None,
        }
    }
}

/// The machine and the timeline after the transfers that a blank triggers; `None`
/// where they do not come to an end within the timeline.
pub open spec fn blank_dma(
    bus: BusState,
    timing: DmaTiming,
    timeline: Timeline<EventKind>,
) -> Option<(GbaState, Timeline<EventKind>)> {
    if bus.can_trigger(timing, timeline) {
        let (after, after_timeline, _) = bus.after_trigger(timing, timeline);
        Some((GbaState { bus: after }, after_timeline))
    } else {
        None
    }
}

impl HandlerModel<EventKind> for GbaState {
    open spec fn handled(self, event: EventKind, timeline: Timeline<EventKind>) -> Option<
        (Self, Timeline<EventKind>),
    > {
        if !self.bus.valid() {
            None
        } else {
            match event {
                EventKind::Timer(event) => self.timer_handled(event, timeline),
                EventKind::Apu(ApuEvent::Sample) => self.sample_handled(timeline),
                EventKind::Ppu(event) => self.display_handled(event, timeline),
            }
        }
    }
}

impl Gba {
    /// A machine in its reset state.
    pub fn new() -> (gba: Self)
        ensures
            gba.bus@.is_initial(),
            gba.bus@.valid(),
    {
        Self::default()
    }

    /// The CPU power state.
    pub fn power_state(&self) -> (power: PowerState)
        ensures
            power == self.bus@.io.control.power,
    {
        self.bus.io.power_state()
    }

    /// Whether the CPU is running.
    pub fn is_running(&self) -> (running: bool)
        ensures
            running == (self.bus@.io.control.power == PowerState::Running),
    {
        self.bus.io.power_state() == PowerState::Running
    }

    /// Whether the CPU is halted or stopped.
    pub fn is_low_power(&self) -> (low: bool)
        ensures
            low == (self.bus@.io.control.power != PowerState::Running),
    {
        self.bus.io.is_low_power()
    }

    /// Whether a pending interrupt should wake the CPU from low power.
    pub fn should_wake(&self) -> (wake: bool)
        ensures
            wake == self.bus@.io.should_wake(),
    {
        self.bus.io.should_wake()
    }

    /// Resume normal execution.
    pub fn wake(&mut self)
        ensures
            final(self).bus@ == (BusState {
                io: IoState {
                    control: SystemControl {
                        power: PowerState::Running,
                        ..old(self).bus@.io.control
                    },
                    ..old(self).bus@.io
                },
                ..old(self).bus@
            }),
    {
        self.bus.io.wake();
    }

    /// Write `HALTCNT` directly (a convenience mirror of the MMIO path).
    pub fn write_haltcnt(&mut self, value: u8)
        ensures
            final(self).bus@ == (BusState {
                io: IoState {
                    control: old(self).bus@.io.control.halted(value),
                    ..old(self).bus@.io
                },
                ..old(self).bus@
            }),
    {
        self.bus.io.control.write_haltcnt(value);
    }

    fn handle_timer(&mut self, event: TimerEvent, scheduler: &mut Scheduler<EventKind>)
        requires
            old(self).bus@.valid(),
            old(scheduler)@.valid(),
            (GbaState { bus: old(self).bus@ }).timer_handled(event, old(scheduler)@) is Some,
        ensures
            final(self).bus@.valid(),
            final(scheduler)@.valid(),
            (GbaState { bus: old(self).bus@ }).timer_handled(event, old(scheduler)@) == Some(
                (GbaState { bus: final(self).bus@ }, final(scheduler)@),
            ),
    {
        let fired: u8 = self.bus.io.timers.handle_overflow(
            event,
            &mut self.bus.io.irq,
            scheduler,
        );
        // Timers 0 and 1 clock the DirectSound FIFOs; a drained FIFO pulls
        // a DMA refill.
        self.clock_sound(fired, 0, scheduler);
        self.clock_sound(fired, 1, scheduler);
    }

    /// Clock DirectSound from timer `id`, if it is among the timers that wrapped.
    fn clock_sound(&mut self, fired: u8, id: usize, scheduler: &Scheduler<EventKind>)
        requires
            id < 2,
            old(self).bus@.valid(),
            sound_clocked(old(self).bus@, fired, id, scheduler@.now) is Some,
        ensures
            final(self).bus@.valid(),
            sound_clocked(old(self).bus@, fired, id, scheduler@.now) == Some(final(self).bus@),
    {
        let bit: u8 = if id == 0 {
            1
        } else {
            2
        };
        if fired & bit == 0 {
            return ;
        }
        let refill = self.bus.io.apu.on_timer_overflow(id);
        assert(refill@[0] == refill[0]);
        if refill[0] {
            self.bus.trigger_fifo_dma(0, scheduler);
        }
        if refill[1] {
            self.bus.trigger_fifo_dma(1, scheduler);
        }
    }

    fn handle_display(&mut self, event: PpuEvent, scheduler: &mut Scheduler<EventKind>)
        requires
            old(self).bus@.valid(),
            old(scheduler)@.valid(),
            (GbaState { bus: old(self).bus@ }).display_handled(event, old(scheduler)@) is Some,
        ensures
            final(self).bus@.valid(),
            final(scheduler)@.valid(),
            (GbaState { bus: old(self).bus@ }).display_handled(event, old(scheduler)@) == Some(
                (GbaState { bus: final(self).bus@ }, final(scheduler)@),
            ),
    {
        self.bus.io.video.handle_event(event, &mut self.bus.io.irq, scheduler);
        // A blank transition can trigger DMA. HBlank DMA fires only on
        // visible scanlines; VBlank DMA fires as line 160 begins.
        let line: u16 = self.bus.io.video.vcount();
        match event {
            PpuEvent::HBlank => if line < VBLANK_LINE {
                // Draw the scanline that just finished, then run its HBlank DMA.
                self.bus.render_ppu_scanline();
                self.bus.trigger_dma(DmaTiming::HBlank, scheduler);
            },
            PpuEvent::LineStart => if line == VBLANK_LINE {
                // The frame is complete as the vertical blank begins.
                self.bus.io.video.end_frame();
                self.bus.trigger_dma(DmaTiming::VBlank, scheduler);
            },
        }
    }
}

impl EventHandler<EventKind> for Gba {
    type Model = GbaState;

    open spec fn model(&self) -> GbaState {
        GbaState { bus: self.bus@ }
    }

    fn handle(&mut self, event: EventKind, ctx: &mut EventContext<'_, EventKind>) {
        match event {
            EventKind::Timer(event) => self.handle_timer(event, ctx.scheduler),
            EventKind::Apu(ApuEvent::Sample) => {
                self.bus.io.apu.generate_sample();
                ctx.scheduler.schedule_after(
                    CYCLES_PER_SAMPLE,
                    EventKind::Apu(ApuEvent::Sample),
                );
            },
            EventKind::Ppu(event) => self.handle_display(event, ctx.scheduler),
        }
    }
}

/// An overflow left stale by a reconfiguration does nothing: reaching it is a harmless
/// stop on the timeline.
pub proof fn stale_overflow_is_ignored(
    gba: GbaState,
    event: TimerEvent,
    timeline: Timeline<EventKind>,
)
    requires
        gba.bus.valid(),
        ({
            let TimerEvent::Overflow { timer, generation } = event;
            gba.bus.io.timers[timer.index() as int].generation != generation
        }),
    ensures
        gba.handled(EventKind::Timer(event), timeline) == Some((gba, timeline)),
{
    assert(0u8 & 1 == 0 && 0u8 & 2 == 0) by (bit_vector);
}

/// HBlank triggers DMA on visible lines only: in the vertical blank it raises the flag
/// and perhaps the interrupt, and moves no data.
pub proof fn hblank_dma_is_for_visible_lines(gba: GbaState, timeline: Timeline<EventKind>)
    requires
        gba.bus.valid(),
        gba.bus.io.video.timing.vcount >= VBLANK_LINE,
    ensures
        gba.handled(EventKind::Ppu(PpuEvent::HBlank), timeline) matches Some((after, after_timeline))
            && after.bus.memory == gba.bus.memory && after.bus.io.dma == gba.bus.io.dma
            && after.bus.io.video.framebuffer == gba.bus.io.video.framebuffer && after_timeline
            == timeline,
{
}

/// Samples follow one another at the output rate: handling one schedules the next.
pub proof fn samples_keep_coming(gba: GbaState, timeline: Timeline<EventKind>)
    requires
        gba.bus.valid(),
        timeline.can_schedule(timeline.now + CYCLES_PER_SAMPLE),
    ensures
        gba.handled(EventKind::Apu(ApuEvent::Sample), timeline) matches Some((after, after_timeline))
            && after.bus.io.apu.buffer.len() == gba.bus.io.apu.buffer.len() + 2 && after_timeline
            == timeline.scheduled(
            (timeline.now + CYCLES_PER_SAMPLE) as u64,
            EventKind::Apu(ApuEvent::Sample),
        ),
{
}

} // verus!

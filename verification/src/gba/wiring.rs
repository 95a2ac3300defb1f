//! Laws of the machine's wiring: which device an event reaches, and what it sets off
//! there.

use vstd::prelude::*;

use super::bus::BusState;
use super::dma::DmaTiming;
use super::event::{ApuEvent, EventKind, PpuEvent};
use super::io::IoState;
use super::machine::{self, GbaState};
use crate::emu_core::scheduler::Timeline;
use crate::emu_core::{HandlerModel, Timestamp};

verus! {

/// A sample is mixed every 512 cycles, and mixing touches nothing but the sound.
pub proof fn samples_are_512_cycles_apart(gba: GbaState, timeline: Timeline<EventKind>)
    requires
        gba.bus.valid(),
        timeline.can_schedule(timeline.now + 512),
    ensures
        gba.handled(EventKind::Apu(ApuEvent::Sample), timeline) matches Some((after, later)) && {
            &&& later == timeline.scheduled(
                (timeline.now + 512) as u64,
                EventKind::Apu(ApuEvent::Sample),
            )
            &&& after.bus == (BusState {
                io: IoState { apu: gba.bus.io.apu.sampled(), ..gba.bus.io },
                ..gba.bus
            })
        },
{
}

/// The bus with the two sound channels clocked by a timer.
pub open spec fn ticked(bus: BusState, timer: usize) -> BusState {
    BusState {
        io: IoState { apu: bus.io.apu.clocked(0, timer).clocked(1, timer), ..bus.io },
        ..bus
    }
}

/// Timers 0 and 1 clock the sound channels that listen to them, each when it wraps and
/// only then. A channel whose queue has run low is refilled by its own DMA channel, the
/// first before the second.
pub proof fn wrapped_timers_clock_the_sound(bus: BusState, fired: u8, now: Timestamp)
    ensures
        fired & 1 == 0 ==> machine::sound_clocked(bus, fired, 0, now) == Some(bus),
        fired & 2 == 0 ==> machine::sound_clocked(bus, fired, 1, now) == Some(bus),
        forall|timer: usize|
            timer < 2 && fired & (if timer == 0 {
                1u8
            } else {
                2u8
            }) != 0 && !bus.io.apu.needs_refill(0, timer) && !bus.io.apu.needs_refill(1, timer)
                ==> #[trigger] machine::sound_clocked(bus, fired, timer, now) == Some(
                ticked(bus, timer),
            ),
        forall|timer: usize|
            timer < 2 && fired & (if timer == 0 {
                1u8
            } else {
                2u8
            }) != 0 && bus.io.apu.needs_refill(0, timer) && !bus.io.apu.needs_refill(1, timer)
                ==> #[trigger] machine::sound_clocked(bus, fired, timer, now) == ticked(
                bus,
                timer,
            ).fifo_refilled(0, now),
        forall|timer: usize|
            timer < 2 && fired & (if timer == 0 {
                1u8
            } else {
                2u8
            }) != 0 && !bus.io.apu.needs_refill(0, timer) && bus.io.apu.needs_refill(1, timer)
                ==> #[trigger] machine::sound_clocked(bus, fired, timer, now) == ticked(
                bus,
                timer,
            ).fifo_refilled(1, now),
{
}

/// The horizontal blank of a visible line draws the line and triggers the channels that
/// wait for it; in lines 160 and up it triggers none.
pub proof fn horizontal_blank_draws_and_transfers(gba: GbaState, timeline: Timeline<EventKind>)
    requires
        gba.bus.valid(),
    ensures
        gba.bus.io.video.advanced(PpuEvent::HBlank, gba.bus.io.irq, timeline) matches Some((
            video,
            irq,
            later,
        )) ==> {
            let moved = BusState { io: IoState { video, irq, ..gba.bus.io }, ..gba.bus };
            let drawn = moved.scanline_drawn();
            let result = gba.handled(EventKind::Ppu(PpuEvent::HBlank), timeline);
            &&& video.timing.vcount < 160 && drawn.can_trigger(DmaTiming::HBlank, later) ==> {
                &&& result is Some
                &&& (result->0).0.bus == drawn.after_trigger(DmaTiming::HBlank, later).0
                &&& (result->0).1 == drawn.after_trigger(DmaTiming::HBlank, later).1
            }
            &&& video.timing.vcount >= 160 ==> result == Some((GbaState { bus: moved }, later))
        },
{
}

/// The start of line 160 ends the frame: the frame is counted, and the channels that
/// wait for the vertical blank are triggered. Any other line starts without either.
pub proof fn vertical_blank_ends_the_frame(gba: GbaState, timeline: Timeline<EventKind>)
    requires
        gba.bus.valid(),
    ensures
        gba.bus.io.video.advanced(PpuEvent::LineStart, gba.bus.io.irq, timeline) matches Some((
            video,
            irq,
            later,
        )) ==> {
            let moved = BusState { io: IoState { video, irq, ..gba.bus.io }, ..gba.bus };
            let counted = super::ppu::PpuState {
                frame_counter: ((video.frame_counter + 1) % 0x1_0000_0000_0000_0000) as u64,
                ..video
            };
            let ended = BusState { io: IoState { video: counted, ..moved.io }, ..moved };
            let result = gba.handled(EventKind::Ppu(PpuEvent::LineStart), timeline);
            &&& video.timing.vcount == 160 && ended.can_trigger(DmaTiming::VBlank, later) ==> {
                &&& result is Some
                &&& (result->0).0.bus == ended.after_trigger(DmaTiming::VBlank, later).0
                &&& (result->0).1 == ended.after_trigger(DmaTiming::VBlank, later).1
            }
            &&& video.timing.vcount != 160 ==> result == Some((GbaState { bus: moved }, later))
        },
{
}

} // verus!

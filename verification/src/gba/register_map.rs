//! Laws of the I/O registers: what each address reads, and what a write there changes.

use vstd::prelude::*;

use super::dma::{self, Dma};
use super::event::EventKind;
use super::interrupt::InterruptController;
use super::io::{IoState, PowerState, SystemControl};
use super::timer::{Timer, TimerId};
use crate::emu_core::scheduler::Timeline;
use crate::emu_core::{AccessWidth, Timestamp};

verus! {

/// The readable registers by their offsets: the display control, status and line at 0,
/// 4 and 6; the timers' counters and controls from 0x100 on, four bytes apart; the
/// interrupt enables, flags and switch at 0x200, 0x202 and 0x208; the wait control at
/// 0x204 and the boot flag at 0x300.
pub proof fn register_reads(io: IoState, now: Timestamp)
    requires
        io.timers.len() == 4,
    ensures
        io.register(0x000, now) == io.video.registers.dispcnt,
        io.register(0x004, now) == io.video.timing.dispstat() as u16,
        io.register(0x006, now) == io.video.timing.vcount,
        io.register(0x100, now) == io.timers[0].count_at(TimerId::Timer0, now),
        io.register(0x104, now) == io.timers[1].count_at(TimerId::Timer1, now),
        io.register(0x108, now) == io.timers[2].count_at(TimerId::Timer2, now),
        io.register(0x10C, now) == io.timers[3].count_at(TimerId::Timer3, now),
        io.register(0x102, now) == io.timers[0].control,
        io.register(0x106, now) == io.timers[1].control,
        io.register(0x10A, now) == io.timers[2].control,
        io.register(0x10E, now) == io.timers[3].control,
        io.register(0x200, now) == io.irq.ie,
        io.register(0x202, now) == io.irq.iflags,
        io.register(0x204, now) == io.control.waitcnt,
        io.register(0x208, now) == (if io.irq.ime {
            1u16
        } else {
            0u16
        }),
        io.register(0x300, now) == io.control.postflg,
        forall|offset: u32|
            0x0B0 <= offset <= 0x0DF ==> #[trigger] io.register(offset, now) == Dma::register(
                io.dma,
                offset,
            ),
{
}

/// A byte of the I/O region is the low or the high byte of its register, a word the
/// register at its address with the next one above it.
pub proof fn io_reads(io: IoState, offset: u32, now: Timestamp)
    requires
        offset % 2 == 0,
        offset < 0x3FE,
    ensures
        io.read(offset, AccessWidth::Half, now) == io.register(offset, now),
        io.read(offset, AccessWidth::Byte, now) + 0x100 * io.read(
            (offset + 1) as u32,
            AccessWidth::Byte,
            now,
        ) == io.register(offset, now),
        io.read(offset, AccessWidth::Byte, now) < 0x100,
        io.read(offset, AccessWidth::Word, now) == io.register(offset, now) + 0x1_0000
            * io.register((offset + 2) as u32, now),
{
    reveal(IoState::read);
}

/// A halfword written to an interrupt or control register: `IE`, `WAITCNT` and the
/// display control take it whole, `IME` its lowest bit; a bit written to `IF` clears
/// that flag.
pub proof fn control_writes(io: IoState, value: u16)
    ensures
        io.plainly_written(0x200, value, 0xFFFF) == (IoState {
            irq: InterruptController { ie: value, ..io.irq },
            ..io
        }),
        io.plainly_written(0x202, value, 0xFFFF) == (IoState {
            irq: InterruptController { iflags: io.irq.iflags & !value, ..io.irq },
            ..io
        }),
        io.plainly_written(0x204, value, 0xFFFF) == (IoState {
            control: SystemControl { waitcnt: value, ..io.control },
            ..io
        }),
        io.plainly_written(0x208, value, 0xFFFF).irq == (InterruptController {
            ime: value % 2 == 1,
            ..io.irq
        }),
        io.plainly_written(0x000, value, 0xFFFF).video.registers.dispcnt == value,
{
    dma::lemma_merged_halfword(io.irq.ie, value);
    dma::lemma_merged_halfword(io.control.waitcnt, value);
    dma::lemma_merged_halfword(io.video.registers.dispcnt, value);
    dma::lemma_whole_mask(value);
}

/// Writing the upper byte at 0x300 pauses the CPU: bit 7 chooses the deeper stop over
/// the halt; the lower byte is the boot flag.
pub proof fn power_writes(io: IoState, value: u16)
    ensures
        ({
            let after = io.plainly_written(0x300, value, 0xFFFF);
            &&& after.control.postflg == value % 256
            &&& after.control.power == (if value >= 0x8000 {
                PowerState::Stopped
            } else {
                PowerState::Halted
            })
            &&& after.control.waitcnt == io.control.waitcnt
            &&& after.irq == io.irq
        }),
{
    dma::lemma_whole_mask(value);
    dma::lemma_top_bit((value / 256) as u8);
}

/// The CPU wakes from a halt at any enabled request, and from a stop only at one of the
/// keypad, the cartridge or the serial port.
pub proof fn waking(io: IoState)
    ensures
        io.control.power == PowerState::Running ==> !io.should_wake(),
        io.control.power == PowerState::Halted ==> io.should_wake() == (io.irq.ie & io.irq.iflags
            != 0),
        io.control.power == PowerState::Stopped ==> io.should_wake() == (io.irq.ie & io.irq.iflags
            & 0x3080 != 0),
{
    dma::lemma_whole_mask(0);
}

/// Writing a timer's counter sets the value that it will be reloaded with, and nothing
/// that it counts by; writing its control configures it.
pub proof fn timer_writes(
    io: IoState,
    i: int,
    value: u16,
    timeline: Timeline<EventKind>,
)
    requires
        io.timers.len() == 4,
        0 <= i < 4,
    ensures
        io.plainly_written((0x100 + 4 * i) as u32, value, 0xFFFF).timers == io.timers.update(
            i,
            Timer { reload: value, ..io.timers[i] },
        ),
        io.register_written((0x102 + 4 * i) as u32, value, 0xFFFF, timeline) matches Some(
            (after, _, changed),
        ) ==> changed && after.timers == io.timers.update(
            i,
            io.timers[i].controlled(TimerId::from_index(i as usize), value, timeline.now),
        ),
{
    dma::lemma_merged_halfword(io.timers[i].reload, value);
    dma::lemma_merged_halfword(io.timers[i].control, value);
}

/// A byte write is a write of its half of the register; a word write is two halfword
/// writes, the lower register first.
pub proof fn io_writes(
    io: IoState,
    offset: u32,
    value: u32,
    timeline: Timeline<EventKind>,
)
    requires
        offset % 2 == 0,
        offset < 0x3FE,
    ensures
        io.written(offset, AccessWidth::Half, value, timeline) == io.register_written(
            offset,
            (value % 0x1_0000) as u16,
            0xFFFF,
            timeline,
        ),
        io.written(offset, AccessWidth::Byte, value, timeline) == io.register_written(
            offset,
            (value % 0x100) as u16,
            0x00FF,
            timeline,
        ),
        io.written((offset + 1) as u32, AccessWidth::Byte, value, timeline) == io.register_written(
            offset,
            (value % 0x100 * 0x100) as u16,
            0xFF00,
            timeline,
        ),
        match io.register_written(offset, (value % 0x1_0000) as u16, 0xFFFF, timeline) {
            Some((low, low_timeline, low_changed)) => match low.register_written(
                (offset + 2) as u32,
                (value / 0x1_0000) as u16,
                0xFFFF,
                low_timeline,
            ) {
                Some((high, high_timeline, high_changed)) => io.written(
                    offset,
                    AccessWidth::Word,
                    value,
                    timeline,
                ) == Some((high, high_timeline, low_changed || high_changed)),
                None => io.written(offset, AccessWidth::Word, value, timeline) is None,
            },
            None => io.written(offset, AccessWidth::Word, value, timeline) is None,
        },
{
    reveal(IoState::written);
}

} // verus!

//! Laws of DMA transfers on the bus: how far the pointers move, what a unit copies,
//! and where the next trigger goes on.

use vstd::prelude::*;

use super::model::BusState;
use crate::emu_core::scheduler::Timeline;
use crate::emu_core::{Access, AccessKind, AccessSequence, AccessWidth, Timestamp};
use crate::gba::dma::{self, DmaChannel, DmaTiming};
use crate::gba::event::EventKind;

verus! {

/// How far a channel's source pointer moves with each unit.
pub open spec fn source_stride(channel: DmaChannel) -> int {
    dma::stride(channel, channel.control / 0x80 % 4, 0)
}

/// How far a channel's destination pointer moves with each unit.
pub open spec fn dest_stride(channel: DmaChannel) -> int {
    dma::stride(channel, channel.control / 0x20 % 4, dma::unit(channel))
}

proof fn lemma_wrapped_step(start: int, left: int, stride: int)
    requires
        left >= 1,
    ensures
        ((start + stride) % 0x1_0000_0000 + (left - 1) * stride) % 0x1_0000_0000 == (start + left
            * stride) % 0x1_0000_0000,
{
    assert(start + stride + (left - 1) * stride == start + left * stride) by (nonlinear_arith);
    vstd::arithmetic::div_mod::lemma_add_mod_noop(
        start + stride,
        (left - 1) * stride,
        0x1_0000_0000,
    );
    vstd::arithmetic::div_mod::lemma_add_mod_noop(
        (start + stride) % 0x1_0000_0000,
        (left - 1) * stride,
        0x1_0000_0000,
    );
    vstd::arithmetic::div_mod::lemma_mod_twice(start + stride, 0x1_0000_0000);
}

/// A transfer of `left` units moves each pointer by `left` of its strides, modulo
/// 2^32.
pub proof fn pointers_advance_by_units(
    bus: BusState,
    channel: DmaChannel,
    i: nat,
    left: nat,
    source: u32,
    dest: u32,
    sequence: AccessSequence,
    cycles: int,
    timeline: Timeline<EventKind>,
    depth: nat,
)
    ensures
        bus.units_moved(
            channel,
            i,
            left,
            source,
            dest,
            sequence,
            cycles,
            timeline,
            depth,
        ) matches Some((_, _, last_source, last_dest, _)) ==> last_source == (source + left
            * source_stride(channel)) % 0x1_0000_0000 && last_dest == (dest + left * dest_stride(
            channel,
        )) % 0x1_0000_0000,
    decreases left,
{
    if left > 0 {
        let access = Access::dma(i as u8, AccessKind::Data, sequence);
        let width = super::model::unit_width(&channel);
        let (value, read_cycles, after_read) = bus.read(source, width, access, timeline.now);
        if let Some((after, after_timeline, write_cycles, _)) = after_read.written(
            dest,
            crate::gba::memory::truncated(value, width),
            width,
            access,
            timeline,
            depth,
        ) {
            dma::pointers_step_by_a_unit(channel, source);
            dma::pointers_step_by_a_unit(channel, dest);
            let next_source = source.wrapping_add(channel.source_step());
            let next_dest = dest.wrapping_add(channel.dest_step());
            pointers_advance_by_units(
                after,
                channel,
                i,
                (left - 1) as nat,
                next_source,
                next_dest,
                AccessSequence::Sequential,
                cycles + read_cycles + write_cycles,
                after_timeline,
                depth,
            );
            lemma_wrapped_step(source as int, left as int, source_stride(channel));
            lemma_wrapped_step(dest as int, left as int, dest_stride(channel));
        }
    } else {
        assert(0 * source_stride(channel) == 0);
        assert(0 * dest_stride(channel) == 0);
    }
}

/// A unit is a word or a halfword read at the source and the same word or halfword
/// written at the destination; the units that remain go on from the moved pointers.
pub proof fn unit_is_copied(
    bus: BusState,
    channel: DmaChannel,
    i: nat,
    source: u32,
    dest: u32,
    sequence: AccessSequence,
    timeline: Timeline<EventKind>,
    depth: nat,
)
    ensures
        ({
            let access = Access::dma(i as u8, AccessKind::Data, sequence);
            let width = if dma::unit(channel) == 4 {
                AccessWidth::Word
            } else {
                AccessWidth::Half
            };
            let (value, read_cycles, after_read) = bus.read(source, width, access, timeline.now);
            let sent = if dma::unit(channel) == 4 {
                value
            } else {
                (value % 0x1_0000) as u32
            };
            let moved = bus.units_moved(
                channel,
                i,
                1,
                source,
                dest,
                sequence,
                0,
                timeline,
                depth,
            );
            match after_read.written(dest, sent, width, access, timeline, depth) {
                Some((after, after_timeline, write_cycles, _)) => moved matches Some(
                    (end, end_timeline, _, _, cycles),
                ) && end == after && end_timeline == after_timeline && cycles == read_cycles
                    + write_cycles,
                None => moved is None,
            }
        }),
{
    dma::control_names_the_timing(channel);
    reveal_with_fuel(BusState::units_moved, 2);
}

/// The bus once channel `i` has moved all its units, before the transfer is ended.
pub open spec fn all_units_moved(
    bus: BusState,
    i: nat,
    timeline: Timeline<EventKind>,
    depth: nat,
) -> BusState {
    let channel = bus.io.dma[i as int];
    (bus.units_moved(
        channel,
        i,
        channel.internal_count as nat,
        channel.internal_source,
        channel.internal_dest,
        AccessSequence::NonSequential,
        0,
        timeline,
        depth,
    )->0).0
}

/// When a channel's transfer is over, its source pointer has moved past every unit of
/// its count, whether or not it repeats: the next trigger reads on from there.
pub proof fn next_trigger_reads_on(
    bus: BusState,
    i: nat,
    timeline: Timeline<EventKind>,
    depth: nat,
)
    requires
        i < 4,
        bus.io.dma.len() == 4,
        bus.channel_run(i, timeline, depth) is Some,
        all_units_moved(bus, i, timeline, depth).io.dma.len() == 4,
    ensures
        ({
            let channel = bus.io.dma[i as int];
            let after = (bus.channel_run(i, timeline, depth)->0).0.io.dma[i as int];
            after.internal_source == (channel.internal_source + channel.internal_count
                * source_stride(channel)) % 0x1_0000_0000
        }),
{
    let channel = bus.io.dma[i as int];
    pointers_advance_by_units(
        bus,
        channel,
        i,
        channel.internal_count as nat,
        channel.internal_source,
        channel.internal_dest,
        AccessSequence::NonSequential,
        0,
        timeline,
        depth,
    );
    reveal(BusState::transfer_ended);
    if let Some((moved, _, source, dest, _)) = bus.units_moved(
        channel,
        i,
        channel.internal_count as nat,
        channel.internal_source,
        channel.internal_dest,
        AccessSequence::NonSequential,
        0,
        timeline,
        depth,
    ) {
        dma::transfer_end(moved.io.dma[i as int], source, dest);
    }
}

/// A sound FIFO is always fed four words, from addresses one word apart in the
/// direction that the source control names; the destination pointer stays at the
/// FIFO.
pub proof fn fifo_feed_moves_four_words(bus: BusState, i: nat, fifo: int, now: Timestamp)
    requires
        i < 4,
        bus.io.dma.len() == 4,
        bus.fifo_fed(i, fifo, now) is Some,
        bus.words_fed(
            i,
            fifo,
            super::model::word_step(&bus.io.dma[i as int]),
            4,
            bus.io.dma[i as int].internal_source,
            AccessSequence::NonSequential,
            0,
            now,
        ).0.io.dma.len() == 4,
    ensures
        ({
            let channel = bus.io.dma[i as int];
            let after = bus.fifo_fed(i, fifo, now)->0.io.dma[i as int];
            after.internal_source == (channel.internal_source + (if channel.control / 0x80 % 4
                == 0 {
                16int
            } else if channel.control / 0x80 % 4 == 1 {
                -16
            } else {
                0
            })) % 0x1_0000_0000
        }),
{
    let channel = bus.io.dma[i as int];
    dma::lemma_control_fields(channel.control);
    reveal_with_fuel(BusState::words_fed, 5);
    reveal(BusState::transfer_ended);
    let step = super::model::word_step(&channel);
    let (fed, source, cycles) = bus.words_fed(
        i,
        fifo,
        step,
        4,
        channel.internal_source,
        AccessSequence::NonSequential,
        0,
        now,
    );
    assert(source == channel.internal_source.wrapping_add(step).wrapping_add(step).wrapping_add(
        step,
    ).wrapping_add(step));
    dma::transfer_end(fed.io.dma[i as int], source, channel.internal_dest);
}

/// The end of a transfer requests the channel's own interrupt, bits 8 to 11 of `IF`
/// in the order of the channels, where control bit 14 asks for it, and no other.
pub proof fn transfer_end_interrupt(bus: BusState, i: nat, source: u32, dest: u32, stall: u64)
    requires
        i < 4,
        bus.io.dma.len() == 4,
    ensures
        ({
            let after = bus.transfer_ended(i, source, dest, stall);
            &&& after.stall == stall
            &&& after.memory == bus.memory
            &&& bus.io.dma[i as int].control / 0x4000 % 2 == 0 ==> after.io.irq == bus.io.irq
            &&& bus.io.dma[i as int].control / 0x4000 % 2 == 1 ==> after.io.irq.iflags == (
            bus.io.irq.iflags | (if i == 0 {
                0x0100u16
            } else if i == 1 {
                0x0200
            } else if i == 2 {
                0x0400
            } else {
                0x0800
            }))
        }),
{
    reveal(BusState::transfer_ended);
    let channel = bus.io.dma[i as int];
    dma::transfer_end(channel, source, dest);
    dma::control_names_the_timing(channel);
    dma::control_names_the_timing(channel.finished(source, dest));
}

/// Only the enabled channels with the timing that was triggered run.
pub proof fn idle_channels_do_not_run(
    bus: BusState,
    timing: DmaTiming,
    timeline: Timeline<EventKind>,
    depth: nat,
    i: nat,
)
    requires
        forall|k: int|
            #![trigger bus.io.dma[k]]
            i <= k < 4 ==> !bus.io.dma[k].enabled || bus.io.dma[k].timing() != timing,
    ensures
        bus.triggered(timing, i, timeline, depth) == Some((bus, timeline, false)),
    decreases 4 - i,
{
    if i < 4 {
        assert(!bus.io.dma[i as int].enabled || bus.io.dma[i as int].timing() != timing);
        idle_channels_do_not_run(bus, timing, timeline, depth, i + 1);
    }
}

} // verus!

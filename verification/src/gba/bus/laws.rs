//! Laws of the bus: what reads give back of writes, which writes are dropped, how the
//! regions mirror, and that the result of a write does not depend on how much nesting
//! is allowed for.

use vstd::prelude::*;

use super::model::BusState;
use crate::emu_core::scheduler::Timeline;
use crate::emu_core::{Access, AccessMaster, AccessSequence, AccessWidth, Timestamp};
use crate::gba::dma::{DmaChannel, DmaTiming};
use crate::gba::event::EventKind;
use crate::gba::memory;

verus! {

// --- nesting depth ---

proof fn lemma_written_deeper(
    bus: BusState,
    addr: u32,
    value: u32,
    width: AccessWidth,
    access: Access,
    timeline: Timeline<EventKind>,
    depth: nat,
    deeper: nat,
)
    requires
        depth <= deeper,
        bus.written(addr, value, width, access, timeline, depth) is Some,
    ensures
        bus.written(addr, value, width, access, timeline, deeper) == bus.written(
            addr,
            value,
            width,
            access,
            timeline,
            depth,
        ),
    decreases depth, 2nat, 0nat,
{
    let aligned = memory::align(addr, width);
    if aligned / 0x100_0000 == 0x04 {
        if let Some((io, io_timeline, _)) = bus.io_written(aligned, value, width, timeline) {
            lemma_pending_deeper(bus.with_io(io), 0, io_timeline, depth, deeper);
        }
    }
}

proof fn lemma_pending_deeper(
    bus: BusState,
    i: nat,
    timeline: Timeline<EventKind>,
    depth: nat,
    deeper: nat,
)
    requires
        depth <= deeper,
        bus.pending_run(i, timeline, depth) is Some,
    ensures
        bus.pending_run(i, timeline, deeper) == bus.pending_run(i, timeline, depth),
    decreases depth, 1nat, (4 - i) as nat,
{
    if i < 4 {
        if bus.io.dma[i as int].start_pending {
            let disarmed = DmaChannel { start_pending: false, ..bus.io.dma[i as int] };
            let ready = bus.with_channel(i as int, disarmed);
            lemma_channel_deeper(ready, i, timeline, (depth - 1) as nat, (deeper - 1) as nat);
            if let Some((after, after_timeline)) = ready.channel_run(
                i,
                timeline,
                (depth - 1) as nat,
            ) {
                lemma_pending_deeper(after, i + 1, after_timeline, depth, deeper);
            }
        } else {
            lemma_pending_deeper(bus, i + 1, timeline, depth, deeper);
        }
    }
}

proof fn lemma_units_deeper(
    bus: BusState,
    channel: DmaChannel,
    i: nat,
    left: nat,
    source: u32,
    dest: u32,
    sequence: AccessSequence,
    cycles: int,
    timeline: Timeline<EventKind>,
    depth: nat,
    deeper: nat,
)
    requires
        depth <= deeper,
        bus.units_moved(channel, i, left, source, dest, sequence, cycles, timeline, depth) is Some,
    ensures
        bus.units_moved(channel, i, left, source, dest, sequence, cycles, timeline, deeper)
            == bus.units_moved(channel, i, left, source, dest, sequence, cycles, timeline, depth),
    decreases depth, 3nat, left,
{
    if left > 0 {
        let access = Access::dma(i as u8, crate::emu_core::AccessKind::Data, sequence);
        let width = super::model::unit_width(&channel);
        let (value, read_cycles, after_read) = bus.read(source, width, access, timeline.now);
        let sent = memory::truncated(value, width);
        lemma_written_deeper(after_read, dest, sent, width, access, timeline, depth, deeper);
        if let Some((after, after_timeline, write_cycles, _)) = after_read.written(
            dest,
            sent,
            width,
            access,
            timeline,
            depth,
        ) {
            lemma_units_deeper(
                after,
                channel,
                i,
                (left - 1) as nat,
                source.wrapping_add(channel.source_step()),
                dest.wrapping_add(channel.dest_step()),
                AccessSequence::Sequential,
                cycles + read_cycles + write_cycles,
                after_timeline,
                depth,
                deeper,
            );
        }
    }
}

proof fn lemma_channel_deeper(
    bus: BusState,
    i: nat,
    timeline: Timeline<EventKind>,
    depth: nat,
    deeper: nat,
)
    requires
        depth <= deeper,
        bus.channel_run(i, timeline, depth) is Some,
    ensures
        bus.channel_run(i, timeline, deeper) == bus.channel_run(i, timeline, depth),
    decreases depth, 4nat, 0nat,
{
    let channel = bus.io.dma[i as int];
    lemma_units_deeper(
        bus,
        channel,
        i,
        channel.internal_count as nat,
        channel.internal_source,
        channel.internal_dest,
        AccessSequence::NonSequential,
        0,
        timeline,
        depth,
        deeper,
    );
}

proof fn lemma_triggered_deeper(
    bus: BusState,
    timing: DmaTiming,
    i: nat,
    timeline: Timeline<EventKind>,
    depth: nat,
    deeper: nat,
)
    requires
        depth <= deeper,
        bus.triggered(timing, i, timeline, depth) is Some,
    ensures
        bus.triggered(timing, i, timeline, deeper) == bus.triggered(timing, i, timeline, depth),
    decreases 4 - i,
{
    if i < 4 {
        if bus.io.dma[i as int].enabled && bus.io.dma[i as int].timing() == timing {
            lemma_channel_deeper(bus, i, timeline, depth, deeper);
            if let Some((after, after_timeline)) = bus.channel_run(i, timeline, depth) {
                lemma_triggered_deeper(after, timing, i + 1, after_timeline, depth, deeper);
            }
        } else {
            lemma_triggered_deeper(bus, timing, i + 1, timeline, depth, deeper);
        }
    }
}

/// What a write does is its result at any depth that suffices: allowing transfers to
/// nest deeper changes nothing.
pub proof fn write_does_not_depend_on_depth(
    bus: BusState,
    addr: u32,
    value: u32,
    width: AccessWidth,
    access: Access,
    timeline: Timeline<EventKind>,
    depth: nat,
)
    requires
        bus.written(addr, value, width, access, timeline, depth) is Some,
    ensures
        bus.can_write(addr, value, width, access, timeline),
        bus.written(addr, value, width, access, timeline, depth) == Some(
            bus.after_write(addr, value, width, access, timeline),
        ),
{
    let chosen = choose|d: nat|
        (#[trigger] bus.written(addr, value, width, access, timeline, d)) is Some;
    if depth <= chosen {
        lemma_written_deeper(bus, addr, value, width, access, timeline, depth, chosen);
    } else {
        lemma_written_deeper(bus, addr, value, width, access, timeline, chosen, depth);
    }
}

/// The transfers that a timing triggers give the same result at any depth that
/// suffices.
pub proof fn trigger_does_not_depend_on_depth(
    bus: BusState,
    timing: DmaTiming,
    timeline: Timeline<EventKind>,
    depth: nat,
)
    requires
        bus.triggered(timing, 0, timeline, depth) is Some,
    ensures
        bus.can_trigger(timing, timeline),
        bus.triggered(timing, 0, timeline, depth) == Some(bus.after_trigger(timing, timeline)),
{
    let chosen = choose|d: nat| (#[trigger] bus.triggered(timing, 0, timeline, d)) is Some;
    if depth <= chosen {
        lemma_triggered_deeper(bus, timing, 0, timeline, depth, chosen);
    } else {
        lemma_triggered_deeper(bus, timing, 0, timeline, chosen, depth);
    }
}

/// A write outside the I/O region always comes to an end: it stores and nothing else.
pub proof fn memory_write_stores(
    bus: BusState,
    addr: u32,
    value: u32,
    width: AccessWidth,
    access: Access,
    timeline: Timeline<EventKind>,
)
    requires
        addr / 0x100_0000 != 0x04,
    ensures
        bus.can_write(addr, value, width, access, timeline),
        bus.after_write(addr, value, width, access, timeline) == (
            bus.stored(memory::align(addr, width), value, width, access.master),
            timeline,
            bus.store_cycles(memory::align(addr, width), width, access.sequence),
            false,
        ),
{
    memory::aligned_access_fits(addr, width);
    write_does_not_depend_on_depth(bus, addr, value, width, access, timeline, 0);
}

proof fn lemma_nothing_pending(bus: BusState, i: nat, timeline: Timeline<EventKind>)
    requires
        forall|k: int| 0 <= k < 4 ==> !(#[trigger] bus.io.dma[k]).start_pending,
    ensures
        bus.pending_run(i, timeline, 0) == Some((bus, timeline, false)),
    decreases 4 - i,
{
    if i < 4 {
        lemma_nothing_pending(bus, i + 1, timeline);
    }
}

/// An I/O write that arms no transfer comes to an end: it changes the devices and
/// nothing else.
pub proof fn unarmed_io_write_settles(
    bus: BusState,
    addr: u32,
    value: u32,
    width: AccessWidth,
    access: Access,
    timeline: Timeline<EventKind>,
)
    requires
        addr / 0x100_0000 == 0x04,
        bus.io_written(memory::align(addr, width), value, width, timeline) matches Some((io, _, _))
            && forall|k: int| 0 <= k < 4 ==> !(#[trigger] io.dma[k]).start_pending,
    ensures
        bus.can_write(addr, value, width, access, timeline),
        ({
            let (io, after_timeline, changed) = bus.io_written(
                memory::align(addr, width),
                value,
                width,
                timeline,
            )->0;
            bus.after_write(addr, value, width, access, timeline) == (
                bus.with_io(io),
                after_timeline,
                1u32,
                changed,
            )
        }),
{
    memory::aligned_access_fits(addr, width);
    let (io, after_timeline, changed) = bus.io_written(
        memory::align(addr, width),
        value,
        width,
        timeline,
    )->0;
    lemma_nothing_pending(bus.with_io(io), 0, after_timeline);
    write_does_not_depend_on_depth(bus, addr, value, width, access, timeline, 0);
}

// --- what reads give back ---

/// RAM gives back what was written to it, in every width, at the same address.
pub proof fn ram_write_reads_back(
    bus: BusState,
    addr: u32,
    value: u32,
    width: AccessWidth,
    master: AccessMaster,
    reader: Access,
    now: Timestamp,
)
    requires
        bus.valid(),
        addr / 0x100_0000 == 0x02 || addr / 0x100_0000 == 0x03,
    ensures
        bus.stored(memory::align(addr, width), value, width, master).read(addr, width, reader, now).0
            == memory::truncated(value, width),
{
    reveal(BusState::stored);
    reveal(BusState::read);
    reveal(BusState::read_aligned);
    reveal(memory::fits);
    memory::aligned_access_fits(addr, width);
    let a = memory::align(addr, width);
    if addr / 0x100_0000 == 0x02 {
        memory::stored_reads_back(bus.memory.ewram, a as int % 0x4_0000, width, value);
    } else {
        memory::stored_reads_back(bus.memory.iwram, a as int % 0x8000, width, value);
    }
}

/// A word written to RAM reads as its halfwords and bytes, least significant first.
pub proof fn ram_is_little_endian(
    bus: BusState,
    addr: u32,
    value: u32,
    master: AccessMaster,
    reader: Access,
    now: Timestamp,
)
    requires
        bus.valid(),
        addr / 0x100_0000 == 0x03,
        addr % 4 == 0,
    ensures
        ({
            let after = bus.stored(addr, value, AccessWidth::Word, master);
            &&& after.read(addr, AccessWidth::Half, reader, now).0 == value % 0x1_0000
            &&& after.read((addr + 2) as u32, AccessWidth::Half, reader, now).0 == value / 0x1_0000
            &&& after.read(addr, AccessWidth::Byte, reader, now).0 == value % 0x100
            &&& after.read((addr + 3) as u32, AccessWidth::Byte, reader, now).0 == value
                / 0x100_0000
        }),
{
    let after = bus.stored(addr, value, AccessWidth::Word, master);
    assert(after.memory.iwram == memory::stored(
        bus.memory.iwram,
        addr as int % 0x8000,
        AccessWidth::Word,
        value,
    )) by {
        reveal(BusState::stored);
    }
    reveal(BusState::read);
    reveal(BusState::read_aligned);
    let off = addr as int % 0x8000;
    assert(off % 4 == 0);
    assert((addr + 2) as int % 0x8000 == off + 2);
    assert((addr + 3) as int % 0x8000 == off + 3);
    memory::stored_word_parts(bus.memory.iwram, off, value);
}

proof fn lemma_mirrored(addr: u32, width: AccessWidth)
    requires
        addr + 0x8000 <= u32::MAX,
    ensures
        memory::align((addr + 0x8000) as u32, width) == memory::align(addr, width) + 0x8000,
        (memory::align(addr, width) + 0x8000) % 0x8000 == memory::align(addr, width) % 0x8000,
{
    let sum = (addr + 0x8000) as u32;
    match width {
        AccessWidth::Byte => {},
        AccessWidth::Half => {
            assert(sum % 2 == addr % 2);
        },
        AccessWidth::Word => {
            assert(sum % 4 == addr % 4);
        },
    }
}

/// IWRAM repeats every 32 KiB through its region.
pub proof fn iwram_mirrors(
    bus: BusState,
    addr: u32,
    width: AccessWidth,
    access: Access,
    now: Timestamp,
)
    requires
        addr / 0x100_0000 == 0x03,
        (addr + 0x8000) / 0x100_0000 == 0x03,
    ensures
        bus.read((addr + 0x8000) as u32, width, access, now).0 == bus.read(
            addr,
            width,
            access,
            now,
        ).0,
{
    reveal(BusState::read);
    reveal(BusState::read_aligned);
    memory::aligned_access_fits(addr, width);
    memory::aligned_access_fits((addr + 0x8000) as u32, width);
    lemma_mirrored(addr, width);
}

/// ROM and BIOS are read-only: a write there changes nothing.
pub proof fn rom_and_bios_are_read_only(
    bus: BusState,
    addr: u32,
    value: u32,
    width: AccessWidth,
    master: AccessMaster,
)
    requires
        addr / 0x100_0000 == 0x00 || 0x08 <= addr / 0x100_0000 <= 0x0D,
    ensures
        bus.stored(memory::align(addr, width), value, width, master) == bus,
{
    reveal(BusState::stored);
    memory::aligned_access_fits(addr, width);
}

/// OAM ignores byte writes.
pub proof fn oam_ignores_byte_writes(bus: BusState, addr: u32, value: u32, master: AccessMaster)
    requires
        addr / 0x100_0000 == 0x07,
    ensures
        bus.stored(addr, value, AccessWidth::Byte, master) == bus,
{
    reveal(BusState::stored);
}

/// A byte written to the palette fills its halfword.
pub proof fn palette_byte_write_duplicates(
    bus: BusState,
    addr: u32,
    value: u32,
    master: AccessMaster,
    reader: Access,
    now: Timestamp,
)
    requires
        bus.valid(),
        addr / 0x100_0000 == 0x05,
    ensures
        bus.stored(addr, value, AccessWidth::Byte, master).read(addr, AccessWidth::Half, reader, now).0
            == value % 0x100 * 0x101,
{
    reveal(BusState::stored);
    reveal(BusState::read);
    reveal(BusState::read_aligned);
    let off = addr as int % 0x400;
    let a = memory::align(addr, AccessWidth::Half);
    assert(a as int % 0x400 == off - off % 2);
    assert(a / 0x100_0000 == 0x05);
    assert((value % 0x100 * 0x101) % 0x100 == value % 0x100);
    assert((value % 0x100 * 0x101) / 0x100 == value % 0x100);
}

/// SRAM is out of reach for every DMA channel: its reads see nothing and its writes
/// are dropped.
pub proof fn sram_is_for_the_cpu_only(
    bus: BusState,
    addr: u32,
    value: u32,
    width: AccessWidth,
    channel: u8,
    access: Access,
    now: Timestamp,
)
    requires
        addr / 0x100_0000 == 0x0E || addr / 0x100_0000 == 0x0F,
        access.master == AccessMaster::Dma(channel),
    ensures
        bus.read(addr, width, access, now).0 == 0,
        bus.stored(memory::align(addr, width), value, width, access.master) == bus,
{
    reveal(BusState::stored);
    reveal(BusState::read);
    reveal(BusState::read_aligned);
    memory::aligned_access_fits(addr, width);
}

/// Only the CPU and DMA3 reach the cartridge ROM.
pub proof fn rom_is_for_the_cpu_and_dma3(
    bus: BusState,
    addr: u32,
    width: AccessWidth,
    channel: u8,
    access: Access,
    now: Timestamp,
)
    requires
        0x08 <= addr / 0x100_0000 <= 0x0D,
        access.master == AccessMaster::Dma(channel),
        channel != 3,
    ensures
        bus.read(addr, width, access, now).0 == 0,
{
    reveal(BusState::read);
    reveal(BusState::read_aligned);
    memory::aligned_access_fits(addr, width);
}

/// A read changes nothing but the prefetcher.
pub proof fn read_changes_only_the_prefetcher(
    bus: BusState,
    addr: u32,
    width: AccessWidth,
    access: Access,
    now: Timestamp,
)
    ensures
        ({
            let after = bus.read(addr, width, access, now).2;
            after.memory == bus.memory && after.io == bus.io && after.stall == bus.stall
        }),
{
    reveal(BusState::read);
}

/// A data read changes nothing at all: inspecting memory does not disturb the machine.
pub proof fn data_read_changes_nothing(
    bus: BusState,
    addr: u32,
    width: AccessWidth,
    now: Timestamp,
)
    ensures
        bus.read(addr, width, Access::cpu_data(), now).2 == bus,
{
    reveal(BusState::read);
}

} // verus!

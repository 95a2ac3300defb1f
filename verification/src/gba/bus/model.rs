//! What the bus does, as functions on [`BusState`].
//!
//! A write to the I/O region can start DMA transfers, whose writes can reach the I/O
//! region again. The specification of a write therefore counts how deep transfers
//! nest: it is `None` where they nest deeper than a given depth, and also where the
//! timeline or the stall counter runs out. What a write does is its result at any
//! depth that suffices.

use vstd::prelude::*;

use crate::emu_core::scheduler::Timeline;
use crate::emu_core::{
    Access, AccessKind, AccessMaster, AccessSequence, AccessWidth, Timestamp,
};
use crate::gba::apu;
use crate::gba::apu::ApuState;
use crate::gba::dma::{DmaChannel, DmaTiming};
use crate::gba::event::EventKind;
use crate::gba::interrupt::IrqSource;
use crate::gba::io::IoState;
use crate::gba::memory;
use crate::gba::memory::MemoryState;
use crate::gba::ppu::memory::VideoMemory;
use crate::gba::prefetch::Prefetch;

verus! {

/// Value returned for reads of unmapped addresses. Real open-bus returns the
/// last value on the bus; that value is not tracked, so these reads give zero.
pub const OPEN_BUS: u32 = 0;

/// The end of the BIOS.
pub const BIOS_END: u32 = 0x4000;

/// More cycles than any single access takes.
pub const ACCESS_LIMIT: u32 = 64;

/// What the bus stands for.
#[verifier::ext_equal]
pub struct BusState {
    pub memory: MemoryState,
    pub io: IoState,
    pub prefetch: Prefetch,
    pub stall: u64,
}

/// The interrupt source raised on completion of DMA channel `i`.
#[verifier::allow_in_spec]
pub fn dma_irq_source(i: usize) -> IrqSource
    returns
        (if i == 0 {
            IrqSource::Dma0
        } else if i == 1 {
            IrqSource::Dma1
        } else if i == 2 {
            IrqSource::Dma2
        } else {
            IrqSource::Dma3
        }),
{
    match i {
        0 => IrqSource::Dma0,
        1 => IrqSource::Dma1,
        2 => IrqSource::Dma2,
        _ => IrqSource::Dma3,
    }
}

/// The width of a channel's transfer unit.
#[verifier::allow_in_spec]
pub fn unit_width(channel: &DmaChannel) -> AccessWidth
    returns
        (if channel.is_32bit() {
            AccessWidth::Word
        } else {
            AccessWidth::Half
        }),
{
    if channel.is_32bit() {
        AccessWidth::Word
    } else {
        AccessWidth::Half
    }
}

/// The step of a word-sized source: up, down, or fixed.
#[verifier::allow_in_spec]
pub fn word_step(channel: &DmaChannel) -> u32
    returns
        (if (channel.control >> 7) & 3 == 0 {
            4u32
        } else if (channel.control >> 7) & 3 == 1 {
            0u32.wrapping_sub(4)
        } else {
            0u32
        }),
{
    match (channel.control >> 7) & 3 {
        0 => 4,
        1 => 0u32.wrapping_sub(4),
        _ => 0,
    }
}

/// The internal processing cycles of a transfer: 2I, or 4I if both ends are gamepak.
#[verifier::allow_in_spec]
pub fn internal_cycles(channel: &DmaChannel) -> u64
    returns
        (if memory::is_gamepak(channel.internal_source) && memory::is_gamepak(
            channel.internal_dest,
        ) {
            4u64
        } else {
            2u64
        }),
{
    if memory::is_gamepak(channel.internal_source) && memory::is_gamepak(channel.internal_dest) {
        4
    } else {
        2
    }
}

// --- reads ---

impl BusState {
    /// Cleared RAM, devices reset, no cartridge.
    pub open spec fn is_initial(self) -> bool {
        &&& self.memory == MemoryState::initial()
        &&& self.io.is_initial()
        &&& self.prefetch == Prefetch::off()
        &&& self.stall == 0
    }

    /// The storage has its sizes and every device is in a valid state.
    pub open spec fn valid(self) -> bool {
        &&& self.memory.valid()
        &&& self.io.valid()
        &&& self.prefetch.valid()
        &&& self.prefetch.halfword_cost <= 16
    }

    /// The wait cycles in force for a gamepak region.
    pub open spec fn waits(self, region: u32) -> (u32, u32) {
        memory::ws_waits(self.io.control.waitcnt, memory::ws_index(region))
    }

    /// Wait-state cycles for a gamepak ROM access. A 32-bit access is two 16-bit
    /// accesses; the second is sequential.
    pub open spec fn rom_cycles(
        self,
        region: u32,
        width: AccessWidth,
        sequence: AccessSequence,
    ) -> u32 {
        let (nonseq, seq) = self.waits(region);
        let first = 1 + (if sequence == AccessSequence::Sequential {
            seq
        } else {
            nonseq
        });
        if width == AccessWidth::Word {
            (first + 1 + seq) as u32
        } else {
            first as u32
        }
    }

    /// Cycles for a prefetched instruction fetch from ROM, and the prefetcher after
    /// it. A branch restarts the prefetcher and pays the full non-sequential access;
    /// the second halfword of an ARM opcode is always sequential.
    pub open spec fn code_cost(
        self,
        region: u32,
        width: AccessWidth,
        sequence: AccessSequence,
    ) -> (u32, Prefetch) {
        let (nonseq, seq) = self.waits(region);
        let (first, after) = if sequence == AccessSequence::Sequential {
            self.prefetch.fetched()
        } else {
            ((1 + nonseq) as u32, self.prefetch.restarted((1 + seq) as u32))
        };
        if width == AccessWidth::Word {
            let (second, last) = after.fetched();
            ((first + second) as u32, last)
        } else {
            (first, after)
        }
    }

    /// Cycles of a read from gamepak ROM, and the prefetcher after it. Instruction
    /// fetches go through the prefetch buffer when it is enabled; data reads (and all
    /// reads when disabled) pay the raw wait-stated ROM timing.
    pub open spec fn rom_read_cost(self, region: u32, width: AccessWidth, access: Access) -> (
        u32,
        Prefetch,
    ) {
        if access.kind == AccessKind::Instruction && self.prefetch.enabled {
            self.code_cost(region, width, access.sequence)
        } else {
            (self.rom_cycles(region, width, access.sequence), self.prefetch)
        }
    }

    /// Cycles of an SRAM access.
    pub open spec fn sram_cycles(self) -> u32 {
        (1 + memory::nonseq_waits(self.io.control.waitcnt)) as u32
    }

    /// What a read from gamepak ROM yields: the ROM byte for byte, the address
    /// pattern beyond its end, and nothing for a master that cannot reach it.
    pub open spec fn rom_value(self, addr: u32, width: AccessWidth, master: AccessMaster) -> u32 {
        let off = addr as int % 0x200_0000;
        if !memory::rom_accessible(master) {
            OPEN_BUS
        } else if off + width.bytes() <= self.memory.rom.len() {
            memory::le(self.memory.rom, off, width)
        } else {
            memory::open_rom(addr, width)
        }
    }

    /// What a read of an aligned address yields, and the cycles it takes.
    #[verifier::opaque]
    pub open spec fn read_aligned(
        self,
        addr: u32,
        width: AccessWidth,
        access: Access,
        now: Timestamp,
    ) -> (u32, u32) {
        let region = addr / 0x100_0000;
        if region == 0x00 && addr < BIOS_END {
            (memory::le(self.memory.bios, addr as int, width), 1u32)
        } else if region == 0x02 {
            (
                memory::le(self.memory.ewram, addr as int % 0x4_0000, width),
                memory::fixed_cycles(3, 6, width),
            )
        } else if region == 0x03 {
            (memory::le(self.memory.iwram, addr as int % 0x8000, width), 1u32)
        } else if region == 0x04 {
            match memory::io_offset(addr) {
                Some(off) => (self.io.read(off, width, now), memory::fixed_cycles(1, 1, width)),
                None => (OPEN_BUS, 1u32),
            }
        } else if region == 0x05 {
            (
                memory::le(self.memory.palette, addr as int % 0x400, width),
                memory::fixed_cycles(1, 2, width),
            )
        } else if region == 0x06 {
            (
                memory::le(self.memory.vram, memory::vram_offset(addr) as int, width),
                memory::fixed_cycles(1, 2, width),
            )
        } else if region == 0x07 {
            (memory::le(self.memory.oam, addr as int % 0x400, width), 1u32)
        } else if 0x08 <= region <= 0x0D {
            (
                self.rom_value(addr, width, access.master),
                self.rom_read_cost(region, width, access).0,
            )
        } else if region == 0x0E || region == 0x0F {
            (
                if memory::sram_accessible(access.master) {
                    memory::sram_replicate(self.memory.sram[addr as int % 0x1_0000], width)
                } else {
                    OPEN_BUS
                },
                self.sram_cycles(),
            )
        } else {
            (OPEN_BUS, 1u32)
        }
    }

    /// What a read yields, the cycles it takes, and the bus after it: only the
    /// prefetcher can change.
    #[verifier::opaque]
    pub open spec fn read(
        self,
        addr: u32,
        width: AccessWidth,
        access: Access,
        now: Timestamp,
    ) -> (u32, u32, BusState) {
        let aligned = memory::align(addr, width);
        let region = aligned / 0x100_0000;
        let (value, cycles) = self.read_aligned(aligned, width, access, now);
        (
            value,
            cycles,
            if 0x08 <= region <= 0x0D {
                BusState { prefetch: self.rom_read_cost(region, width, access).1, ..self }
            } else {
                self
            },
        )
    }
}

// --- writes ---

impl BusState {
    /// The bus after a write to an aligned address outside the I/O region. BIOS and
    /// ROM are read-only, OAM ignores byte writes, palette and VRAM duplicate them,
    /// and SRAM is an 8-bit bus for the CPU only.
    #[verifier::opaque]
    pub open spec fn stored(
        self,
        addr: u32,
        value: u32,
        width: AccessWidth,
        master: AccessMaster,
    ) -> BusState {
        let region = addr / 0x100_0000;
        let mem = self.memory;
        let after = if region == 0x02 {
            MemoryState {
                ewram: memory::stored(mem.ewram, addr as int % 0x4_0000, width, value),
                ..mem
            }
        } else if region == 0x03 {
            MemoryState {
                iwram: memory::stored(mem.iwram, addr as int % 0x8000, width, value),
                ..mem
            }
        } else if region == 0x05 {
            MemoryState {
                palette: memory::stored_duplicating(mem.palette, addr as int % 0x400, width, value),
                ..mem
            }
        } else if region == 0x06 {
            MemoryState {
                vram: memory::stored_duplicating(
                    mem.vram,
                    memory::vram_offset(addr) as int,
                    width,
                    value,
                ),
                ..mem
            }
        } else if region == 0x07 && width != AccessWidth::Byte {
            MemoryState { oam: memory::stored(mem.oam, addr as int % 0x400, width, value), ..mem }
        } else if (region == 0x0E || region == 0x0F) && memory::sram_accessible(master) {
            MemoryState {
                sram: mem.sram.update(addr as int % 0x1_0000, (value % 0x100) as u8),
                ..mem
            }
        } else {
            mem
        };
        BusState { memory: after, ..self }
    }

    /// The cycles of a write to an aligned address outside the I/O region.
    #[verifier::opaque]
    pub open spec fn store_cycles(
        self,
        addr: u32,
        width: AccessWidth,
        sequence: AccessSequence,
    ) -> u32 {
        let region = addr / 0x100_0000;
        if region == 0x02 {
            memory::fixed_cycles(3, 6, width)
        } else if region == 0x05 || region == 0x06 {
            memory::fixed_cycles(1, 2, width)
        } else if 0x08 <= region <= 0x0D {
            self.rom_cycles(region, width, sequence)
        } else if region == 0x0E || region == 0x0F {
            self.sram_cycles()
        } else {
            1
        }
    }

    /// The devices and the timeline after a write to an aligned address in the I/O
    /// region.
    #[verifier::opaque]
    pub open spec fn io_written(
        self,
        addr: u32,
        value: u32,
        width: AccessWidth,
        timeline: Timeline<EventKind>,
    ) -> Option<(IoState, Timeline<EventKind>, bool)> {
        match memory::io_offset(addr) {
            Some(off) => self.io.written(off, width, value, timeline),
            None => Some((self.io, timeline, false)),
        }
    }

    /// The bus with the devices as an I/O write left them: the prefetcher follows
    /// `WAITCNT` bit 14.
    pub open spec fn with_io(self, io: IoState) -> BusState {
        BusState { io, prefetch: self.prefetch.switched(io.control.waitcnt & 0x4000 != 0), ..self }
    }

    /// The bus with one DMA channel changed.
    pub open spec fn with_channel(self, i: int, channel: DmaChannel) -> BusState {
        BusState { io: IoState { dma: self.io.dma.update(i, channel), ..self.io }, ..self }
    }

    /// The bus and the timeline after a write, its cycles, and whether the next
    /// deadline may have changed; `None` where transfers nest deeper than `depth`, or
    /// past the end of the timeline. A write to the I/O region that enabled an
    /// immediate-timing DMA runs it at once.
    pub open spec fn written(
        self,
        addr: u32,
        value: u32,
        width: AccessWidth,
        access: Access,
        timeline: Timeline<EventKind>,
        depth: nat,
    ) -> Option<(BusState, Timeline<EventKind>, u32, bool)>
        decreases depth, 2nat, 0nat,
    {
        let aligned = memory::align(addr, width);
        if aligned / 0x100_0000 == 0x04 {
            match self.io_written(aligned, value, width, timeline) {
                Some((io, io_timeline, changed)) => match self.with_io(io).pending_run(
                    0,
                    io_timeline,
                    depth,
                ) {
                    Some((after, after_timeline, ran)) => Some(
                        (
                            after,
                            after_timeline,
                            memory::fixed_cycles(1, 1, width),
                            changed || ran,
                        ),
                    ),
                    None => None,
                },
                None => None,
            }
        } else {
            Some(
                (
                    self.stored(aligned, value, width, access.master),
                    timeline,
                    self.store_cycles(aligned, width, access.sequence),
                    false,
                ),
            )
        }
    }

    /// The bus and the timeline once the channels from the `i`th on that are armed
    /// for an immediate start have run, and whether any did.
    pub open spec fn pending_run(self, i: nat, timeline: Timeline<EventKind>, depth: nat) -> Option<
        (BusState, Timeline<EventKind>, bool),
    >
        decreases depth, 1nat, (4 - i) as nat,
    {
        if i >= 4 {
            Some((self, timeline, false))
        } else if self.io.dma[i as int].start_pending {
            if depth == 0 {
                None
            } else {
                let disarmed = DmaChannel { start_pending: false, ..self.io.dma[i as int] };
                match self.with_channel(i as int, disarmed).channel_run(
                    i,
                    timeline,
                    (depth - 1) as nat,
                ) {
                    Some((after, after_timeline)) => match after.pending_run(
                        i + 1,
                        after_timeline,
                        depth,
                    ) {
                        Some((last, last_timeline, _)) => Some((last, last_timeline, true)),
                        None => None,
                    },
                    None => None,
                }
            }
        } else {
            self.pending_run(i + 1, timeline, depth)
        }
    }

    /// The bus and the timeline after `left` more units of a transfer on channel
    /// `i`, where the pointers end up, and the cycles of all units.
    pub open spec fn units_moved(
        self,
        channel: DmaChannel,
        i: nat,
        left: nat,
        source: u32,
        dest: u32,
        sequence: AccessSequence,
        cycles: int,
        timeline: Timeline<EventKind>,
        depth: nat,
    ) -> Option<(BusState, Timeline<EventKind>, u32, u32, int)>
        decreases depth, 3nat, left,
    {
        if left == 0 {
            Some((self, timeline, source, dest, cycles))
        } else {
            let access = Access::dma(i as u8, AccessKind::Data, sequence);
            let width = unit_width(&channel);
            let (value, read_cycles, after_read) = self.read(source, width, access, timeline.now);
            match after_read.written(
                dest,
                memory::truncated(value, width),
                width,
                access,
                timeline,
                depth,
            ) {
                Some((after, after_timeline, write_cycles, _)) => after.units_moved(
                    channel,
                    i,
                    (left - 1) as nat,
                    source.wrapping_add(channel.source_step()),
                    dest.wrapping_add(channel.dest_step()),
                    AccessSequence::Sequential,
                    cycles + read_cycles + write_cycles,
                    after_timeline,
                    depth,
                ),
                None => None,
            }
        }
    }

    /// The bus and the timeline after channel `i`'s transfer: the units moved, the
    /// cycles charged as a stall, the channel reloaded or disabled, and its interrupt
    /// requested.
    pub open spec fn channel_run(self, i: nat, timeline: Timeline<EventKind>, depth: nat) -> Option<
        (BusState, Timeline<EventKind>),
    >
        decreases depth, 4nat, 0nat,
    {
        let channel = self.io.dma[i as int];
        match self.units_moved(
            channel,
            i,
            channel.internal_count as nat,
            channel.internal_source,
            channel.internal_dest,
            AccessSequence::NonSequential,
            0,
            timeline,
            depth,
        ) {
            Some((moved, after_timeline, source, dest, cycles)) => {
                let stall = moved.stall + cycles + internal_cycles(&channel);
                if stall > u64::MAX {
                    None
                } else {
                    Some((moved.transfer_ended(i, source, dest, stall as u64), after_timeline))
                }
            },
            None => None,
        }
    }

    /// The bus at the end of channel `i`'s transfer.
    #[verifier::opaque]
    pub open spec fn transfer_ended(self, i: nat, source: u32, dest: u32, stall: u64) -> BusState {
        let finished = self.io.dma[i as int].finished(source, dest);
        let irq = if finished.irq_on_end() {
            self.io.irq.requested(dma_irq_source(i as usize))
        } else {
            self.io.irq
        };
        BusState {
            io: IoState { dma: self.io.dma.update(i as int, finished), irq, ..self.io },
            stall,
            ..self
        }
    }

    /// The bus and the timeline once the enabled channels from the `i`th on that wait
    /// on `timing` have run, and whether any did.
    pub open spec fn triggered(
        self,
        timing: DmaTiming,
        i: nat,
        timeline: Timeline<EventKind>,
        depth: nat,
    ) -> Option<(BusState, Timeline<EventKind>, bool)>
        decreases 4 - i,
    {
        if i >= 4 {
            Some((self, timeline, false))
        } else if self.io.dma[i as int].enabled && self.io.dma[i as int].timing() == timing {
            match self.channel_run(i, timeline, depth) {
                Some((after, after_timeline)) => match after.triggered(
                    timing,
                    i + 1,
                    after_timeline,
                    depth,
                ) {
                    Some((last, last_timeline, _)) => Some((last, last_timeline, true)),
                    None => None,
                },
                None => None,
            }
        } else {
            self.triggered(timing, i + 1, timeline, depth)
        }
    }

    /// Where a sound FIFO is mapped.
    pub open spec fn fifo_address(fifo: int) -> int {
        0x0400_00A0 + 4 * fifo
    }

    /// Whether channel `i` feeds a sound FIFO: it is enabled for the FIFO's timing and
    /// aimed at the FIFO.
    pub open spec fn feeds(self, i: int, fifo: int) -> bool {
        &&& self.io.dma[i].enabled
        &&& self.io.dma[i].timing() == DmaTiming::Special
        &&& self.io.dma[i].internal_dest == Self::fifo_address(fifo)
    }

    /// The bus after `left` more words went from memory to a sound FIFO through
    /// channel `i`, where the source ends up, and the cycles of all words.
    pub open spec fn words_fed(
        self,
        i: nat,
        fifo: int,
        step: u32,
        left: nat,
        source: u32,
        sequence: AccessSequence,
        cycles: int,
        now: Timestamp,
    ) -> (BusState, u32, int)
        decreases left,
    {
        if left == 0 {
            (self, source, cycles)
        } else {
            let access = Access::dma(i as u8, AccessKind::Data, sequence);
            let (word, read_cycles, after_read) = self.read(
                source,
                AccessWidth::Word,
                access,
                now,
            );
            let fed = BusState {
                io: IoState {
                    apu: ApuState {
                        fifo: after_read.io.apu.fifo.update(
                            fifo,
                            apu::pushed(after_read.io.apu.fifo[fifo], word, 0),
                        ),
                        ..after_read.io.apu
                    },
                    ..after_read.io
                },
                ..after_read
            };
            fed.words_fed(
                i,
                fifo,
                step,
                (left - 1) as nat,
                source.wrapping_add(step),
                AccessSequence::Sequential,
                cycles + read_cycles + 1,
                now,
            )
        }
    }

    /// The bus after a sound FIFO was refilled by channel `i`: four words, whatever
    /// the channel's count; `None` past the end of the stall counter.
    pub open spec fn fifo_fed(self, i: nat, fifo: int, now: Timestamp) -> Option<BusState> {
        let channel = self.io.dma[i as int];
        let (fed, source, cycles) = self.words_fed(
            i,
            fifo,
            word_step(&channel),
            4,
            channel.internal_source,
            AccessSequence::NonSequential,
            0,
            now,
        );
        let stall = fed.stall + cycles + internal_cycles(&channel);
        if stall > u64::MAX {
            None
        } else {
            Some(fed.transfer_ended(i, source, channel.internal_dest, stall as u64))
        }
    }

    /// The bus after the channels that feed a sound FIFO (DMA1, then DMA2) refilled
    /// it.
    pub open spec fn fifo_refilled(self, fifo: int, now: Timestamp) -> Option<BusState> {
        let first = if self.feeds(1, fifo) {
            self.fifo_fed(1, fifo, now)
        } else {
            Some(self)
        };
        match first {
            Some(after) => if after.feeds(2, fifo) {
                after.fifo_fed(2, fifo, now)
            } else {
                Some(after)
            },
            None => None,
        }
    }

    /// Video memory as the renderer sees it.
    pub open spec fn video_memory(self) -> VideoMemory {
        VideoMemory {
            vram: self.memory.vram,
            palette: self.memory.palette,
            oam: self.memory.oam,
        }
    }

    /// The bus with the current visible scanline drawn.
    pub open spec fn scanline_drawn(self) -> BusState {
        BusState {
            io: IoState { video: self.io.video.current_drawn(self.video_memory()), ..self.io },
            ..self
        }
    }

    /// Whether a write comes to an end within the timeline.
    pub open spec fn can_write(
        self,
        addr: u32,
        value: u32,
        width: AccessWidth,
        access: Access,
        timeline: Timeline<EventKind>,
    ) -> bool {
        exists|depth: nat|
            (#[trigger] self.written(addr, value, width, access, timeline, depth)) is Some
    }

    /// The result of a write at a depth that suffices.
    pub open spec fn after_write(
        self,
        addr: u32,
        value: u32,
        width: AccessWidth,
        access: Access,
        timeline: Timeline<EventKind>,
    ) -> (BusState, Timeline<EventKind>, u32, bool) {
        let depth = choose|depth: nat|
            (#[trigger] self.written(addr, value, width, access, timeline, depth)) is Some;
        self.written(addr, value, width, access, timeline, depth)->0
    }

    /// Whether running the armed channels comes to an end within the timeline.
    pub open spec fn can_run_pending(self, timeline: Timeline<EventKind>) -> bool {
        exists|depth: nat| (#[trigger] self.pending_run(0, timeline, depth)) is Some
    }

    /// The result of running the armed channels at a depth that suffices.
    pub open spec fn after_pending(self, timeline: Timeline<EventKind>) -> (
        BusState,
        Timeline<EventKind>,
        bool,
    ) {
        let depth = choose|depth: nat| (#[trigger] self.pending_run(0, timeline, depth)) is Some;
        self.pending_run(0, timeline, depth)->0
    }

    /// Whether the transfers that a timing triggers come to an end within the
    /// timeline.
    pub open spec fn can_trigger(self, timing: DmaTiming, timeline: Timeline<EventKind>) -> bool {
        exists|depth: nat| (#[trigger] self.triggered(timing, 0, timeline, depth)) is Some
    }

    /// The result of the transfers that a timing triggers, at a depth that suffices.
    pub open spec fn after_trigger(self, timing: DmaTiming, timeline: Timeline<EventKind>) -> (
        BusState,
        Timeline<EventKind>,
        bool,
    ) {
        let depth = choose|depth: nat|
            (#[trigger] self.triggered(timing, 0, timeline, depth)) is Some;
        self.triggered(timing, 0, timeline, depth)->0
    }
}

} // verus!

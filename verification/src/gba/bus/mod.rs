//! The GBA memory bus: the address map, its backing storage, and access timing.
//!
//! Every access carries an [`Access`] describing the master, kind, and sequence,
//! and returns a [`BusResult`] with the value, the guest cycles consumed, and
//! whether it changed the scheduler's deadline. The bus decodes the address to a
//! region, applies that region's mirroring and access rules, and - for the I/O
//! region - hands off to the [`Io`] MMIO subsystem.

pub mod laws;
pub mod map;
pub mod transfers;
pub mod model;

use vstd::prelude::*;

use super::dma::DmaTiming;
use super::event::EventKind;
use super::io::Io;
use super::memory;
use super::memory::MemoryState;
use super::ppu::memory::PpuMemoryView;
use super::prefetch::Prefetch;
use crate::emu_core::{
    Access, AccessKind, AccessSequence, AccessWidth, BusResult, Scheduler, Timestamp,
};

pub use super::memory::Memory;
pub use model::BusState;
use model::{
    dma_irq_source, internal_cycles, unit_width, word_step, ACCESS_LIMIT, BIOS_END, OPEN_BUS,
};

verus! {

/// The GBA memory bus.
#[derive(Clone, Debug)]
pub struct Bus {
    pub memory: Memory,
    pub io: Io,
    pub prefetch: Prefetch,
    /// Guest cycles that DMA transfers have stalled the CPU for, awaiting the CPU
    /// to account for them.
    pub dma_stall_cycles: u64,
}

impl View for Bus {
    type V = BusState;

    open spec fn view(&self) -> BusState {
        BusState {
            memory: self.memory@,
            io: self.io@,
            prefetch: self.prefetch,
            stall: self.dma_stall_cycles,
        }
    }
}

impl Default for Bus {
    fn default() -> (bus: Self)
        ensures
            bus@.is_initial(),
            bus@.valid(),
    {
        Bus {
            memory: Memory::default(),
            io: Io::default(),
            prefetch: Prefetch::default(),
            dma_stall_cycles: 0,
        }
    }
}

/// The access a DMA channel makes for a unit.
fn dma_access(i: usize, sequence: AccessSequence) -> (access: Access)
    requires
        i < 4,
    ensures
        access == Access::dma(i as u8, AccessKind::Data, sequence),
{
    Access::dma(i as u8, AccessKind::Data, sequence)
}

impl Bus {
    /// Cleared RAM, devices reset, no cartridge.
    pub fn new() -> (bus: Self)
        ensures
            bus@.is_initial(),
            bus@.valid(),
    {
        Self::default()
    }

    /// Load cartridge ROM.
    pub fn load_rom(&mut self, rom: Vec<u8>)
        ensures
            final(self)@ == (BusState {
                memory: MemoryState { rom: rom@, ..old(self)@.memory },
                ..old(self)@
            }),
            old(self)@.valid() ==> final(self)@.valid(),
    {
        self.memory.rom = rom;
    }

    /// Load the BIOS image (up to 16 KiB).
    pub fn load_bios(&mut self, bios: &[u8])
        requires
            old(self)@.valid(),
        ensures
            final(self)@ == (BusState {
                memory: MemoryState {
                    bios: Seq::new(
                        0x4000,
                        |i: int|
                            if i < bios@.len() {
                                bios@[i]
                            } else {
                                old(self)@.memory.bios[i]
                            },
                    ),
                    ..old(self)@.memory
                },
                ..old(self)@
            }),
            final(self)@.valid(),
    {
        let len: usize = if bios.len() < memory::BIOS_SIZE {
            bios.len()
        } else {
            memory::BIOS_SIZE
        };
        let ghost before = self@;
        let mut i: usize = 0;
        while i < len
            invariant
                i <= len,
                len <= bios@.len(),
                len <= 0x4000,
                len == 0x4000 || len == bios@.len(),
                before.valid(),
                self@ == (BusState {
                    memory: MemoryState { bios: self@.memory.bios, ..before.memory },
                    ..before
                }),
                self@.memory.bios.len() == 0x4000,
                forall|k: int| 0 <= k < i ==> #[trigger] self@.memory.bios[k] == bios@[k],
                forall|k: int|
                    i <= k < 0x4000 ==> #[trigger] self@.memory.bios[k] == before.memory.bios[k],
            decreases len - i,
        {
            self.memory.bios.set(i, bios[i]);
            i = i + 1;
        }
        assert(self@.memory.bios =~= Seq::new(
            0x4000,
            |i: int|
                if i < bios@.len() {
                    bios@[i]
                } else {
                    before.memory.bios[i]
                },
        ));
    }

    /// Read a byte.
    pub fn read8(&mut self, addr: u32, access: Access, scheduler: &Scheduler<EventKind>) -> (result:
        BusResult<u8>)
        requires
            old(self)@.valid(),
        ensures
            final(self)@.valid(),
            ({
                let (value, cycles, after) = old(self)@.read(
                    addr,
                    AccessWidth::Byte,
                    access,
                    scheduler@.now,
                );
                &&& result == BusResult::plain((value % 0x100) as u8, cycles)
                &&& final(self)@ == after
            }),
    {
        let r = self.read(addr, AccessWidth::Byte, access, scheduler.now());
        BusResult::plain((r.value % 0x100) as u8, r.cycles)
    }

    /// Read a halfword.
    pub fn read16(&mut self, addr: u32, access: Access, scheduler: &Scheduler<EventKind>) -> (result:
        BusResult<u16>)
        requires
            old(self)@.valid(),
        ensures
            final(self)@.valid(),
            ({
                let (value, cycles, after) = old(self)@.read(
                    addr,
                    AccessWidth::Half,
                    access,
                    scheduler@.now,
                );
                &&& result == BusResult::plain((value % 0x1_0000) as u16, cycles)
                &&& final(self)@ == after
            }),
    {
        let r = self.read(addr, AccessWidth::Half, access, scheduler.now());
        BusResult::plain((r.value % 0x1_0000) as u16, r.cycles)
    }

    /// Read a word.
    pub fn read32(&mut self, addr: u32, access: Access, scheduler: &Scheduler<EventKind>) -> (result:
        BusResult<u32>)
        requires
            old(self)@.valid(),
        ensures
            final(self)@.valid(),
            ({
                let (value, cycles, after) = old(self)@.read(
                    addr,
                    AccessWidth::Word,
                    access,
                    scheduler@.now,
                );
                &&& result == BusResult::plain(value, cycles)
                &&& final(self)@ == after
            }),
    {
        self.read(addr, AccessWidth::Word, access, scheduler.now())
    }

    /// Write a byte.
    pub fn write8(
        &mut self,
        addr: u32,
        value: u8,
        access: Access,
        scheduler: &mut Scheduler<EventKind>,
    ) -> (result: BusResult<()>)
        requires
            old(self)@.valid(),
            old(scheduler)@.valid(),
            old(self)@.can_write(addr, value as u32, AccessWidth::Byte, access, old(scheduler)@),
        ensures
            final(self)@.valid(),
            final(scheduler)@.valid(),
            (final(self)@, final(scheduler)@, result.cycles, result.scheduling_changed) == old(
                self,
            )@.after_write(addr, value as u32, AccessWidth::Byte, access, old(scheduler)@),
    {
        self.write(addr, value as u32, AccessWidth::Byte, access, scheduler)
    }

    /// Write a halfword.
    pub fn write16(
        &mut self,
        addr: u32,
        value: u16,
        access: Access,
        scheduler: &mut Scheduler<EventKind>,
    ) -> (result: BusResult<()>)
        requires
            old(self)@.valid(),
            old(scheduler)@.valid(),
            old(self)@.can_write(addr, value as u32, AccessWidth::Half, access, old(scheduler)@),
        ensures
            final(self)@.valid(),
            final(scheduler)@.valid(),
            (final(self)@, final(scheduler)@, result.cycles, result.scheduling_changed) == old(
                self,
            )@.after_write(addr, value as u32, AccessWidth::Half, access, old(scheduler)@),
    {
        self.write(addr, value as u32, AccessWidth::Half, access, scheduler)
    }

    /// Write a word.
    pub fn write32(
        &mut self,
        addr: u32,
        value: u32,
        access: Access,
        scheduler: &mut Scheduler<EventKind>,
    ) -> (result: BusResult<()>)
        requires
            old(self)@.valid(),
            old(scheduler)@.valid(),
            old(self)@.can_write(addr, value, AccessWidth::Word, access, old(scheduler)@),
        ensures
            final(self)@.valid(),
            final(scheduler)@.valid(),
            (final(self)@, final(scheduler)@, result.cycles, result.scheduling_changed) == old(
                self,
            )@.after_write(addr, value, AccessWidth::Word, access, old(scheduler)@),
    {
        self.write(addr, value, AccessWidth::Word, access, scheduler)
    }

    /// Read through the rules of the address's region.
    fn read(&mut self, addr: u32, width: AccessWidth, access: Access, now: Timestamp) -> (result:
        BusResult<u32>)
        requires
            old(self)@.valid(),
        ensures
            final(self)@.valid(),
            (result.value, result.cycles, final(self)@) == old(self)@.read(
                addr,
                width,
                access,
                now,
            ),
            !result.scheduling_changed,
            result.cycles <= ACCESS_LIMIT,
    {
        proof {
            reveal(BusState::read);
            memory::aligned_access_fits(addr, width);
        }
        let addr: u32 = memory::align(addr, width);
        let region: u32 = addr / 0x100_0000;
        if 0x08 <= region && region <= 0x0D {
            self.read_rom(addr, width, access, Ghost(now))
        } else {
            self.read_fixed(addr, width, access, now)
        }
    }

    /// Read at an aligned address in gamepak ROM.
    fn read_rom(
        &mut self,
        addr: u32,
        width: AccessWidth,
        access: Access,
        Ghost(now): Ghost<Timestamp>,
    ) -> (result: BusResult<u32>)
        requires
            old(self)@.valid(),
            0x08 <= addr / 0x100_0000 <= 0x0D,
        ensures
            final(self)@.valid(),
            (result.value, result.cycles) == old(self)@.read_aligned(addr, width, access, now),
            final(self)@ == (BusState {
                prefetch: old(self)@.rom_read_cost(addr / 0x100_0000, width, access).1,
                ..old(self)@
            }),
            !result.scheduling_changed,
            result.cycles <= ACCESS_LIMIT,
    {
        reveal(BusState::read_aligned);
        let region: u32 = addr / 0x100_0000;
        // Instruction fetches go through the prefetch buffer when it is
        // enabled; data reads (and all reads when disabled) pay the raw
        // wait-stated ROM timing.
        let cycles: u32 = if access.kind == AccessKind::Instruction && self.prefetch.enabled() {
            self.prefetch_code_cost(region, width, access.sequence)
        } else {
            self.rom_cycles(region, width, access.sequence)
        };
        if !memory::rom_accessible(access.master) {
            return BusResult::plain(OPEN_BUS, cycles);
        }
        let off: usize = (addr % 0x200_0000) as usize;
        let value: u32 = if off + width.bytes() as usize <= self.memory.rom.len() {
            memory::read_le(&self.memory.rom, off, width)
        } else {
            memory::rom_open_bus(addr, width)
        };
        BusResult::plain(value, cycles)
    }

    /// Read at an aligned address outside gamepak ROM.
    fn read_fixed(&self, addr: u32, width: AccessWidth, access: Access, now: Timestamp) -> (result:
        BusResult<u32>)
        requires
            self@.valid(),
            memory::fits(addr, width),
            !(0x08 <= addr / 0x100_0000 <= 0x0D),
        ensures
            (result.value, result.cycles) == self@.read_aligned(addr, width, access, now),
            !result.scheduling_changed,
            result.cycles <= ACCESS_LIMIT,
    {
        reveal(BusState::read_aligned);
        reveal(memory::fits);
        match addr / 0x100_0000 {
            0x00 => {
                if addr < BIOS_END {
                    BusResult::plain(memory::read_le(&self.memory.bios, addr as usize, width), 1)
                } else {
                    BusResult::plain(OPEN_BUS, 1)
                }
            },
            0x02 => {
                let off: usize = (addr % 0x4_0000) as usize;
                BusResult::plain(
                    memory::read_le(&self.memory.ewram, off, width),
                    memory::fixed_cycles(3, 6, width),
                )
            },
            0x03 => {
                let off: usize = (addr % 0x8000) as usize;
                BusResult::plain(memory::read_le(&self.memory.iwram, off, width), 1)
            },
            0x04 => {
                match memory::io_offset(addr) {
                    Some(off) => BusResult::plain(
                        self.io.read(off, width, now),
                        memory::fixed_cycles(1, 1, width),
                    ),
                    None => BusResult::plain(OPEN_BUS, 1),
                }
            },
            0x05 => {
                let off: usize = (addr % 0x400) as usize;
                BusResult::plain(
                    memory::read_le(&self.memory.palette, off, width),
                    memory::fixed_cycles(1, 2, width),
                )
            },
            0x06 => {
                let off: usize = memory::vram_offset(addr) as usize;
                BusResult::plain(
                    memory::read_le(&self.memory.vram, off, width),
                    memory::fixed_cycles(1, 2, width),
                )
            },
            0x07 => {
                let off: usize = (addr % 0x400) as usize;
                BusResult::plain(memory::read_le(&self.memory.oam, off, width), 1)
            },
            0x0E | 0x0F => {
                let cycles: u32 = self.sram_cycles();
                if !memory::sram_accessible(access.master) {
                    return BusResult::plain(OPEN_BUS, cycles);
                }
                let byte: u8 = self.memory.sram[(addr % 0x1_0000) as usize];
                BusResult::plain(memory::sram_replicate(byte, width), cycles)
            },
            _ => BusResult::plain(OPEN_BUS, 1),
        }
    }

    /// Write through the rules of the address's region.
    fn write(
        &mut self,
        addr: u32,
        value: u32,
        width: AccessWidth,
        access: Access,
        scheduler: &mut Scheduler<EventKind>,
    ) -> (result: BusResult<()>)
        requires
            old(self)@.valid(),
            old(scheduler)@.valid(),
            old(self)@.can_write(addr, value, width, access, old(scheduler)@),
        ensures
            final(self)@.valid(),
            final(scheduler)@.valid(),
            (final(self)@, final(scheduler)@, result.cycles, result.scheduling_changed) == old(
                self,
            )@.after_write(addr, value, width, access, old(scheduler)@),
    {
        let ghost depth = choose|depth: nat|
            (#[trigger] old(self)@.written(addr, value, width, access, old(scheduler)@, depth))
                is Some;
        self.write_within(addr, value, width, access, scheduler, Ghost(depth))
    }

    /// Write, with the transfers it starts nesting no deeper than `depth`.
    fn write_within(
        &mut self,
        addr: u32,
        value: u32,
        width: AccessWidth,
        access: Access,
        scheduler: &mut Scheduler<EventKind>,
        Ghost(depth): Ghost<nat>,
    ) -> (result: BusResult<()>)
        requires
            old(self)@.valid(),
            old(scheduler)@.valid(),
            old(self)@.written(addr, value, width, access, old(scheduler)@, depth) is Some,
        ensures
            final(self)@.valid(),
            final(scheduler)@.valid(),
            old(self)@.written(addr, value, width, access, old(scheduler)@, depth) == Some(
                (final(self)@, final(scheduler)@, result.cycles, result.scheduling_changed),
            ),
            result.cycles <= ACCESS_LIMIT,
        decreases depth, 2nat, 0nat,
    {
        proof {
            memory::aligned_access_fits(addr, width);
        }
        let addr: u32 = memory::align(addr, width);
        if addr / 0x100_0000 == 0x04 {
            let changed = self.write_io(addr, value, width, scheduler);
            // A write that enabled an immediate-timing DMA runs it now.
            let dma_ran = self.run_pending_within(0, scheduler, Ghost(depth));
            BusResult {
                value: (),
                cycles: memory::fixed_cycles(1, 1, width),
                scheduling_changed: changed || dma_ran,
            }
        } else {
            self.store(addr, value, width, access)
        }
    }

    /// Write at an aligned address in the I/O region. Returns whether the next
    /// deadline may have changed.
    fn write_io(
        &mut self,
        addr: u32,
        value: u32,
        width: AccessWidth,
        scheduler: &mut Scheduler<EventKind>,
    ) -> (changed: bool)
        requires
            old(self)@.valid(),
            old(scheduler)@.valid(),
            old(self)@.io_written(addr, value, width, old(scheduler)@) is Some,
        ensures
            final(self)@.valid(),
            final(scheduler)@.valid(),
            ({
                let (io, timeline, change) = old(self)@.io_written(
                    addr,
                    value,
                    width,
                    old(scheduler)@,
                )->0;
                &&& final(self)@ == old(self)@.with_io(io)
                &&& final(scheduler)@ == timeline
                &&& changed == change
            }),
    {
        reveal(BusState::io_written);
        let changed = match memory::io_offset(addr) {
            Some(off) => self.io.write(off, width, value, scheduler),
            None => false,
        };
        // Keep the prefetcher's enable in sync with WAITCNT bit 14.
        self.prefetch.set_enabled(self.io.control.waitcnt() & 0x4000 != 0);
        changed
    }

    /// Write at an aligned address outside the I/O region.
    fn store(&mut self, addr: u32, value: u32, width: AccessWidth, access: Access) -> (result:
        BusResult<()>)
        requires
            old(self)@.valid(),
            memory::fits(addr, width),
            addr / 0x100_0000 != 0x04,
        ensures
            final(self)@.valid(),
            final(self)@ == old(self)@.stored(addr, value, width, access.master),
            result.cycles == old(self)@.store_cycles(addr, width, access.sequence),
            !result.scheduling_changed,
            result.cycles <= ACCESS_LIMIT,
    {
        reveal(BusState::stored);
        reveal(BusState::store_cycles);
        reveal(memory::fits);
        let region: u32 = addr / 0x100_0000;
        match region {
            0x02 => {
                let off: usize = (addr % 0x4_0000) as usize;
                memory::write_le(&mut self.memory.ewram, off, width, value);
                BusResult::plain((), memory::fixed_cycles(3, 6, width))
            },
            0x03 => {
                let off: usize = (addr % 0x8000) as usize;
                memory::write_le(&mut self.memory.iwram, off, width, value);
                BusResult::plain((), 1)
            },
            0x05 => {
                let off: usize = (addr % 0x400) as usize;
                // A byte write duplicates into both halves of the halfword.
                memory::write_duplicating(&mut self.memory.palette, off, width, value);
                BusResult::plain((), memory::fixed_cycles(1, 2, width))
            },
            0x06 => {
                let off: usize = memory::vram_offset(addr) as usize;
                memory::write_duplicating(&mut self.memory.vram, off, width, value);
                BusResult::plain((), memory::fixed_cycles(1, 2, width))
            },
            0x07 => {
                // OAM ignores byte writes entirely.
                if width != AccessWidth::Byte {
                    let off: usize = (addr % 0x400) as usize;
                    memory::write_le(&mut self.memory.oam, off, width, value);
                }
                BusResult::plain((), 1)
            },
            0x0E | 0x0F => {
                // SRAM is an 8-bit bus, CPU-only: writes from a DMA master are
                // dropped, and only the low byte is written.
                if memory::sram_accessible(access.master) {
                    self.memory.sram.set((addr % 0x1_0000) as usize, (value % 0x100) as u8);
                }
                BusResult::plain((), self.sram_cycles())
            },
            // BIOS and ROM are read-only; writes are dropped.
            _ => {
                if 0x08 <= region && region <= 0x0D {
                    BusResult::plain((), self.rom_cycles(region, width, access.sequence))
                } else {
                    BusResult::plain((), 1)
                }
            },
        }
    }

    /// Wait-state cycles for a gamepak ROM access.
    fn rom_cycles(&self, region: u32, width: AccessWidth, sequence: AccessSequence) -> (cycles: u32)
        ensures
            cycles == self@.rom_cycles(region, width, sequence),
            cycles <= 18,
    {
        let (nonseq, seq) = memory::ws_waits(self.io.control.waitcnt(), memory::ws_index(region));
        let first: u32 = 1 + if sequence == AccessSequence::Sequential {
            seq
        } else {
            nonseq
        };
        match width {
            // A 32-bit access is two 16-bit accesses; the second is sequential.
            AccessWidth::Word => first + (1 + seq),
            _ => first,
        }
    }

    /// Cycles for a prefetched instruction fetch from ROM. A 32-bit ARM opcode is
    /// two halfwords; the second is always sequential.
    fn prefetch_code_cost(
        &mut self,
        region: u32,
        width: AccessWidth,
        sequence: AccessSequence,
    ) -> (cycles: u32)
        requires
            old(self)@.valid(),
        ensures
            final(self)@.valid(),
            cycles == old(self)@.code_cost(region, width, sequence).0,
            final(self)@ == (BusState {
                prefetch: old(self)@.code_cost(region, width, sequence).1,
                ..old(self)@
            }),
            cycles <= 32,
    {
        let (nonseq, seq) = memory::ws_waits(self.io.control.waitcnt(), memory::ws_index(region));
        let halfword_cost: u32 = 1 + seq;
        let mut first: u32 = if sequence == AccessSequence::Sequential {
            self.prefetch.fetch_sequential()
        } else {
            // A branch flushes the buffer; the fetched opcode pays the full
            // non-sequential access while the prefetcher restarts.
            self.prefetch.restart(halfword_cost);
            1 + nonseq
        };
        if width == AccessWidth::Word {
            first = first + self.prefetch.fetch_sequential();
        }
        first
    }

    /// Advance the ROM prefetcher during `idle` guest cycles the CPU is not using
    /// the cartridge bus.
    pub fn step_prefetch(&mut self, idle: u32)
        requires
            old(self)@.valid(),
        ensures
            final(self)@ == (BusState {
                prefetch: old(self)@.prefetch.stepped(idle),
                ..old(self)@
            }),
            final(self)@.valid(),
    {
        self.prefetch.step(idle);
    }

    /// Take (and clear) the guest cycles DMA has stalled the CPU for.
    pub fn take_dma_stall_cycles(&mut self) -> (cycles: u64)
        ensures
            cycles == old(self)@.stall,
            final(self)@ == (BusState { stall: 0, ..old(self)@ }),
            old(self)@.valid() ==> final(self)@.valid(),
    {
        let cycles: u64 = self.dma_stall_cycles;
        self.dma_stall_cycles = 0;
        cycles
    }

    fn sram_cycles(&self) -> (cycles: u32)
        ensures
            cycles == self@.sram_cycles(),
            cycles <= 9,
    {
        1 + memory::nonseq_waits(self.io.control.waitcnt())
    }

    /// Run any channels armed for an immediate-timing start (after an MMIO write
    /// enabled one). Returns whether any transfer ran. Channels run in priority
    /// order, DMA0 highest.
    pub fn run_pending_dmas(&mut self, scheduler: &mut Scheduler<EventKind>) -> (ran: bool)
        requires
            old(self)@.valid(),
            old(scheduler)@.valid(),
            old(self)@.can_run_pending(old(scheduler)@),
        ensures
            final(self)@.valid(),
            final(scheduler)@.valid(),
            (final(self)@, final(scheduler)@, ran) == old(self)@.after_pending(old(scheduler)@),
    {
        let ghost depth = choose|depth: nat|
            (#[trigger] old(self)@.pending_run(0, old(scheduler)@, depth)) is Some;
        self.run_pending_within(0, scheduler, Ghost(depth))
    }

    /// Run the armed channels from the `first` on, nesting no deeper than `depth`.
    fn run_pending_within(
        &mut self,
        first: usize,
        scheduler: &mut Scheduler<EventKind>,
        Ghost(depth): Ghost<nat>,
    ) -> (ran: bool)
        requires
            first <= 4,
            old(self)@.valid(),
            old(scheduler)@.valid(),
            old(self)@.pending_run(first as nat, old(scheduler)@, depth) is Some,
        ensures
            final(self)@.valid(),
            final(scheduler)@.valid(),
            old(self)@.pending_run(first as nat, old(scheduler)@, depth) == Some(
                (final(self)@, final(scheduler)@, ran),
            ),
        decreases depth, 1nat, (4 - first) as nat,
    {
        if first >= 4 {
            return false;
        }
        let mut channel = self.io.dma.channels[first];
        if channel.start_pending {
            channel.start_pending = false;
            self.io.dma.channels[first] = channel;
            self.run_dma_channel(first, scheduler, Ghost((depth - 1) as nat));
            self.run_pending_within(first + 1, scheduler, Ghost(depth));
            true
        } else {
            self.run_pending_within(first + 1, scheduler, Ghost(depth))
        }
    }

    /// Trigger enabled channels waiting on a blank timing, in priority order.
    pub fn trigger_dma(&mut self, timing: DmaTiming, scheduler: &mut Scheduler<EventKind>) -> (ran:
        bool)
        requires
            old(self)@.valid(),
            old(scheduler)@.valid(),
            old(self)@.can_trigger(timing, old(scheduler)@),
        ensures
            final(self)@.valid(),
            final(scheduler)@.valid(),
            (final(self)@, final(scheduler)@, ran) == old(self)@.after_trigger(
                timing,
                old(scheduler)@,
            ),
    {
        let ghost depth = choose|depth: nat|
            (#[trigger] old(self)@.triggered(timing, 0, old(scheduler)@, depth)) is Some;
        self.trigger_within(timing, 0, scheduler, Ghost(depth))
    }

    /// Trigger the channels from the `first` on, nesting no deeper than `depth`.
    fn trigger_within(
        &mut self,
        timing: DmaTiming,
        first: usize,
        scheduler: &mut Scheduler<EventKind>,
        Ghost(depth): Ghost<nat>,
    ) -> (ran: bool)
        requires
            first <= 4,
            old(self)@.valid(),
            old(scheduler)@.valid(),
            old(self)@.triggered(timing, first as nat, old(scheduler)@, depth) is Some,
        ensures
            final(self)@.valid(),
            final(scheduler)@.valid(),
            old(self)@.triggered(timing, first as nat, old(scheduler)@, depth) == Some(
                (final(self)@, final(scheduler)@, ran),
            ),
        decreases 4 - first,
    {
        if first >= 4 {
            return false;
        }
        let channel = self.io.dma.channels[first];
        if channel.enabled && channel.timing() == timing {
            self.run_dma_channel(first, scheduler, Ghost(depth));
            self.trigger_within(timing, first + 1, scheduler, Ghost(depth));
            true
        } else {
            self.trigger_within(timing, first + 1, scheduler, Ghost(depth))
        }
    }

    /// Perform channel `i`'s transfer as a bus master. The whole transfer runs at
    /// the current instant, and its cycles are charged as a stall.
    fn run_dma_channel(
        &mut self,
        i: usize,
        scheduler: &mut Scheduler<EventKind>,
        Ghost(depth): Ghost<nat>,
    )
        requires
            i < 4,
            old(self)@.valid(),
            old(scheduler)@.valid(),
            old(self)@.channel_run(i as nat, old(scheduler)@, depth) is Some,
        ensures
            final(self)@.valid(),
            final(scheduler)@.valid(),
            old(self)@.channel_run(i as nat, old(scheduler)@, depth) == Some(
                (final(self)@, final(scheduler)@),
            ),
        decreases depth, 4nat, 0nat,
    {
        let channel = self.io.dma.channels[i];  // snapshot of config
        let width = unit_width(&channel);
        let source_step: u32 = channel.source_step();
        let dest_step: u32 = channel.dest_step();
        let mut source: u32 = channel.internal_source;
        let mut dest: u32 = channel.internal_dest;
        let mut sequence = AccessSequence::NonSequential;

        // Accumulate the transfer's read+write cycles (2N + 2(n-1)S).
        let mut transfer_cycles: u64 = 0;
        let mut left: u32 = channel.internal_count;
        let ghost goal = self@.units_moved(
            channel,
            i as nat,
            left as nat,
            source,
            dest,
            sequence,
            0,
            scheduler@,
            depth,
        );
        while left > 0
            invariant
                i < 4,
                self@.valid(),
                scheduler@.valid(),
                left <= channel.internal_count,
                width == unit_width(&channel),
                source_step == channel.source_step(),
                dest_step == channel.dest_step(),
                transfer_cycles <= 128 * (channel.internal_count - left),
                goal is Some,
                goal == self@.units_moved(
                    channel,
                    i as nat,
                    left as nat,
                    source,
                    dest,
                    sequence,
                    transfer_cycles as int,
                    scheduler@,
                    depth,
                ),
            decreases left,
        {
            let access = dma_access(i, sequence);
            let now: Timestamp = scheduler.now();
            let read = self.read(source, width, access, now);
            let value: u32 = match width {
                AccessWidth::Word => read.value,
                _ => read.value % 0x1_0000,
            };
            let write = self.write_within(dest, value, width, access, scheduler, Ghost(depth));
            transfer_cycles = transfer_cycles + read.cycles as u64 + write.cycles as u64;
            source = source.wrapping_add(source_step);
            dest = dest.wrapping_add(dest_step);
            sequence = AccessSequence::Sequential;
            left = left - 1;
        }

        // Plus the DMA's internal processing: 2I, or 4I if both ends are gamepak.
        transfer_cycles = transfer_cycles + internal_cycles(&channel);
        let stall: u64 = self.dma_stall_cycles + transfer_cycles;
        self.end_transfer(i, source, dest, stall);
    }

    /// Refill a sound FIFO through the channels that feed it, DMA1 before DMA2. Each
    /// moves four words from memory into the FIFO.
    pub fn trigger_fifo_dma(&mut self, fifo: usize, scheduler: &Scheduler<EventKind>)
        requires
            old(self)@.valid(),
            fifo < 2,
            old(self)@.fifo_refilled(fifo as int, scheduler@.now) is Some,
        ensures
            final(self)@.valid(),
            old(self)@.fifo_refilled(fifo as int, scheduler@.now) == Some(final(self)@),
    {
        let now: Timestamp = scheduler.now();
        if self.feeds_fifo(1, fifo) {
            self.feed_fifo(1, fifo, now);
        }
        if self.feeds_fifo(2, fifo) {
            self.feed_fifo(2, fifo, now);
        }
    }

    /// Whether channel `i` feeds a sound FIFO.
    fn feeds_fifo(&self, i: usize, fifo: usize) -> (feeds: bool)
        requires
            i < 4,
            fifo < 2,
        ensures
            feeds == self@.feeds(i as int, fifo as int),
    {
        let channel = self.io.dma.channels[i];
        channel.enabled && channel.timing() == DmaTiming::Special && channel.internal_dest
            == 0x0400_00A0 + 4 * fifo as u32
    }

    /// Move four words through channel `i` into a sound FIFO.
    fn feed_fifo(&mut self, i: usize, fifo: usize, now: Timestamp)
        requires
            i < 4,
            fifo < 2,
            old(self)@.valid(),
            old(self)@.fifo_fed(i as nat, fifo as int, now) is Some,
        ensures
            final(self)@.valid(),
            old(self)@.fifo_fed(i as nat, fifo as int, now) == Some(final(self)@),
    {
        let channel = self.io.dma.channels[i];
        let step: u32 = word_step(&channel);
        let mut source: u32 = channel.internal_source;
        let mut sequence = AccessSequence::NonSequential;
        let mut transfer_cycles: u64 = 0;
        let mut left: u32 = 4;
        let ghost goal = self@.words_fed(
            i as nat,
            fifo as int,
            step,
            4,
            source,
            sequence,
            0,
            now,
        );
        while left > 0
            invariant
                i < 4,
                fifo < 2,
                self@.valid(),
                left <= 4,
                transfer_cycles <= 128 * (4 - left),
                goal == self@.words_fed(
                    i as nat,
                    fifo as int,
                    step,
                    left as nat,
                    source,
                    sequence,
                    transfer_cycles as int,
                    now,
                ),
            decreases left,
        {
            let access = dma_access(i, sequence);
            let read = self.read(source, AccessWidth::Word, access, now);
            self.io.apu.write_fifo(fifo, read.value);
            transfer_cycles = transfer_cycles + read.cycles as u64 + 1;
            source = source.wrapping_add(step);
            sequence = AccessSequence::Sequential;
            left = left - 1;
        }
        transfer_cycles = transfer_cycles + internal_cycles(&channel);
        let stall: u64 = self.dma_stall_cycles + transfer_cycles;
        self.end_transfer(i, source, channel.internal_dest, stall);
    }

    /// Draw the scanline that just finished.
    pub fn render_ppu_scanline(&mut self)
        requires
            old(self)@.valid(),
        ensures
            final(self)@.valid(),
            final(self)@ == old(self)@.scanline_drawn(),
    {
        let view = PpuMemoryView::new(&self.memory);
        self.io.video.render_current_scanline(&view);
    }

    /// Charge a transfer's cycles at its end, update internal pointers, handle repeat
    /// and auto-disable, and request the completion interrupt.
    fn end_transfer(&mut self, i: usize, source: u32, dest: u32, stall: u64)
        requires
            i < 4,
            old(self)@.valid(),
        ensures
            final(self)@.valid(),
            final(self)@ == old(self)@.transfer_ended(i as nat, source, dest, stall),
    {
        reveal(BusState::transfer_ended);
        self.dma_stall_cycles = stall;
        let mut ended = self.io.dma.channels[i];
        ended.finish(source, dest);
        self.io.dma.channels[i] = ended;
        if ended.irq_on_end() {
            self.io.irq.request(dma_irq_source(i));
        }
    }
}

} // verus!

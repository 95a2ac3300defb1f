//! Laws of the memory map: which byte each address reads and writes, how many cycles
//! that takes, and how wide accesses are made of narrow ones.

use vstd::prelude::*;

use super::model::BusState;
use crate::emu_core::{Access, AccessKind, AccessMaster, AccessSequence, AccessWidth, Timestamp};
use crate::gba::memory;
use crate::gba::prefetch::Prefetch;

verus! {

/// The offset in VRAM of an address: 128 KiB windows, the last 32 KiB of each showing
/// the 32 KiB before them again.
pub open spec fn in_vram(addr: u32) -> int {
    let offset = addr as int % 0x2_0000;
    if offset < 0x1_8000 {
        offset
    } else {
        offset - 0x8000
    }
}

/// The byte that the internal memories hold at an address, by its top byte: BIOS, the
/// two work RAMs, palette, VRAM and OAM, each repeated through its region.
pub open spec fn byte_at(bus: BusState, addr: u32) -> u8 {
    let region = addr / 0x100_0000;
    if region == 0x00 {
        bus.memory.bios[addr as int]
    } else if region == 0x02 {
        bus.memory.ewram[addr as int % 0x4_0000]
    } else if region == 0x03 {
        bus.memory.iwram[addr as int % 0x8000]
    } else if region == 0x05 {
        bus.memory.palette[addr as int % 0x400]
    } else if region == 0x06 {
        bus.memory.vram[in_vram(addr)]
    } else {
        bus.memory.oam[addr as int % 0x400]
    }
}

/// Whether an address is in one of the internal memories.
pub open spec fn is_internal(addr: u32) -> bool {
    let region = addr / 0x100_0000;
    addr < 0x4000 || region == 0x02 || region == 0x03 || region == 0x05 || region == 0x06 || region
        == 0x07
}

/// A byte read of internal memory gives the byte there, in three cycles from the
/// external work RAM and one from everywhere else, and changes nothing.
pub proof fn byte_reads(bus: BusState, addr: u32, access: Access, now: Timestamp)
    requires
        is_internal(addr),
    ensures
        bus.read(addr, AccessWidth::Byte, access, now) == (
            byte_at(bus, addr) as u32,
            if addr / 0x100_0000 == 0x02 {
                3u32
            } else {
                1u32
            },
            bus,
        ),
{
    reveal(BusState::read);
    reveal(BusState::read_aligned);
}

/// A halfword read of internal memory is made of the two bytes at the even address, the
/// lower first; it takes as long as a byte read.
pub proof fn halfword_reads(bus: BusState, addr: u32, access: Access, now: Timestamp)
    requires
        is_internal(addr),
    ensures
        ({
            let even = (addr - addr % 2) as u32;
            bus.read(addr, AccessWidth::Half, access, now) == (
                (byte_at(bus, even) + 0x100 * byte_at(bus, (even + 1) as u32)) as u32,
                if addr / 0x100_0000 == 0x02 {
                    3u32
                } else {
                    1u32
                },
                bus,
            )
        }),
{
    reveal(BusState::read);
    reveal(BusState::read_aligned);
}

proof fn lemma_neighbours(base: u32, k: int)
    requires
        base % 4 == 0,
        0 <= k < 4,
        is_internal(base),
    ensures
        (base + k) / 0x100_0000 == base as int / 0x100_0000,
        (base + k) % 0x400 == base as int % 0x400 + k,
        (base + k) % 0x8000 == base as int % 0x8000 + k,
        (base + k) % 0x4_0000 == base as int % 0x4_0000 + k,
        in_vram((base + k) as u32) == in_vram(base) + k,
{
    assert(base as int % 0x2_0000 % 4 == 0);
    assert((base + k) % 0x2_0000 == base as int % 0x2_0000 + k);
}

/// A word read of internal memory is made of the four bytes at the aligned address, the
/// lowest first; it takes six cycles from the external work RAM, two from palette and
/// VRAM and one from the rest.
pub proof fn word_reads(bus: BusState, addr: u32, access: Access, now: Timestamp)
    requires
        is_internal(addr),
    ensures
        ({
            let base = (addr - addr % 4) as u32;
            let region = addr / 0x100_0000;
            bus.read(addr, AccessWidth::Word, access, now) == (
                (byte_at(bus, base) + 0x100 * byte_at(bus, (base + 1) as u32) + 0x1_0000 * byte_at(
                    bus,
                    (base + 2) as u32,
                ) + 0x100_0000 * byte_at(bus, (base + 3) as u32)) as u32,
                if region == 0x02 {
                    6u32
                } else if region == 0x05 || region == 0x06 {
                    2u32
                } else {
                    1u32
                },
                bus,
            )
        }),
{
    reveal(BusState::read);
    let base = (addr - addr % 4) as u32;
    assert(base as int / 0x100_0000 == addr as int / 0x100_0000);
    assert(is_internal(base));
    lemma_neighbours(base, 1);
    lemma_neighbours(base, 2);
    lemma_neighbours(base, 3);
    lemma_word_value(bus, base, access, now);
}

proof fn lemma_word_value(bus: BusState, base: u32, access: Access, now: Timestamp)
    requires
        base % 4 == 0,
        is_internal(base),
    ensures
        ({
            let region = base / 0x100_0000;
            let (mem, offset) = if region == 0x00 {
                (bus.memory.bios, base as int)
            } else if region == 0x02 {
                (bus.memory.ewram, base as int % 0x4_0000)
            } else if region == 0x03 {
                (bus.memory.iwram, base as int % 0x8000)
            } else if region == 0x05 {
                (bus.memory.palette, base as int % 0x400)
            } else if region == 0x06 {
                (bus.memory.vram, in_vram(base))
            } else {
                (bus.memory.oam, base as int % 0x400)
            };
            bus.read_aligned(base, AccessWidth::Word, access, now) == (
                (mem[offset] + 0x100 * mem[offset + 1] + 0x1_0000 * mem[offset + 2] + 0x100_0000
                    * mem[offset + 3]) as u32,
                if region == 0x02 {
                    6u32
                } else if region == 0x05 || region == 0x06 {
                    2u32
                } else {
                    1u32
                },
            )
        }),
{
    reveal(BusState::read_aligned);
}

/// Addresses that nothing is mapped at read as zero in one cycle: past the BIOS, the
/// unused regions, and I/O beyond its registers.
pub proof fn unmapped_reads(
    bus: BusState,
    addr: u32,
    width: AccessWidth,
    access: Access,
    now: Timestamp,
)
    requires
        (0x4000 <= addr < 0x0200_0000) || addr >= 0x1000_0000 || (0x0400_0400 <= addr
            < 0x0500_0000),
    ensures
        bus.read(addr, width, access, now) == (0u32, 1u32, bus),
{
    reveal(BusState::read);
    reveal(BusState::read_aligned);
}

/// The ROM appears from 0x0800_0000 on, three times over 32 MiB each; beyond its end a
/// byte is one of the two low bytes of its own halfword address.
pub proof fn rom_byte_reads(bus: BusState, addr: u32, access: Access, now: Timestamp)
    requires
        0x0800_0000 <= addr < 0x0E00_0000,
        access.master == AccessMaster::Cpu,
    ensures
        ({
            let offset = addr as int % 0x200_0000;
            let value = bus.read(addr, AccessWidth::Byte, access, now).0;
            &&& offset < bus.memory.rom.len() ==> value == bus.memory.rom[offset]
            &&& offset >= bus.memory.rom.len() && addr % 2 == 0 ==> value == addr as int / 2
                % 0x1_0000 % 0x100
            &&& offset >= bus.memory.rom.len() && addr % 2 == 1 ==> value == (addr - 1) / 2
                % 0x1_0000 / 0x100
        }),
{
    reveal(BusState::read);
    lemma_rom_value(bus, addr, AccessWidth::Byte, access, now);
}

proof fn lemma_rom_value(
    bus: BusState,
    addr: u32,
    width: AccessWidth,
    access: Access,
    now: Timestamp,
)
    requires
        0x0800_0000 <= addr < 0x0E00_0000,
    ensures
        bus.read_aligned(addr, width, access, now).0 == bus.rom_value(addr, width, access.master),
{
    reveal(BusState::read_aligned);
}

/// A halfword of ROM is two bytes from its even address on; beyond the end it is the
/// low bits of the halfword address.
pub proof fn rom_halfword_reads(bus: BusState, addr: u32, access: Access, now: Timestamp)
    requires
        0x0800_0000 <= addr < 0x0E00_0000,
        access.master == AccessMaster::Cpu,
    ensures
        ({
            let even = (addr - addr % 2) as int;
            let offset = even % 0x200_0000;
            let value = bus.read(addr, AccessWidth::Half, access, now).0;
            &&& offset + 2 <= bus.memory.rom.len() ==> value == bus.memory.rom[offset] + 0x100
                * bus.memory.rom[offset + 1]
            &&& offset + 2 > bus.memory.rom.len() ==> value == even / 2 % 0x1_0000
        }),
{
    reveal(BusState::read);
    lemma_rom_value(bus, (addr - addr % 2) as u32, AccessWidth::Half, access, now);
}

/// The save RAM is a byte wide: a wider read by the CPU repeats the byte.
pub proof fn sram_reads(bus: BusState, addr: u32, access: Access, now: Timestamp)
    requires
        0x0E00_0000 <= addr < 0x1000_0000,
        access.master == AccessMaster::Cpu,
    ensures
        bus.read(addr, AccessWidth::Byte, access, now).0 == bus.memory.sram[addr as int
            % 0x1_0000],
        ({
            let even = (addr - addr % 2) as int;
            bus.read(addr, AccessWidth::Half, access, now).0 == bus.memory.sram[even % 0x1_0000]
                * 0x101
        }),
        ({
            let base = (addr - addr % 4) as int;
            bus.read(addr, AccessWidth::Word, access, now).0 == bus.memory.sram[base % 0x1_0000]
                * 0x101_0101
        }),
{
    reveal(BusState::read);
    reveal(BusState::read_aligned);
}

/// A byte written to a work RAM is the byte that then stands at its address, and no
/// other byte of either changes.
pub proof fn byte_writes(bus: BusState, addr: u32, value: u32, master: AccessMaster, other: u32)
    requires
        bus.valid(),
        addr / 0x100_0000 == 0x02 || addr / 0x100_0000 == 0x03,
        is_internal(other),
    ensures
        ({
            let after = bus.stored(addr, value, AccessWidth::Byte, master);
            let same = addr / 0x100_0000 == other / 0x100_0000 && (if addr / 0x100_0000 == 0x02 {
                addr as int % 0x4_0000 == other as int % 0x4_0000
            } else {
                addr as int % 0x8000 == other as int % 0x8000
            });
            byte_at(after, other) == (if same {
                (value % 0x100) as u8
            } else {
                byte_at(bus, other)
            })
        }),
{
    reveal(BusState::stored);
}

/// A halfword written to palette, VRAM or OAM puts its low byte at the even address and
/// its high byte behind; a byte written to palette or VRAM fills both.
pub proof fn video_writes(bus: BusState, addr: u32, value: u32, master: AccessMaster)
    requires
        bus.valid(),
        addr / 0x100_0000 == 0x05 || addr / 0x100_0000 == 0x06 || addr / 0x100_0000 == 0x07,
        addr % 2 == 0,
    ensures
        ({
            let after = bus.stored(addr, value, AccessWidth::Half, master);
            &&& byte_at(after, addr) == value % 0x100
            &&& byte_at(after, (addr + 1) as u32) == value / 0x100 % 0x100
        }),
        addr / 0x100_0000 != 0x07 ==> {
            let after = bus.stored(addr, value, AccessWidth::Byte, master);
            &&& byte_at(after, addr) == value % 0x100
            &&& byte_at(after, (addr + 1) as u32) == value % 0x100
        },
{
    reveal(BusState::stored);
    assert((value % 0x100 * 0x101) % 0x100 == value % 0x100);
    assert((value % 0x100 * 0x101) / 0x100 == value % 0x100);
}

/// The CPU's writes to save RAM store the low byte of what is written.
pub proof fn sram_writes(bus: BusState, addr: u32, value: u32, width: AccessWidth)
    requires
        bus.valid(),
        0x0E00_0000 <= addr < 0x1000_0000,
    ensures
        bus.stored(addr, value, width, AccessMaster::Cpu).memory.sram == bus.memory.sram.update(
            addr as int % 0x1_0000,
            (value % 0x100) as u8,
        ),
{
    reveal(BusState::stored);
}

/// Writes take as long as reads: three cycles to the external work RAM, twice that for
/// a word; two for a word of palette or VRAM; one elsewhere inside.
pub proof fn write_cycles(bus: BusState, addr: u32, width: AccessWidth, sequence: AccessSequence)
    requires
        is_internal(addr),
    ensures
        ({
            let region = addr / 0x100_0000;
            let word = width == AccessWidth::Word;
            bus.store_cycles(addr, width, sequence) == (if region == 0x02 {
                if word {
                    6u32
                } else {
                    3u32
                }
            } else if word && (region == 0x05 || region == 0x06) {
                2u32
            } else {
                1u32
            })
        }),
{
    reveal(BusState::store_cycles);
}

/// The wait cycles of a first access by its two bits of `WAITCNT`: 4, 3, 2 or 8.
pub open spec fn first_wait(field: int) -> int {
    if field % 4 == 0 {
        4
    } else if field % 4 == 1 {
        3
    } else if field % 4 == 2 {
        2
    } else {
        8
    }
}

/// The cartridge's wait cycles. `WAITCNT` bits 2-4 time the first ROM window, bits 5-7
/// the second and bits 8-10 the third: two bits for a first access, one that shortens
/// the following ones to a single cycle from 2, 4 or 8. Bits 0-1 time the save RAM. An
/// access takes one cycle more than its wait, and a word takes a following access more.
pub proof fn cartridge_cycles(bus: BusState, region: u32)
    requires
        0x08 <= region <= 0x0D,
    ensures
        ({
            let waitcnt = bus.io.control.waitcnt as int;
            let first = 1 + (if region < 0x0A {
                first_wait(waitcnt / 4)
            } else if region < 0x0C {
                first_wait(waitcnt / 32)
            } else {
                first_wait(waitcnt / 256)
            });
            let following = 1 + (if region < 0x0A {
                if waitcnt / 16 % 2 == 1 {
                    1int
                } else {
                    2
                }
            } else if region < 0x0C {
                if waitcnt / 128 % 2 == 1 {
                    1int
                } else {
                    4
                }
            } else {
                if waitcnt / 1024 % 2 == 1 {
                    1int
                } else {
                    8
                }
            });
            let cycles = |width: AccessWidth, sequence: AccessSequence|
                bus.rom_cycles(region, width, sequence) as int;
            &&& cycles(AccessWidth::Half, AccessSequence::NonSequential) == first
            &&& cycles(AccessWidth::Byte, AccessSequence::NonSequential) == first
            &&& cycles(AccessWidth::Word, AccessSequence::NonSequential) == first + following
            &&& cycles(AccessWidth::Half, AccessSequence::Sequential) == following
            &&& cycles(AccessWidth::Byte, AccessSequence::Sequential) == following
            &&& cycles(AccessWidth::Word, AccessSequence::Sequential) == 2 * following
            &&& bus.sram_cycles() == 1 + first_wait(waitcnt)
        }),
{
}

/// A fetch through the prefetcher: a jump takes a whole first access and starts the
/// buffer over; a following halfword takes one cycle from the buffer, or what is left of
/// the halfword in progress.
pub proof fn prefetched_cycles(bus: BusState, region: u32, access: Access)
    requires
        0x08 <= region <= 0x0D,
        access.kind == AccessKind::Instruction,
        bus.prefetch.enabled,
    ensures
        ({
            let (cycles, after) = bus.rom_read_cost(region, AccessWidth::Half, access);
            &&& access.sequence == AccessSequence::NonSequential ==> cycles == bus.rom_cycles(
                region,
                AccessWidth::Half,
                AccessSequence::NonSequential,
            ) && after.buffered == 0 && after.progress == 0 && after.halfword_cost
                == bus.rom_cycles(region, AccessWidth::Half, AccessSequence::Sequential)
            &&& access.sequence == AccessSequence::Sequential && bus.prefetch.buffered > 0
                ==> cycles == 1 && after.buffered == bus.prefetch.buffered - 1
            &&& access.sequence == AccessSequence::Sequential && bus.prefetch.valid()
                && bus.prefetch.buffered == 0 ==> cycles == bus.prefetch.halfword_cost
                - bus.prefetch.progress && after.progress == 0
        }),
{
}

/// The prefetcher reads one halfword ahead for each halfword's cost in idle cycles, and
/// holds eight.
pub proof fn prefetcher_reads_ahead(prefetch: Prefetch, idle: u32)
    requires
        prefetch.valid(),
        prefetch.enabled,
    ensures
        ({
            let after = prefetch.stepped(idle);
            let before = prefetch.buffered * prefetch.halfword_cost + prefetch.progress;
            let held = after.buffered * after.halfword_cost + after.progress;
            &&& after.buffered <= 8
            &&& after.buffered < 8 ==> held == before + idle
            &&& after.buffered == 8 ==> after.progress == 0
        }),
        !Prefetch::off().enabled,
{
    let total = prefetch.progress + idle;
    let cost = prefetch.halfword_cost as int;
    vstd::arithmetic::div_mod::lemma_fundamental_div_mod(total, cost);
    let read = total / cost;
    assert(read >= 0) by (nonlinear_arith)
        requires
            total >= 0,
            cost > 0,
            read == total / cost,
    ;
    assert((prefetch.buffered + read) * cost == prefetch.buffered * cost + cost * read)
        by (nonlinear_arith);
}

/// A transfer between two cartridge addresses takes four internal cycles, any other two.
pub proof fn transfer_overhead(channel: crate::gba::dma::DmaChannel)
    ensures
        super::model::internal_cycles(&channel) == (if 0x0800_0000 <= channel.internal_source
            < 0x1000_0000 && 0x0800_0000 <= channel.internal_dest < 0x1000_0000 {
            4u64
        } else {
            2u64
        }),
{
}

} // verus!

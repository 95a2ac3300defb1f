//! The bus's backing storage and the arithmetic of its address map: region sizes,
//! mirroring, byte order, and the access rules that depend on width or master.

use vstd::prelude::*;

use crate::emu_core::{AccessMaster, AccessWidth};

verus! {

// Region sizes.
pub const BIOS_SIZE: usize = 0x4000;  // 16 KiB

pub const EWRAM_SIZE: usize = 0x4_0000;  // 256 KiB

pub const IWRAM_SIZE: usize = 0x8000;  // 32 KiB

pub const PALETTE_SIZE: usize = 0x400;  // 1 KiB

pub const VRAM_SIZE: usize = 0x1_8000;  // 96 KiB

pub const OAM_SIZE: usize = 0x400;  // 1 KiB

pub const SRAM_SIZE: usize = 0x1_0000;  // 64 KiB

/// The bus's backing storage. Cartridge ROM is loaded in; the rest is RAM.
#[derive(Clone, Debug)]
pub struct Memory {
    pub bios: Vec<u8>,
    pub ewram: Vec<u8>,
    pub iwram: Vec<u8>,
    pub palette: Vec<u8>,
    pub vram: Vec<u8>,
    pub oam: Vec<u8>,
    pub sram: Vec<u8>,
    pub rom: Vec<u8>,
}

/// The contents of the storage.
#[verifier::ext_equal]
pub struct MemoryState {
    pub bios: Seq<u8>,
    pub ewram: Seq<u8>,
    pub iwram: Seq<u8>,
    pub palette: Seq<u8>,
    pub vram: Seq<u8>,
    pub oam: Seq<u8>,
    pub sram: Seq<u8>,
    pub rom: Seq<u8>,
}

impl View for Memory {
    type V = MemoryState;

    open spec fn view(&self) -> MemoryState {
        MemoryState {
            bios: self.bios@,
            ewram: self.ewram@,
            iwram: self.iwram@,
            palette: self.palette@,
            vram: self.vram@,
            oam: self.oam@,
            sram: self.sram@,
            rom: self.rom@,
        }
    }
}

/// A cleared region.
pub open spec fn zeroed(size: nat) -> Seq<u8> {
    Seq::new(size, |i: int| 0u8)
}

impl MemoryState {
    /// Every region has its size.
    pub open spec fn valid(self) -> bool {
        &&& self.bios.len() == BIOS_SIZE
        &&& self.ewram.len() == EWRAM_SIZE
        &&& self.iwram.len() == IWRAM_SIZE
        &&& self.palette.len() == PALETTE_SIZE
        &&& self.vram.len() == VRAM_SIZE
        &&& self.oam.len() == OAM_SIZE
        &&& self.sram.len() == SRAM_SIZE
    }

    /// Cleared RAM and no cartridge.
    pub open spec fn initial() -> MemoryState {
        MemoryState {
            bios: zeroed(BIOS_SIZE as nat),
            ewram: zeroed(EWRAM_SIZE as nat),
            iwram: zeroed(IWRAM_SIZE as nat),
            palette: zeroed(PALETTE_SIZE as nat),
            vram: zeroed(VRAM_SIZE as nat),
            oam: zeroed(OAM_SIZE as nat),
            sram: zeroed(SRAM_SIZE as nat),
            rom: Seq::empty(),
        }
    }
}

fn cleared(size: usize) -> (bytes: Vec<u8>)
    ensures
        bytes@ == zeroed(size as nat),
{
    let bytes: Vec<u8> = vec![0; size];
    assert(bytes@ =~= zeroed(size as nat));
    bytes
}

impl Default for Memory {
    fn default() -> (memory: Self)
        ensures
            memory@ == MemoryState::initial(),
            memory@.valid(),
    {
        Memory {
            bios: cleared(BIOS_SIZE),
            ewram: cleared(EWRAM_SIZE),
            iwram: cleared(IWRAM_SIZE),
            palette: cleared(PALETTE_SIZE),
            vram: cleared(VRAM_SIZE),
            oam: cleared(OAM_SIZE),
            sram: cleared(SRAM_SIZE),
            rom: Vec::new(),
        }
    }
}

/// Align an address down to its access width.
#[verifier::allow_in_spec]
pub fn align(addr: u32, width: AccessWidth) -> u32
    returns
        (match width {
            AccessWidth::Byte => addr,
            AccessWidth::Half => (addr - addr % 2) as u32,
            AccessWidth::Word => (addr - addr % 4) as u32,
        }),
{
    match width {
        AccessWidth::Byte => addr,
        AccessWidth::Half => addr - addr % 2,
        AccessWidth::Word => addr - addr % 4,
    }
}

/// Whether an access at an aligned address stays within the regions, which are
/// sized in words.
#[verifier::opaque]
pub open spec fn fits(addr: u32, width: AccessWidth) -> bool {
    &&& align(addr, width) == addr
    &&& addr % 0x400 + width.bytes() <= 0x400
    &&& addr % 0x8000 + width.bytes() <= 0x8000
    &&& addr % 0x4_0000 + width.bytes() <= 0x4_0000
    &&& vram_offset(addr) + width.bytes() <= 0x1_8000
    &&& addr < 0x4000 ==> addr + width.bytes() <= 0x4000
}

proof fn lemma_aligned_bounds(a: u32)
    by (bit_vector)
    ensures
        a % 2 == 0 ==> {
            &&& a % 0x400 <= 0x3FE
            &&& a % 0x8000 <= 0x7FFE
            &&& a % 0x4_0000 <= 0x3_FFFE
            &&& a % 0x2_0000 <= 0x1_FFFE
            &&& (a % 0x2_0000) % 2 == 0
            &&& a < 0x4000 ==> a <= 0x3FFE
        },
        a % 4 == 0 ==> {
            &&& a % 0x400 <= 0x3FC
            &&& a % 0x8000 <= 0x7FFC
            &&& a % 0x4_0000 <= 0x3_FFFC
            &&& a % 0x2_0000 <= 0x1_FFFC
            &&& (a % 0x2_0000) % 4 == 0
            &&& a < 0x4000 ==> a <= 0x3FFC
        },
{
}

proof fn lemma_aligned(addr: u32)
    ensures
        (addr - addr % 2) % 2 == 0,
        (addr - addr % 4) % 4 == 0,
        (addr - addr % 2) / 0x100_0000 == addr / 0x100_0000,
        (addr - addr % 4) / 0x100_0000 == addr / 0x100_0000,
{
}

/// An aligned access stays within the regions.
pub proof fn aligned_access_fits(addr: u32, width: AccessWidth)
    ensures
        fits(align(addr, width), width),
        align(addr, width) / 0x100_0000 == addr / 0x100_0000,
{
    reveal(fits);
    lemma_aligned(addr);
    match width {
        AccessWidth::Byte => {},
        AccessWidth::Half => {
            lemma_aligned_bounds((addr - addr % 2) as u32);
        },
        AccessWidth::Word => {
            lemma_aligned_bounds((addr - addr % 4) as u32);
        },
    }
}

/// The I/O offset for an address in the `04000000h` region, or `None` if it is
/// not a mapped register (the `04000800h` mirror is not modeled).
#[verifier::allow_in_spec]
pub fn io_offset(addr: u32) -> Option<u32>
    returns
        (if addr % 0x100_0000 < 0x400 {
            Some(addr % 0x100_0000)
        } else {
            None::<u32>
        }),
{
    let offset: u32 = addr % 0x100_0000;
    if offset < 0x400 {
        Some(offset)
    } else {
        None
    }
}

/// VRAM's 128 KiB window: the 96 KiB is followed by a 32 KiB mirror of its last
/// block, and the whole thing repeats every 128 KiB.
#[verifier::allow_in_spec]
pub fn vram_offset(addr: u32) -> u32
    returns
        (if addr % 0x2_0000 >= 0x1_8000 {
            (addr % 0x2_0000 - 0x8000) as u32
        } else {
            addr % 0x2_0000
        }),
{
    let offset: u32 = addr % 0x2_0000;
    if offset >= 0x1_8000 {
        offset - 0x8000
    } else {
        offset
    }
}

/// The number that the bytes at `off` stand for, least significant first.
pub open spec fn le(mem: Seq<u8>, off: int, width: AccessWidth) -> u32 {
    match width {
        AccessWidth::Byte => mem[off] as u32,
        AccessWidth::Half => (mem[off] + mem[off + 1] * 0x100) as u32,
        AccessWidth::Word => (mem[off] + mem[off + 1] * 0x100 + mem[off + 2] * 0x1_0000 + mem[off
            + 3] * 0x100_0000) as u32,
    }
}

/// Memory with a number stored at `off`, least significant byte first.
pub open spec fn stored(mem: Seq<u8>, off: int, width: AccessWidth, value: u32) -> Seq<u8> {
    let byte = mem.update(off, (value % 0x100) as u8);
    let half = byte.update(off + 1, (value / 0x100 % 0x100) as u8);
    match width {
        AccessWidth::Byte => byte,
        AccessWidth::Half => half,
        AccessWidth::Word => half.update(off + 2, (value / 0x1_0000 % 0x100) as u8).update(
            off + 3,
            (value / 0x100_0000) as u8,
        ),
    }
}

/// Memory after a write to palette/VRAM, where a byte fills its whole halfword.
pub open spec fn stored_duplicating(
    mem: Seq<u8>,
    off: int,
    width: AccessWidth,
    value: u32,
) -> Seq<u8> {
    match width {
        AccessWidth::Byte => stored(
            mem,
            off - off % 2,
            AccessWidth::Half,
            (value % 0x100 * 0x101) as u32,
        ),
        _ => stored(mem, off, width, value),
    }
}

/// Read a number at `off`, least significant byte first.
pub fn read_le(mem: &Vec<u8>, off: usize, width: AccessWidth) -> (value: u32)
    requires
        off + width.bytes() <= mem.len(),
    ensures
        value == le(mem@, off as int, width),
        width == AccessWidth::Half ==> value <= 0xFFFF,
        width == AccessWidth::Byte ==> value <= 0xFF,
{
    match width {
        AccessWidth::Byte => mem[off] as u32,
        AccessWidth::Half => mem[off] as u32 + mem[off + 1] as u32 * 0x100,
        AccessWidth::Word => mem[off] as u32 + mem[off + 1] as u32 * 0x100 + mem[off + 2] as u32
            * 0x1_0000 + mem[off + 3] as u32 * 0x100_0000,
    }
}

/// Write a number at `off`, least significant byte first.
pub fn write_le(mem: &mut Vec<u8>, off: usize, width: AccessWidth, value: u32)
    requires
        off + width.bytes() <= old(mem).len(),
    ensures
        final(mem)@ == stored(old(mem)@, off as int, width, value),
{
    mem.set(off, (value % 0x100) as u8);
    if width != AccessWidth::Byte {
        mem.set(off + 1, (value / 0x100 % 0x100) as u8);
    }
    if width == AccessWidth::Word {
        mem.set(off + 2, (value / 0x1_0000 % 0x100) as u8);
        mem.set(off + 3, (value / 0x100_0000) as u8);
    }
}

/// Write to palette/VRAM, where an 8-bit write duplicates the byte across the
/// addressed halfword rather than writing a single byte.
pub fn write_duplicating(mem: &mut Vec<u8>, off: usize, width: AccessWidth, value: u32)
    requires
        off + width.bytes() <= old(mem).len(),
        old(mem)@.len() % 2 == 0,
    ensures
        final(mem)@ == stored_duplicating(old(mem)@, off as int, width, value),
{
    match width {
        AccessWidth::Byte => {
            let half: u32 = value % 0x100 * 0x101;
            write_le(mem, off - off % 2, AccessWidth::Half, half);
        },
        _ => write_le(mem, off, width, value),
    }
}

/// The halfword that the cartridge bus shows at an address with no ROM behind it.
pub open spec fn open_halfword(addr: int) -> int {
    addr / 2 % 0x1_0000
}

/// The GamePak ROM open-bus value: reads of the address space beyond the loaded
/// ROM return the low bits of the halfword address.
pub open spec fn open_rom(addr: u32, width: AccessWidth) -> u32 {
    match width {
        AccessWidth::Byte => if addr % 2 == 0 {
            (open_halfword(addr as int) % 0x100) as u32
        } else {
            (open_halfword(addr - 1) / 0x100) as u32
        },
        AccessWidth::Half => open_halfword(addr as int) as u32,
        AccessWidth::Word => (open_halfword(addr as int) + open_halfword(addr + 2)
            * 0x1_0000) as u32,
    }
}

/// The GamePak ROM open-bus value.
pub fn rom_open_bus(addr: u32, width: AccessWidth) -> (value: u32)
    requires
        addr < 0x1000_0000,
    ensures
        value == open_rom(addr, width),
{
    match width {
        AccessWidth::Byte => {
            if addr % 2 == 0 {
                addr / 2 % 0x1_0000 % 0x100
            } else {
                (addr - 1) / 2 % 0x1_0000 / 0x100
            }
        },
        AccessWidth::Half => addr / 2 % 0x1_0000,
        AccessWidth::Word => addr / 2 % 0x1_0000 + (addr + 2) / 2 % 0x1_0000 * 0x1_0000,
    }
}

/// SRAM is an 8-bit bus; wider reads see the byte replicated across the width.
#[verifier::allow_in_spec]
pub fn sram_replicate(byte: u8, width: AccessWidth) -> u32
    returns
        (match width {
            AccessWidth::Byte => byte as u32,
            AccessWidth::Half => (byte * 0x101) as u32,
            AccessWidth::Word => (byte * 0x101_0101) as u32,
        }),
{
    match width {
        AccessWidth::Byte => byte as u32,
        AccessWidth::Half => byte as u32 * 0x101,
        AccessWidth::Word => byte as u32 * 0x101_0101,
    }
}

/// Cycles for a fixed-timing region: `narrow` for 8/16-bit, `word` for 32-bit.
#[verifier::allow_in_spec]
pub fn fixed_cycles(narrow: u32, word: u32, width: AccessWidth) -> u32
    returns
        (match width {
            AccessWidth::Word => word,
            _ => narrow,
        }),
{
    match width {
        AccessWidth::Word => word,
        _ => narrow,
    }
}

/// The gamepak wait-state region (0/1/2) for a ROM address region.
#[verifier::allow_in_spec]
pub fn ws_index(region: u32) -> u32
    returns
        (if region == 0x08 || region == 0x09 {
            0u32
        } else if region == 0x0A || region == 0x0B {
            1u32
        } else {
            2u32
        }),
{
    match region {
        0x08 | 0x09 => 0,
        0x0A | 0x0B => 1,
        _ => 2,
    }
}

/// Whether an address is in gamepak memory (ROM or SRAM), for DMA internal-cycle
/// accounting.
#[verifier::allow_in_spec]
pub fn is_gamepak(addr: u32) -> bool
    returns
        0x08 <= addr / 0x100_0000 && addr / 0x100_0000 <= 0x0F,
{
    0x08 <= addr / 0x100_0000 && addr / 0x100_0000 <= 0x0F
}

/// Only the CPU and DMA3 may access GamePak ROM.
#[verifier::allow_in_spec]
pub fn rom_accessible(master: AccessMaster) -> bool
    returns
        master == AccessMaster::Cpu || master == AccessMaster::Dma(3),
{
    match master {
        AccessMaster::Cpu => true,
        AccessMaster::Dma(channel) => channel == 3,
    }
}

/// GamePak SRAM is accessible by the CPU only - no DMA channel may reach it.
#[verifier::allow_in_spec]
pub fn sram_accessible(master: AccessMaster) -> bool
    returns
        master == AccessMaster::Cpu,
{
    match master {
        AccessMaster::Cpu => true,
        AccessMaster::Dma(_) => false,
    }
}

/// Wait cycles of a first access, by its two-bit `WAITCNT` field.
#[verifier::allow_in_spec]
pub fn nonseq_waits(field: u16) -> u32
    returns
        (if field % 4 == 0 {
            4u32
        } else if field % 4 == 1 {
            3u32
        } else if field % 4 == 2 {
            2u32
        } else {
            8u32
        }),
{
    match field % 4 {
        0 => 4,
        1 => 3,
        2 => 2,
        _ => 8,
    }
}

/// The (non-sequential, sequential) wait cycles for a gamepak wait-state
/// region, decoded from `WAITCNT`.
#[verifier::allow_in_spec]
pub fn ws_waits(waitcnt: u16, waitstate: u32) -> (u32, u32)
    returns
        (if waitstate == 0 {
            (
                nonseq_waits(waitcnt / 4),
                if waitcnt / 16 % 2 == 1 {
                    1u32
                } else {
                    2u32
                },
            )
        } else if waitstate == 1 {
            (
                nonseq_waits(waitcnt / 32),
                if waitcnt / 128 % 2 == 1 {
                    1u32
                } else {
                    4u32
                },
            )
        } else {
            (
                nonseq_waits(waitcnt / 256),
                if waitcnt / 1024 % 2 == 1 {
                    1u32
                } else {
                    8u32
                },
            )
        }),
{
    match waitstate {
        0 => (
            nonseq_waits(waitcnt / 4),
            if waitcnt / 16 % 2 == 1 {
                1
            } else {
                2
            },
        ),
        1 => (
            nonseq_waits(waitcnt / 32),
            if waitcnt / 128 % 2 == 1 {
                1
            } else {
                4
            },
        ),
        _ => (
            nonseq_waits(waitcnt / 256),
            if waitcnt / 1024 % 2 == 1 {
                1
            } else {
                8
            },
        ),
    }
}

/// The part of a value that an access of some width carries.
pub open spec fn truncated(value: u32, width: AccessWidth) -> u32 {
    match width {
        AccessWidth::Byte => value % 0x100,
        AccessWidth::Half => value % 0x1_0000,
        AccessWidth::Word => value,
    }
}

/// What is stored reads back, in every width.
pub proof fn stored_reads_back(mem: Seq<u8>, off: int, width: AccessWidth, value: u32)
    requires
        0 <= off,
        off + width.bytes() <= mem.len(),
    ensures
        le(stored(mem, off, width, value), off, width) == truncated(value, width),
{
    match width {
        AccessWidth::Byte => {},
        AccessWidth::Half => {
            assert(value % 0x100 + value / 0x100 % 0x100 * 0x100 == value % 0x1_0000);
        },
        AccessWidth::Word => {
            assert(value % 0x100 + value / 0x100 % 0x100 * 0x100 + value / 0x1_0000 % 0x100
                * 0x1_0000 + value / 0x100_0000 * 0x100_0000 == value);
        },
    }
}

/// The halfwords and bytes of a stored word, least significant first.
pub proof fn stored_word_parts(mem: Seq<u8>, off: int, value: u32)
    requires
        0 <= off,
        off + 4 <= mem.len(),
    ensures
        ({
            let after = stored(mem, off, AccessWidth::Word, value);
            &&& le(after, off, AccessWidth::Half) == value % 0x1_0000
            &&& le(after, off + 2, AccessWidth::Half) == value / 0x1_0000
            &&& le(after, off, AccessWidth::Byte) == value % 0x100
            &&& le(after, off + 3, AccessWidth::Byte) == value / 0x100_0000
        }),
{
    assert(value % 0x100 + value / 0x100 % 0x100 * 0x100 == value % 0x1_0000);
    assert(value / 0x1_0000 % 0x100 + value / 0x100_0000 * 0x100 == value / 0x1_0000);
}

/// Storing leaves every other byte alone.
pub proof fn stored_keeps_the_rest(
    mem: Seq<u8>,
    off: int,
    width: AccessWidth,
    value: u32,
    other: int,
)
    requires
        0 <= off,
        off + width.bytes() <= mem.len(),
        0 <= other < mem.len(),
        other < off || other >= off + width.bytes(),
    ensures
        stored(mem, off, width, value)[other] == mem[other],
        stored(mem, off, width, value).len() == mem.len(),
{
}

/// VRAM's upper window mirrors its last block.
pub proof fn vram_mirrors(addr: u32)
    requires
        0x1_0000 <= addr % 0x2_0000 < 0x1_8000,
        addr + 0x8000 <= u32::MAX,
    ensures
        vram_offset((addr + 0x8000) as u32) == vram_offset(addr),
{
}

} // verus!

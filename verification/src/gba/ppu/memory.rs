//! The renderer's read-only window on video memory.

use vstd::prelude::*;

use super::state::Color15;
use crate::emu_core::AccessWidth;
use crate::gba::memory;
use crate::gba::memory::Memory;

verus! {

/// Where the palette is mapped.
pub const PALETTE_BASE: u32 = 0x0500_0000;

/// Where VRAM is mapped.
pub const VRAM_BASE: u32 = 0x0600_0000;

/// Where OAM is mapped.
pub const OAM_BASE: u32 = 0x0700_0000;

/// Video memory as the renderer sees it.
#[derive(Clone, Copy, Debug)]
pub struct PpuMemoryView<'a> {
    pub vram: &'a Vec<u8>,
    pub palette: &'a Vec<u8>,
    pub oam: &'a Vec<u8>,
}

/// The contents of video memory.
#[verifier::ext_equal]
pub struct VideoMemory {
    pub vram: Seq<u8>,
    pub palette: Seq<u8>,
    pub oam: Seq<u8>,
}

impl VideoMemory {
    /// Every region has its size.
    pub open spec fn valid(self) -> bool {
        self.vram.len() == 0x1_8000 && self.palette.len() == 0x400 && self.oam.len() == 0x400
    }

    /// The halfword at a VRAM offset.
    pub open spec fn vram16(self, offset: int) -> u16 {
        memory::le(self.vram, offset, AccessWidth::Half) as u16
    }

    /// The halfword at an OAM offset.
    pub open spec fn oam16(self, offset: int) -> u16 {
        memory::le(self.oam, offset, AccessWidth::Half) as u16
    }

    /// The color of a palette entry.
    pub open spec fn palette15(self, index: int) -> Color15 {
        Color15(memory::le(self.palette, index * 2, AccessWidth::Half) as u16)
    }
}

impl<'a> View for PpuMemoryView<'a> {
    type V = VideoMemory;

    open spec fn view(&self) -> VideoMemory {
        VideoMemory { vram: self.vram@, palette: self.palette@, oam: self.oam@ }
    }
}

impl<'a> PpuMemoryView<'a> {
    /// The video part of the bus's storage.
    pub fn new(memory: &'a Memory) -> (view: PpuMemoryView<'a>)
        ensures
            view@ == (VideoMemory {
                vram: memory@.vram,
                palette: memory@.palette,
                oam: memory@.oam,
            }),
    {
        PpuMemoryView { vram: &memory.vram, palette: &memory.palette, oam: &memory.oam }
    }

    /// The halfword at a VRAM offset.
    pub fn vram16(&self, offset: usize) -> (value: u16)
        requires
            self@.valid(),
            offset + 2 <= 0x1_8000,
        ensures
            value == self@.vram16(offset as int),
    {
        memory::read_le(self.vram, offset, AccessWidth::Half) as u16
    }

    /// The byte at a VRAM offset.
    pub fn vram8(&self, offset: usize) -> (value: u8)
        requires
            self@.valid(),
            offset < 0x1_8000,
        ensures
            value == self@.vram[offset as int],
    {
        self.vram[offset]
    }

    /// The halfword at an OAM offset.
    pub fn oam16(&self, offset: usize) -> (value: u16)
        requires
            self@.valid(),
            offset + 2 <= 0x400,
        ensures
            value == self@.oam16(offset as int),
    {
        memory::read_le(self.oam, offset, AccessWidth::Half) as u16
    }

    /// The color of a palette entry.
    pub fn palette15(&self, index: usize) -> (color: Color15)
        requires
            self@.valid(),
            index < 512,
        ensures
            color == self@.palette15(index as int),
    {
        Color15(memory::read_le(self.palette, index * 2, AccessWidth::Half) as u16)
    }
}

} // verus!

//! Where a candidate pixel came from, and why one was rejected.

use vstd::prelude::*;

use crate::gba::ppu::state::Color15;

verus! {

/// One of the four backgrounds.
#[derive(Clone, Copy, Debug, PartialEq, Eq, Structural)]
pub enum BackgroundId {
    Bg0,
    Bg1,
    Bg2,
    Bg3,
}

/// The window region a screen position falls in.
#[derive(Clone, Copy, Debug, PartialEq, Eq, Structural)]
pub enum WindowRegion {
    Win0,
    Win1,
    ObjWindow,
    Outside,
}

/// Why a candidate does not show.
#[derive(Clone, Copy, Debug, PartialEq, Eq, Structural)]
pub enum RejectionReason {
    /// The source pixel is transparent.
    TransparentPixel { palette_index: u8 },
    /// The window region at the position hides the layer.
    WindowHidden { region: WindowRegion },
}

/// A raw bitmap sample: a color, or an index into the palette.
#[derive(Clone, Copy, Debug, PartialEq, Eq, Structural)]
pub enum BitmapSample {
    Direct(Color15),
    Indexed(u8),
}

/// The source of a bitmap background pixel.
#[derive(Clone, Copy, Debug, PartialEq, Eq, Structural)]
pub struct BitmapBgProvenance {
    pub video_mode: u8,
    pub frame: u8,
    pub source_x: u16,
    pub source_y: u16,
    pub vram_address: u32,
    pub raw: BitmapSample,
    pub palette_address: Option<u32>,
    pub resolved: Color15,
    pub priority: u8,
}

/// The source of a sprite pixel.
#[derive(Clone, Copy, Debug, PartialEq, Eq, Structural)]
pub struct ObjProvenance {
    pub oam_index: u8,
    pub oam_address: u32,
    pub tile_number: u16,
    pub texture_x: u8,
    pub texture_y: u8,
    pub tile_byte_address: u32,
    pub palette_index: u8,
    pub palette_address: u32,
    pub resolved: Color15,
    pub priority: u8,
}

/// The source of the backdrop.
#[derive(Clone, Copy, Debug, PartialEq, Eq, Structural)]
pub struct BackdropProvenance {
    pub palette_address: u32,
    pub raw_color: Color15,
}

/// The source of a candidate pixel.
#[derive(Clone, Copy, Debug, PartialEq, Eq, Structural)]
pub enum SourceProvenance {
    BitmapBg(BitmapBgProvenance),
    Obj(ObjProvenance),
    Backdrop(BackdropProvenance),
    /// The layer was rejected before a source was recorded.
    Unrecorded,
}

impl SourceProvenance {
    /// The guest memory addresses the pixel was sampled from.
    pub open spec fn addresses(self) -> Seq<u32> {
        match self {
            SourceProvenance::BitmapBg(p) => match p.palette_address {
                Some(palette) => seq![p.vram_address, palette],
                None => seq![p.vram_address],
            },
            SourceProvenance::Obj(p) => seq![
                p.oam_address,
                p.tile_byte_address,
                p.palette_address,
            ],
            SourceProvenance::Backdrop(p) => seq![p.palette_address],
            SourceProvenance::Unrecorded => Seq::empty(),
        }
    }

    /// The guest memory addresses the pixel was sampled from.
    pub fn source_addresses(&self) -> (addresses: Vec<u32>)
        ensures
            addresses@ == self.addresses(),
    {
        let mut addresses: Vec<u32> = Vec::new();
        match self {
            SourceProvenance::BitmapBg(p) => {
                addresses.push(p.vram_address);
                if let Some(palette) = p.palette_address {
                    addresses.push(palette);
                }
            },
            SourceProvenance::Obj(p) => {
                addresses.push(p.oam_address);
                addresses.push(p.tile_byte_address);
                addresses.push(p.palette_address);
            },
            SourceProvenance::Backdrop(p) => addresses.push(p.palette_address),
            SourceProvenance::Unrecorded => {},
        }
        assert(addresses@ =~= self.addresses());
        addresses
    }
}

} // verus!

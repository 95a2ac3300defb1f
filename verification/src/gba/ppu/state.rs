//! Shared rendering data types: the pixel currency, per-scanline scratch, the
//! framebuffer, and the register-latch snapshot.
//!
//! These are the lightweight types carried on the fast rendering path. They hold
//! no provenance - a candidate pixel is just a color, a source layer, and a
//! priority. The heavyweight explanation types live in [`super::debug`] and
//! are only built when instrumentation is on.

use vstd::prelude::*;

use super::obj::evaluate::SpriteInstance;
use super::registers::Registers;

verus! {

/// Visible framebuffer width in pixels.
pub const WIDTH: usize = 240;

/// Visible framebuffer height in scanlines.
pub const HEIGHT: usize = 160;

/// A native GBA color: 15-bit BGR555 packed into a `u16` (bit 15 unused). This is
/// the emulator's canonical color; conversion to a host format happens only at the
/// presentation boundary.
#[derive(Clone, Copy, Debug, PartialEq, Eq, Structural)]
pub struct Color15(pub u16);

impl Default for Color15 {
    fn default() -> (color: Self)
        ensures
            color == Color15(0),
    {
        Color15(0)
    }
}

impl Color15 {
    /// The 5-bit red/green/blue channels.
    #[verifier::allow_in_spec]
    pub fn channels(self) -> (u8, u8, u8)
        returns
            (
                (self.0 % 32) as u8,
                (self.0 / 32 % 32) as u8,
                (self.0 / 1024 % 32) as u8,
            ),
    {
        let r: u8 = (self.0 % 32) as u8;
        let g: u8 = (self.0 / 32 % 32) as u8;
        let b: u8 = (self.0 / 1024 % 32) as u8;
        (r, g, b)
    }

    /// A 5-bit channel spread over 8 bits: its top bits are repeated below it, so
    /// that full intensity stays full.
    pub open spec fn expanded(channel: u8) -> u8 {
        (channel * 8 + channel / 4) as u8
    }

    /// Expand to 8-bit-per-channel opaque RGBA for host presentation. This is the
    /// only place native color leaves the canonical BGR555 representation.
    pub fn to_rgba8(self) -> (rgba: [u8; 4])
        ensures
            rgba@ == seq![
                Color15::expanded(self.channels().0),
                Color15::expanded(self.channels().1),
                Color15::expanded(self.channels().2),
                0xFFu8,
            ],
    {
        let (r, g, b) = self.channels();
        let rgba = [r * 8 + r / 4, g * 8 + g / 4, b * 8 + b / 4, 0xFF];
        assert(rgba@ =~= seq![
            Color15::expanded(self.channels().0),
            Color15::expanded(self.channels().1),
            Color15::expanded(self.channels().2),
            0xFFu8,
        ]);
        rgba
    }
}

/// A visible source layer, in the order the compositor considers them.
#[derive(Clone, Copy, Debug, PartialEq, Eq, Structural)]
pub enum LayerId {
    Bg0,
    Bg1,
    Bg2,
    Bg3,
    Obj,
    Backdrop,
}

impl LayerId {
    /// The background layer for index `0..=3`.
    #[verifier::allow_in_spec]
    pub fn bg(index: usize) -> LayerId
        returns
            (if index == 0 {
                LayerId::Bg0
            } else if index == 1 {
                LayerId::Bg1
            } else if index == 2 {
                LayerId::Bg2
            } else {
                LayerId::Bg3
            }),
    {
        match index {
            0 => LayerId::Bg0,
            1 => LayerId::Bg1,
            2 => LayerId::Bg2,
            _ => LayerId::Bg3,
        }
    }

    /// Tie-break rank when two candidates share a priority: lower wins (is drawn
    /// on top). Sprites beat backgrounds; lower-numbered backgrounds beat higher;
    /// the backdrop is always last.
    #[verifier::allow_in_spec]
    pub fn tiebreak_rank(self) -> u8
        returns
            (match self {
                LayerId::Obj => 0u8,
                LayerId::Bg0 => 1u8,
                LayerId::Bg1 => 2u8,
                LayerId::Bg2 => 3u8,
                LayerId::Bg3 => 4u8,
                LayerId::Backdrop => 5u8,
            }),
    {
        match self {
            LayerId::Obj => 0,
            LayerId::Bg0 => 1,
            LayerId::Bg1 => 2,
            LayerId::Bg2 => 3,
            LayerId::Bg3 => 4,
            LayerId::Backdrop => 5,
        }
    }
}

/// Per-pixel source flags that survive into the compositor (color effects and OBJ
/// window depend on them).
#[derive(Clone, Copy, Debug, PartialEq, Eq, Structural)]
pub struct PixelFlags {
    /// An OBJ in the semi-transparent (alpha) mode - forces alpha blending as the
    /// first target regardless of `BLDCNT`. Consumed by OBJ rendering and effects.
    pub semi_transparent_obj: bool,
    /// An OBJ in the object-window mode - contributes to the window mask, not to
    /// visible color. Consumed by OBJ rendering and windowing.
    pub obj_window: bool,
    /// The pixel was produced through the mosaic sampler.
    pub mosaic: bool,
}

impl Default for PixelFlags {
    fn default() -> (flags: Self)
        ensures
            flags == PixelFlags::none(),
    {
        PixelFlags::none()
    }
}

impl PixelFlags {
    /// No flag set.
    #[verifier::allow_in_spec]
    pub fn none() -> PixelFlags
        returns
            (PixelFlags { semi_transparent_obj: false, obj_window: false, mosaic: false }),
    {
        PixelFlags { semi_transparent_obj: false, obj_window: false, mosaic: false }
    }
}

/// One resolved source pixel competing for a screen position.
#[derive(Clone, Copy, Debug, PartialEq, Eq, Structural)]
pub struct CandidatePixel {
    pub color: Color15,
    pub layer: LayerId,
    /// 0..=3 for backgrounds and sprites (from the source's control register); the
    /// backdrop uses 4 so it always loses.
    pub priority: u8,
    pub flags: PixelFlags,
}

impl CandidatePixel {
    /// The always-present fallback candidate: palette entry 0, lowest priority.
    #[verifier::allow_in_spec]
    pub fn backdrop(color: Color15) -> CandidatePixel
        returns
            (CandidatePixel {
                color,
                layer: LayerId::Backdrop,
                priority: 4,
                flags: PixelFlags::none(),
            }),
    {
        CandidatePixel {
            color,
            layer: LayerId::Backdrop,
            priority: 4,
            flags: PixelFlags::none(),
        }
    }
}

/// One background layer's candidate pixels for the scanline being drawn. `None`
/// marks a transparent pixel, which never becomes a candidate.
#[derive(Clone, Debug)]
pub struct LayerLine {
    pub pixels: [Option<CandidatePixel>; 240],
}

impl View for LayerLine {
    type V = Seq<Option<CandidatePixel>>;

    open spec fn view(&self) -> Seq<Option<CandidatePixel>> {
        self.pixels@
    }
}

/// A fully transparent line.
pub open spec fn transparent() -> Seq<Option<CandidatePixel>> {
    Seq::new(240, |x: int| None)
}

fn blank_pixels() -> (pixels: [Option<CandidatePixel>; 240])
    ensures
        pixels@ == transparent(),
{
    let none: Option<CandidatePixel> = None;
    let pixels: [Option<CandidatePixel>; 240] = [none; 240];
    assert(pixels == vstd::array::spec_array_fill_for_copy_type::<Option<CandidatePixel>, 240>(none));
    assert(pixels@ =~= transparent());
    pixels
}

impl Default for LayerLine {
    fn default() -> (line: Self)
        ensures
            line@ == transparent(),
    {
        LayerLine { pixels: blank_pixels() }
    }
}

impl LayerLine {
    /// Make every pixel transparent.
    pub fn clear(&mut self)
        ensures
            final(self)@ == transparent(),
    {
        self.pixels = blank_pixels();
    }
}

/// Per-scanline scratch reused across lines so rendering allocates nothing on the
/// hot path.
#[derive(Clone, Debug)]
pub struct Scratch {
    pub bg: [LayerLine; 4],
    pub obj: LayerLine,
    /// The sprites evaluated as visible, in OAM order.
    pub sprites: Vec<SpriteInstance>,
}

/// The layers of a scratch: the backgrounds, then the sprites.
#[verifier::ext_equal]
pub struct Layers {
    pub bg: Seq<Seq<Option<CandidatePixel>>>,
    pub obj: Seq<Option<CandidatePixel>>,
    pub sprites: Seq<SpriteInstance>,
}

impl Layers {
    /// Every layer fully transparent.
    pub open spec fn clear() -> Layers {
        Layers {
            bg: seq![transparent(), transparent(), transparent(), transparent()],
            obj: transparent(),
            sprites: Seq::empty(),
        }
    }
}

impl View for Scratch {
    type V = Layers;

    open spec fn view(&self) -> Layers {
        Layers {
            bg: seq![self.bg@[0]@, self.bg@[1]@, self.bg@[2]@, self.bg@[3]@],
            obj: self.obj@,
            sprites: self.sprites@,
        }
    }
}

impl Default for Scratch {
    fn default() -> (scratch: Self)
        ensures
            scratch@ == Layers::clear(),
    {
        let scratch = Scratch {
            bg: [
                LayerLine::default(),
                LayerLine::default(),
                LayerLine::default(),
                LayerLine::default(),
            ],
            obj: LayerLine::default(),
            sprites: Vec::new(),
        };
        assert(scratch@ =~= Layers::clear());
        scratch
    }
}

impl Scratch {
    /// Reset every layer line to fully transparent for a fresh scanline.
    pub fn clear(&mut self)
        ensures
            final(self)@ == Layers::clear(),
    {
        self.bg[0].clear();
        self.bg[1].clear();
        self.bg[2].clear();
        self.bg[3].clear();
        self.obj.clear();
        self.sprites.clear();
        assert(self@ =~= Layers::clear());
    }
}

/// The 240x160 output image in canonical BGR555.
#[derive(Clone, Debug)]
pub struct Framebuffer {
    pub pixels: Vec<Color15>,
}

impl Default for Framebuffer {
    fn default() -> (framebuffer: Self)
        ensures
            framebuffer.pixels@ == Framebuffer::black(),
    {
        let framebuffer = Framebuffer { pixels: vec![Color15(0); 38400] };
        assert(framebuffer.pixels@ =~= Framebuffer::black());
        framebuffer
    }
}

impl Framebuffer {
    /// An all-black image.
    pub open spec fn black() -> Seq<Color15> {
        Seq::new(38400, |i: int| Color15(0))
    }
}

/// The internal affine reference point for one background, in 1/256-pixel fixed
/// point. Distinct from the CPU-visible `BGxX`/`BGxY` registers because hardware
/// advances it per scanline while the frame is drawn.
#[derive(Clone, Copy, Debug, PartialEq, Eq, Structural)]
pub struct AffineReference {
    pub x: i32,
    pub y: i32,
}

/// The internal affine reference state for the two affine-capable backgrounds.
#[derive(Clone, Copy, Debug, PartialEq, Eq, Structural)]
pub struct AffineInternalState {
    pub bg2: AffineReference,
    pub bg3: AffineReference,
}

impl Default for AffineReference {
    fn default() -> (reference: Self)
        ensures
            reference == (AffineReference { x: 0, y: 0 }),
    {
        AffineReference { x: 0, y: 0 }
    }
}

impl Default for AffineInternalState {
    fn default() -> (state: Self)
        ensures
            state == AffineInternalState::origin(),
    {
        AffineInternalState { bg2: AffineReference::default(), bg3: AffineReference::default() }
    }
}

impl AffineInternalState {
    /// Both references at the origin.
    pub open spec fn origin() -> AffineInternalState {
        AffineInternalState {
            bg2: AffineReference { x: 0, y: 0 },
            bg3: AffineReference { x: 0, y: 0 },
        }
    }
}

/// The register values that govern the scanline currently being drawn - a snapshot
/// taken at line start. Kept distinct from the live [`Registers`] because a
/// mid-frame CPU write must not retroactively change a line already latched.
#[derive(Clone, Copy, Debug)]
#[verifier::ext_equal]
pub struct LatchedState {
    pub regs: Registers,
    /// The video mode (`DISPCNT` bits 0-2), decoded once.
    pub mode: u8,
}

impl LatchedState {
    /// Snapshot the live register block for a scanline.
    #[verifier::allow_in_spec]
    pub fn from_registers(regs: &Registers) -> LatchedState
        returns
            (LatchedState { regs: *regs, mode: (regs.dispcnt % 8) as u8 }),
    {
        LatchedState { regs: *regs, mode: (regs.dispcnt % 8) as u8 }
    }

    /// Whether background `index` is enabled in `DISPCNT` (bits 8-11).
    #[verifier::allow_in_spec]
    pub fn bg_enabled(&self, index: usize) -> bool
        requires
            index < 8,
        returns
            self.regs.dispcnt & (1u16 << ((8 + index) as usize)) != 0,
    {
        self.regs.dispcnt & (1u16 << (8 + index)) != 0
    }

    /// Whether sprites are enabled in `DISPCNT` (bit 12).
    #[verifier::allow_in_spec]
    pub fn obj_enabled(&self) -> bool
        returns
            self.regs.dispcnt / 0x1000 % 2 == 1,
    {
        self.regs.dispcnt / 0x1000 % 2 == 1
    }

    /// Whether the display is force-blanked (`DISPCNT` bit 7).
    #[verifier::allow_in_spec]
    pub fn forced_blank(&self) -> bool
        returns
            self.regs.dispcnt & 0x80 != 0,
    {
        self.regs.dispcnt & 0x80 != 0
    }
}

/// A stretch of a scanline governed by one register snapshot, from `x_start` up to
/// the next segment.
#[derive(Clone, Copy, Debug)]
#[verifier::ext_equal]
pub struct ScanlineSegment {
    pub x_start: u16,
    pub state: LatchedState,
    pub affine: AffineInternalState,
}

/// Expanding a color keeps black black and full intensity full.
pub proof fn expansion_spans_the_range(channel: u8)
    requires
        channel < 32,
    ensures
        Color15::expanded(channel) / 8 == channel,
        Color15::expanded(0) == 0,
        Color15::expanded(31) == 255,
{
}

} // verus!

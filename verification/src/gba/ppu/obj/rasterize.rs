//! Sprite rasterization: sampling the evaluated sprites into the OBJ candidate line.

use vstd::prelude::*;

use super::evaluate::{ObjMode, Placement, SpriteInstance};
use crate::gba::ppu::debug::explain::CandidateExplanation;
use crate::gba::ppu::debug::provenance::{ObjProvenance, SourceProvenance};
use crate::gba::ppu::memory::{PpuMemoryView, VideoMemory, OAM_BASE, PALETTE_BASE, VRAM_BASE};
use crate::gba::ppu::state::{
    CandidatePixel, LatchedState, LayerId, LayerLine, PixelFlags, WIDTH,
};

verus! {

/// Where the sprite tiles start in VRAM.
pub const OBJ_TILES: u32 = 0x1_0000;

/// A position in a sprite's texture.
#[derive(Clone, Copy, Debug, PartialEq, Eq, Structural)]
pub struct Texel {
    pub x: u8,
    pub y: u8,
}

/// An affine texture coordinate: a matrix row applied to the offset from the box's
/// center, in whole texels from the texture's center.
pub open spec fn transformed(across: i16, down: i16, dx: int, dy: int, size: int) -> int {
    (across * dx + down * dy) / 256 + size / 2
}

impl SpriteInstance {
    /// The texel that shows at a screen position, if the texture reaches there.
    pub open spec fn texel_at(self, x: int, y: int) -> Option<Texel> {
        let (dx, dy) = (x - self.x, y - self.y);
        if !(0 <= dx < self.box_width && 0 <= dy < self.box_height) {
            None
        } else {
            match self.placement {
                Placement::Regular { hflip, vflip } => Some(
                    Texel {
                        x: (if hflip {
                            self.width - 1 - dx
                        } else {
                            dx
                        }) as u8,
                        y: (if vflip {
                            self.height - 1 - dy
                        } else {
                            dy
                        }) as u8,
                    },
                ),
                Placement::Affine(m) => {
                    let (cx, cy) = (dx - self.box_width / 2, dy - self.box_height / 2);
                    let tx = transformed(m.pa, m.pb, cx, cy, self.width as int);
                    let ty = transformed(m.pc, m.pd, cx, cy, self.height as int);
                    if 0 <= tx < self.width && 0 <= ty < self.height {
                        Some(Texel { x: tx as u8, y: ty as u8 })
                    } else {
                        None
                    }
                },
            }
        }
    }

    /// The VRAM offset of the byte that holds a texel. Tiles follow one another row by
    /// row of the sprite, or lie in a 32-tile-wide square.
    pub open spec fn byte_offset(self, linear: bool, texel: Texel) -> int {
        let step = if self.eight_bpp {
            2int
        } else {
            1int
        };
        let stride = if linear {
            self.width as int / 8 * step
        } else {
            32int
        };
        let tile = self.tile_number + texel.y as int / 8 * stride + texel.x as int / 8 * step;
        let within = if self.eight_bpp {
            texel.y as int % 8 * 8 + texel.x as int % 8
        } else {
            texel.y as int % 8 * 4 + texel.x as int % 8 / 2
        };
        OBJ_TILES + (tile * 32 + within) % 0x8000
    }

    /// The color number of a texel; zero is transparent.
    pub open spec fn color_number(self, linear: bool, mem: VideoMemory, texel: Texel) -> u8 {
        let byte = mem.vram[self.byte_offset(linear, texel)];
        if self.eight_bpp {
            byte
        } else if texel.x % 2 == 0 {
            byte % 16
        } else {
            byte / 16
        }
    }

    /// The palette entry of a color number: sprites use the second half of the palette.
    pub open spec fn palette_entry(self, number: u8) -> int {
        if self.eight_bpp {
            256 + number
        } else {
            256 + self.palette_bank * 16 + number
        }
    }

    /// Whether the sprite's mode draws.
    #[verifier::allow_in_spec]
    pub fn draws(&self) -> bool
        returns
            (self.mode == ObjMode::Normal || self.mode == ObjMode::SemiTransparent),
    {
        matches!(self.mode, ObjMode::Normal) || matches!(self.mode, ObjMode::SemiTransparent)
    }
}

/// Whether sprite tiles are mapped one after another (`DISPCNT` bit 6).
#[verifier::allow_in_spec]
pub fn linear_mapping(state: &LatchedState) -> bool
    returns
        state.regs.dispcnt / 0x40 % 2 == 1,
{
    state.regs.dispcnt / 0x40 % 2 == 1
}

/// A sprite's pixel at a screen position: where its texel lies, and its color number.
#[derive(Clone, Copy, Debug, PartialEq, Eq, Structural)]
pub struct Sample {
    pub sprite: SpriteInstance,
    pub texel: Texel,
    pub number: u8,
}

/// What a sprite contributes at a screen position, if anything shows there.
pub open spec fn sample_at(
    sprite: SpriteInstance,
    linear: bool,
    mem: VideoMemory,
    x: int,
    y: int,
) -> Option<Sample> {
    match sprite.texel_at(x, y) {
        Some(texel) if sprite.draws() && sprite.color_number(linear, mem, texel) != 0 => Some(
            Sample { sprite, texel, number: sprite.color_number(linear, mem, texel) },
        ),
        _ => None,
    }
}

/// What shows of the sprites at a screen position: the sample of the best priority, of
/// the first sprite where priorities tie.
pub open spec fn front_sample(
    sprites: Seq<SpriteInstance>,
    linear: bool,
    mem: VideoMemory,
    x: int,
    y: int,
) -> Option<Sample>
    decreases sprites.len(),
{
    if sprites.len() == 0 {
        None
    } else {
        let best = front_sample(sprites.drop_last(), linear, mem, x, y);
        match (best, sample_at(sprites.last(), linear, mem, x, y)) {
            (Some(front), Some(sample)) => if sample.sprite.priority < front.sprite.priority {
                Some(sample)
            } else {
                Some(front)
            },
            (None, sample) => sample,
            (front, None) => front,
        }
    }
}

impl Sample {
    /// The candidate that the sample makes.
    pub open spec fn candidate(self, mem: VideoMemory) -> CandidatePixel {
        CandidatePixel {
            color: mem.palette15(self.sprite.palette_entry(self.number)),
            layer: LayerId::Obj,
            priority: self.sprite.priority,
            flags: PixelFlags {
                semi_transparent_obj: self.sprite.mode == ObjMode::SemiTransparent,
                obj_window: false,
                mosaic: false,
            },
        }
    }

    /// Where the sample came from.
    pub open spec fn provenance(self, linear: bool, mem: VideoMemory) -> ObjProvenance {
        ObjProvenance {
            oam_index: self.sprite.oam_index,
            oam_address: (OAM_BASE + self.sprite.oam_index * 8) as u32,
            tile_number: self.sprite.tile_number,
            texture_x: self.texel.x,
            texture_y: self.texel.y,
            tile_byte_address: (VRAM_BASE + self.sprite.byte_offset(linear, self.texel)) as u32,
            palette_index: self.number,
            palette_address: (PALETTE_BASE + self.sprite.palette_entry(self.number) * 2) as u32,
            resolved: mem.palette15(self.sprite.palette_entry(self.number)),
            priority: self.sprite.priority,
        }
    }

    /// The explanation of the candidate.
    pub open spec fn explanation(self, linear: bool, mem: VideoMemory) -> CandidateExplanation {
        CandidateExplanation {
            candidate: self.candidate(mem),
            provenance: SourceProvenance::Obj(self.provenance(linear, mem)),
            visible_after_window: true,
            rejection_reason: None,
        }
    }
}

/// The candidate of a sample that may be absent.
pub open spec fn candidate_of(sample: Option<Sample>, mem: VideoMemory) -> Option<CandidatePixel> {
    match sample {
        Some(sample) => Some(sample.candidate(mem)),
        None => None,
    }
}

/// The OBJ line of the given sprites.
pub open spec fn drawn_line(
    sprites: Seq<SpriteInstance>,
    linear: bool,
    mem: VideoMemory,
    y: int,
) -> Seq<Option<CandidatePixel>> {
    Seq::new(240, |x: int| candidate_of(front_sample(sprites, linear, mem, x, y), mem))
}

fn transform(across: i16, down: i16, dx: i32, dy: i32, size: i32) -> (position: i32)
    requires
        -128 <= dx <= 128,
        -128 <= dy <= 128,
        0 <= size <= 64,
    ensures
        position == transformed(across, down, dx as int, dy as int, size as int),
{
    assert(-0x40_0000 <= across * dx <= 0x40_0000) by (nonlinear_arith)
        requires
            -32768 <= across <= 32767,
            -128 <= dx <= 128,
    ;
    assert(-0x40_0000 <= down * dy <= 0x40_0000) by (nonlinear_arith)
        requires
            -32768 <= down <= 32767,
            -128 <= dy <= 128,
    ;
    // Dividing a positive number rounds down, as the hardware does.
    let sum: i32 = across as i32 * dx + down as i32 * dy + 0x100_0000;
    sum / 256 - 0x1_0000 + size / 2
}

/// The texel that shows at a screen position, if the texture reaches there.
fn texel(sprite: &SpriteInstance, x: usize, y: u16) -> (texel: Option<Texel>)
    requires
        sprite.valid(),
        x < 240,
        y < 160,
    ensures
        texel == sprite.texel_at(x as int, y as int),
        texel matches Some(t) ==> t.x < sprite.width && t.y < sprite.height,
{
    let dx: i32 = x as i32 - sprite.x as i32;
    let dy: i32 = y as i32 - sprite.y as i32;
    if !(0 <= dx && dx < sprite.box_width as i32 && 0 <= dy && dy < sprite.box_height as i32) {
        return None;
    }
    match sprite.placement {
        Placement::Regular { hflip, vflip } => Some(
            Texel {
                x: (if hflip {
                    sprite.width as i32 - 1 - dx
                } else {
                    dx
                }) as u8,
                y: (if vflip {
                    sprite.height as i32 - 1 - dy
                } else {
                    dy
                }) as u8,
            },
        ),
        Placement::Affine(m) => {
            let cx: i32 = dx - sprite.box_width as i32 / 2;
            let cy: i32 = dy - sprite.box_height as i32 / 2;
            let tx: i32 = transform(m.pa, m.pb, cx, cy, sprite.width as i32);
            let ty: i32 = transform(m.pc, m.pd, cx, cy, sprite.height as i32);
            if 0 <= tx && tx < sprite.width as i32 && 0 <= ty && ty < sprite.height as i32 {
                Some(Texel { x: tx as u8, y: ty as u8 })
            } else {
                None
            }
        },
    }
}

/// The VRAM offset of the byte that holds a texel.
fn byte_offset(sprite: &SpriteInstance, linear: bool, texel: Texel) -> (offset: usize)
    requires
        sprite.valid(),
        texel.x < sprite.width,
        texel.y < sprite.height,
    ensures
        offset == sprite.byte_offset(linear, texel),
        0x1_0000 <= offset < 0x1_8000,
{
    let step: u32 = if sprite.eight_bpp {
        2
    } else {
        1
    };
    let stride: u32 = if linear {
        sprite.width as u32 / 8 * step
    } else {
        32
    };
    let row: u32 = texel.y as u32 / 8;
    assert(row * stride <= 8 * 32) by (nonlinear_arith)
        requires
            0 <= row <= 8,
            0 <= stride <= 32,
    ;
    let tile: u32 = sprite.tile_number as u32 + row * stride + texel.x as u32 / 8 * step;
    let within: u32 = if sprite.eight_bpp {
        texel.y as u32 % 8 * 8 + texel.x as u32 % 8
    } else {
        texel.y as u32 % 8 * 4 + texel.x as u32 % 8 / 2
    };
    (OBJ_TILES + (tile * 32 + within) % 0x8000) as usize
}

/// What a sprite contributes at a screen position, if anything shows there.
fn sample(
    sprite: &SpriteInstance,
    linear: bool,
    mem: &PpuMemoryView<'_>,
    x: usize,
    y: u16,
) -> (sample: Option<Sample>)
    requires
        sprite.valid(),
        mem@.valid(),
        x < 240,
        y < 160,
    ensures
        sample == sample_at(*sprite, linear, mem@, x as int, y as int),
        sample matches Some(s) ==> s.texel.x < sprite.width && s.texel.y < sprite.height && (
        sprite.eight_bpp || s.number < 16),
{
    if !sprite.draws() {
        return None;
    }
    match texel(sprite, x, y) {
        Some(texel) => {
            let byte = mem.vram8(byte_offset(sprite, linear, texel));
            let number: u8 = if sprite.eight_bpp {
                byte
            } else if texel.x % 2 == 0 {
                byte % 16
            } else {
                byte / 16
            };
            if number == 0 {
                None
            } else {
                Some(Sample { sprite: *sprite, texel, number })
            }
        },
        None => None,
    }
}

fn palette_entry(sprite: &SpriteInstance, number: u8) -> (entry: usize)
    requires
        sprite.valid(),
        sprite.eight_bpp || number < 16,
    ensures
        entry == sprite.palette_entry(number),
        256 <= entry < 512,
{
    if sprite.eight_bpp {
        256 + number as usize
    } else {
        256 + sprite.palette_bank as usize * 16 + number as usize
    }
}

fn candidate(sample: &Sample, mem: &PpuMemoryView<'_>) -> (candidate: CandidatePixel)
    requires
        sample.sprite.valid(),
        sample.sprite.eight_bpp || sample.number < 16,
        mem@.valid(),
    ensures
        candidate == sample.candidate(mem@),
{
    CandidatePixel {
        color: mem.palette15(palette_entry(&sample.sprite, sample.number)),
        layer: LayerId::Obj,
        priority: sample.sprite.priority,
        flags: PixelFlags {
            semi_transparent_obj: matches!(sample.sprite.mode, ObjMode::SemiTransparent),
            obj_window: false,
            mosaic: false,
        },
    }
}

/// What shows of the sprites at a screen position.
fn front(
    sprites: &Vec<SpriteInstance>,
    linear: bool,
    mem: &PpuMemoryView<'_>,
    x: usize,
    y: u16,
) -> (front: Option<Sample>)
    requires
        mem@.valid(),
        x < 240,
        y < 160,
        forall|i: int| 0 <= i < sprites@.len() ==> (#[trigger] sprites@[i]).valid(),
    ensures
        front == front_sample(sprites@, linear, mem@, x as int, y as int),
        front matches Some(s) ==> s.sprite.valid() && s.texel.x < s.sprite.width && s.texel.y
            < s.sprite.height && (s.sprite.eight_bpp || s.number < 16),
{
    let mut best: Option<Sample> = None;
    let mut i: usize = 0;
    while i < sprites.len()
        invariant
            i <= sprites@.len(),
            mem@.valid(),
            x < 240,
            y < 160,
            forall|i: int| 0 <= i < sprites@.len() ==> (#[trigger] sprites@[i]).valid(),
            best == front_sample(sprites@.take(i as int), linear, mem@, x as int, y as int),
            best matches Some(s) ==> s.sprite.valid() && s.texel.x < s.sprite.width && s.texel.y
                < s.sprite.height && (s.sprite.eight_bpp || s.number < 16),
        decreases sprites@.len() - i,
    {
        assert(sprites@.take(i + 1).drop_last() =~= sprites@.take(i as int));
        assert(sprites@.take(i + 1).last() == sprites@[i as int]);
        if let Some(next) = sample(&sprites[i], linear, mem, x, y) {
            let wins = match best {
                Some(front) => next.sprite.priority < front.sprite.priority,
                None => true,
            };
            if wins {
                best = Some(next);
            }
        }
        i = i + 1;
    }
    assert(sprites@.take(sprites@.len() as int) =~= sprites@);
    best
}

/// Sample the sprites of scanline `y` into the OBJ line.
pub fn rasterize(
    y: u16,
    state: &LatchedState,
    mem: &PpuMemoryView<'_>,
    sprites: &Vec<SpriteInstance>,
    line: &mut LayerLine,
)
    requires
        mem@.valid(),
        y < 160,
        forall|i: int| 0 <= i < sprites@.len() ==> (#[trigger] sprites@[i]).valid(),
    ensures
        final(line)@ == drawn_line(sprites@, linear_mapping(state), mem@, y as int),
{
    let linear = linear_mapping(state);
    let ghost target = drawn_line(sprites@, linear, mem@, y as int);
    let mut x: usize = 0;
    while x < WIDTH
        invariant
            x <= 240,
            y < 160,
            mem@.valid(),
            forall|i: int| 0 <= i < sprites@.len() ==> (#[trigger] sprites@[i]).valid(),
            target == drawn_line(sprites@, linear, mem@, y as int),
            forall|k: int| 0 <= k < x ==> #[trigger] line@[k] == target[k],
        decreases 240 - x,
    {
        let pixel = match front(sprites, linear, mem, x, y) {
            Some(sample) => Some(candidate(&sample, mem)),
            None => None,
        };
        let ghost before = line@;
        line.pixels[x] = pixel;
        assert(line@ =~= before.update(x as int, pixel));
        assert(pixel == target[x as int]);
        x = x + 1;
    }
    assert(line@ =~= target);
}

/// Explain the OBJ candidate at column `x` of scanline `y`, if a sprite shows there.
pub fn explain_at(
    x: usize,
    y: u16,
    state: &LatchedState,
    mem: &PpuMemoryView<'_>,
    sprites: &Vec<SpriteInstance>,
) -> (explanation: Option<CandidateExplanation>)
    requires
        mem@.valid(),
        x < 240,
        y < 160,
        forall|i: int| 0 <= i < sprites@.len() ==> (#[trigger] sprites@[i]).valid(),
    ensures
        explanation == (match front_sample(
            sprites@,
            linear_mapping(state),
            mem@,
            x as int,
            y as int,
        ) {
            Some(sample) => Some(sample.explanation(linear_mapping(state), mem@)),
            None => None,
        }),
{
    let linear = linear_mapping(state);
    match front(sprites, linear, mem, x, y) {
        Some(sample) => {
            let sprite = sample.sprite;
            let entry = palette_entry(&sprite, sample.number);
            let provenance = ObjProvenance {
                oam_index: sprite.oam_index,
                oam_address: OAM_BASE + sprite.oam_index as u32 * 8,
                tile_number: sprite.tile_number,
                texture_x: sample.texel.x,
                texture_y: sample.texel.y,
                tile_byte_address: VRAM_BASE + byte_offset(&sprite, linear, sample.texel) as u32,
                palette_index: sample.number,
                palette_address: PALETTE_BASE + entry as u32 * 2,
                resolved: mem.palette15(entry),
                priority: sprite.priority,
            };
            Some(
                CandidateExplanation {
                    candidate: candidate(&sample, mem),
                    provenance: SourceProvenance::Obj(provenance),
                    visible_after_window: true,
                    rejection_reason: None,
                },
            )
        },
        None => None,
    }
}

/// Whether a sample is in front of another, given where their sprites stand in OAM order.
pub open spec fn in_front(front: Sample, at: int, other: Sample, other_at: int) -> bool {
    front.sprite.priority < other.sprite.priority || (front.sprite.priority
        == other.sprite.priority && at <= other_at)
}

/// The sprite that shows is the one of the best priority, and of those the first in OAM;
/// nothing shows only where no sprite has anything to show.
pub proof fn front_sprite_wins(
    sprites: Seq<SpriteInstance>,
    linear: bool,
    mem: VideoMemory,
    x: int,
    y: int,
)
    ensures
        match front_sample(sprites, linear, mem, x, y) {
            Some(front) => exists|i: int|
                0 <= i < sprites.len() && #[trigger] sample_at(sprites[i], linear, mem, x, y)
                    == Some(front) && forall|k: int|
                    0 <= k < sprites.len() ==> match #[trigger] sample_at(
                        sprites[k],
                        linear,
                        mem,
                        x,
                        y,
                    ) {
                        Some(other) => in_front(front, i, other, k),
                        None => true,
                    },
            None => forall|k: int|
                0 <= k < sprites.len() ==> (#[trigger] sample_at(sprites[k], linear, mem, x, y))
                    is None,
        },
    decreases sprites.len(),
{
    if sprites.len() > 0 {
        let rest = sprites.drop_last();
        let last = sprites.len() - 1;
        front_sprite_wins(rest, linear, mem, x, y);
        assert(forall|k: int| 0 <= k < last ==> rest[k] == sprites[k]);
        match front_sample(sprites, linear, mem, x, y) {
            Some(front) => {
                let i = if front_sample(rest, linear, mem, x, y) == Some(front) {
                    choose|i: int|
                        0 <= i < rest.len() && #[trigger] sample_at(rest[i], linear, mem, x, y)
                            == Some(front) && forall|k: int|
                            0 <= k < rest.len() ==> match #[trigger] sample_at(
                                rest[k],
                                linear,
                                mem,
                                x,
                                y,
                            ) {
                                Some(other) => in_front(front, i, other, k),
                                None => true,
                            }
                } else {
                    last
                };
                assert(sample_at(sprites[i], linear, mem, x, y) == Some(front));
                assert forall|k: int| 0 <= k < sprites.len() implies match #[trigger] sample_at(
                    sprites[k],
                    linear,
                    mem,
                    x,
                    y,
                ) {
                    Some(other) => in_front(front, i, other, k),
                    None => true,
                } by {
                    if k < last {
                        assert(sample_at(rest[k], linear, mem, x, y) == sample_at(
                            sprites[k],
                            linear,
                            mem,
                            x,
                            y,
                        ));
                    }
                }
            },
            None => {
                assert forall|k: int| 0 <= k < sprites.len() implies (#[trigger] sample_at(
                    sprites[k],
                    linear,
                    mem,
                    x,
                    y,
                )) is None by {
                    if k < last {
                        assert(sample_at(rest[k], linear, mem, x, y) is None);
                    }
                }
            },
        }
    }
}

} // verus!

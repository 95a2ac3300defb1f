//! OAM evaluation: which sprites are visible on a scanline, under the hardware's budget
//! of rendering cycles.

use vstd::prelude::*;

use crate::gba::ppu::memory::{PpuMemoryView, VideoMemory};
use crate::gba::ppu::state::LatchedState;

verus! {

/// The number of entries in OAM.
pub const OAM_ENTRIES: usize = 128;

/// What a sprite's pixels are for.
#[derive(Clone, Copy, Debug, PartialEq, Eq, Structural)]
pub enum ObjMode {
    Normal,
    /// Blended with what lies behind.
    SemiTransparent,
    /// Shapes the object window and draws nothing.
    Window,
    /// Not a mode; draws nothing.
    Prohibited,
}

/// The matrix of an affine sprite, in 1/256 units: how far the texture position moves
/// for a step across (`pa`, `pc`) and down (`pb`, `pd`) the screen.
#[derive(Clone, Copy, Debug, PartialEq, Eq, Structural)]
pub struct Matrix {
    pub pa: i16,
    pub pb: i16,
    pub pc: i16,
    pub pd: i16,
}

/// How a sprite's texture lies on the screen.
#[derive(Clone, Copy, Debug, PartialEq, Eq, Structural)]
pub enum Placement {
    Regular { hflip: bool, vflip: bool },
    Affine(Matrix),
}

/// A sprite as OAM describes it.
#[derive(Clone, Copy, Debug, PartialEq, Eq, Structural)]
pub struct SpriteInstance {
    pub oam_index: u8,
    /// The left edge of the sprite's box, which may lie off the screen.
    pub x: i16,
    /// The top edge of the sprite's box, which may lie off the screen.
    pub y: i16,
    /// The size of the texture.
    pub width: u8,
    pub height: u8,
    /// The size of the box: twice the texture's for a double-size affine sprite.
    pub box_width: u8,
    pub box_height: u8,
    pub mode: ObjMode,
    /// Whether a texel is a byte rather than a nibble.
    pub eight_bpp: bool,
    pub tile_number: u16,
    pub palette_bank: u8,
    pub priority: u8,
    pub placement: Placement,
}

/// The size in pixels of a shape and size code; `None` for the prohibited shape.
#[verifier::allow_in_spec]
pub fn dimensions(shape: u16, size: u16) -> Option<(u8, u8)>
    returns
        (match (shape, size) {
            (0, 0) => Some((8u8, 8u8)),
            (0, 1) => Some((16u8, 16u8)),
            (0, 2) => Some((32u8, 32u8)),
            (0, _) => Some((64u8, 64u8)),
            (1, 0) => Some((16u8, 8u8)),
            (1, 1) => Some((32u8, 8u8)),
            (1, 2) => Some((32u8, 16u8)),
            (1, _) => Some((64u8, 32u8)),
            (2, 0) => Some((8u8, 16u8)),
            (2, 1) => Some((8u8, 32u8)),
            (2, 2) => Some((16u8, 32u8)),
            (2, _) => Some((32u8, 64u8)),
            _ => None::<(u8, u8)>,
        }),
{
    match (shape, size) {
        (0, 0) => Some((8, 8)),
        (0, 1) => Some((16, 16)),
        (0, 2) => Some((32, 32)),
        (0, _) => Some((64, 64)),
        (1, 0) => Some((16, 8)),
        (1, 1) => Some((32, 8)),
        (1, 2) => Some((32, 16)),
        (1, _) => Some((64, 32)),
        (2, 0) => Some((8, 16)),
        (2, 1) => Some((8, 32)),
        (2, 2) => Some((16, 32)),
        (2, _) => Some((32, 64)),
        _ => None,
    }
}

/// The mode of a mode code.
#[verifier::allow_in_spec]
pub fn obj_mode(code: u16) -> ObjMode
    returns
        (if code == 0 {
            ObjMode::Normal
        } else if code == 1 {
            ObjMode::SemiTransparent
        } else if code == 2 {
            ObjMode::Window
        } else {
            ObjMode::Prohibited
        }),
{
    match code {
        0 => ObjMode::Normal,
        1 => ObjMode::SemiTransparent,
        2 => ObjMode::Window,
        _ => ObjMode::Prohibited,
    }
}

/// A coordinate of so many values, of which those from `limit` on are negative.
#[verifier::allow_in_spec]
pub fn coordinate(value: u16, limit: u16, modulus: u16) -> i16
    requires
        value < modulus <= 512,
    returns
        (if value >= limit {
            (value - modulus) as i16
        } else {
            value as i16
        }),
{
    if value >= limit {
        value as i16 - modulus as i16
    } else {
        value as i16
    }
}

/// The affine matrix of a parameter group, whose four numbers lie in the fourth
/// halfwords of four entries.
pub open spec fn matrix_of(mem: VideoMemory, group: int) -> Matrix {
    Matrix {
        pa: mem.oam16(group * 32 + 6) as i16,
        pb: mem.oam16(group * 32 + 14) as i16,
        pc: mem.oam16(group * 32 + 22) as i16,
        pd: mem.oam16(group * 32 + 30) as i16,
    }
}

impl SpriteInstance {
    /// The sprite of an OAM entry; `None` where the entry is disabled or its shape
    /// prohibited.
    pub open spec fn entry(mem: VideoMemory, index: int) -> Option<SpriteInstance> {
        let attr0 = mem.oam16(index * 8);
        let attr1 = mem.oam16(index * 8 + 2);
        let attr2 = mem.oam16(index * 8 + 4);
        let affine = attr0 / 0x100 % 2 == 1;
        let flag = attr0 / 0x200 % 2 == 1;
        match dimensions(attr0 / 0x4000, attr1 / 0x4000) {
            Some((width, height)) if affine || !flag => {
                let scale = if affine && flag {
                    2int
                } else {
                    1int
                };
                Some(
                    SpriteInstance {
                        oam_index: index as u8,
                        x: coordinate(attr1 % 512, 256, 512),
                        y: coordinate(attr0 % 256, 160, 256),
                        width,
                        height,
                        box_width: (width * scale) as u8,
                        box_height: (height * scale) as u8,
                        mode: obj_mode(attr0 / 0x400 % 4),
                        eight_bpp: attr0 / 0x2000 % 2 == 1,
                        tile_number: attr2 % 1024,
                        palette_bank: (attr2 / 0x1000) as u8,
                        priority: (attr2 / 0x400 % 4) as u8,
                        placement: if affine {
                            Placement::Affine(matrix_of(mem, attr1 as int / 0x200 % 32))
                        } else {
                            Placement::Regular {
                                hflip: attr1 / 0x1000 % 2 == 1,
                                vflip: attr1 / 0x2000 % 2 == 1,
                            }
                        },
                    },
                )
            },
            _ => None,
        }
    }

    /// Sizes and numbers are those that OAM can describe.
    pub open spec fn valid(self) -> bool {
        &&& 8 <= self.width <= 64 && self.width % 8 == 0
        &&& 8 <= self.height <= 64 && self.height % 8 == 0
        &&& self.box_width == self.width || self.box_width == 2 * self.width
        &&& self.box_height == self.height || self.box_height == 2 * self.height
        &&& self.placement is Regular ==> self.box_width == self.width && self.box_height
            == self.height
        &&& -256 <= self.x < 256
        &&& -96 <= self.y < 160
        &&& self.tile_number < 1024
        &&& self.palette_bank < 16
        &&& self.priority < 4
        &&& self.oam_index < 128
    }

    /// Whether the sprite's box crosses scanline `y`.
    #[verifier::allow_in_spec]
    pub fn crosses(&self, y: u16) -> bool
        requires
            self.valid(),
            y < 160,
        returns
            (self.y <= y && y < self.y + self.box_height),
    {
        self.y as i32 <= y as i32 && (y as i32) < self.y as i32 + self.box_height as i32
    }

    /// The rendering cycles that the sprite takes on a scanline it crosses.
    #[verifier::allow_in_spec]
    pub fn cost(&self) -> u32
        returns
            (match self.placement {
                Placement::Regular { .. } => self.box_width as u32,
                Placement::Affine(_) => (10 + 2 * self.box_width) as u32,
            }),
    {
        match self.placement {
            Placement::Regular { .. } => self.box_width as u32,
            Placement::Affine(_) => 10 + 2 * self.box_width as u32,
        }
    }
}

/// The rendering cycles that a scanline has: fewer where OAM is kept free during the
/// horizontal blank.
#[verifier::allow_in_spec]
pub fn budget(state: &LatchedState) -> u32
    returns
        (if state.regs.dispcnt / 0x20 % 2 == 1 {
            954u32
        } else {
            1210u32
        }),
{
    if state.regs.dispcnt / 0x20 % 2 == 1 {
        954
    } else {
        1210
    }
}

/// The sprites from OAM entry `i` on that are drawn on scanline `y` with the given
/// cycles left. The first that no longer fits ends the line.
pub open spec fn evaluated(mem: VideoMemory, y: u16, i: int, left: int) -> Seq<SpriteInstance>
    decreases 128 - i,
{
    if i >= 128 {
        Seq::empty()
    } else {
        match SpriteInstance::entry(mem, i) {
            Some(sprite) if sprite.crosses(y) => if sprite.cost() <= left {
                seq![sprite] + evaluated(mem, y, i + 1, left - sprite.cost())
            } else {
                Seq::empty()
            },
            _ => evaluated(mem, y, i + 1, left),
        }
    }
}

/// The sprites drawn on scanline `y`, in OAM order.
pub open spec fn line_sprites(state: LatchedState, mem: VideoMemory, y: u16) -> Seq<
    SpriteInstance,
> {
    evaluated(mem, y, 0, budget(&state) as int)
}

fn matrix(mem: &PpuMemoryView<'_>, group: usize) -> (matrix: Matrix)
    requires
        mem@.valid(),
        group < 32,
    ensures
        matrix == matrix_of(mem@, group as int),
{
    Matrix {
        pa: mem.oam16(group * 32 + 6) as i16,
        pb: mem.oam16(group * 32 + 14) as i16,
        pc: mem.oam16(group * 32 + 22) as i16,
        pd: mem.oam16(group * 32 + 30) as i16,
    }
}

/// The sprite of an OAM entry, if it is one.
pub fn read_entry(mem: &PpuMemoryView<'_>, index: usize) -> (sprite: Option<SpriteInstance>)
    requires
        mem@.valid(),
        index < 128,
    ensures
        sprite == SpriteInstance::entry(mem@, index as int),
        sprite matches Some(sprite) ==> sprite.valid(),
{
    let attr0 = mem.oam16(index * 8);
    let attr1 = mem.oam16(index * 8 + 2);
    let attr2 = mem.oam16(index * 8 + 4);
    let affine = attr0 / 0x100 % 2 == 1;
    let flag = attr0 / 0x200 % 2 == 1;
    if !affine && flag {
        return None;
    }
    let (width, height) = match dimensions(attr0 / 0x4000, attr1 / 0x4000) {
        Some(size) => size,
        None => return None,
    };
    let scale: u8 = if affine && flag {
        2
    } else {
        1
    };
    let placement = if affine {
        Placement::Affine(matrix(mem, (attr1 / 0x200 % 32) as usize))
    } else {
        Placement::Regular {
            hflip: attr1 / 0x1000 % 2 == 1,
            vflip: attr1 / 0x2000 % 2 == 1,
        }
    };
    Some(
        SpriteInstance {
            oam_index: index as u8,
            x: coordinate(attr1 % 512, 256, 512),
            y: coordinate(attr0 % 256, 160, 256),
            width,
            height,
            box_width: width * scale,
            box_height: height * scale,
            mode: obj_mode(attr0 / 0x400 % 4),
            eight_bpp: attr0 / 0x2000 % 2 == 1,
            tile_number: attr2 % 1024,
            palette_bank: (attr2 / 0x1000) as u8,
            priority: (attr2 / 0x400 % 4) as u8,
            placement,
        },
    )
}

proof fn lemma_entry_valid(mem: VideoMemory, index: int)
    requires
        0 <= index < 128,
    ensures
        SpriteInstance::entry(mem, index) matches Some(sprite) ==> sprite.valid(),
{
}

proof fn lemma_evaluated_valid(mem: VideoMemory, y: u16, i: int, left: int)
    requires
        0 <= i,
    ensures
        forall|k: int|
            0 <= k < evaluated(mem, y, i, left).len() ==> (#[trigger] evaluated(
                mem,
                y,
                i,
                left,
            )[k]).valid(),
    decreases 128 - i,
{
    if i < 128 {
        lemma_entry_valid(mem, i);
        match SpriteInstance::entry(mem, i) {
            Some(sprite) => {
                if sprite.crosses(y) {
                    lemma_evaluated_valid(mem, y, i + 1, left - sprite.cost());
                    let rest = evaluated(mem, y, i + 1, left - sprite.cost());
                    assert forall|k: int| 0 <= k < evaluated(mem, y, i, left).len() implies (
                    #[trigger] evaluated(mem, y, i, left)[k]).valid() by {
                        if k > 0 {
                            assert(evaluated(mem, y, i, left)[k] == rest[k - 1]);
                        }
                    }
                } else {
                    lemma_evaluated_valid(mem, y, i + 1, left);
                assert(evaluated(mem, y, i, left) == evaluated(mem, y, i + 1, left));
                }
            },
            None => {
                lemma_evaluated_valid(mem, y, i + 1, left);
                assert(evaluated(mem, y, i, left) == evaluated(mem, y, i + 1, left));
            },
        }
    }
}

/// Every sprite on a line is one that OAM can describe.
pub proof fn line_sprites_are_valid(state: LatchedState, mem: VideoMemory, y: u16)
    ensures
        forall|k: int|
            0 <= k < line_sprites(state, mem, y).len() ==> (#[trigger] line_sprites(
                state,
                mem,
                y,
            )[k]).valid(),
{
    lemma_evaluated_valid(mem, y, 0, budget(&state) as int);
}

/// The total rendering cycles of some sprites.
pub open spec fn total_cost(sprites: Seq<SpriteInstance>) -> int
    decreases sprites.len(),
{
    if sprites.len() == 0 {
        0
    } else {
        sprites[0].cost() + total_cost(sprites.skip(1))
    }
}

proof fn lemma_within(mem: VideoMemory, y: u16, i: int, left: int)
    requires
        0 <= left,
    ensures
        total_cost(evaluated(mem, y, i, left)) <= left,
    decreases 128 - i,
{
    if i < 128 {
        match SpriteInstance::entry(mem, i) {
            Some(sprite) => {
                if sprite.crosses(y) {
                    if sprite.cost() <= left {
                        lemma_within(mem, y, i + 1, left - sprite.cost());
                        let rest = evaluated(mem, y, i + 1, left - sprite.cost());
                        assert((seq![sprite] + rest).skip(1) =~= rest);
                    }
                } else {
                    lemma_within(mem, y, i + 1, left);
                }
            },
            None => {
                lemma_within(mem, y, i + 1, left);
            },
        }
    }
}

/// The sprites of a line never take more rendering cycles than the line has.
pub proof fn sprites_stay_within_budget(state: LatchedState, mem: VideoMemory, y: u16)
    ensures
        total_cost(line_sprites(state, mem, y)) <= budget(&state),
{
    lemma_within(mem, y, 0, budget(&state) as int);
}

/// Collect the sprites drawn on scanline `y` into `out`, in OAM order, until the budget
/// is exhausted.
pub fn evaluate_scanline(
    y: u16,
    state: &LatchedState,
    mem: &PpuMemoryView<'_>,
    out: &mut Vec<SpriteInstance>,
)
    requires
        mem@.valid(),
        y < 160,
    ensures
        final(out)@ == line_sprites(*state, mem@, y),
        forall|i: int| 0 <= i < final(out)@.len() ==> (#[trigger] final(out)@[i]).valid(),
{
    out.clear();
    let mut left: u32 = budget(state);
    let mut index: usize = 0;
    let ghost whole = line_sprites(*state, mem@, y);
    assert(out@ + whole =~= whole);
    while index < OAM_ENTRIES
        invariant
            index <= 128,
            mem@.valid(),
            y < 160,
            whole == line_sprites(*state, mem@, y),
            whole == out@ + evaluated(mem@, y, index as int, left as int),
            forall|i: int| 0 <= i < out@.len() ==> (#[trigger] out@[i]).valid(),
        decreases 128 - index,
    {
        let ghost before = out@;
        match read_entry(mem, index) {
            Some(sprite) => {
                if sprite.crosses(y) {
                    let cost = sprite.cost();
                    if cost > left {
                        assert(out@ + Seq::<SpriteInstance>::empty() =~= out@);
                        return ;
                    }
                    out.push(sprite);
                    left = left - cost;
                    let ghost rest = evaluated(mem@, y, index + 1, left as int);
                    assert(before + (seq![sprite] + rest) =~= out@ + rest);
                }
            },
            None => {},
        }
        index = index + 1;
    }
    assert(out@ + Seq::<SpriteInstance>::empty() =~= out@);
}

} // verus!

//! Laws of sprites: how OAM describes them, which texel shows where, and where in VRAM
//! and the palette a texel is found.

use vstd::prelude::*;

use super::evaluate::{
    budget, dimensions, matrix_of, Matrix, ObjMode, Placement, SpriteInstance,
};
use super::rasterize::{sample_at, Texel};
use crate::gba::ppu::bg::framebuffer::halfword;
use crate::gba::ppu::memory::VideoMemory;
use crate::gba::ppu::state::{LatchedState, LayerId};

verus! {

/// The shapes: square, of 8, 16, 32 or 64 pixels; wide; and tall, which are the wide
/// ones turned. There is no fourth shape.
pub proof fn sprite_sizes(size: u16)
    requires
        size < 4,
    ensures
        dimensions(0, 0) == Some((8u8, 8u8)) && dimensions(0, 1) == Some((16u8, 16u8)),
        dimensions(0, 2) == Some((32u8, 32u8)) && dimensions(0, 3) == Some((64u8, 64u8)),
        dimensions(1, 0) == Some((16u8, 8u8)) && dimensions(1, 1) == Some((32u8, 8u8)),
        dimensions(1, 2) == Some((32u8, 16u8)) && dimensions(1, 3) == Some((64u8, 32u8)),
        dimensions(2, size) == Some(((dimensions(1, size)->0).1, (dimensions(1, size)->0).0)),
        dimensions(3, size) is None,
{
}

/// One of the three halfwords that describe an entry.
pub open spec fn attribute(mem: VideoMemory, index: int, k: int) -> int {
    halfword(mem.oam, 8 * index + 2 * k)
}

/// An OAM entry. Attribute 0 has the top edge, the affine bit and the bit that, with it,
/// doubles the box and, without it, hides the sprite; then mode, depth and shape.
/// Attribute 1 has the left edge, the flips or the matrix, and the size; attribute 2
/// the tile, the priority and the palette bank.
pub proof fn entry_fields(mem: VideoMemory, index: int)
    requires
        mem.valid(),
        0 <= index < 128,
    ensures
        ({
            let a0 = attribute(mem, index, 0);
            let a1 = attribute(mem, index, 1);
            let a2 = attribute(mem, index, 2);
            let affine = a0 / 0x100 % 2 == 1;
            let flag = a0 / 0x200 % 2 == 1;
            match SpriteInstance::entry(mem, index) {
                None => a0 / 0x4000 == 3 || (!affine && flag),
                Some(sprite) => {
                    &&& a0 / 0x4000 != 3 && (affine || !flag)
                    &&& sprite.oam_index == index
                    &&& -96 <= sprite.y < 160 && (sprite.y - a0) % 256 == 0
                    &&& -256 <= sprite.x < 256 && (sprite.x - a1) % 512 == 0
                    &&& Some((sprite.width, sprite.height)) == dimensions(
                        (a0 / 0x4000) as u16,
                        (a1 / 0x4000) as u16,
                    )
                    &&& sprite.box_width == sprite.width * (if affine && flag {
                        2int
                    } else {
                        1
                    })
                    &&& sprite.box_height == sprite.height * (if affine && flag {
                        2int
                    } else {
                        1
                    })
                    &&& sprite.mode == (if a0 / 0x400 % 4 == 0 {
                        ObjMode::Normal
                    } else if a0 / 0x400 % 4 == 1 {
                        ObjMode::SemiTransparent
                    } else if a0 / 0x400 % 4 == 2 {
                        ObjMode::Window
                    } else {
                        ObjMode::Prohibited
                    })
                    &&& sprite.eight_bpp == (a0 / 0x2000 % 2 == 1)
                    &&& sprite.tile_number == a2 % 0x400
                    &&& sprite.priority == a2 / 0x400 % 4
                    &&& sprite.palette_bank == a2 / 0x1000
                    &&& affine ==> sprite.placement == Placement::Affine(
                        matrix_of(mem, a1 / 0x200 % 32),
                    )
                    &&& !affine ==> sprite.placement == (Placement::Regular {
                        hflip: a1 / 0x1000 % 2 == 1,
                        vflip: a1 / 0x2000 % 2 == 1,
                    })
                },
            }
        }),
{
}

/// A matrix is spread over the fourth halfwords of its group's four entries, in the
/// order pa, pb, pc, pd.
pub proof fn matrix_fields(mem: VideoMemory, group: int)
    requires
        mem.valid(),
        0 <= group < 32,
    ensures
        ({
            let m = matrix_of(mem, group);
            &&& m.pa == halfword(mem.oam, 32 * group + 6) as u16 as i16
            &&& m.pb == halfword(mem.oam, 32 * group + 14) as u16 as i16
            &&& m.pc == halfword(mem.oam, 32 * group + 22) as u16 as i16
            &&& m.pd == halfword(mem.oam, 32 * group + 30) as u16 as i16
        }),
{
}

/// A sprite crosses the lines from its top edge on, as many as its box is high; it
/// costs its width in cycles, or for an affine one ten and twice the width.
pub proof fn sprite_lines_and_cost(sprite: SpriteInstance, state: LatchedState, y: u16)
    requires
        sprite.valid(),
        y < 160,
    ensures
        sprite.crosses(y) <==> 0 <= y - sprite.y < sprite.box_height,
        sprite.cost() == (if sprite.placement is Affine {
            10 + 2 * sprite.box_width
        } else {
            sprite.box_width as int
        }),
        budget(&state) == (if state.regs.dispcnt as int / 0x20 % 2 == 1 {
            954u32
        } else {
            1210u32
        }),
{
}

/// The texel of a plain sprite is the position within its box; a flip counts from the
/// other edge.
pub proof fn plain_texels(sprite: SpriteInstance, hflip: bool, vflip: bool, x: int, y: int)
    requires
        sprite.valid(),
        sprite.placement == (Placement::Regular { hflip, vflip }),
    ensures
        match sprite.texel_at(x, y) {
            Some(texel) => {
                &&& 0 <= x - sprite.x < sprite.width
                &&& 0 <= y - sprite.y < sprite.height
                &&& !hflip ==> texel.x == x - sprite.x
                &&& hflip ==> texel.x + (x - sprite.x) == sprite.width - 1
                &&& !vflip ==> texel.y == y - sprite.y
                &&& vflip ==> texel.y + (y - sprite.y) == sprite.height - 1
            },
            None => !(0 <= x - sprite.x < sprite.width && 0 <= y - sprite.y < sprite.height),
        },
{
}

/// The texel of an affine sprite: the position from the box's center, turned by the
/// matrix, from the texture's center; rounded down from 256ths.
pub proof fn affine_texels(sprite: SpriteInstance, m: Matrix, x: int, y: int)
    requires
        sprite.valid(),
        sprite.placement == Placement::Affine(m),
    ensures
        ({
            let cx = x - sprite.x - sprite.box_width as int / 2;
            let cy = y - sprite.y - sprite.box_height as int / 2;
            let across = m.pa * cx + m.pb * cy;
            let down = m.pc * cx + m.pd * cy;
            match sprite.texel_at(x, y) {
                Some(texel) => {
                    let u = texel.x - sprite.width as int / 2;
                    let v = texel.y - sprite.height as int / 2;
                    &&& 256 * u <= across < 256 * (u + 1)
                    &&& 256 * v <= down < 256 * (v + 1)
                    &&& texel.x < sprite.width && texel.y < sprite.height
                    &&& 0 <= x - sprite.x < sprite.box_width
                    &&& 0 <= y - sprite.y < sprite.box_height
                },
                None => !(0 <= x - sprite.x < sprite.box_width && 0 <= y - sprite.y
                    < sprite.box_height && 0 <= across / 256 + sprite.width as int / 2
                    < sprite.width && 0 <= down / 256 + sprite.height as int / 2 < sprite.height),
            }
        }),
{
}

/// A matrix of one leaves a texture as it is: an affine sprite whose box is its texture
/// shows the texels that the plain sprite would.
pub proof fn unit_matrix_is_plain(sprite: SpriteInstance, x: int, y: int)
    requires
        sprite.valid(),
        sprite.box_width == sprite.width,
        sprite.box_height == sprite.height,
        sprite.placement == Placement::Affine(Matrix { pa: 256, pb: 0, pc: 0, pd: 256 }),
    ensures
        sprite.texel_at(x, y) == (SpriteInstance {
            placement: Placement::Regular { hflip: false, vflip: false },
            ..sprite
        }).texel_at(x, y),
{
}

/// The bytes of one tile: 32 at four bits a texel, 64 at eight.
pub open spec fn tile_bytes(sprite: SpriteInstance) -> int {
    if sprite.eight_bpp {
        64
    } else {
        32
    }
}

/// The bytes from one row of tiles to the next: 32 tiles of 32 bytes, or with linear
/// mapping the tiles of the sprite's own row.
pub open spec fn row_bytes(sprite: SpriteInstance, linear: bool) -> int {
    if linear {
        sprite.width as int / 8 * tile_bytes(sprite)
    } else {
        1024
    }
}

/// A texel's byte lies in the last 32 KiB of VRAM, counted from the sprite's tile: a
/// tile's width per eight texels across, a row of tiles per eight down, and within the
/// tile four bytes to a line at four bits, eight at eight.
pub proof fn texel_bytes(sprite: SpriteInstance, linear: bool, texel: Texel)
    requires
        sprite.valid(),
    ensures
        ({
            let line = if sprite.eight_bpp {
                8 * (texel.y as int % 8) + texel.x as int % 8
            } else {
                4 * (texel.y as int % 8) + texel.x as int % 8 / 2
            };
            let distance = 32 * sprite.tile_number + row_bytes(sprite, linear) * (texel.y as int
                / 8) + tile_bytes(sprite) * (texel.x as int / 8) + line;
            sprite.byte_offset(linear, texel) == 0x1_0000 + distance % 0x8000
        }),
{
    let step = if sprite.eight_bpp {
        2int
    } else {
        1int
    };
    let row = texel.y as int / 8;
    let stride = if linear {
        sprite.width as int / 8 * step
    } else {
        32int
    };
    assert(row * stride * 32 == (stride * 32) * row) by (nonlinear_arith);
    assert(sprite.width as int / 8 * step * 32 == sprite.width as int / 8 * (step * 32))
        by (nonlinear_arith);
}

/// A four-bit texel is the low half of its byte at an even column and the high half at
/// an odd one; an eight-bit texel is the byte. Color 0 shows nothing.
pub proof fn texel_colors(
    sprite: SpriteInstance,
    linear: bool,
    mem: VideoMemory,
    x: int,
    y: int,
)
    requires
        sprite.valid(),
        mem.valid(),
    ensures
        match sample_at(sprite, linear, mem, x, y) {
            Some(sample) => {
                let byte = mem.vram[sprite.byte_offset(linear, sample.texel)];
                &&& sprite.mode == ObjMode::Normal || sprite.mode == ObjMode::SemiTransparent
                &&& sprite.texel_at(x, y) == Some(sample.texel)
                &&& sample.sprite == sprite
                &&& sample.number != 0
                &&& sprite.eight_bpp ==> sample.number == byte
                &&& !sprite.eight_bpp && sample.texel.x % 2 == 0 ==> sample.number == byte as int
                    % 16
                &&& !sprite.eight_bpp && sample.texel.x % 2 == 1 ==> sample.number == byte as int
                    / 16
            },
            None => {
                ||| sprite.mode == ObjMode::Window || sprite.mode == ObjMode::Prohibited
                ||| sprite.texel_at(x, y) is None
                ||| sprite.texel_at(x, y) matches Some(texel) && sprite.color_number(
                    linear,
                    mem,
                    texel,
                ) == 0
            },
        },
{
}

/// A sprite's color comes from the second half of the palette: by its number alone at
/// eight bits, from the sixteen of its bank at four. The candidate has the sprite's
/// priority, and is marked where the sprite is semi-transparent.
pub proof fn sprite_candidates(
    sprite: SpriteInstance,
    linear: bool,
    mem: VideoMemory,
    x: int,
    y: int,
)
    requires
        sprite.valid(),
        mem.valid(),
    ensures
        sample_at(sprite, linear, mem, x, y) matches Some(sample) ==> {
            let candidate = sample.candidate(mem);
            let place = 0x200 + 2 * sample.number + (if sprite.eight_bpp {
                0int
            } else {
                32 * sprite.palette_bank
            });
            let from = sample.provenance(linear, mem);
            &&& candidate.color.0 == halfword(mem.palette, place)
            &&& candidate.layer == LayerId::Obj
            &&& candidate.priority == sprite.priority
            &&& candidate.flags.semi_transparent_obj == (sprite.mode == ObjMode::SemiTransparent)
            &&& !candidate.flags.obj_window && !candidate.flags.mosaic
            &&& from.oam_index == sprite.oam_index
            &&& from.oam_address == 0x0700_0000 + 8 * sprite.oam_index
            &&& from.tile_number == sprite.tile_number
            &&& from.texture_x == sample.texel.x
            &&& from.texture_y == sample.texel.y
            &&& from.tile_byte_address == 0x0600_0000 + sprite.byte_offset(linear, sample.texel)
            &&& from.palette_index == sample.number
            &&& from.palette_address == 0x0500_0000 + place
            &&& from.resolved == candidate.color
            &&& from.priority == sprite.priority
        },
{
    if let Some(sample) = sample_at(sprite, linear, mem, x, y) {
        texel_bytes(sprite, linear, sample.texel);
    }
}

} // verus!

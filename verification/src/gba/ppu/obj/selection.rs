//! Laws of sprite selection: which of the 128 entries are drawn on a line, and in what
//! order.

use vstd::prelude::*;

use super::evaluate::{evaluated, total_cost, SpriteInstance};
use crate::gba::ppu::memory::VideoMemory;

verus! {

/// Whether entry `i` describes a sprite whose box crosses scanline `y`.
pub open spec fn wants_line(mem: VideoMemory, y: u16, i: int) -> bool {
    SpriteInstance::entry(mem, i) matches Some(sprite) && sprite.y <= y && y < sprite.y
        + sprite.box_height
}

/// What is drawn on a line are sprites of that line, in the order of their entries.
pub proof fn drawn_sprites_cross_the_line(mem: VideoMemory, y: u16, i: int, left: int)
    requires
        0 <= i <= 128,
        y < 160,
    ensures
        ({
            let drawn = evaluated(mem, y, i, left);
            &&& forall|k: int|
                0 <= k < drawn.len() ==> {
                    let sprite = #[trigger] drawn[k];
                    &&& i <= sprite.oam_index < 128
                    &&& SpriteInstance::entry(mem, sprite.oam_index as int) == Some(sprite)
                    &&& wants_line(mem, y, sprite.oam_index as int)
                }
            &&& forall|k: int, l: int|
                0 <= k < l < drawn.len() ==> (#[trigger] drawn[k]).oam_index < (
                #[trigger] drawn[l]).oam_index
        }),
    decreases 128 - i,
{
    if i < 128 {
        if let Some(sprite) = SpriteInstance::entry(mem, i) {
            drawn_sprites_cross_the_line(mem, y, i + 1, left - sprite.cost());
        }
        drawn_sprites_cross_the_line(mem, y, i + 1, left);
    }
}

/// Every sprite of the line is drawn, unless the time of the line runs out: at it or at a
/// sprite before it.
pub proof fn sprites_are_drawn_while_time_lasts(
    mem: VideoMemory,
    y: u16,
    i: int,
    left: int,
    at: int,
)
    requires
        0 <= i <= at < 128,
        wants_line(mem, y, at),
    ensures
        ({
            let drawn = evaluated(mem, y, i, left);
            ||| exists|k: int|
                0 <= k < drawn.len() && Some(#[trigger] drawn[k]) == SpriteInstance::entry(mem, at)
            ||| exists|k: int|
                i <= k <= at && #[trigger] wants_line(mem, y, k) && SpriteInstance::entry(
                    mem,
                    k,
                )->0.cost() + total_cost(drawn) > left
        }),
    decreases 128 - i,
{
    let drawn = evaluated(mem, y, i, left);
    if wants_line(mem, y, i) {
        let sprite = SpriteInstance::entry(mem, i)->0;
        if sprite.cost() <= left {
            let rest = evaluated(mem, y, i + 1, left - sprite.cost());
            assert(drawn =~= seq![sprite] + rest);
            assert(drawn.skip(1) =~= rest);
            assert(drawn[0] == sprite);
            if i < at {
                sprites_are_drawn_while_time_lasts(mem, y, i + 1, left - sprite.cost(), at);
                if exists|k: int|
                    0 <= k < rest.len() && Some(#[trigger] rest[k]) == SpriteInstance::entry(
                        mem,
                        at,
                    ) {
                    let k = choose|k: int|
                        0 <= k < rest.len() && Some(#[trigger] rest[k]) == SpriteInstance::entry(
                            mem,
                            at,
                        );
                    assert(drawn[k + 1] == rest[k]);
                }
            }
        }
    } else {
        sprites_are_drawn_while_time_lasts(mem, y, i + 1, left, at);
    }
}

} // verus!

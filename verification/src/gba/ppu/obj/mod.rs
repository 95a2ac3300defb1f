//! OBJ (sprite) rendering: OAM evaluation followed by rasterization.
//!
//! The two stages are deliberately separate: [`evaluate`] decides which sprites are
//! visible on a scanline under the hardware budget, and [`rasterize`] samples them into
//! the OBJ candidate line. Sprites are drawn in every video mode, independent of the
//! background mode.

pub mod evaluate;
pub mod rasterize;
pub mod selection;
pub mod textures;

use vstd::prelude::*;

use super::debug::explain::CandidateExplanation;
use super::memory::{PpuMemoryView, VideoMemory};
use super::state::{CandidatePixel, LatchedState, Layers, Scratch};
use evaluate::SpriteInstance;

verus! {

/// Whether sprites are drawn: they are on, and the display is not force-blanked.
pub open spec fn active(state: LatchedState) -> bool {
    !state.forced_blank() && state.obj_enabled()
}

/// The sprites drawn on scanline `y`.
pub open spec fn sprites_on(state: LatchedState, mem: VideoMemory, y: int) -> Seq<SpriteInstance> {
    if active(state) {
        evaluate::line_sprites(state, mem, y as u16)
    } else {
        Seq::empty()
    }
}

/// What shows of the sprites at `(x, y)`.
pub open spec fn shown_at(state: LatchedState, mem: VideoMemory, x: int, y: int) -> Option<
    rasterize::Sample,
> {
    rasterize::front_sample(
        sprites_on(state, mem, y),
        rasterize::linear_mapping(&state),
        mem,
        x,
        y,
    )
}

/// The OBJ candidate at `(x, y)`.
pub open spec fn pixel_at(state: LatchedState, mem: VideoMemory, x: int, y: int) -> Option<
    CandidatePixel,
> {
    rasterize::candidate_of(shown_at(state, mem, x, y), mem)
}

/// The explanation of the OBJ candidate at `(x, y)`.
pub open spec fn explanation_at(state: LatchedState, mem: VideoMemory, x: int, y: int) -> Option<
    CandidateExplanation,
> {
    match shown_at(state, mem, x, y) {
        Some(sample) => Some(sample.explanation(rasterize::linear_mapping(&state), mem)),
        None => None,
    }
}

/// The layers once the sprites of scanline `y` were drawn over blank ones.
pub open spec fn generated(layers: Layers, state: LatchedState, mem: VideoMemory, y: int) -> Layers {
    if active(state) {
        Layers {
            obj: Seq::new(240, |x: int| pixel_at(state, mem, x, y)),
            sprites: sprites_on(state, mem, y),
            ..layers
        }
    } else {
        layers
    }
}

/// Evaluate and rasterize this scanline's sprites into `scratch`.
pub fn generate(y: u16, state: &LatchedState, mem: &PpuMemoryView<'_>, scratch: &mut Scratch)
    requires
        mem@.valid(),
        y < 160,
    ensures
        final(scratch)@ == generated(old(scratch)@, *state, mem@, y as int),
{
    let ghost before = scratch@;
    if state.forced_blank() || !state.obj_enabled() {
        return ;
    }
    let mut sprites: Vec<SpriteInstance> = Vec::new();
    evaluate::evaluate_scanline(y, state, mem, &mut sprites);
    rasterize::rasterize(y, state, mem, &sprites, &mut scratch.obj);
    scratch.sprites = sprites;
    assert(scratch@ =~~= generated(before, *state, mem@, y as int));
}

/// An explanation never disagrees with the drawing: a sprite shows at a position exactly
/// where one is explained, with the explained candidate.
pub proof fn sprite_explanation_matches_drawing(
    state: LatchedState,
    mem: VideoMemory,
    x: int,
    y: int,
)
    ensures
        pixel_at(state, mem, x, y) == (match explanation_at(state, mem, x, y) {
            Some(e) => Some(e.candidate),
            None => None,
        }),
{
}

} // verus!

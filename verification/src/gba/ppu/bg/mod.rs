//! Background candidate generation: dispatch the active video mode to its sampler,
//! filling the per-layer scratch lines.

pub mod bitmap;
pub mod framebuffer;

use vstd::prelude::*;

use super::memory::{PpuMemoryView, VideoMemory};
use super::state::{AffineInternalState, LatchedState, Layers, Scratch};

verus! {

/// The mosaic block size and whether mosaic applies, for background `index`:
/// `BGxCNT` bit 6 turns it on, and `MOSAIC` bits 0-3 and 4-7 give the block's width
/// and height less one.
#[verifier::allow_in_spec]
pub fn bg_mosaic_factors(state: &LatchedState, index: usize) -> (usize, usize, bool)
    requires
        index < 4,
    returns
        (if state.regs.bgcnt[index as int] & 0x40 != 0 {
            (
                (state.regs.mosaic % 16 + 1) as usize,
                (state.regs.mosaic / 16 % 16 + 1) as usize,
                true,
            )
        } else {
            (1usize, 1usize, false)
        }),
{
    if state.regs.bgcnt[index] & 0x40 != 0 {
        (
            (state.regs.mosaic % 16 + 1) as usize,
            (state.regs.mosaic / 16 % 16 + 1) as usize,
            true,
        )
    } else {
        (1, 1, false)
    }
}

/// The layers once the backgrounds of scanline `y` were drawn over them.
pub open spec fn generated(layers: Layers, state: LatchedState, mem: VideoMemory, y: int) -> Layers {
    Layers {
        bg: layers.bg.update(
            2,
            Seq::new(
                240,
                |x: int|
                    match bitmap::opaque_at(state, mem, x, y) {
                        Some(pixel) => Some(pixel),
                        None => layers.bg[2][x],
                    },
            ),
        ),
        ..layers
    }
}

/// Generate this scanline's background candidates into `scratch`, according to the
/// latched video mode. Force-blank produces nothing (the screen shows white via
/// the backdrop path).
pub fn generate(
    y: u16,
    state: &LatchedState,
    _affine: &AffineInternalState,
    mem: &PpuMemoryView<'_>,
    scratch: &mut Scratch,
)
    requires
        !state.forced_blank() ==> bitmap::line_in_vram(state.mode, y as int),
        mem@.valid(),
    ensures
        final(scratch)@ == generated(old(scratch)@, *state, mem@, y as int),
{
    let ghost before = scratch@;
    if !state.forced_blank() {
        match state.mode {
            // Modes 0-2 (text/affine tiled backgrounds) are not implemented, and
            // modes 6/7 are invalid; nothing is drawn.
            3 => bitmap::render_mode3(y, state, mem, scratch),
            4 => bitmap::render_mode4(y, state, mem, scratch),
            5 => bitmap::render_mode5(y, state, mem, scratch),
            _ => {},
        }
    }
    assert(scratch@ =~~= generated(before, *state, mem@, y as int));
}

} // verus!

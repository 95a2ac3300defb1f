//! Laws of a pixel's account: which candidates compete for it, and what is told of how
//! they were judged.

use vstd::prelude::*;

use super::compositor::{backdrop_explanation, gathered};
use super::debug::provenance::{SourceProvenance, WindowRegion};
use super::effects;
use super::priority::ResolvedPixel;
use super::scanline::scanline_summary;
use super::state::{CandidatePixel, LatchedState, Layers};
use super::window::{self, WindowMask};

verus! {

/// A layer's pixel as a list: none where the layer is clear or hidden.
pub open spec fn competing(pixel: Option<CandidatePixel>, visible: bool) -> Seq<CandidatePixel> {
    match pixel {
        Some(candidate) if visible => seq![candidate],
        _ => Seq::empty(),
    }
}

/// The backdrop always competes, and with it what each background and the sprites show at
/// the column, in this order, as far as the window lets them.
pub proof fn every_visible_layer_competes(
    layers: Layers,
    mask: WindowMask,
    backdrop: CandidatePixel,
    x: int,
)
    ensures
        gathered(layers, mask, backdrop, x) == seq![backdrop] + competing(
            layers.bg[0][x],
            mask.bg[0],
        ) + competing(layers.bg[1][x], mask.bg[1]) + competing(layers.bg[2][x], mask.bg[2])
            + competing(layers.bg[3][x], mask.bg[3]) + competing(layers.obj[x], mask.obj),
{
    assert(gathered(layers, mask, backdrop, x) =~= seq![backdrop] + competing(
        layers.bg[0][x],
        mask.bg[0],
    ) + competing(layers.bg[1][x], mask.bg[1]) + competing(layers.bg[2][x], mask.bg[2])
        + competing(layers.bg[3][x], mask.bg[3]) + competing(layers.obj[x], mask.obj));
}

/// No window hides anything: every layer is visible in every column, and each column lies
/// outside.
pub proof fn nothing_is_hidden(x: usize, state: LatchedState, k: int)
    requires
        0 <= k < 4,
    ensures
        ({
            let mask = window::mask_at(x, &state);
            &&& mask.bg[k] && mask.obj && mask.effects
            &&& window::region_at(x, &state) is Outside
        }),
{
}

/// What is told of a window decision is the decision: the backgrounds in order, then the
/// sprites, and the effects.
pub proof fn window_is_told(mask: WindowMask, k: int)
    requires
        0 <= k < 4,
    ensures
        ({
            let told = mask.explain();
            &&& told.layers_enabled[k] == mask.bg[k]
            &&& told.layers_enabled[4] == mask.obj
            &&& told.effects_enabled == mask.effects
            &&& told.region == WindowRegion::Outside
        }),
{
}

/// What is told of a resolution are the two front-most candidates and why the first one
/// won: by its priority where that is smaller, else by its layer.
pub proof fn resolution_is_told(pixel: ResolvedPixel)
    ensures
        ({
            let told = pixel.explain();
            &&& told.top == pixel.top && told.second == pixel.second
            &&& told.tie_break.winner == pixel.top.layer
            &&& told.tie_break.over == pixel.second.layer
            &&& (told.tie_break.by_priority <==> pixel.top.priority < pixel.second.priority)
        }),
{
}

/// The backdrop is told as palette entry 0, in its own color.
pub proof fn backdrop_is_told(backdrop: CandidatePixel)
    ensures
        ({
            let told = backdrop_explanation(backdrop);
            &&& told.candidate == backdrop
            &&& told.visible_after_window && told.rejection_reason is None
            &&& told.provenance matches SourceProvenance::Backdrop(from)
            &&& from.palette_address == 0x0500_0000
            &&& from.raw_color == backdrop.color
        }),
{
}

/// The color of the front-most candidate is shown as it is.
pub proof fn effects_leave_the_color(top: CandidatePixel)
    ensures
        effects::unchanged(top).color == top.color,
        effects::unchanged(top).mode is Unchanged,
        effects::unchanged(top).applied is Unchanged,
{
}

/// A scanline is told with its number, the mode and the forced blank, bit 7 of `DISPCNT`.
pub proof fn scanline_is_told(state: LatchedState, y: u16)
    ensures
        ({
            let told = scanline_summary(state, y);
            &&& told.y == y
            &&& told.video_mode == state.mode
            &&& (told.forced_blank <==> state.regs.dispcnt & 0x80 != 0)
        }),
{
}

/// The places that a pixel was sampled from: the bitmap byte and, where there is one, its
/// palette entry; the sprite's entry, its tile byte and its palette entry; or the backdrop's
/// palette entry.
pub proof fn sampled_places(from: SourceProvenance)
    ensures
        match from {
            SourceProvenance::BitmapBg(p) => {
                &&& from.addresses()[0] == p.vram_address
                &&& p.palette_address is None ==> from.addresses().len() == 1
                &&& p.palette_address is Some ==> from.addresses().len() == 2
                    && from.addresses()[1] == p.palette_address->0
            },
            SourceProvenance::Obj(p) => {
                &&& from.addresses().len() == 3
                &&& from.addresses()[0] == p.oam_address
                &&& from.addresses()[1] == p.tile_byte_address
                &&& from.addresses()[2] == p.palette_address
            },
            SourceProvenance::Backdrop(p) => from.addresses() == seq![p.palette_address],
            SourceProvenance::Unrecorded => from.addresses().len() == 0,
        },
{
}

} // verus!

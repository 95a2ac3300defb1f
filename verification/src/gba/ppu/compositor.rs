//! Per-pixel candidate gathering: collect the window-visible candidates for a
//! screen position from the per-layer scratch buffers plus the backdrop, ready for
//! priority resolution.

use vstd::prelude::*;

use super::debug::explain::{CandidateExplanation, WindowExplanation};
use super::debug::provenance::{
    BackdropProvenance, RejectionReason, SourceProvenance, WindowRegion,
};
use super::debug::sink::{ProvenanceSink, SinkModel};
use super::memory::PALETTE_BASE;
use super::priority;
use super::priority::CandidateSet;
use super::state::{CandidatePixel, LayerId, Layers, Scratch};
use super::window::WindowMask;

verus! {

/// A set with a layer's pixel added, if the window shows the layer.
pub open spec fn with_layer(
    set: Seq<CandidatePixel>,
    pixel: Option<CandidatePixel>,
    visible: bool,
) -> Seq<CandidatePixel> {
    if visible {
        priority::with_candidate(set, pixel)
    } else {
        set
    }
}

/// The candidates competing for column `x`: the backdrop, the backgrounds, the
/// sprites.
pub open spec fn gathered(
    layers: Layers,
    mask: WindowMask,
    backdrop: CandidatePixel,
    x: int,
) -> Seq<CandidatePixel> {
    let set = seq![backdrop];
    let set = with_layer(set, layers.bg[0][x], mask.bg[0]);
    let set = with_layer(set, layers.bg[1][x], mask.bg[1]);
    let set = with_layer(set, layers.bg[2][x], mask.bg[2]);
    let set = with_layer(set, layers.bg[3][x], mask.bg[3]);
    with_layer(set, layers.obj[x], mask.obj)
}

/// A sink after a layer's pixel was gathered: a hidden one is reported as rejected.
pub open spec fn hidden_reported<M: SinkModel>(
    sink: M,
    x: u16,
    layer: LayerId,
    pixel: Option<CandidatePixel>,
    visible: bool,
    region: WindowRegion,
) -> M {
    if !visible && pixel is Some {
        sink.with_rejection(x, layer, RejectionReason::WindowHidden { region })
    } else {
        sink
    }
}

/// The explanation of the backdrop candidate.
#[verifier::allow_in_spec]
pub fn backdrop_explanation(backdrop: CandidatePixel) -> CandidateExplanation
    returns
        (CandidateExplanation {
            candidate: backdrop,
            provenance: SourceProvenance::Backdrop(
                BackdropProvenance { palette_address: PALETTE_BASE, raw_color: backdrop.color },
            ),
            visible_after_window: true,
            rejection_reason: None,
        }),
{
    CandidateExplanation {
        candidate: backdrop,
        provenance: SourceProvenance::Backdrop(
            BackdropProvenance { palette_address: PALETTE_BASE, raw_color: backdrop.color },
        ),
        visible_after_window: true,
        rejection_reason: None,
    }
}

/// A sink after column `x` was gathered: a wanted column reports the layers hidden by the
/// region it lies in, the window decision and the backdrop.
pub open spec fn gathering_reported<M: SinkModel>(
    sink: M,
    layers: Layers,
    mask: WindowMask,
    region: WindowRegion,
    backdrop: CandidatePixel,
    x: u16,
) -> M {
    if !sink.wanted(x) {
        sink
    } else {
        let i = x as int;
        let sink = hidden_reported(sink, x, LayerId::Bg0, layers.bg[0][i], mask.bg[0], region);
        let sink = hidden_reported(sink, x, LayerId::Bg1, layers.bg[1][i], mask.bg[1], region);
        let sink = hidden_reported(sink, x, LayerId::Bg2, layers.bg[2][i], mask.bg[2], region);
        let sink = hidden_reported(sink, x, LayerId::Bg3, layers.bg[3][i], mask.bg[3], region);
        let sink = hidden_reported(sink, x, LayerId::Obj, layers.obj[i], mask.obj, region);
        sink.with_window(x, WindowExplanation { region, ..mask.explain() }).with_candidate(
            x,
            backdrop_explanation(backdrop),
        )
    }
}

/// Add a layer's pixel if the window shows the layer, and report it if not.
fn gather_layer<S: ProvenanceSink>(
    x: u16,
    layer: LayerId,
    pixel: Option<CandidatePixel>,
    visible: bool,
    region: WindowRegion,
    wanted: bool,
    set: &mut CandidateSet,
    sink: &mut S,
)
    ensures
        final(set)@ == with_layer(old(set)@, pixel, visible),
        final(sink).model() == (if wanted {
            hidden_reported(old(sink).model(), x, layer, pixel, visible, region)
        } else {
            old(sink).model()
        }),
{
    if visible {
        set.push(pixel);
    } else if wanted && pixel.is_some() {
        sink.record_rejection(x, layer, RejectionReason::WindowHidden { region });
    }
}

/// Gather the candidates competing for pixel `x`, applying window visibility: `mask` and
/// `region` are what the windows decided there. The backdrop is always included as the
/// fallback.
pub fn gather<S: ProvenanceSink>(
    x: usize,
    scratch: &Scratch,
    mask: &WindowMask,
    region: WindowRegion,
    backdrop: CandidatePixel,
    sink: &mut S,
) -> (set: CandidateSet)
    requires
        x < 240,
    ensures
        set@ == gathered(scratch@, *mask, backdrop, x as int),
        final(sink).model() == gathering_reported(
            old(sink).model(),
            scratch@,
            *mask,
            region,
            backdrop,
            x as u16,
        ),
{
    let column: u16 = x as u16;
    let wanted = sink.wants(column);
    let mut set = CandidateSet::new(backdrop);
    gather_layer(
        column,
        LayerId::Bg0,
        scratch.bg[0].pixels[x],
        mask.bg[0],
        region,
        wanted,
        &mut set,
        sink,
    );
    gather_layer(
        column,
        LayerId::Bg1,
        scratch.bg[1].pixels[x],
        mask.bg[1],
        region,
        wanted,
        &mut set,
        sink,
    );
    gather_layer(
        column,
        LayerId::Bg2,
        scratch.bg[2].pixels[x],
        mask.bg[2],
        region,
        wanted,
        &mut set,
        sink,
    );
    gather_layer(
        column,
        LayerId::Bg3,
        scratch.bg[3].pixels[x],
        mask.bg[3],
        region,
        wanted,
        &mut set,
        sink,
    );
    gather_layer(
        column,
        LayerId::Obj,
        scratch.obj.pixels[x],
        mask.obj,
        region,
        wanted,
        &mut set,
        sink,
    );
    if wanted {
        sink.record_window(column, WindowExplanation { region, ..mask.explain() });
        sink.record_candidate(column, backdrop_explanation(backdrop));
    }
    set
}

} // verus!

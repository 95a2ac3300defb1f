//! The aggregate explanation types returned by the debug API.
//!
//! These are built only when instrumentation is active (an `explain_pixel` /
//! `inspect_scanline` call, or a running scanline/pixel instrumentation level).
//! They use plain `Vec` because they are off the hot path; the fast renderer
//! never constructs them.

use vstd::prelude::*;

use super::provenance::{BackgroundId, RejectionReason, SourceProvenance, WindowRegion};
use crate::gba::ppu::obj::evaluate::SpriteInstance;
use crate::gba::ppu::state::{CandidatePixel, Color15, LayerId};

verus! {

/// A frame identity, for the frame-indexed explain API.
#[derive(Clone, Copy, Debug, PartialEq, Eq, Structural)]
pub struct FrameId(pub u64);

/// Which instrumentation a running frame should collect. `Off` is the default and
/// costs nothing.
#[derive(Clone, Copy, Debug, PartialEq, Eq, Structural)]
pub enum VideoInstrumentation {
    Off,
    /// Collect a whole-line summary for scanline `y`.
    Scanline { y: u16 },
    /// Collect full per-candidate provenance for one pixel.
    Pixel { x: u16, y: u16 },
    /// As `Pixel`, and additionally resolve source memory addresses.
    MemorySources { x: u16, y: u16 },
}

impl Default for VideoInstrumentation {
    fn default() -> (level: Self)
        ensures
            level == VideoInstrumentation::Off,
    {
        VideoInstrumentation::Off
    }
}

/// Why a debug request could not be fully answered.
#[derive(Clone, Copy, Debug, PartialEq, Eq, Structural)]
pub enum ExplainError {
    /// The requested pixel is outside the 240x160 visible framebuffer.
    PixelOutsideFramebuffer { x: u16, y: u16 },
    /// A past frame was requested but history does not reach it (needs rewind).
    FrameUnavailable { requested: u64, oldest: u64 },
    /// The request needs deterministic replay, which is unavailable.
    ReplayUnavailable,
}

/// One candidate's explanation: what it was, where it came from, and whether it
/// survived windowing.
#[derive(Clone, Copy, Debug, PartialEq, Eq, Structural)]
pub struct CandidateExplanation {
    pub candidate: CandidatePixel,
    pub provenance: SourceProvenance,
    pub visible_after_window: bool,
    pub rejection_reason: Option<RejectionReason>,
}

/// How the top candidate beat the second.
#[derive(Clone, Copy, Debug, PartialEq, Eq, Structural)]
pub struct TieBreak {
    pub winner: LayerId,
    pub over: LayerId,
    /// `true` if the winner had a strictly lower priority value; `false` if the
    /// priorities tied and layer order decided it.
    pub by_priority: bool,
}

/// The priority-resolution outcome: the two front-most candidates.
#[derive(Clone, Copy, Debug, PartialEq, Eq, Structural)]
pub struct ResolvedExplanation {
    pub top: CandidatePixel,
    pub second: CandidatePixel,
    pub tie_break: TieBreak,
}

/// The color-effect mode selected by `BLDCNT`.
#[derive(Clone, Copy, Debug, PartialEq, Eq, Structural)]
pub enum EffectMode {
    Unchanged,
    Alpha,
    Brighten,
    Darken,
}

/// The color effect actually applied to the final pixel.
#[derive(Clone, Copy, Debug, PartialEq, Eq, Structural)]
pub enum AppliedEffect {
    Unchanged,
    Alpha { first: LayerId, second: LayerId, eva: u8, evb: u8 },
    Brighten { source: LayerId, evy: u8 },
    Darken { source: LayerId, evy: u8 },
}

/// The color-effects stage outcome.
#[derive(Clone, Copy, Debug, PartialEq, Eq, Structural)]
pub struct EffectExplanation {
    pub mode: EffectMode,
    pub applied: AppliedEffect,
    pub result: Color15,
}

/// The window decision at a screen position.
#[derive(Clone, Copy, Debug)]
#[verifier::ext_equal]
pub struct WindowExplanation {
    pub region: WindowRegion,
    /// Per-layer enable in the resolved region: `[bg0, bg1, bg2, bg3, obj]`.
    pub layers_enabled: [bool; 5],
    pub effects_enabled: bool,
}

/// The latched register context for a scanline.
#[derive(Clone, Debug)]
pub struct ScanlineStateExplanation {
    pub y: u16,
    pub video_mode: u8,
    pub forced_blank: bool,
    pub active_backgrounds: Vec<BackgroundId>,
}

/// What a scanline's register context says.
#[verifier::ext_equal]
pub struct ScanlineSummary {
    pub y: u16,
    pub video_mode: u8,
    pub forced_blank: bool,
    pub active_backgrounds: Seq<BackgroundId>,
}

impl View for ScanlineStateExplanation {
    type V = ScanlineSummary;

    open spec fn view(&self) -> ScanlineSummary {
        ScanlineSummary {
            y: self.y,
            video_mode: self.video_mode,
            forced_blank: self.forced_blank,
            active_backgrounds: self.active_backgrounds@,
        }
    }
}

/// The full explanation of one output pixel.
#[derive(Clone, Debug)]
pub struct PixelExplanation {
    pub frame: u64,
    pub x: u16,
    pub y: u16,
    pub final_color: Color15,
    pub video_mode: u8,
    pub scanline_state: ScanlineStateExplanation,
    pub window: WindowExplanation,
    pub candidates: Vec<CandidateExplanation>,
    pub resolved: ResolvedExplanation,
    pub effect: EffectExplanation,
    /// `true` when the explanation is known to be incomplete.
    pub partial: bool,
}

/// The first candidate contributed by `layer`, if any.
pub open spec fn first_of(candidates: Seq<CandidateExplanation>, layer: LayerId) -> Option<
    CandidateExplanation,
>
    decreases candidates.len(),
{
    if candidates.len() == 0 {
        None
    } else if candidates[0].candidate.layer == layer {
        Some(candidates[0])
    } else {
        first_of(candidates.skip(1), layer)
    }
}

/// The position of the first candidate contributed by `layer`, if any.
pub fn position_of(candidates: &Vec<CandidateExplanation>, layer: LayerId) -> (position: Option<
    usize,
>)
    ensures
        match position {
            Some(i) => i < candidates@.len() && first_of(candidates@, layer) == Some(
                candidates@[i as int],
            ) && candidates@[i as int].candidate.layer == layer && forall|k: int|
                0 <= k < i ==> (#[trigger] candidates@[k]).candidate.layer != layer,
            None => first_of(candidates@, layer) is None && forall|k: int|
                0 <= k < candidates@.len() ==> (#[trigger] candidates@[k]).candidate.layer
                    != layer,
        },
{
    let mut i: usize = 0;
    assert(candidates@.skip(0) =~= candidates@);
    while i < candidates.len()
        invariant
            i <= candidates@.len(),
            first_of(candidates@, layer) == first_of(candidates@.skip(i as int), layer),
            forall|k: int| 0 <= k < i ==> (#[trigger] candidates@[k]).candidate.layer != layer,
        decreases candidates@.len() - i,
    {
        if candidates[i].candidate.layer == layer {
            return Some(i);
        }
        assert(candidates@.skip(i as int).skip(1) =~= candidates@.skip(i + 1));
        i = i + 1;
    }
    None
}

impl PixelExplanation {
    /// The candidate explanation contributed by `layer`, if any.
    pub fn candidate_for(&self, layer: LayerId) -> (candidate: Option<&CandidateExplanation>)
        ensures
            match candidate {
                Some(c) => first_of(self.candidates@, layer) == Some(*c),
                None => first_of(self.candidates@, layer) is None,
            },
    {
        match position_of(&self.candidates, layer) {
            Some(i) => Some(&self.candidates[i]),
            None => None,
        }
    }
}

/// A whole-scanline summary - cheaper than 240 pixel explanations.
#[derive(Clone, Debug)]
pub struct ScanlineExplanation {
    pub state: ScanlineStateExplanation,
    /// The sprites evaluated as visible, in OAM order.
    pub sprites: Vec<SpriteInstance>,
    pub final_line: Vec<Color15>,
}

} // verus!

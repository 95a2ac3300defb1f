//! The observation surface the one renderer feeds at every semantic stage.
//!
//! The renderer is generic over a [`ProvenanceSink`]. On the fast path it is
//! [`NullSink`], which wants no column - so instrumentation costs nothing when off.
//! The same renderer with [`PixelRecorder`] or [`ScanlineRecorder`] produces
//! explanations, which guarantees an explained pixel can never diverge from the
//! drawn one.

use vstd::prelude::*;

use super::explain;
use super::explain::{
    AppliedEffect, CandidateExplanation, EffectExplanation, EffectMode, PixelExplanation,
    ResolvedExplanation, ScanlineStateExplanation, ScanlineSummary, TieBreak, WindowExplanation,
};
use super::provenance::{RejectionReason, SourceProvenance, WindowRegion};
use crate::gba::ppu::state::{CandidatePixel, Color15, LayerId, PixelFlags};

verus! {

/// What a sink stands for: which columns it wants, and what each report makes of it.
pub trait SinkModel: Sized {
    /// Whether per-candidate detail is wanted at column `x`.
    spec fn wanted(self, x: u16) -> bool;

    /// The sink after the scanline's context was reported.
    spec fn with_scanline(self, summary: ScanlineSummary) -> Self;

    /// The sink after a candidate was reported.
    spec fn with_candidate(self, x: u16, candidate: CandidateExplanation) -> Self;

    /// The sink after a rejection was reported.
    spec fn with_rejection(self, x: u16, layer: LayerId, reason: RejectionReason) -> Self;

    /// The sink after a window decision was reported.
    spec fn with_window(self, x: u16, window: WindowExplanation) -> Self;

    /// The sink after a priority resolution was reported.
    spec fn with_resolved(self, x: u16, resolved: ResolvedExplanation) -> Self;

    /// The sink after a color effect was reported.
    spec fn with_effect(self, x: u16, effect: EffectExplanation) -> Self;
}

/// The stages the renderer reports. The renderer assembles a report only for columns
/// that the sink wants, so a sink that wants none pays nothing.
pub trait ProvenanceSink {
    /// What the sink stands for.
    type Model: SinkModel;

    /// The current state of the sink.
    spec fn model(&self) -> Self::Model;

    /// Whether this sink wants per-candidate detail at column `x`. The renderer
    /// skips even assembling the reports for columns that return `false`.
    fn wants(&self, x: u16) -> (wanted: bool)
        ensures
            wanted == self.model().wanted(x),
    ;

    /// The scanline's context.
    fn record_scanline(&mut self, state: ScanlineStateExplanation)
        ensures
            final(self).model() == old(self).model().with_scanline(state@),
    ;

    /// A candidate at column `x`.
    fn record_candidate(&mut self, x: u16, candidate: CandidateExplanation)
        ensures
            final(self).model() == old(self).model().with_candidate(x, candidate),
    ;

    /// A candidate at column `x` that a window hides.
    fn record_rejection(&mut self, x: u16, layer: LayerId, reason: RejectionReason)
        ensures
            final(self).model() == old(self).model().with_rejection(x, layer, reason),
    ;

    /// The window decision at column `x`.
    fn record_window(&mut self, x: u16, window: WindowExplanation)
        ensures
            final(self).model() == old(self).model().with_window(x, window),
    ;

    /// The priority resolution at column `x`.
    fn record_resolved(&mut self, x: u16, resolved: ResolvedExplanation)
        ensures
            final(self).model() == old(self).model().with_resolved(x, resolved),
    ;

    /// The color effect at column `x`.
    fn record_effect(&mut self, x: u16, effect: EffectExplanation)
        ensures
            final(self).model() == old(self).model().with_effect(x, effect),
    ;
}

/// The zero-cost fast path: it wants no column and keeps nothing.
pub struct NullSink;

/// A sink that keeps nothing.
pub struct Nothing;

impl SinkModel for Nothing {
    open spec fn wanted(self, x: u16) -> bool {
        false
    }

    open spec fn with_scanline(self, summary: ScanlineSummary) -> Self {
        self
    }

    open spec fn with_candidate(self, x: u16, candidate: CandidateExplanation) -> Self {
        self
    }

    open spec fn with_rejection(self, x: u16, layer: LayerId, reason: RejectionReason) -> Self {
        self
    }

    open spec fn with_window(self, x: u16, window: WindowExplanation) -> Self {
        self
    }

    open spec fn with_resolved(self, x: u16, resolved: ResolvedExplanation) -> Self {
        self
    }

    open spec fn with_effect(self, x: u16, effect: EffectExplanation) -> Self {
        self
    }
}

impl ProvenanceSink for NullSink {
    type Model = Nothing;

    open spec fn model(&self) -> Nothing {
        Nothing
    }

    fn wants(&self, _x: u16) -> (wanted: bool) {
        false
    }

    fn record_scanline(&mut self, _state: ScanlineStateExplanation) {
    }

    fn record_candidate(&mut self, _x: u16, _candidate: CandidateExplanation) {
    }

    fn record_rejection(&mut self, _x: u16, _layer: LayerId, _reason: RejectionReason) {
    }

    fn record_window(&mut self, _x: u16, _window: WindowExplanation) {
    }

    fn record_resolved(&mut self, _x: u16, _resolved: ResolvedExplanation) {
    }

    fn record_effect(&mut self, _x: u16, _effect: EffectExplanation) {
    }
}

/// Collects full per-candidate provenance for a single target pixel.
pub struct PixelRecorder {
    target_x: u16,
    scanline: Option<ScanlineStateExplanation>,
    candidates: Vec<CandidateExplanation>,
    rejections: Vec<(LayerId, RejectionReason)>,
    window: Option<WindowExplanation>,
    resolved: Option<ResolvedExplanation>,
    effect: Option<EffectExplanation>,
}

/// What was collected for a single target pixel.
#[verifier::ext_equal]
pub struct PixelRecord {
    pub target_x: u16,
    pub scanline: Option<ScanlineSummary>,
    pub candidates: Seq<CandidateExplanation>,
    pub rejections: Seq<(LayerId, RejectionReason)>,
    pub window: Option<WindowExplanation>,
    pub resolved: Option<ResolvedExplanation>,
    pub effect: Option<EffectExplanation>,
}

impl PixelRecord {
    /// Nothing collected yet.
    pub open spec fn empty(x: u16) -> PixelRecord {
        PixelRecord {
            target_x: x,
            scanline: None,
            candidates: Seq::empty(),
            rejections: Seq::empty(),
            window: None,
            resolved: None,
            effect: None,
        }
    }

    /// The effect to report; black where none was recorded.
    pub open spec fn final_effect(self) -> EffectExplanation {
        match self.effect {
            Some(effect) => effect,
            None => EffectExplanation {
                mode: EffectMode::Unchanged,
                applied: AppliedEffect::Unchanged,
                result: Color15(0),
            },
        }
    }

    /// The resolution to report; the backdrop alone where none was recorded.
    pub open spec fn final_resolved(self) -> ResolvedExplanation {
        match self.resolved {
            Some(resolved) => resolved,
            None => {
                let backdrop = CandidatePixel::backdrop(self.final_effect().result);
                ResolvedExplanation {
                    top: backdrop,
                    second: backdrop,
                    tie_break: TieBreak {
                        winner: LayerId::Backdrop,
                        over: LayerId::Backdrop,
                        by_priority: true,
                    },
                }
            },
        }
    }

    /// The scanline context to report; an empty one where none was recorded.
    pub open spec fn final_scanline(self, y: u16) -> ScanlineSummary {
        match self.scanline {
            Some(summary) => summary,
            None => ScanlineSummary {
                y,
                video_mode: 0,
                forced_blank: false,
                active_backgrounds: Seq::empty(),
            },
        }
    }

    /// The window decision to report; everything visible outside any window where none
    /// was recorded.
    pub open spec fn final_window(self) -> WindowExplanation {
        match self.window {
            Some(window) => window,
            None => WindowExplanation {
                region: WindowRegion::Outside,
                layers_enabled: [true, true, true, true, true],
                effects_enabled: true,
            },
        }
    }
}

/// The candidates with the rejections from the `i`th on folded onto theirs.
pub open spec fn rejected(
    candidates: Seq<CandidateExplanation>,
    rejections: Seq<(LayerId, RejectionReason)>,
    i: int,
) -> Seq<CandidateExplanation>
    decreases rejections.len() - i,
{
    if i >= rejections.len() {
        candidates
    } else {
        rejected(struck(candidates, rejections[i].0, rejections[i].1), rejections, i + 1)
    }
}

/// The entry of a layer that was rejected without a candidate: invisible, with the reason.
#[verifier::allow_in_spec]
pub fn rejected_entry(layer: LayerId, reason: RejectionReason) -> CandidateExplanation
    returns
        (CandidateExplanation {
            candidate: CandidatePixel {
                color: Color15(0),
                layer,
                priority: 4,
                flags: PixelFlags::none(),
            },
            provenance: SourceProvenance::Unrecorded,
            visible_after_window: false,
            rejection_reason: Some(reason),
        }),
{
    CandidateExplanation {
        candidate: CandidatePixel {
            color: Color15(0),
            layer,
            priority: 4,
            flags: PixelFlags::none(),
        },
        provenance: SourceProvenance::Unrecorded,
        visible_after_window: false,
        rejection_reason: Some(reason),
    }
}

/// The candidates with a rejection folded onto the first of its layer, or with an entry of
/// its own where the layer has none.
pub open spec fn struck(
    candidates: Seq<CandidateExplanation>,
    layer: LayerId,
    reason: RejectionReason,
) -> Seq<CandidateExplanation>
    decreases candidates.len(),
{
    if candidates.len() == 0 {
        seq![rejected_entry(layer, reason)]
    } else if candidates[0].candidate.layer == layer {
        candidates.update(
            0,
            CandidateExplanation {
                rejection_reason: Some(reason),
                visible_after_window: false,
                ..candidates[0]
            },
        )
    } else {
        seq![candidates[0]] + struck(candidates.skip(1), layer, reason)
    }
}

proof fn lemma_struck(
    candidates: Seq<CandidateExplanation>,
    layer: LayerId,
    reason: RejectionReason,
    i: int,
)
    requires
        0 <= i < candidates.len(),
        candidates[i].candidate.layer == layer,
        forall|k: int| 0 <= k < i ==> (#[trigger] candidates[k]).candidate.layer != layer,
    ensures
        struck(candidates, layer, reason) == candidates.update(
            i,
            CandidateExplanation {
                rejection_reason: Some(reason),
                visible_after_window: false,
                ..candidates[i]
            },
        ),
    decreases candidates.len(),
{
    if i > 0 {
        let rest = candidates.skip(1);
        assert forall|k: int| 0 <= k < i - 1 implies (#[trigger] rest[k]).candidate.layer
            != layer by {
            assert(rest[k] == candidates[k + 1]);
        }
        lemma_struck(rest, layer, reason, i - 1);
    }
    assert(struck(candidates, layer, reason) =~= candidates.update(
        i,
        CandidateExplanation {
            rejection_reason: Some(reason),
            visible_after_window: false,
            ..candidates[i]
        },
    ));
}

proof fn lemma_struck_nothing(
    candidates: Seq<CandidateExplanation>,
    layer: LayerId,
    reason: RejectionReason,
)
    requires
        forall|k: int|
            0 <= k < candidates.len() ==> (#[trigger] candidates[k]).candidate.layer != layer,
    ensures
        struck(candidates, layer, reason) == candidates.push(rejected_entry(layer, reason)),
    decreases candidates.len(),
{
    if candidates.len() > 0 {
        let rest = candidates.skip(1);
        assert forall|k: int| 0 <= k < rest.len() implies (#[trigger] rest[k]).candidate.layer
            != layer by {
            assert(rest[k] == candidates[k + 1]);
        }
        lemma_struck_nothing(rest, layer, reason);
    }
    assert(struck(candidates, layer, reason) =~= candidates.push(rejected_entry(layer, reason)));
}

/// Whether some entry reports a layer as rejected for a reason.
pub open spec fn reports(
    candidates: Seq<CandidateExplanation>,
    layer: LayerId,
    reason: RejectionReason,
) -> bool {
    exists|k: int|
        0 <= k < candidates.len() && (#[trigger] candidates[k]).candidate.layer == layer
            && candidates[k].rejection_reason == Some(reason)
            && !candidates[k].visible_after_window
}

proof fn lemma_struck_reports(
    candidates: Seq<CandidateExplanation>,
    layer: LayerId,
    reason: RejectionReason,
)
    ensures
        reports(struck(candidates, layer, reason), layer, reason),
    decreases candidates.len(),
{
    let after = struck(candidates, layer, reason);
    if candidates.len() == 0 || candidates[0].candidate.layer == layer {
        assert(after[0].rejection_reason == Some(reason));
    } else {
        let rest = struck(candidates.skip(1), layer, reason);
        lemma_struck_reports(candidates.skip(1), layer, reason);
        let k = choose|k: int|
            0 <= k < rest.len() && (#[trigger] rest[k]).candidate.layer == layer
                && rest[k].rejection_reason == Some(reason) && !rest[k].visible_after_window;
        assert(after[k + 1] == rest[k]);
    }
}

proof fn lemma_struck_keeps(
    candidates: Seq<CandidateExplanation>,
    layer: LayerId,
    reason: RejectionReason,
    k: int,
)
    requires
        0 <= k < candidates.len(),
        candidates[k].candidate.layer != layer,
    ensures
        struck(candidates, layer, reason).len() >= candidates.len(),
        struck(candidates, layer, reason)[k] == candidates[k],
    decreases candidates.len(),
{
    if candidates[0].candidate.layer != layer {
        let rest = candidates.skip(1);
        if k > 0 {
            assert(rest[k - 1] == candidates[k]);
            lemma_struck_keeps(rest, layer, reason, k - 1);
        } else if rest.len() > 0 {
            lemma_struck_length(rest, layer, reason);
        }
    }
}

proof fn lemma_struck_length(
    candidates: Seq<CandidateExplanation>,
    layer: LayerId,
    reason: RejectionReason,
)
    ensures
        struck(candidates, layer, reason).len() >= candidates.len(),
    decreases candidates.len(),
{
    if candidates.len() > 0 && candidates[0].candidate.layer != layer {
        lemma_struck_length(candidates.skip(1), layer, reason);
    }
}

proof fn lemma_rejected_reports(
    candidates: Seq<CandidateExplanation>,
    rejections: Seq<(LayerId, RejectionReason)>,
    i: int,
    layer: LayerId,
    reason: RejectionReason,
)
    requires
        0 <= i <= rejections.len(),
        reports(candidates, layer, reason),
        forall|k: int| i <= k < rejections.len() ==> (#[trigger] rejections[k]).0 != layer,
    ensures
        reports(rejected(candidates, rejections, i), layer, reason),
    decreases rejections.len() - i,
{
    if i < rejections.len() {
        let k = choose|k: int|
            0 <= k < candidates.len() && (#[trigger] candidates[k]).candidate.layer == layer
                && candidates[k].rejection_reason == Some(reason)
                && !candidates[k].visible_after_window;
        lemma_struck_keeps(candidates, rejections[i].0, rejections[i].1, k);
        let next = struck(candidates, rejections[i].0, rejections[i].1);
        assert(next[k] == candidates[k]);
        lemma_rejected_reports(next, rejections, i + 1, layer, reason);
    }
}

proof fn lemma_last_rejection_reports(
    candidates: Seq<CandidateExplanation>,
    rejections: Seq<(LayerId, RejectionReason)>,
    i: int,
    at: int,
)
    requires
        0 <= i <= at < rejections.len(),
        forall|k: int|
            at < k < rejections.len() ==> (#[trigger] rejections[k]).0 != rejections[at].0,
    ensures
        reports(rejected(candidates, rejections, i), rejections[at].0, rejections[at].1),
    decreases at - i,
{
    let next = struck(candidates, rejections[i].0, rejections[i].1);
    if i == at {
        lemma_struck_reports(candidates, rejections[i].0, rejections[i].1);
        lemma_rejected_reports(next, rejections, i + 1, rejections[at].0, rejections[at].1);
    } else {
        lemma_last_rejection_reports(next, rejections, i + 1, at);
    }
}

/// Every rejection is reported: the last one of each layer appears in the finished
/// explanation as an invisible entry with its reason, whether or not the layer had a
/// candidate.
pub proof fn rejections_are_reported(record: PixelRecord, at: int)
    requires
        0 <= at < record.rejections.len(),
        forall|k: int|
            at < k < record.rejections.len() ==> (#[trigger] record.rejections[k]).0
                != record.rejections[at].0,
    ensures
        reports(
            rejected(record.candidates, record.rejections, 0),
            record.rejections[at].0,
            record.rejections[at].1,
        ),
{
    lemma_last_rejection_reports(record.candidates, record.rejections, 0, at);
}

impl SinkModel for PixelRecord {
    open spec fn wanted(self, x: u16) -> bool {
        x == self.target_x
    }

    open spec fn with_scanline(self, summary: ScanlineSummary) -> Self {
        PixelRecord { scanline: Some(summary), ..self }
    }

    open spec fn with_candidate(self, x: u16, candidate: CandidateExplanation) -> Self {
        if x == self.target_x {
            PixelRecord { candidates: self.candidates.push(candidate), ..self }
        } else {
            self
        }
    }

    open spec fn with_rejection(self, x: u16, layer: LayerId, reason: RejectionReason) -> Self {
        if x == self.target_x {
            PixelRecord { rejections: self.rejections.push((layer, reason)), ..self }
        } else {
            self
        }
    }

    open spec fn with_window(self, x: u16, window: WindowExplanation) -> Self {
        if x == self.target_x {
            PixelRecord { window: Some(window), ..self }
        } else {
            self
        }
    }

    open spec fn with_resolved(self, x: u16, resolved: ResolvedExplanation) -> Self {
        if x == self.target_x {
            PixelRecord { resolved: Some(resolved), ..self }
        } else {
            self
        }
    }

    open spec fn with_effect(self, x: u16, effect: EffectExplanation) -> Self {
        if x == self.target_x {
            PixelRecord { effect: Some(effect), ..self }
        } else {
            self
        }
    }
}

impl PixelRecorder {
    /// A recorder for column `x`.
    pub fn new(x: u16) -> (recorder: Self)
        ensures
            recorder.model() == PixelRecord::empty(x),
    {
        PixelRecorder {
            target_x: x,
            scanline: None,
            candidates: Vec::new(),
            rejections: Vec::new(),
            window: None,
            resolved: None,
            effect: None,
        }
    }

    /// Assemble the collected pieces into a [`PixelExplanation`].
    pub fn finish(self, frame: u64, y: u16) -> (explanation: PixelExplanation)
        ensures
            explanation.frame == frame,
            explanation.x == self.model().target_x,
            explanation.y == y,
            explanation.final_color == self.model().final_effect().result,
            explanation.scanline_state@ == self.model().final_scanline(y),
            explanation.video_mode == self.model().final_scanline(y).video_mode,
            explanation.window == self.model().final_window(),
            explanation.candidates@ == rejected(
                self.model().candidates,
                self.model().rejections,
                0,
            ),
            explanation.resolved == self.model().final_resolved(),
            explanation.effect == self.model().final_effect(),
            explanation.partial == (self.model().scanline is None || self.model().resolved is None
                || self.model().effect is None),
    {
        let ghost record = self.model();
        let PixelRecorder {
            target_x,
            scanline,
            candidates: recorded,
            rejections,
            window,
            resolved,
            effect,
        } = self;
        // Fold any recorded rejections onto their candidate, or synthesize a
        // rejected (invisible) candidate entry so the reason is still reported.
        let mut candidates = recorded;
        let mut i: usize = 0;
        while i < rejections.len()
            invariant
                i <= rejections@.len(),
                rejected(candidates@, rejections@, i as int) == rejected(
                    record.candidates,
                    record.rejections,
                    0,
                ),
            decreases rejections@.len() - i,
        {
            let (layer, reason) = rejections[i];
            match explain::position_of(&candidates, layer) {
                Some(k) => {
                    proof {
                        lemma_struck(candidates@, layer, reason, k as int);
                    }
                    let mut candidate = candidates[k];
                    candidate.rejection_reason = Some(reason);
                    candidate.visible_after_window = false;
                    candidates.set(k, candidate);
                },
                None => {
                    proof {
                        lemma_struck_nothing(candidates@, layer, reason);
                    }
                    candidates.push(rejected_entry(layer, reason));
                },
            }
            i = i + 1;
        }

        let partial = scanline.is_none() || resolved.is_none() || effect.is_none();
        let scanline_state = match scanline {
            Some(state) => state,
            None => ScanlineStateExplanation {
                y,
                video_mode: 0,
                forced_blank: false,
                active_backgrounds: Vec::new(),
            },
        };
        let video_mode: u8 = scanline_state.video_mode;
        let effect = match effect {
            Some(effect) => effect,
            None => EffectExplanation {
                mode: EffectMode::Unchanged,
                applied: AppliedEffect::Unchanged,
                result: Color15(0),
            },
        };
        let resolved = match resolved {
            Some(resolved) => resolved,
            None => {
                let backdrop = CandidatePixel::backdrop(effect.result);
                ResolvedExplanation {
                    top: backdrop,
                    second: backdrop,
                    tie_break: TieBreak {
                        winner: LayerId::Backdrop,
                        over: LayerId::Backdrop,
                        by_priority: true,
                    },
                }
            },
        };
        let window = match window {
            Some(window) => window,
            None => WindowExplanation {
                region: WindowRegion::Outside,
                layers_enabled: [true, true, true, true, true],
                effects_enabled: true,
            },
        };
        PixelExplanation {
            frame,
            x: target_x,
            y,
            final_color: effect.result,
            video_mode,
            scanline_state,
            window,
            candidates,
            resolved,
            effect,
            partial,
        }
    }
}

impl ProvenanceSink for PixelRecorder {
    type Model = PixelRecord;

    closed spec fn model(&self) -> PixelRecord {
        PixelRecord {
            target_x: self.target_x,
            scanline: match self.scanline {
                Some(state) => Some(state@),
                None => None,
            },
            candidates: self.candidates@,
            rejections: self.rejections@,
            window: self.window,
            resolved: self.resolved,
            effect: self.effect,
        }
    }

    fn wants(&self, x: u16) -> (wanted: bool) {
        x == self.target_x
    }

    fn record_scanline(&mut self, state: ScanlineStateExplanation) {
        self.scanline = Some(state);
    }

    fn record_candidate(&mut self, x: u16, candidate: CandidateExplanation) {
        if x == self.target_x {
            self.candidates.push(candidate);
        }
    }

    fn record_rejection(&mut self, x: u16, layer: LayerId, reason: RejectionReason) {
        if x == self.target_x {
            self.rejections.push((layer, reason));
        }
    }

    fn record_window(&mut self, x: u16, window: WindowExplanation) {
        if x == self.target_x {
            self.window = Some(window);
        }
    }

    fn record_resolved(&mut self, x: u16, resolved: ResolvedExplanation) {
        if x == self.target_x {
            self.resolved = Some(resolved);
        }
    }

    fn record_effect(&mut self, x: u16, effect: EffectExplanation) {
        if x == self.target_x {
            self.effect = Some(effect);
        }
    }
}

/// Collects a whole-scanline summary (the latched state). The final line of pixels
/// is copied from the framebuffer by the caller after rendering.
pub struct ScanlineRecorder {
    state: Option<ScanlineStateExplanation>,
}

/// A summary that was collected, if any.
#[verifier::ext_equal]
pub struct ScanlineRecord {
    pub state: Option<ScanlineSummary>,
}

impl SinkModel for ScanlineRecord {
    open spec fn wanted(self, x: u16) -> bool {
        false
    }

    open spec fn with_scanline(self, summary: ScanlineSummary) -> Self {
        ScanlineRecord { state: Some(summary) }
    }

    open spec fn with_candidate(self, x: u16, candidate: CandidateExplanation) -> Self {
        self
    }

    open spec fn with_rejection(self, x: u16, layer: LayerId, reason: RejectionReason) -> Self {
        self
    }

    open spec fn with_window(self, x: u16, window: WindowExplanation) -> Self {
        self
    }

    open spec fn with_resolved(self, x: u16, resolved: ResolvedExplanation) -> Self {
        self
    }

    open spec fn with_effect(self, x: u16, effect: EffectExplanation) -> Self {
        self
    }
}

impl ScanlineRecorder {
    /// A recorder that has seen no scanline.
    pub fn new() -> (recorder: Self)
        ensures
            recorder.model() == (ScanlineRecord { state: None }),
    {
        ScanlineRecorder { state: None }
    }

    /// The captured latched state, if the scanline was rendered.
    pub fn take_state(self) -> (state: Option<ScanlineStateExplanation>)
        ensures
            match state {
                Some(taken) => self.model().state == Some(taken@),
                None => self.model().state is None,
            },
    {
        self.state
    }
}

impl Default for ScanlineRecorder {
    fn default() -> (recorder: Self)
        ensures
            recorder.model() == (ScanlineRecord { state: None }),
    {
        Self::new()
    }
}

impl ProvenanceSink for ScanlineRecorder {
    type Model = ScanlineRecord;

    closed spec fn model(&self) -> ScanlineRecord {
        ScanlineRecord {
            state: match self.state {
                Some(state) => Some(state@),
                None => None,
            },
        }
    }

    fn wants(&self, _x: u16) -> (wanted: bool) {
        false
    }

    fn record_scanline(&mut self, state: ScanlineStateExplanation) {
        self.state = Some(state);
    }

    fn record_candidate(&mut self, _x: u16, _candidate: CandidateExplanation) {
    }

    fn record_rejection(&mut self, _x: u16, _layer: LayerId, _reason: RejectionReason) {
    }

    fn record_window(&mut self, _x: u16, _window: WindowExplanation) {
    }

    fn record_resolved(&mut self, _x: u16, _resolved: ResolvedExplanation) {
    }

    fn record_effect(&mut self, _x: u16, _effect: EffectExplanation) {
    }
}

} // verus!

//! The scanline renderer: background generation, window masking, candidate
//! gathering, priority resolution and color effects, column by column, plus the debug
//! entry points (`explain`, `inspect`) that re-run it with a recorder. Because there
//! is a single renderer, an explained pixel can never disagree with the drawn one.

use vstd::prelude::*;

use super::bg;
use super::bg::bitmap;
use super::compositor;
use super::debug::explain::{
    ExplainError, FrameId, PixelExplanation, ScanlineExplanation, ScanlineStateExplanation,
    ScanlineSummary,
};
use super::debug::provenance::BackgroundId;
use super::debug::sink::{
    NullSink, PixelRecord, PixelRecorder, ProvenanceSink, ScanlineRecorder, SinkModel,
};
use super::effects;
use super::latch;
use super::memory::{PpuMemoryView, VideoMemory};
use super::obj;
use super::obj::evaluate::SpriteInstance;
use super::priority;
use super::state::{
    AffineInternalState, CandidatePixel, Color15, LatchedState, Layers, ScanlineSegment, HEIGHT,
    WIDTH,
};
use super::window;
use super::{Ppu, PpuState};

verus! {

/// The color behind every layer: palette entry 0, or white while the display is
/// force-blanked.
pub open spec fn backdrop_color(state: LatchedState, mem: VideoMemory) -> Color15 {
    if state.forced_blank() {
        Color15(0x7FFF)
    } else {
        mem.palette15(0)
    }
}

/// The backdrop candidate.
pub open spec fn backdrop_of(state: LatchedState, mem: VideoMemory) -> CandidatePixel {
    CandidatePixel::backdrop(backdrop_color(state, mem))
}

/// The layers of scanline `y` under one register snapshot.
pub open spec fn line_layers(state: LatchedState, mem: VideoMemory, y: int) -> Layers {
    obj::generated(bg::generated(Layers::clear(), state, mem, y), state, mem, y)
}

/// The candidates competing for a pixel under one register snapshot.
pub open spec fn candidates_at(state: LatchedState, mem: VideoMemory, x: int, y: int) -> Seq<
    CandidatePixel,
> {
    compositor::gathered(
        line_layers(state, mem, y),
        window::mask_at(x as usize, &state),
        backdrop_of(state, mem),
        x,
    )
}

/// The two front-most candidates of a pixel.
pub open spec fn resolved_at(
    state: LatchedState,
    mem: VideoMemory,
    x: int,
    y: int,
) -> priority::ResolvedPixel {
    priority::resolved(candidates_at(state, mem, x, y))
}

/// The color of a pixel under one register snapshot.
pub open spec fn color_at(state: LatchedState, mem: VideoMemory, x: int, y: int) -> Color15 {
    effects::unchanged(resolved_at(state, mem, x, y).top).color
}

/// The segment that governs column `x`: the last that starts at or before it.
pub open spec fn governing(segments: Seq<ScanlineSegment>, x: int) -> ScanlineSegment
    decreases segments.len(),
{
    if segments.len() <= 1 || segments.last().x_start <= x {
        segments.last()
    } else {
        governing(segments.drop_last(), x)
    }
}

/// An image with scanline `y` redrawn up to column `end`, each column under the
/// snapshot that governs it.
pub open spec fn redrawn(
    pixels: Seq<Color15>,
    segments: Seq<ScanlineSegment>,
    mem: VideoMemory,
    y: int,
    end: int,
) -> Seq<Color15> {
    Seq::new(
        pixels.len(),
        |i: int|
            if y * 240 <= i < y * 240 + end {
                color_at(governing(segments, i - y * 240).state, mem, i - y * 240, y)
            } else {
                pixels[i]
            },
    )
}

proof fn lemma_redrawn_next(
    pixels: Seq<Color15>,
    segments: Seq<ScanlineSegment>,
    mem: VideoMemory,
    y: int,
    x: int,
)
    requires
        0 <= x < 240,
        0 <= y < 160,
        pixels.len() == 38400,
    ensures
        redrawn(pixels, segments, mem, y, x).update(
            y * 240 + x,
            color_at(governing(segments, x).state, mem, x, y),
        ) == redrawn(pixels, segments, mem, y, x + 1),
{
    assert(redrawn(pixels, segments, mem, y, x).update(
        y * 240 + x,
        color_at(governing(segments, x).state, mem, x, y),
    ) =~= redrawn(pixels, segments, mem, y, x + 1));
}

/// A sink after column `x` was drawn: a wanted column reports its candidates, the
/// window decision, the resolution and the effect.
pub open spec fn column_reported<M: SinkModel>(
    sink: M,
    state: LatchedState,
    mem: VideoMemory,
    x: int,
    y: int,
) -> M {
    let column = x as u16;
    if !sink.wanted(column) {
        sink
    } else {
        let sink = match bitmap::explanation_at(state, mem, x, y) {
            Some(explanation) => sink.with_candidate(column, explanation),
            None => sink,
        };
        let sink = match obj::explanation_at(state, mem, x, y) {
            Some(explanation) => sink.with_candidate(column, explanation),
            None => sink,
        };
        let sink = compositor::gathering_reported(
            sink,
            line_layers(state, mem, y),
            window::mask_at(x as usize, &state),
            window::region_at(x as usize, &state),
            backdrop_of(state, mem),
            column,
        );
        sink.with_resolved(column, resolved_at(state, mem, x, y).explain()).with_effect(
            column,
            effects::unchanged(resolved_at(state, mem, x, y).top).explain(),
        )
    }
}

/// A sink after the columns from `x` on were drawn, each under the snapshot that
/// governs it.
pub open spec fn columns_reported<M: SinkModel>(
    sink: M,
    segments: Seq<ScanlineSegment>,
    mem: VideoMemory,
    x: int,
    y: int,
) -> M
    decreases 240 - x,
{
    if x >= 240 {
        sink
    } else {
        columns_reported(
            column_reported(sink, governing(segments, x).state, mem, x, y),
            segments,
            mem,
            x + 1,
            y,
        )
    }
}

/// The backgrounds that `DISPCNT` turns on, from the `i`th on.
pub open spec fn enabled_backgrounds(state: LatchedState, i: int) -> Seq<BackgroundId>
    decreases 4 - i,
{
    if i >= 4 {
        Seq::empty()
    } else if state.bg_enabled(i as usize) {
        seq![background_id(i as usize)] + enabled_backgrounds(state, i + 1)
    } else {
        enabled_backgrounds(state, i + 1)
    }
}

/// The background with index `0..=3`.
#[verifier::allow_in_spec]
pub fn background_id(index: usize) -> BackgroundId
    returns
        (if index == 0 {
            BackgroundId::Bg0
        } else if index == 1 {
            BackgroundId::Bg1
        } else if index == 2 {
            BackgroundId::Bg2
        } else {
            BackgroundId::Bg3
        }),
{
    match index {
        0 => BackgroundId::Bg0,
        1 => BackgroundId::Bg1,
        2 => BackgroundId::Bg2,
        _ => BackgroundId::Bg3,
    }
}

/// The register context of a scanline.
pub open spec fn scanline_summary(state: LatchedState, y: u16) -> ScanlineSummary {
    ScanlineSummary {
        y,
        video_mode: state.mode,
        forced_blank: state.forced_blank(),
        active_backgrounds: enabled_backgrounds(state, 0),
    }
}

/// The register context of a scanline.
pub fn scanline_state_explanation(state: &LatchedState, y: u16) -> (explanation:
    ScanlineStateExplanation)
    ensures
        explanation@ == scanline_summary(*state, y),
{
    let mut active_backgrounds: Vec<BackgroundId> = Vec::new();
    let mut i: usize = 0;
    while i < 4
        invariant
            i <= 4,
            enabled_backgrounds(*state, 0) == active_backgrounds@ + enabled_backgrounds(
                *state,
                i as int,
            ),
        decreases 4 - i,
    {
        let ghost before = active_backgrounds@;
        let ghost rest = enabled_backgrounds(*state, i + 1);
        if state.bg_enabled(i) {
            active_backgrounds.push(background_id(i));
            assert(before + (seq![background_id(i)] + rest) =~= before.push(background_id(i))
                + rest);
        }
        i = i + 1;
    }
    assert(active_backgrounds@ =~= enabled_backgrounds(*state, 0));
    ScanlineStateExplanation {
        y,
        video_mode: state.mode,
        forced_blank: state.forced_blank(),
        active_backgrounds,
    }
}

impl PpuState {
    /// The segments that a line is drawn with: a fresh latch where there are none.
    pub open spec fn ready(self) -> PpuState {
        if self.segments.len() == 0 {
            self.line_latched()
        } else {
            self
        }
    }

    /// The unit with scanline `y` drawn.
    pub open spec fn drawn(self, y: u16, mem: VideoMemory) -> PpuState {
        let ready = self.ready();
        PpuState {
            framebuffer: redrawn(ready.framebuffer, ready.segments, mem, y as int, 240),
            ..ready
        }
    }

    /// A sink after scanline `y` was drawn.
    pub open spec fn line_reported<M: SinkModel>(self, sink: M, y: u16, mem: VideoMemory) -> M {
        let ready = self.ready();
        columns_reported(
            sink.with_scanline(scanline_summary(ready.latched, y)),
            ready.segments,
            mem,
            0,
            y as int,
        )
    }

    /// The unit latched afresh for scanline `y`, with the affine references it would
    /// have there.
    pub open spec fn poised(self, y: u16) -> PpuState {
        PpuState {
            affine: AffineInternalState {
                bg2: latch::line_reference(self.registers, 0, y as nat),
                bg3: latch::line_reference(self.registers, 1, y as nat),
            },
            ..self
        }.line_latched()
    }

    /// The unit after the current visible scanline was drawn.
    pub open spec fn current_drawn(self, mem: VideoMemory) -> PpuState {
        if self.timing.vcount < HEIGHT {
            self.drawn(self.timing.vcount, mem)
        } else {
            self
        }
    }
}

impl Ppu {
    /// The renderer: latch if needed, then fill scanline `y`.
    pub fn render_scanline<S: ProvenanceSink>(
        &mut self,
        y: u16,
        mem: &PpuMemoryView<'_>,
        sink: &mut S,
    )
        requires
            old(self)@.valid(),
            mem@.valid(),
            y < 160,
        ensures
            final(self)@ == old(self)@.drawn(y, mem@),
            final(self)@.valid(),
            final(sink).model() == old(self)@.line_reported(old(sink).model(), y, mem@),
            old(self)@.ready().segments.len() == 1 ==> final(self).scratch@ == line_layers(
                old(self)@.ready().segments[0].state,
                mem@,
                y as int,
            ),
    {
        if self.segments.len() == 0 {
            self.latch_for_scanline();
        }
        let ghost ready = self@;
        sink.record_scanline(scanline_state_explanation(&self.latched, y));
        let ghost report = columns_reported(sink.model(), ready.segments, mem@, 0, y as int);
        let mut x: usize = 0;
        // The layers in the scratch are those of the segment they were last generated
        // for.
        let mut generated: Option<usize> = None;
        assert(self@.framebuffer =~= redrawn(
            ready.framebuffer,
            ready.segments,
            mem@,
            y as int,
            0,
        ));
        while x < WIDTH
            invariant
                x <= 240,
                y < 160,
                mem@.valid(),
                ready.valid(),
                ready.segments.len() > 0,
                self@ == (PpuState {
                    framebuffer: redrawn(
                        ready.framebuffer,
                        ready.segments,
                        mem@,
                        y as int,
                        x as int,
                    ),
                    ..ready
                }),
                x > 0 ==> generated is Some,
                generated matches Some(k) ==> k < ready.segments.len() && self.scratch@
                    == line_layers(ready.segments[k as int].state, mem@, y as int),
                report == columns_reported(
                    sink.model(),
                    ready.segments,
                    mem@,
                    x as int,
                    y as int,
                ),
            decreases 240 - x,
        {
            let k: usize = self.governing_segment(x);
            let state = self.segments[k].state;
            let affine = self.segments[k].affine;
            let fresh = match generated {
                Some(previous) => previous == k,
                None => false,
            };
            if !fresh {
                self.generate_layers(y, &state, &affine, mem);
                generated = Some(k);
            }
            self.draw_column(x, y, &state, mem, sink);
            proof {
                lemma_redrawn_next(
                    ready.framebuffer,
                    ready.segments,
                    mem@,
                    y as int,
                    x as int,
                );
            }
            x = x + 1;
        }
    }

    /// Fill the scratch with the layers of scanline `y` under one register snapshot.
    fn generate_layers(
        &mut self,
        y: u16,
        state: &LatchedState,
        affine: &AffineInternalState,
        mem: &PpuMemoryView<'_>,
    )
        requires
            mem@.valid(),
            y < 160,
        ensures
            final(self)@ == old(self)@,
            final(self).scratch@ == line_layers(*state, mem@, y as int),
    {
        self.scratch.clear();
        bg::generate(y, state, affine, mem, &mut self.scratch);
        obj::generate(y, state, mem, &mut self.scratch);
    }

    /// The index of the segment that governs column `x`.
    fn governing_segment(&self, x: usize) -> (index: usize)
        requires
            self@.segments.len() > 0,
            x < 240,
        ensures
            index < self@.segments.len(),
            self@.segments[index as int] == governing(self@.segments, x as int),
    {
        let mut count: usize = self.segments.len();
        assert(self@.segments.take(count as int) =~= self@.segments);
        while count > 1 && self.segments[count - 1].x_start as usize > x
            invariant
                1 <= count <= self@.segments.len(),
                governing(self@.segments, x as int) == governing(
                    self@.segments.take(count as int),
                    x as int,
                ),
            decreases count,
        {
            assert(self@.segments.take(count as int).drop_last() =~= self@.segments.take(
                count - 1,
            ));
            count = count - 1;
        }
        assert(self@.segments.take(count as int).last() == self@.segments[count - 1]);
        count - 1
    }

    /// Draw column `x` from the layers in the scratch.
    fn draw_column<S: ProvenanceSink>(
        &mut self,
        x: usize,
        y: u16,
        state: &LatchedState,
        mem: &PpuMemoryView<'_>,
        sink: &mut S,
    )
        requires
            x < 240,
            y < 160,
            mem@.valid(),
            old(self)@.framebuffer.len() == 38400,
            old(self).scratch@ == line_layers(*state, mem@, y as int),
        ensures
            final(self)@ == (PpuState {
                framebuffer: old(self)@.framebuffer.update(
                    y * 240 + x,
                    color_at(*state, mem@, x as int, y as int),
                ),
                ..old(self)@
            }),
            final(self).scratch == old(self).scratch,
            final(sink).model() == column_reported(
                old(sink).model(),
                *state,
                mem@,
                x as int,
                y as int,
            ),
    {
        let column: u16 = x as u16;
        let wanted = sink.wants(column);
        if wanted {
            if let Some(explanation) = bitmap::explain_at(x, y, state, mem) {
                sink.record_candidate(column, explanation);
            }
            proof {
                obj::evaluate::line_sprites_are_valid(*state, mem@, y);
            }
            if let Some(explanation) = obj::rasterize::explain_at(
                x,
                y,
                state,
                mem,
                &self.scratch.sprites,
            ) {
                sink.record_candidate(column, explanation);
            }
        }
        let color = if state.forced_blank() {
            Color15(0x7FFF)
        } else {
            mem.palette15(0)
        };
        let backdrop = CandidatePixel::backdrop(color);
        let mask = window::mask_at(x, state);
        let region = window::region_at(x, state);
        let set = compositor::gather(x, &self.scratch, &mask, region, backdrop, sink);
        let resolved = priority::resolve(&set);
        let effect = effects::apply(resolved.top, resolved.second, &state.regs);
        if wanted {
            sink.record_resolved(column, resolved.explain());
            sink.record_effect(column, effect.explain());
        }
        self.framebuffer.pixels.set(y as usize * WIDTH + x, effect.color);
    }
}

/// A sequence of at most one element.
pub open spec fn few<T>(element: Option<T>) -> Seq<T> {
    match element {
        Some(element) => seq![element],
        None => Seq::empty(),
    }
}

/// What is recorded for pixel `(x, y)` when its scanline is drawn under one
/// snapshot.
pub open spec fn pixel_record(state: LatchedState, mem: VideoMemory, x: u16, y: u16) -> PixelRecord {
    column_reported(
        PixelRecord::empty(x).with_scanline(scanline_summary(state, y)),
        state,
        mem,
        x as int,
        y as int,
    )
}

proof fn lemma_other_columns_report_nothing(
    sink: PixelRecord,
    segments: Seq<ScanlineSegment>,
    mem: VideoMemory,
    x: int,
    y: int,
)
    requires
        0 <= x <= 240,
        sink.target_x < x,
    ensures
        columns_reported(sink, segments, mem, x, y) == sink,
    decreases 240 - x,
{
    if x < 240 {
        lemma_other_columns_report_nothing(sink, segments, mem, x + 1, y);
    }
}

proof fn lemma_target_column_reports(
    sink: PixelRecord,
    segments: Seq<ScanlineSegment>,
    mem: VideoMemory,
    x: int,
    y: int,
)
    requires
        0 <= x <= sink.target_x < 240,
    ensures
        columns_reported(sink, segments, mem, x, y) == column_reported(
            sink,
            governing(segments, sink.target_x as int).state,
            mem,
            sink.target_x as int,
            y,
        ),
    decreases 240 - x,
{
    if x < sink.target_x {
        lemma_target_column_reports(sink, segments, mem, x + 1, y);
    } else {
        let after = column_reported(sink, governing(segments, x).state, mem, x, y);
        assert(after.target_x == sink.target_x);
        lemma_other_columns_report_nothing(after, segments, mem, x + 1, y);
    }
}

/// A record of a pixel says what the renderer drew there: the explained color is the
/// drawn one, and the explained winner the resolved one. Nothing is left out.
pub proof fn record_matches_drawing(state: LatchedState, mem: VideoMemory, x: u16, y: u16)
    requires
        x < 240,
    ensures
        ({
            let record = pixel_record(state, mem, x, y);
            &&& record.final_effect().result == color_at(state, mem, x as int, y as int)
            &&& record.final_resolved() == resolved_at(state, mem, x as int, y as int).explain()
            &&& record.final_scanline(y) == scanline_summary(state, y)
            &&& record.rejections == Seq::<
                (super::LayerId, super::debug::provenance::RejectionReason),
            >::empty()
            &&& record.candidates == few(bitmap::explanation_at(state, mem, x as int, y as int))
                + few(obj::explanation_at(state, mem, x as int, y as int))
                + seq![compositor::backdrop_explanation(backdrop_of(state, mem))]
            &&& record.resolved is Some && record.effect is Some && record.scanline is Some
        }),
{
    let record = pixel_record(state, mem, x, y);
    assert(record.candidates =~= few(bitmap::explanation_at(state, mem, x as int, y as int)) + few(
        obj::explanation_at(state, mem, x as int, y as int),
    ) + seq![compositor::backdrop_explanation(backdrop_of(state, mem))]);
}

impl Ppu {
    /// The normal frame-loop entry: draw the current visible scanline with no
    /// instrumentation.
    pub fn render_current_scanline(&mut self, mem: &PpuMemoryView<'_>)
        requires
            old(self)@.valid(),
            mem@.valid(),
        ensures
            final(self)@ == old(self)@.current_drawn(mem@),
            final(self)@.valid(),
    {
        let y: u16 = self.timing.vcount();
        if (y as usize) < HEIGHT {
            self.render_scanline(y, mem, &mut NullSink);
        }
    }

    /// Set the affine references for line `y`, then latch, so that the single segment
    /// captures them.
    fn poise(&mut self, y: u16)
        ensures
            final(self)@ == old(self)@.poised(y),
    {
        self.affine.bg2 = self.affine_reference_for_line(0, y);
        self.affine.bg3 = self.affine_reference_for_line(1, y);
        self.latch_for_scanline();
    }

    /// Explain how the pixel at `(x, y)` in the current state came to be its color,
    /// by re-running the renderer for scanline `y` with a per-pixel recorder.
    pub fn explain_current_pixel(&mut self, x: u16, y: u16, mem: &PpuMemoryView<'_>) -> (result:
        Result<PixelExplanation, ExplainError>)
        requires
            old(self)@.valid(),
            mem@.valid(),
        ensures
            final(self)@.valid(),
            match result {
                Ok(explanation) => {
                    let state = LatchedState::from_registers(&old(self)@.registers);
                    let record = pixel_record(state, mem@, x, y);
                    &&& x < 240 && y < 160
                    &&& final(self)@ == old(self)@.poised(y).drawn(y, mem@)
                    &&& explanation.frame == old(self)@.frame_counter
                    &&& explanation.x == x && explanation.y == y
                    &&& explanation.final_color == color_at(state, mem@, x as int, y as int)
                    &&& explanation.scanline_state@ == scanline_summary(state, y)
                    &&& explanation.video_mode == state.mode
                    &&& explanation.window == record.final_window()
                    &&& explanation.candidates@ == record.candidates
                    &&& explanation.resolved == resolved_at(
                        state,
                        mem@,
                        x as int,
                        y as int,
                    ).explain()
                    &&& explanation.effect == record.final_effect()
                    &&& !explanation.partial
                },
                Err(error) => {
                    &&& x >= 240 || y >= 160
                    &&& error == (ExplainError::PixelOutsideFramebuffer { x, y })
                    &&& final(self)@ == old(self)@
                },
            },
    {
        if x as usize >= WIDTH || y as usize >= HEIGHT {
            return Err(ExplainError::PixelOutsideFramebuffer { x, y });
        }
        self.poise(y);
        let mut recorder = PixelRecorder::new(x);
        proof {
            let latched = self@;
            lemma_target_column_reports(
                PixelRecord::empty(x).with_scanline(scanline_summary(latched.latched, y)),
                latched.segments,
                mem@,
                0,
                y as int,
            );
            record_matches_drawing(latched.latched, mem@, x, y);
        }
        self.render_scanline(y, mem, &mut recorder);
        let explanation = recorder.finish(self.frame_counter, y);
        Ok(explanation)
    }

    /// Frame-indexed explanation. Only the current frame is available until rewind
    /// exists; any other frame returns [`ExplainError::FrameUnavailable`].
    pub fn explain_pixel(
        &mut self,
        frame: FrameId,
        x: u16,
        y: u16,
        mem: &PpuMemoryView<'_>,
    ) -> (result: Result<PixelExplanation, ExplainError>)
        requires
            old(self)@.valid(),
            mem@.valid(),
        ensures
            final(self)@.valid(),
            match result {
                Ok(explanation) => {
                    let state = LatchedState::from_registers(&old(self)@.registers);
                    &&& frame.0 == old(self)@.frame_counter && x < 240 && y < 160
                    &&& final(self)@ == old(self)@.poised(y).drawn(y, mem@)
                    &&& explanation.frame == frame.0
                    &&& explanation.x == x && explanation.y == y
                    &&& explanation.final_color == color_at(state, mem@, x as int, y as int)
                    &&& explanation.scanline_state@ == scanline_summary(state, y)
                    &&& explanation.video_mode == state.mode
                    &&& explanation.window == pixel_record(state, mem@, x, y).final_window()
                    &&& explanation.candidates@ == pixel_record(state, mem@, x, y).candidates
                    &&& explanation.resolved == resolved_at(
                        state,
                        mem@,
                        x as int,
                        y as int,
                    ).explain()
                    &&& explanation.effect == pixel_record(state, mem@, x, y).final_effect()
                    &&& !explanation.partial
                },
                Err(error) => {
                    &&& final(self)@ == old(self)@
                    &&& error == (if frame.0 != old(self)@.frame_counter {
                        ExplainError::FrameUnavailable {
                            requested: frame.0,
                            oldest: old(self)@.frame_counter,
                        }
                    } else {
                        ExplainError::PixelOutsideFramebuffer { x, y }
                    })
                    &&& frame.0 != old(self)@.frame_counter || x >= 240 || y >= 160
                },
            },
    {
        if frame.0 != self.frame_counter {
            return Err(
                ExplainError::FrameUnavailable { requested: frame.0, oldest: self.frame_counter },
            );
        }
        self.explain_current_pixel(x, y, mem)
    }

    /// A whole-scanline summary - the latched state, the sprites and the final line of
    /// pixels. Lines past the visible ones are clamped to the last.
    pub fn inspect_scanline(&mut self, y: u16, mem: &PpuMemoryView<'_>) -> (explanation:
        ScanlineExplanation)
        requires
            old(self)@.valid(),
            mem@.valid(),
        ensures
            final(self)@.valid(),
            ({
                let line = if y < 160 {
                    y
                } else {
                    159u16
                };
                let state = LatchedState::from_registers(&old(self)@.registers);
                &&& final(self)@ == old(self)@.poised(line).drawn(line, mem@)
                &&& explanation.state@ == scanline_summary(state, line)
                &&& explanation.sprites@ == obj::sprites_on(state, mem@, line as int)
                &&& explanation.final_line@ == Seq::new(
                    240,
                    |x: int| color_at(state, mem@, x, line as int),
                )
            }),
    {
        let y: u16 = if (y as usize) < HEIGHT {
            y
        } else {
            HEIGHT as u16 - 1
        };
        self.poise(y);
        let ghost latched = self@;
        let mut recorder = ScanlineRecorder::new();
        proof {
            lemma_unwanted_columns(
                recorder.model().with_scanline(scanline_summary(latched.latched, y)),
                latched.segments,
                mem@,
                0,
                y as int,
            );
        }
        self.render_scanline(y, mem, &mut recorder);
        let state = match recorder.take_state() {
            Some(state) => state,
            None => scanline_state_explanation(&self.latched, y),
        };
        let row: usize = y as usize * WIDTH;
        let mut final_line: Vec<Color15> = Vec::new();
        let mut x: usize = 0;
        while x < WIDTH
            invariant
                x <= 240,
                y < 160,
                row == y * 240,
                latched.segments.len() == 1,
                self@.framebuffer == redrawn(
                    latched.framebuffer,
                    latched.segments,
                    mem@,
                    y as int,
                    240,
                ),
                self@.framebuffer.len() == 38400,
                final_line@ == Seq::new(
                    x as nat,
                    |x: int| color_at(latched.segments[0].state, mem@, x, y as int),
                ),
            decreases 240 - x,
        {
            final_line.push(self.framebuffer.pixels[row + x]);
            assert(final_line@ =~= Seq::new(
                (x + 1) as nat,
                |x: int| color_at(latched.segments[0].state, mem@, x, y as int),
            ));
            x = x + 1;
        }
        let sprites = copied_sprites(&self.scratch.sprites);
        ScanlineExplanation { state, sprites, final_line }
    }
}

/// A copy of some sprites.
pub fn copied_sprites(sprites: &Vec<SpriteInstance>) -> (copy: Vec<SpriteInstance>)
    ensures
        copy@ == sprites@,
{
    let mut copy: Vec<SpriteInstance> = Vec::new();
    let mut i: usize = 0;
    while i < sprites.len()
        invariant
            i <= sprites@.len(),
            copy@ == sprites@.take(i as int),
        decreases sprites@.len() - i,
    {
        copy.push(sprites[i]);
        assert(sprites@.take(i + 1) =~= sprites@.take(i as int).push(sprites@[i as int]));
        i = i + 1;
    }
    assert(sprites@.take(sprites@.len() as int) =~= sprites@);
    copy
}

proof fn lemma_unwanted_columns<M: SinkModel>(
    sink: M,
    segments: Seq<ScanlineSegment>,
    mem: VideoMemory,
    x: int,
    y: int,
)
    requires
        0 <= x <= 240,
        forall|column: u16| !sink.wanted(column),
    ensures
        columns_reported(sink, segments, mem, x, y) == sink,
    decreases 240 - x,
{
    if x < 240 {
        lemma_unwanted_columns(sink, segments, mem, x + 1, y);
    }
}

/// Under one snapshot, the line drawn depends on that snapshot and on video memory
/// alone: a mid-frame register write cannot retroactively change a latched line.
pub proof fn latched_line_is_fixed(ppu: PpuState, mem: VideoMemory, y: u16, x: int)
    requires
        ppu.valid(),
        ppu.segments.len() == 1,
        y < 160,
        0 <= x < 240,
    ensures
        ppu.drawn(y, mem).framebuffer[y * 240 + x] == color_at(
            ppu.segments[0].state,
            mem,
            x,
            y as int,
        ),
{
}

/// Drawing a scanline touches no other.
pub proof fn drawing_keeps_other_lines(ppu: PpuState, mem: VideoMemory, y: u16, i: int)
    requires
        ppu.valid(),
        y < 160,
        0 <= i < 38400,
        i < y * 240 || i >= y * 240 + 240,
    ensures
        ppu.drawn(y, mem).framebuffer[i] == ppu.framebuffer[i],
{
}

/// With neither the background nor the sprites enabled, the line is the backdrop.
pub proof fn backdrop_fills_an_empty_line(state: LatchedState, mem: VideoMemory, x: int, y: int)
    requires
        !(state.bg_enabled(2) || state.obj_enabled()) || state.forced_blank(),
        0 <= x < 240,
    ensures
        color_at(state, mem, x, y) == backdrop_color(state, mem),
{
    let candidates = candidates_at(state, mem, x, y);
    assert(candidates =~= seq![backdrop_of(state, mem)]);
}

} // verus!

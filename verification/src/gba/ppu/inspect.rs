//! Semantic inspection accessors - the queryable surface a debugger or agent uses
//! to ask about video state without a screenshot.
//!
//! The rendering-based accessors re-run the target scanline (single-segment, from
//! the current registers) with no instrumentation, leaving the per-layer scratch
//! populated for readout. They are deterministic: the same state yields the same
//! answer, and the same pixels the framebuffer shows.

use vstd::prelude::*;

use super::bg;
use super::debug::explain;
use super::debug::explain::WindowExplanation;
use super::debug::provenance::{BackgroundId, ObjProvenance, SourceProvenance};
use super::debug::sink::NullSink;
use super::memory::{PpuMemoryView, VideoMemory};
use super::obj;
use super::obj::evaluate::SpriteInstance;
use super::scanline;
use super::scanline::background_id;
use super::state::{CandidatePixel, LatchedState, HEIGHT, WIDTH};
use super::window;
use super::{Ppu, PpuState};

verus! {

/// A background's live configuration, for `backgrounds()`.
#[derive(Clone, Copy, Debug, PartialEq, Eq, Structural)]
pub struct BackgroundSummary {
    pub id: BackgroundId,
    pub enabled: bool,
    pub priority: u8,
    /// The kind of background this is in the current video mode.
    pub kind: BackgroundKind,
}

/// How a background is being generated in the current mode.
#[derive(Clone, Copy, Debug, PartialEq, Eq, Structural)]
pub enum BackgroundKind {
    Disabled,
    Text,
    Affine,
    Bitmap,
}

/// The kind of background `index` is in a video mode.
pub open spec fn kind_in_mode(mode: int, index: int) -> BackgroundKind {
    if mode == 0 || (mode == 1 && index <= 1) {
        BackgroundKind::Text
    } else if (mode == 1 && index == 2) || (mode == 2 && index >= 2) {
        BackgroundKind::Affine
    } else if 3 <= mode <= 5 && index == 2 {
        BackgroundKind::Bitmap
    } else {
        BackgroundKind::Disabled
    }
}

impl PpuState {
    /// The kind of background `index` is in the current mode.
    pub open spec fn background_kind(self, index: int) -> BackgroundKind {
        if !LatchedState::from_registers(&self.registers).bg_enabled(index as usize) {
            BackgroundKind::Disabled
        } else {
            kind_in_mode(self.registers.dispcnt as int % 8, index)
        }
    }

    /// The configuration of background `index`.
    pub open spec fn background(self, index: int) -> BackgroundSummary {
        BackgroundSummary {
            id: background_id(index as usize),
            enabled: self.background_kind(index) != BackgroundKind::Disabled,
            priority: (self.registers.bgcnt[index] % 4) as u8,
            kind: self.background_kind(index),
        }
    }

    /// The backgrounds from the `i`th on that produce pixels in the current mode.
    pub open spec fn producing(self, i: int) -> Seq<BackgroundId>
        decreases 4 - i,
    {
        if i >= 4 {
            Seq::empty()
        } else if self.background(i).enabled {
            seq![background_id(i as usize)] + self.producing(i + 1)
        } else {
            self.producing(i + 1)
        }
    }
}

impl Ppu {
    /// The current video mode (`DISPCNT` bits 0-2).
    pub fn current_mode(&self) -> (mode: u8)
        ensures
            mode == self@.registers.dispcnt % 8,
    {
        (self.registers.dispcnt % 8) as u8
    }

    /// The kind of background `index` is in the current mode.
    fn background_kind(&self, index: usize) -> (kind: BackgroundKind)
        requires
            index < 4,
        ensures
            kind == self@.background_kind(index as int),
    {
        if !LatchedState::from_registers(&self.registers).bg_enabled(index) {
            return BackgroundKind::Disabled;
        }
        match (self.current_mode(), index) {
            (0, _) => BackgroundKind::Text,
            (1, 0) | (1, 1) => BackgroundKind::Text,
            (1, 2) => BackgroundKind::Affine,
            (2, 2) | (2, 3) => BackgroundKind::Affine,
            (3, 2) | (4, 2) | (5, 2) => BackgroundKind::Bitmap,
            _ => BackgroundKind::Disabled,
        }
    }

    fn background(&self, index: usize) -> (summary: BackgroundSummary)
        requires
            index < 4,
        ensures
            summary == self@.background(index as int),
    {
        let kind = self.background_kind(index);
        BackgroundSummary {
            id: background_id(index),
            enabled: kind != BackgroundKind::Disabled,
            priority: (self.registers.bgcnt[index] % 4) as u8,
            kind,
        }
    }

    /// A summary of all four backgrounds' current configuration.
    pub fn backgrounds(&self) -> (summaries: [BackgroundSummary; 4])
        ensures
            summaries@ == seq![
                self@.background(0),
                self@.background(1),
                self@.background(2),
                self@.background(3),
            ],
    {
        let summaries = [
            self.background(0),
            self.background(1),
            self.background(2),
            self.background(3),
        ];
        assert(summaries@ =~= seq![
            self@.background(0),
            self@.background(1),
            self@.background(2),
            self@.background(3),
        ]);
        summaries
    }

    /// The backgrounds actively producing pixels in the current mode.
    pub fn active_backgrounds(&self) -> (active: Vec<BackgroundId>)
        ensures
            active@ == self@.producing(0),
    {
        let mut active: Vec<BackgroundId> = Vec::new();
        let mut i: usize = 0;
        while i < 4
            invariant
                i <= 4,
                self@.producing(0) == active@ + self@.producing(i as int),
            decreases 4 - i,
        {
            let ghost before = active@;
            let ghost rest = self@.producing(i + 1);
            if self.background(i).enabled {
                active.push(background_id(i));
                assert(before + (seq![background_id(i)] + rest) =~= before.push(background_id(i))
                    + rest);
            }
            i = i + 1;
        }
        assert(active@ =~= self@.producing(0));
        active
    }

    /// Re-render scanline `y` (single segment, current registers) into the scratch
    /// buffers for readout.
    fn populate_scratch(&mut self, y: u16, mem: &PpuMemoryView<'_>)
        requires
            old(self)@.valid(),
            mem@.valid(),
            y < 160,
        ensures
            final(self)@ == old(self)@.poised(y).drawn(y, mem@),
            final(self)@.valid(),
            final(self).scratch@ == scanline::line_layers(
                LatchedState::from_registers(&old(self)@.registers),
                mem@,
                y as int,
            ),
    {
        self.affine.bg2 = self.affine_reference_for_line(0, y);
        self.affine.bg3 = self.affine_reference_for_line(1, y);
        self.latch_for_scanline();
        self.render_scanline(y, mem, &mut NullSink);
    }

    /// The candidate a background layer contributes at `(x, y)`, or `None` if it is
    /// transparent, disabled, or out of range.
    pub fn layer_pixel(&mut self, bg_index: usize, x: u16, y: u16, mem: &PpuMemoryView<'_>) -> (
    pixel: Option<CandidatePixel>)
        requires
            old(self)@.valid(),
            mem@.valid(),
        ensures
            final(self)@.valid(),
            ({
                let in_range = bg_index < 4 && x < 240 && y < 160;
                let state = LatchedState::from_registers(&old(self)@.registers);
                &&& final(self)@ == (if in_range {
                    old(self)@.poised(y).drawn(y, mem@)
                } else {
                    old(self)@
                })
                &&& pixel == (if in_range && bg_index == 2 {
                    bg::bitmap::opaque_at(state, mem@, x as int, y as int)
                } else {
                    None
                })
            }),
    {
        if bg_index >= 4 || x as usize >= WIDTH || y as usize >= HEIGHT {
            return None;
        }
        self.populate_scratch(y, mem);
        self.scratch.bg[bg_index].pixels[x as usize]
    }

    /// The OBJ candidate at `(x, y)`, or `None` if no sprite covers it.
    pub fn obj_pixel(&mut self, x: u16, y: u16, mem: &PpuMemoryView<'_>) -> (pixel: Option<
        CandidatePixel,
    >)
        requires
            old(self)@.valid(),
            mem@.valid(),
        ensures
            final(self)@.valid(),
            ({
                let in_range = x < 240 && y < 160;
                let state = LatchedState::from_registers(&old(self)@.registers);
                &&& final(self)@ == (if in_range {
                    old(self)@.poised(y).drawn(y, mem@)
                } else {
                    old(self)@
                })
                &&& pixel == (if in_range {
                    obj::pixel_at(state, mem@, x as int, y as int)
                } else {
                    None
                })
            }),
    {
        if x as usize >= WIDTH || y as usize >= HEIGHT {
            return None;
        }
        self.populate_scratch(y, mem);
        self.scratch.obj.pixels[x as usize]
    }

    /// The sprites evaluated as visible on scanline `y`, in OAM order (subject to the
    /// per-scanline budget).
    pub fn sprites_on_scanline(&mut self, y: u16, mem: &PpuMemoryView<'_>) -> (sprites: Vec<
        SpriteInstance,
    >)
        requires
            old(self)@.valid(),
            mem@.valid(),
        ensures
            final(self)@.valid(),
            ({
                let state = LatchedState::from_registers(&old(self)@.registers);
                if y < 160 {
                    &&& final(self)@ == old(self)@.poised(y).drawn(y, mem@)
                    &&& sprites@ == obj::sprites_on(state, mem@, y as int)
                } else {
                    &&& final(self)@ == old(self)@
                    &&& sprites@ == Seq::<SpriteInstance>::empty()
                }
            }),
    {
        if y as usize >= HEIGHT {
            return Vec::new();
        }
        self.populate_scratch(y, mem);
        scanline::copied_sprites(&self.scratch.sprites)
    }

    /// The provenance of the sprite that owns pixel `(x, y)`, if any.
    pub fn sprite_at(&mut self, x: u16, y: u16, mem: &PpuMemoryView<'_>) -> (sprite: Option<
        ObjProvenance,
    >)
        requires
            old(self)@.valid(),
            mem@.valid(),
        ensures
            final(self)@.valid(),
            ({
                let state = LatchedState::from_registers(&old(self)@.registers);
                if x < 240 && y < 160 {
                    &&& final(self)@ == old(self)@.poised(y).drawn(y, mem@)
                    &&& sprite == (match obj::shown_at(state, mem@, x as int, y as int) {
                        Some(sample) => Some(
                            sample.provenance(obj::rasterize::linear_mapping(&state), mem@),
                        ),
                        None => None,
                    })
                } else {
                    &&& final(self)@ == old(self)@
                    &&& sprite is None
                }
            }),
    {
        let ghost state = LatchedState::from_registers(&self@.registers);
        match self.explain_current_pixel(x, y, mem) {
            Ok(explanation) => {
                proof {
                    scanline::record_matches_drawing(state, mem@, x, y);
                    lemma_only_sprite(state, mem@, x as int, y as int);
                }
                first_sprite(&explanation.candidates)
            },
            Err(_) => None,
        }
    }

    /// The window decision at `(x, y)`. Positions past the screen are clamped to its
    /// edge.
    pub fn window_at(&mut self, x: u16, y: u16, mem: &PpuMemoryView<'_>) -> (decision:
        WindowExplanation)
        requires
            old(self)@.valid(),
            mem@.valid(),
        ensures
            final(self)@.valid(),
            ({
                let line = if y < 160 {
                    y
                } else {
                    159u16
                };
                final(self)@ == old(self)@.poised(line).drawn(line, mem@)
            }),
            decision == (WindowExplanation {
                region: window::region_at(
                    if x < 240 {
                        x as usize
                    } else {
                        239usize
                    },
                    &final(self)@.latched,
                ),
                ..window::WindowMask::all_visible().explain()
            }),
    {
        let x: usize = if (x as usize) < WIDTH {
            x as usize
        } else {
            WIDTH - 1
        };
        let y: u16 = if (y as usize) < HEIGHT {
            y
        } else {
            HEIGHT as u16 - 1
        };
        self.populate_scratch(y, mem);
        let mask = window::mask_at(x, &self.latched);
        let region = window::region_at(x, &self.latched);
        WindowExplanation { region, ..mask.explain() }
    }

    /// The guest memory addresses feeding pixel `(x, y)` - the top candidate's
    /// sampled sources, for handing to a memory writer query.
    pub fn source_memory(&mut self, x: u16, y: u16, mem: &PpuMemoryView<'_>) -> (addresses: Vec<u32>)
        requires
            old(self)@.valid(),
            mem@.valid(),
        ensures
            final(self)@.valid(),
            ({
                let state = LatchedState::from_registers(&old(self)@.registers);
                if x < 240 && y < 160 {
                    &&& final(self)@ == old(self)@.poised(y).drawn(y, mem@)
                    &&& addresses@ == sources_of(
                        scanline::pixel_record(state, mem@, x, y).candidates,
                        scanline::resolved_at(state, mem@, x as int, y as int).top.layer,
                    )
                } else {
                    &&& final(self)@ == old(self)@
                    &&& addresses@ == Seq::<u32>::empty()
                }
            }),
    {
        match self.explain_current_pixel(x, y, mem) {
            Ok(explanation) => {
                let top = explanation.resolved.top.layer;
                match explanation.candidate_for(top) {
                    Some(candidate) => candidate.provenance.source_addresses(),
                    None => Vec::new(),
                }
            },
            Err(_) => Vec::new(),
        }
    }
}

/// The provenance of the first sprite among some candidates.
pub open spec fn sprite_among(candidates: Seq<explain::CandidateExplanation>) -> Option<
    ObjProvenance,
>
    decreases candidates.len(),
{
    if candidates.len() == 0 {
        None
    } else {
        match candidates[0].provenance {
            SourceProvenance::Obj(provenance) => Some(provenance),
            _ => sprite_among(candidates.skip(1)),
        }
    }
}

fn first_sprite(candidates: &Vec<explain::CandidateExplanation>) -> (sprite: Option<ObjProvenance>)
    ensures
        sprite == sprite_among(candidates@),
{
    let mut i: usize = 0;
    assert(candidates@.skip(0) =~= candidates@);
    while i < candidates.len()
        invariant
            i <= candidates@.len(),
            sprite_among(candidates@) == sprite_among(candidates@.skip(i as int)),
        decreases candidates@.len() - i,
    {
        assert(candidates@.skip(i as int).skip(1) =~= candidates@.skip(i + 1));
        if let SourceProvenance::Obj(provenance) = candidates[i].provenance {
            return Some(provenance);
        }
        i = i + 1;
    }
    None
}

proof fn lemma_only_sprite(state: LatchedState, mem: VideoMemory, x: int, y: int)
    ensures
        sprite_among(
            scanline::few(bg::bitmap::explanation_at(state, mem, x, y)) + scanline::few(
                obj::explanation_at(state, mem, x, y),
            ) + seq![
                super::compositor::backdrop_explanation(scanline::backdrop_of(state, mem)),
            ],
        ) == (match obj::shown_at(state, mem, x, y) {
            Some(sample) => Some(sample.provenance(obj::rasterize::linear_mapping(&state), mem)),
            None => None,
        }),
{
    let background = scanline::few(bg::bitmap::explanation_at(state, mem, x, y));
    let sprite = scanline::few(obj::explanation_at(state, mem, x, y));
    let rest = sprite + seq![
        super::compositor::backdrop_explanation(scanline::backdrop_of(state, mem)),
    ];
    let all = background + sprite + seq![
        super::compositor::backdrop_explanation(scanline::backdrop_of(state, mem)),
    ];
    reveal_with_fuel(sprite_among, 3);
    if background.len() > 0 {
        assert(all.skip(1) =~= rest);
    } else {
        assert(all =~= rest);
    }
}

/// The addresses that the first candidate of a layer was sampled from.
pub open spec fn sources_of(
    candidates: Seq<explain::CandidateExplanation>,
    layer: super::LayerId,
) -> Seq<u32> {
    match explain::first_of(candidates, layer) {
        Some(candidate) => candidate.provenance.addresses(),
        None => Seq::empty(),
    }
}

/// A layer's candidate is what its background shows there: reading it out and drawing
/// it agree.
pub proof fn layer_pixel_is_the_drawn_candidate(
    state: LatchedState,
    mem: VideoMemory,
    x: int,
    y: int,
)
    requires
        0 <= x < 240,
    ensures
        scanline::line_layers(state, mem, y).bg[2][x] == bg::bitmap::opaque_at(state, mem, x, y),
{
}

} // verus!

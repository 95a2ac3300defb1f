//! Bitmap-mode backgrounds (video modes 3, 4, 5) - BG2 sampled as a framebuffer.
//!
//! Bitmap output is not special-cased into the screen: it produces ordinary BG2
//! candidates that flow through windowing, priority, and effects like any other
//! source.

use vstd::arithmetic::div_mod;
use vstd::prelude::*;

use super::bg_mosaic_factors;
use crate::gba::ppu::debug::explain::CandidateExplanation;
use crate::gba::ppu::debug::provenance::{
    BitmapBgProvenance, BitmapSample, RejectionReason, SourceProvenance,
};
use crate::gba::ppu::memory::{PpuMemoryView, VideoMemory, PALETTE_BASE, VRAM_BASE};
use crate::gba::ppu::state::{
    CandidatePixel, Color15, LatchedState, LayerId, Layers, PixelFlags, Scratch, WIDTH,
};

verus! {

/// The BG2 index into the scratch/priority machinery.
pub const BG2: usize = 2;

/// Bytes per page in the paged bitmap modes (4 and 5): frame 1 follows frame 0.
pub const PAGE_SIZE: usize = 0xA000;

/// Mode 5's reduced framebuffer dimensions.
pub const MODE5_WIDTH: usize = 160;

pub const MODE5_HEIGHT: usize = 128;

/// The bitmap page selected by `DISPCNT` bit 4 (modes 4 and 5).
#[verifier::allow_in_spec]
pub fn frame_index(state: &LatchedState) -> u8
    returns
        (state.regs.dispcnt / 16 % 2) as u8,
{
    (state.regs.dispcnt / 16 % 2) as u8
}

/// BG2's configured priority.
#[verifier::allow_in_spec]
pub fn bg2_priority(state: &LatchedState) -> u8
    returns
        (state.regs.bgcnt[2] % 4) as u8,
{
    (state.regs.bgcnt[2] % 4) as u8
}

/// A BG2 candidate at the background's configured priority.
#[verifier::allow_in_spec]
pub fn bg2_candidate(color: Color15, priority: u8, mosaic: bool) -> CandidatePixel
    returns
        (CandidatePixel {
            color,
            layer: LayerId::Bg2,
            priority,
            flags: PixelFlags { mosaic, ..PixelFlags::none() },
        }),
{
    CandidatePixel {
        color,
        layer: LayerId::Bg2,
        priority,
        flags: PixelFlags { mosaic, ..PixelFlags::none() },
    }
}

/// The source position of a screen position: the corner of its mosaic block.
pub open spec fn block_corner(position: int, size: int) -> int {
    position - position % size
}

fn corner(position: usize, size: usize) -> (corner: usize)
    requires
        1 <= size,
    ensures
        corner == block_corner(position as int, size as int),
        corner <= position,
{
    proof {
        div_mod::lemma_mod_decreases(position as nat, size as nat);
    }
    position - position % size
}

/// The source column of a screen column.
pub open spec fn source_x(state: LatchedState, x: int) -> int {
    block_corner(x, bg_mosaic_factors(&state, 2).0 as int)
}

/// The source line of a screen line.
pub open spec fn source_y(state: LatchedState, y: int) -> int {
    block_corner(y, bg_mosaic_factors(&state, 2).1 as int)
}

/// The VRAM offset that a screen position samples, in bitmap mode `mode`.
pub open spec fn sample_offset(state: LatchedState, mode: u8, x: int, y: int) -> int {
    let page = frame_index(&state) * PAGE_SIZE;
    if mode == 3 {
        (source_y(state, y) * 240 + source_x(state, x)) * 2
    } else if mode == 4 {
        page + source_y(state, y) * 240 + source_x(state, x)
    } else {
        page + (source_y(state, y) * 160 + source_x(state, x)) * 2
    }
}

/// The color that a screen position samples, in bitmap mode `mode`.
pub open spec fn sample_color(
    state: LatchedState,
    mode: u8,
    mem: VideoMemory,
    x: int,
    y: int,
) -> Color15 {
    let offset = sample_offset(state, mode, x, y);
    if mode == 4 {
        mem.palette15(mem.vram[offset] as int)
    } else {
        Color15(mem.vram16(offset))
    }
}

/// Whether BG2 covers a screen position: it is on, and the position is within the
/// mode's framebuffer.
pub open spec fn covers(state: LatchedState, mode: u8, x: int, y: int) -> bool {
    &&& state.bg_enabled(2)
    &&& mode == 3 || mode == 4 || (mode == 5 && x < 160 && y < 128)
}

/// Whether the sample at a screen position is transparent: palette index 0. The
/// direct-color modes have no transparent color.
pub open spec fn transparent_at(
    state: LatchedState,
    mode: u8,
    mem: VideoMemory,
    x: int,
    y: int,
) -> bool {
    mode == 4 && mem.vram[sample_offset(state, mode, x, y)] == 0
}

/// The BG2 candidate at a screen position that it covers.
pub open spec fn candidate_at(
    state: LatchedState,
    mode: u8,
    mem: VideoMemory,
    x: int,
    y: int,
) -> CandidatePixel {
    bg2_candidate(
        sample_color(state, mode, mem, x, y),
        bg2_priority(&state),
        bg_mosaic_factors(&state, 2).2,
    )
}

/// What BG2 contributes at a screen position in bitmap mode `mode`, if it shows
/// there.
pub open spec fn shown_at(state: LatchedState, mode: u8, mem: VideoMemory, x: int, y: int) -> Option<
    CandidatePixel,
> {
    if covers(state, mode, x, y) && !transparent_at(state, mode, mem, x, y) {
        Some(candidate_at(state, mode, mem, x, y))
    } else {
        None
    }
}

/// What BG2 contributes at a screen position in the latched mode; nothing while the
/// display is force-blanked.
pub open spec fn opaque_at(state: LatchedState, mem: VideoMemory, x: int, y: int) -> Option<
    CandidatePixel,
> {
    if state.forced_blank() {
        None
    } else {
        shown_at(state, state.mode, mem, x, y)
    }
}

/// Where the sample at a screen position came from.
pub open spec fn provenance_at(
    state: LatchedState,
    mem: VideoMemory,
    x: int,
    y: int,
) -> BitmapBgProvenance {
    let offset = sample_offset(state, state.mode, x, y);
    BitmapBgProvenance {
        video_mode: state.mode,
        frame: if state.mode == 3 {
            0
        } else {
            frame_index(&state)
        },
        source_x: source_x(state, x) as u16,
        source_y: source_y(state, y) as u16,
        vram_address: (VRAM_BASE + offset) as u32,
        raw: if state.mode == 4 {
            BitmapSample::Indexed(mem.vram[offset])
        } else {
            BitmapSample::Direct(sample_color(state, state.mode, mem, x, y))
        },
        palette_address: if state.mode == 4 {
            Some((PALETTE_BASE + mem.vram[offset] * 2) as u32)
        } else {
            None
        },
        resolved: sample_color(state, state.mode, mem, x, y),
        priority: bg2_priority(&state),
    }
}

/// The explanation of the BG2 candidate at a screen position, if it covers it.
pub open spec fn explanation_at(
    state: LatchedState,
    mem: VideoMemory,
    x: int,
    y: int,
) -> Option<CandidateExplanation> {
    if !state.forced_blank() && covers(state, state.mode, x, y) {
        let transparent = transparent_at(state, state.mode, mem, x, y);
        Some(
            CandidateExplanation {
                candidate: candidate_at(state, state.mode, mem, x, y),
                provenance: SourceProvenance::BitmapBg(provenance_at(state, mem, x, y)),
                visible_after_window: !transparent,
                rejection_reason: if transparent {
                    Some(RejectionReason::TransparentPixel { palette_index: 0 })
                } else {
                    None
                },
            },
        )
    } else {
        None
    }
}

/// Whether a line's samples lie within VRAM, in bitmap mode `mode`.
pub open spec fn line_in_vram(mode: u8, y: int) -> bool {
    &&& mode == 3 ==> y < 204
    &&& mode == 4 ==> y < 238
}

/// The layers with the columns below `end` of BG2 drawn.
pub open spec fn partly_drawn(
    layers: Layers,
    state: LatchedState,
    mode: u8,
    mem: VideoMemory,
    y: int,
    end: int,
) -> Layers {
    Layers {
        bg: layers.bg.update(
            2,
            Seq::new(
                240,
                |x: int|
                    match shown_at(state, mode, mem, x, y) {
                        Some(pixel) => if x < end {
                            Some(pixel)
                        } else {
                            layers.bg[2][x]
                        },
                        None => layers.bg[2][x],
                    },
            ),
        ),
        ..layers
    }
}

/// The VRAM offset that a screen position samples.
fn offset_at(x: usize, y: u16, state: &LatchedState, mode: u8) -> (offset: usize)
    requires
        x < 240,
        line_in_vram(mode, y as int),
        covers(*state, mode, x as int, y as int),
    ensures
        offset == sample_offset(*state, mode, x as int, y as int),
        mode == 4 ==> offset + 1 <= 0x1_8000,
        mode != 4 ==> offset + 2 <= 0x1_8000,
        0 <= source_x(*state, x as int) < 240,
        0 <= source_y(*state, y as int) <= y,
{
    let (mosaic_x, mosaic_y, _) = bg_mosaic_factors(state, BG2);
    let x_src: usize = corner(x, mosaic_x);
    let y_src: usize = corner(y as usize, mosaic_y);
    let page_base: usize = frame_index(state) as usize * PAGE_SIZE;
    match mode {
        3 => (y_src * WIDTH + x_src) * 2,
        4 => page_base + y_src * WIDTH + x_src,
        _ => page_base + (y_src * MODE5_WIDTH + x_src) * 2,
    }
}

/// What BG2 contributes at a screen position, if it shows there.
fn pixel_at(
    x: usize,
    y: u16,
    state: &LatchedState,
    mode: u8,
    mem: &PpuMemoryView<'_>,
) -> (pixel: Option<CandidatePixel>)
    requires
        x < 240,
        line_in_vram(mode, y as int),
        mem@.valid(),
        covers(*state, mode, x as int, y as int),
    ensures
        pixel == shown_at(*state, mode, mem@, x as int, y as int),
{
    let offset: usize = offset_at(x, y, state, mode);
    let color = if mode == 4 {
        let index: u8 = mem.vram[offset];
        if index == 0 {
            return None;
        }
        mem.palette15(index as usize)
    } else {
        Color15(mem.vram16(offset))
    };
    let (_, _, mosaic) = bg_mosaic_factors(state, BG2);
    Some(bg2_candidate(color, bg2_priority(state), mosaic))
}

/// The explanation of the BG2 candidate at a screen position, if it covers it.
pub fn explain_at(x: usize, y: u16, state: &LatchedState, mem: &PpuMemoryView<'_>) -> (explanation:
    Option<CandidateExplanation>)
    requires
        x < 240,
        line_in_vram(state.mode, y as int),
        mem@.valid(),
    ensures
        explanation == explanation_at(*state, mem@, x as int, y as int),
{
    let in_mode = state.mode == 3 || state.mode == 4 || (state.mode == 5 && x < MODE5_WIDTH && (
    y as usize) < MODE5_HEIGHT);
    if state.forced_blank() || !state.bg_enabled(BG2) || !in_mode {
        return None;
    }
    let offset: usize = offset_at(x, y, state, state.mode);
    let (mosaic_x, mosaic_y, mosaic) = bg_mosaic_factors(state, BG2);
    let indexed = state.mode == 4;
    let index: u8 = if indexed {
        mem.vram[offset]
    } else {
        0
    };
    let color = if indexed {
        mem.palette15(index as usize)
    } else {
        Color15(mem.vram16(offset))
    };
    let transparent = indexed && index == 0;
    let priority: u8 = bg2_priority(state);
    let provenance = BitmapBgProvenance {
        video_mode: state.mode,
        frame: if state.mode == 3 {
            0
        } else {
            frame_index(state)
        },
        source_x: corner(x, mosaic_x) as u16,
        source_y: corner(y as usize, mosaic_y) as u16,
        vram_address: VRAM_BASE + offset as u32,
        raw: if indexed {
            BitmapSample::Indexed(index)
        } else {
            BitmapSample::Direct(color)
        },
        palette_address: if indexed {
            Some(PALETTE_BASE + index as u32 * 2)
        } else {
            None
        },
        resolved: color,
        priority,
    };
    Some(
        CandidateExplanation {
            candidate: bg2_candidate(color, priority, mosaic),
            provenance: SourceProvenance::BitmapBg(provenance),
            visible_after_window: !transparent,
            rejection_reason: if transparent {
                Some(RejectionReason::TransparentPixel { palette_index: 0 })
            } else {
                None
            },
        },
    )
}

/// Draw the first `width` columns of BG2's scanline.
fn render_columns(
    y: u16,
    width: usize,
    state: &LatchedState,
    mode: u8,
    mem: &PpuMemoryView<'_>,
    scratch: &mut Scratch,
)
    requires
        line_in_vram(mode, y as int),
        width <= 240,
        mem@.valid(),
        forall|x: int| 0 <= x < width ==> covers(*state, mode, x, y as int),
    ensures
        final(scratch)@ == partly_drawn(old(scratch)@, *state, mode, mem@, y as int, width as int),
{
    let ghost before = scratch@;
    let mut x: usize = 0;
    assert(scratch@ =~~= partly_drawn(before, *state, mode, mem@, y as int, 0));
    while x < width
        invariant
            x <= width,
            width <= 240,
            line_in_vram(mode, y as int),
            mem@.valid(),
            forall|x: int| 0 <= x < width ==> covers(*state, mode, x, y as int),
            before.bg.len() == 4,
            before.bg[2].len() == 240,
            scratch@ == partly_drawn(before, *state, mode, mem@, y as int, x as int),
        decreases width - x,
    {
        let pixel = pixel_at(x, y, state, mode, mem);
        if pixel.is_some() {
            scratch.bg[2].pixels[x] = pixel;
        }
        assert(scratch@ =~~= partly_drawn(before, *state, mode, mem@, y as int, x + 1));
        x = x + 1;
    }
}

/// Render one Mode 3 scanline: a 240x160 array of direct 15-bit colors in VRAM.
pub fn render_mode3(y: u16, state: &LatchedState, mem: &PpuMemoryView<'_>, scratch: &mut Scratch)
    requires
        y < 204,
        mem@.valid(),
    ensures
        final(scratch)@ == partly_drawn(old(scratch)@, *state, 3, mem@, y as int, 240),
{
    if !state.bg_enabled(BG2) {
        assert(scratch@ =~~= partly_drawn(scratch@, *state, 3, mem@, y as int, 240));
        return ;
    }
    render_columns(y, WIDTH, state, 3, mem, scratch);
}

/// Render one Mode 4 scanline: a 240x160 array of 8-bit palette indices in one of
/// two VRAM pages. Index 0 is transparent (the backdrop shows through).
pub fn render_mode4(y: u16, state: &LatchedState, mem: &PpuMemoryView<'_>, scratch: &mut Scratch)
    requires
        y < 238,
        mem@.valid(),
    ensures
        final(scratch)@ == partly_drawn(old(scratch)@, *state, 4, mem@, y as int, 240),
{
    if !state.bg_enabled(BG2) {
        assert(scratch@ =~~= partly_drawn(scratch@, *state, 4, mem@, y as int, 240));
        return ;
    }
    render_columns(y, WIDTH, state, 4, mem, scratch);
}

/// Render one Mode 5 scanline: a 160x128 direct-color framebuffer in one of two
/// VRAM pages. Coordinates outside those dimensions are transparent.
pub fn render_mode5(y: u16, state: &LatchedState, mem: &PpuMemoryView<'_>, scratch: &mut Scratch)
    requires
        mem@.valid(),
    ensures
        final(scratch)@ == partly_drawn(old(scratch)@, *state, 5, mem@, y as int, 240),
{
    let ghost before = scratch@;
    if !state.bg_enabled(BG2) {
        assert(scratch@ =~~= partly_drawn(before, *state, 5, mem@, y as int, 240));
        return ;
    }
    if y as usize >= MODE5_HEIGHT {
        assert(scratch@ =~~= partly_drawn(before, *state, 5, mem@, y as int, 240));
        return ;
    }
    render_columns(y, MODE5_WIDTH, state, 5, mem, scratch);
    assert(scratch@ =~~= partly_drawn(before, *state, 5, mem@, y as int, 240));
}

/// An explanation never disagrees with the drawing: BG2 shows at a position exactly
/// where its explanation has no rejection, with the explained candidate.
pub proof fn explanation_matches_drawing(state: LatchedState, mem: VideoMemory, x: int, y: int)
    ensures
        opaque_at(state, mem, x, y) == (match explanation_at(state, mem, x, y) {
            Some(e) => if e.rejection_reason is None {
                Some(e.candidate)
            } else {
                None
            },
            None => None,
        }),
{
}

} // verus!

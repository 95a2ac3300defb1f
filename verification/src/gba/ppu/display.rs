//! Laws of the picture: which color a pixel gets of the layers that compete for it, how
//! colors are shown, and when the lines and frames begin.

use vstd::prelude::*;

use super::bg::bitmap;
use super::bg::framebuffer::halfword;
use super::latch;
use super::memory::VideoMemory;
use super::obj;
use super::priority::{order, top_of};
use super::registers::Registers;
use super::scanline::{backdrop_of, candidates_at, color_at, governing};
use super::state::{
    CandidatePixel, Color15, LatchedState, LayerId, PixelFlags, ScanlineSegment,
};
use super::timing::{line_scheduled, TimingState};
use super::PpuState;
use crate::emu_core::scheduler::Timeline;
use crate::emu_core::Timestamp;
use crate::gba::dma;
use crate::gba::event::{EventKind, PpuEvent};
use crate::gba::interrupt::InterruptController;

verus! {

/// A color is five bits of red, then green, then blue; each is shown as eight bits by
/// repeating its top three below it.
pub proof fn color_channels(color: Color15)
    ensures
        ({
            let (r, g, b) = color.channels();
            &&& r < 32 && g < 32 && b < 32
            &&& color.0 as int % 0x8000 == r + 32 * g + 1024 * b
            &&& Color15::expanded(r) == 8 * r + r as int / 4
            &&& Color15::expanded(g) == 8 * g + g as int / 4
            &&& Color15::expanded(b) == 8 * b + b as int / 4
        }),
        Color15::expanded(0) == 0,
        Color15::expanded(31) == 255,
{
}

/// With nothing to show a pixel has the backdrop: the first palette entry, or white
/// while the display is force-blanked, behind everything else.
pub proof fn backdrop_color_is_the_first_entry(state: LatchedState, mem: VideoMemory)
    requires
        mem.valid(),
    ensures
        ({
            let backdrop = backdrop_of(state, mem);
            &&& backdrop.layer == LayerId::Backdrop
            &&& backdrop.priority == 4
            &&& backdrop.flags == (PixelFlags {
                semi_transparent_obj: false,
                obj_window: false,
                mosaic: false,
            })
            &&& state.regs.dispcnt & 0x80 != 0 ==> backdrop.color.0 == 0x7FFF
            &&& state.regs.dispcnt & 0x80 == 0 ==> backdrop.color.0 == halfword(mem.palette, 0)
        }),
{
}

/// Of the bitmap and the sprites that show at a pixel the one with the lower priority
/// number is seen, the sprite where they are equal; with neither the backdrop is.
pub proof fn front_layer_is_seen(state: LatchedState, mem: VideoMemory, x: int, y: int)
    requires
        mem.valid(),
        0 <= x < 240,
        0 <= y < 160,
        obj::pixel_at(state, mem, x, y) matches Some(pixel) ==> pixel.priority < 4,
    ensures
        ({
            let bitmap = bitmap::opaque_at(state, mem, x, y);
            let sprite = if state.regs.dispcnt & 0x80 == 0 && state.regs.dispcnt as int / 0x1000 % 2
                == 1 {
                obj::pixel_at(state, mem, x, y)
            } else {
                None
            };
            color_at(state, mem, x, y) == (match (bitmap, sprite) {
                (None, None) => backdrop_of(state, mem).color,
                (Some(b), None) => b.color,
                (None, Some(s)) => s.color,
                (Some(b), Some(s)) => if s.priority <= b.priority {
                    s.color
                } else {
                    b.color
                },
            })
        }),
{
    reveal_with_fuel(top_of, 4);
    let bitmap = bitmap::opaque_at(state, mem, x, y);
    let sprite = if obj::active(state) {
        obj::pixel_at(state, mem, x, y)
    } else {
        None
    };
    let backdrop = backdrop_of(state, mem);
    let set = candidates_at(state, mem, x, y);
    match (bitmap, sprite) {
        (None, None) => {
            assert(set =~= seq![backdrop]);
        },
        (Some(b), None) => {
            assert(set =~= seq![backdrop, b]);
            assert(set.drop_last() =~= seq![backdrop]);
        },
        (None, Some(s)) => {
            assert(set =~= seq![backdrop, s]);
            assert(set.drop_last() =~= seq![backdrop]);
        },
        (Some(b), Some(s)) => {
            assert(set =~= seq![backdrop, b, s]);
            assert(set.drop_last() =~= seq![backdrop, b]);
            assert(set.drop_last().drop_last() =~= seq![backdrop]);
        },
    }
}

/// Between candidates of one priority sprites come first, then the backgrounds by their
/// numbers, and the backdrop last; a lower priority number always comes first.
pub proof fn layer_order(a: CandidatePixel, b: CandidatePixel)
    ensures
        a.priority < b.priority ==> order(a) < order(b),
        a.priority == b.priority && a.layer == LayerId::Obj && b.layer != LayerId::Obj ==> order(a)
            < order(b),
        a.priority == b.priority && a.layer == LayerId::Bg0 && b.layer == LayerId::Bg1 ==> order(a)
            < order(b),
        a.priority == b.priority && a.layer == LayerId::Bg1 && b.layer == LayerId::Bg2 ==> order(a)
            < order(b),
        a.priority == b.priority && a.layer == LayerId::Bg2 && b.layer == LayerId::Bg3 ==> order(a)
            < order(b),
        a.priority == b.priority && a.layer != LayerId::Backdrop && b.layer == LayerId::Backdrop
            ==> order(a) < order(b),
{
}

/// A scanline's pixels are 240 of the frame's, from 240 times its number on; each is
/// drawn under the register snapshot whose stretch it lies in.
pub proof fn scanline_fills_its_row(
    ppu: PpuState,
    mem: VideoMemory,
    y: u16,
    x: int,
)
    requires
        ppu.valid(),
        y < 160,
        0 <= x < 240,
        ppu.segments.len() > 0,
    ensures
        ppu.drawn(y, mem).framebuffer[240 * y + x] == color_at(
            governing(ppu.segments, x).state,
            mem,
            x,
            y as int,
        ),
        ppu.drawn(y, mem).framebuffer.len() == 240 * 160,
{
}

/// The snapshot that governs a column is the last one that begins at or before it.
pub proof fn last_snapshot_governs(segments: Seq<ScanlineSegment>, x: int)
    requires
        segments.len() > 0,
        segments[0].x_start <= x,
    ensures
        exists|i: int|
            0 <= i < segments.len() && governing(segments, x) == #[trigger] segments[i]
                && segments[i].x_start <= x && forall|k: int|
                i < k < segments.len() ==> (#[trigger] segments[k]).x_start > x,
    decreases segments.len(),
{
    let last = segments.len() - 1;
    if segments.len() <= 1 || segments.last().x_start <= x {
        assert(governing(segments, x) == segments[last]);
    } else {
        let shorter = segments.drop_last();
        last_snapshot_governs(shorter, x);
        let i = choose|i: int|
            0 <= i < shorter.len() && governing(shorter, x) == #[trigger] shorter[i]
                && shorter[i].x_start <= x && forall|k: int|
                i < k < shorter.len() ==> (#[trigger] shorter[k]).x_start > x;
        assert(governing(segments, x) == segments[i]);
        assert forall|k: int| i < k < segments.len() implies (#[trigger] segments[k]).x_start
            > x by {
            if k < last {
                assert(shorter[k] == segments[k]);
            }
        }
    }
}

/// A register write in the visible part of a line takes effect from the pixel being
/// drawn, one every four cycles from the start of the line.
pub proof fn write_splits_at_the_pixel(ppu: PpuState, now: Timestamp)
    requires
        ppu.timing.vcount < 160,
        ppu.line_start_time <= now < ppu.line_start_time + 960,
        ppu.segments.len() > 0,
        ppu.segments.last().x_start < (now - ppu.line_start_time) / 4,
    ensures
        ({
            let after = ppu.split(now);
            let last = after.segments.last();
            &&& after.segments.len() == ppu.segments.len() + 1
            &&& last.x_start == (now - ppu.line_start_time) / 4
            &&& last.state.regs == ppu.registers
            &&& last.state.mode == ppu.registers.dispcnt as int % 8
        }),
{
}

/// The frame's timing: a line takes 1232 cycles, its horizontal blank begins 1006 cycles
/// in, and both are queued when the line starts.
pub proof fn line_events(timeline: Timeline<EventKind>, start: Timestamp)
    ensures
        line_scheduled(timeline, start) matches Some(after) ==> after == timeline.scheduled(
            (start + 1006) as u64,
            EventKind::Ppu(PpuEvent::HBlank),
        ).scheduled((start + 1232) as u64, EventKind::Ppu(PpuEvent::LineStart)),
{
}

/// The next line's number is one more, from 227 back to 0, and its horizontal blank is
/// over. Line 160 asks for the vertical-blank interrupt, and the line whose number is the
/// target for the match interrupt, each where it is enabled.
pub proof fn line_start_interrupts(timing: TimingState, irq: InterruptController)
    requires
        timing.valid(),
    ensures
        ({
            let (next, after) = timing.line_started(irq);
            let blank = next.vcount == 160 && timing.vblank_irq_enable;
            let matched = next.vcount == timing.vcount_target && timing.vcount_irq_enable;
            &&& next.vcount == (if timing.vcount == 227 {
                0
            } else {
                timing.vcount + 1
            })
            &&& !next.hblank_flag
            &&& !blank && !matched ==> after == irq
            &&& blank && !matched ==> after.iflags == irq.iflags | 0x0001
            &&& !blank && matched ==> after.iflags == irq.iflags | 0x0004
            &&& blank && matched ==> after.iflags == (irq.iflags | 0x0001) | 0x0004
            &&& after.ie == irq.ie && after.ime == irq.ime
        }),
        ({
            let (next, after) = timing.hblanked(irq);
            &&& next == (TimingState { hblank_flag: true, ..timing })
            &&& timing.hblank_irq_enable ==> after.iflags == irq.iflags | 0x0002
            &&& !timing.hblank_irq_enable ==> after == irq
        }),
{
}

/// `DISPSTAT` shows the vertical blank on lines 160 to 226, the horizontal blank and the
/// target match in bits 0 to 2, the interrupt enables in bits 3 to 5 and the target in
/// the upper byte.
pub proof fn status_flags(timing: TimingState)
    requires
        timing.valid(),
    ensures
        timing.dispstat() % 2 == (if 160 <= timing.vcount <= 226 {
            1int
        } else {
            0
        }),
        timing.dispstat() / 2 % 2 == (if timing.hblank_flag {
            1int
        } else {
            0
        }),
        timing.dispstat() / 4 % 2 == (if timing.vcount == timing.vcount_target {
            1int
        } else {
            0
        }),
        timing.dispstat() / 8 % 2 == (if timing.vblank_irq_enable {
            1int
        } else {
            0
        }),
        timing.dispstat() / 16 % 2 == (if timing.hblank_irq_enable {
            1int
        } else {
            0
        }),
        timing.dispstat() / 32 % 2 == (if timing.vcount_irq_enable {
            1int
        } else {
            0
        }),
        timing.dispstat() / 256 == timing.vcount_target,
{
}

/// A `DISPSTAT` write sets the enables from bits 3 to 5 and the target from the upper
/// byte.
pub proof fn status_writes(timing: TimingState, value: u16)
    ensures
        ({
            let after = timing.dispstat_written(value);
            &&& after.vblank_irq_enable == (value & 0x08 != 0)
            &&& after.hblank_irq_enable == (value & 0x10 != 0)
            &&& after.vcount_irq_enable == (value & 0x20 != 0)
            &&& after.vcount_target == value as int / 256
        }),
{
}

/// The affine reference of a background moves down a line by its PB and PD, and starts
/// each frame from its registers.
pub proof fn affine_references(ppu: PpuState, y: nat)
    ensures
        latch::line_reference(ppu.registers, 0, 0).x == ppu.registers.bg_ref_x[0],
        latch::line_reference(ppu.registers, 0, 0).y == ppu.registers.bg_ref_y[0],
        latch::line_reference(ppu.registers, 1, 0).x == ppu.registers.bg_ref_x[1],
        latch::line_reference(ppu.registers, 1, 0).y == ppu.registers.bg_ref_y[1],
        latch::line_reference(ppu.registers, 0, y + 1).x == latch::line_reference(
            ppu.registers,
            0,
            y,
        ).x.wrapping_add(ppu.registers.bg_pb[0] as i32),
        latch::line_reference(ppu.registers, 0, y + 1).y == latch::line_reference(
            ppu.registers,
            0,
            y,
        ).y.wrapping_add(ppu.registers.bg_pd[0] as i32),
        ppu.references_advanced().affine.bg2.x == ppu.affine.bg2.x.wrapping_add(
            ppu.registers.bg_pb[0] as i32,
        ),
        ppu.references_advanced().affine.bg2.y == ppu.affine.bg2.y.wrapping_add(
            ppu.registers.bg_pd[0] as i32,
        ),
        ppu.references_advanced().affine.bg3.x == ppu.affine.bg3.x.wrapping_add(
            ppu.registers.bg_pb[1] as i32,
        ),
        ppu.references_advanced().affine.bg3.y == ppu.affine.bg3.y.wrapping_add(
            ppu.registers.bg_pd[1] as i32,
        ),
        ppu.references_reloaded().affine.bg2.x == ppu.registers.bg_ref_x[0],
        ppu.references_reloaded().affine.bg3.y == ppu.registers.bg_ref_y[1],
{
}

/// The video registers by their offsets, written a whole halfword at a time: the
/// backgrounds' controls from 8 on, two bytes apart; their scrolls from 0x10 on, four
/// bytes apart and nine bits wide; the windows, the mosaic and the blending.
pub proof fn video_register_writes(regs: Registers, i: int, value: u16)
    requires
        0 <= i < 4,
    ensures
        regs.written((0x008 + 2 * i) as u32, value, 0xFFFF).bgcnt[i] == value,
        regs.written((0x010 + 4 * i) as u32, value, 0xFFFF).bg_hofs[i] == value & 0x1FF,
        regs.written((0x012 + 4 * i) as u32, value, 0xFFFF).bg_vofs[i] == value & 0x1FF,
        i < 2 ==> regs.written((0x020 + 16 * i) as u32, value, 0xFFFF).bg_pa[i] == value as i16,
        i < 2 ==> regs.written((0x022 + 16 * i) as u32, value, 0xFFFF).bg_pb[i] == value as i16,
        i < 2 ==> regs.written((0x024 + 16 * i) as u32, value, 0xFFFF).bg_pc[i] == value as i16,
        i < 2 ==> regs.written((0x026 + 16 * i) as u32, value, 0xFFFF).bg_pd[i] == value as i16,
        i < 2 ==> regs.written((0x040 + 2 * i) as u32, value, 0xFFFF).win_h[i] == value,
        i < 2 ==> regs.written((0x044 + 2 * i) as u32, value, 0xFFFF).win_v[i] == value,
        regs.written(0x048, value, 0xFFFF).winin == value,
        regs.written(0x04A, value, 0xFFFF).winout == value,
        regs.written(0x04C, value, 0xFFFF).mosaic == value,
        regs.written(0x050, value, 0xFFFF).bldcnt == value,
        regs.written(0x052, value, 0xFFFF).bldalpha == value,
        regs.written(0x054, value, 0xFFFF).bldy == value,
        regs.register((0x008 + 2 * i) as u32) == regs.bgcnt[i],
        regs.register(0x048) == regs.winin && regs.register(0x04A) == regs.winout,
        regs.register(0x050) == regs.bldcnt && regs.register(0x052) == regs.bldalpha,
        regs.register(0x04C) == 0 && regs.register(0x054) == 0,
{
    dma::lemma_merged_halfword(regs.bgcnt[i], value);
    dma::lemma_merged_halfword(regs.bg_hofs[i], value);
    dma::lemma_merged_halfword(regs.bg_vofs[i], value);
    if i < 2 {
        dma::lemma_merged_halfword(regs.bg_pa[i] as u16, value);
        dma::lemma_merged_halfword(regs.bg_pb[i] as u16, value);
        dma::lemma_merged_halfword(regs.bg_pc[i] as u16, value);
        dma::lemma_merged_halfword(regs.bg_pd[i] as u16, value);
        dma::lemma_merged_halfword(regs.win_h[i], value);
        dma::lemma_merged_halfword(regs.win_v[i], value);
    }
    dma::lemma_merged_halfword(regs.winin, value);
    dma::lemma_merged_halfword(regs.winout, value);
    dma::lemma_merged_halfword(regs.mosaic, value);
    dma::lemma_merged_halfword(regs.bldcnt, value);
    dma::lemma_merged_halfword(regs.bldalpha, value);
    dma::lemma_merged_halfword(regs.bldy, value);
}

} // verus!

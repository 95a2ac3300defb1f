//! Register latching on the aggregate `Ppu`, mid-line segment splitting, and the
//! internal affine references.

use vstd::prelude::*;

use super::registers::Registers;
use super::state::{
    AffineInternalState, AffineReference, LatchedState, ScanlineSegment, HEIGHT, WIDTH,
};
use super::{Ppu, PpuState};
use crate::emu_core::Timestamp;

verus! {

/// The reference point that the registers give for background `k` (0 = BG2,
/// 1 = BG3).
pub open spec fn register_reference(registers: Registers, k: int) -> AffineReference {
    AffineReference { x: registers.bg_ref_x[k], y: registers.bg_ref_y[k] }
}

/// A reference advanced by the per-scanline steps `PB`/`PD` of background `k`.
pub open spec fn advanced_reference(
    reference: AffineReference,
    registers: Registers,
    k: int,
) -> AffineReference {
    AffineReference {
        x: reference.x.wrapping_add(registers.bg_pb[k] as i32),
        y: reference.y.wrapping_add(registers.bg_pd[k] as i32),
    }
}

/// The reference background `k` holds at line `y`: the register reference, advanced
/// once for each line above it.
pub open spec fn line_reference(registers: Registers, k: int, y: nat) -> AffineReference
    decreases y,
{
    if y == 0 {
        register_reference(registers, k)
    } else {
        advanced_reference(line_reference(registers, k, (y - 1) as nat), registers, k)
    }
}

/// The pixel that is being drawn at a time, counted in four-cycle dots.
pub open spec fn dot_at(now: Timestamp, line_start: Timestamp) -> int {
    if now < line_start {
        0
    } else {
        (now - line_start) / 4
    }
}

impl PpuState {
    /// The unit with the live registers snapshot for a whole scanline.
    pub open spec fn line_latched(self) -> PpuState {
        let state = LatchedState::from_registers(&self.registers);
        PpuState {
            latched: state,
            segments: seq![ScanlineSegment { x_start: 0, state, affine: self.affine }],
            ..self
        }
    }

    /// The unit after a mid-scanline register write: the current scanline is split
    /// at the pixel the write lands on, so the new register state governs the rest
    /// of the line. A write at or before the last split refines it in place; one
    /// outside the visible draw takes effect at the next line's latch.
    pub open spec fn split(self, now: Timestamp) -> PpuState {
        let x = dot_at(now, self.line_start_time);
        if self.timing.vcount >= HEIGHT || x >= WIDTH {
            self
        } else {
            let segment = ScanlineSegment {
                x_start: x as u16,
                state: LatchedState::from_registers(&self.registers),
                affine: self.affine,
            };
            PpuState {
                segments: if self.segments.len() > 0 && x <= self.segments.last().x_start {
                    self.segments.update(self.segments.len() - 1, segment)
                } else {
                    self.segments.push(segment)
                },
                ..self
            }
        }
    }

    /// The unit with its affine references reloaded from the registers.
    pub open spec fn references_reloaded(self) -> PpuState {
        PpuState {
            affine: AffineInternalState {
                bg2: register_reference(self.registers, 0),
                bg3: register_reference(self.registers, 1),
            },
            ..self
        }
    }

    /// The unit with its affine references advanced by a scanline.
    pub open spec fn references_advanced(self) -> PpuState {
        PpuState {
            affine: AffineInternalState {
                bg2: advanced_reference(self.affine.bg2, self.registers, 0),
                bg3: advanced_reference(self.affine.bg3, self.registers, 1),
            },
            ..self
        }
    }

    /// The segments are in order from left to right.
    pub open spec fn segments_ordered(self) -> bool {
        forall|i: int, j: int|
            0 <= i < j < self.segments.len() ==> (#[trigger] self.segments[i]).x_start < (
            #[trigger] self.segments[j]).x_start
    }
}

impl Ppu {
    /// Snapshot the live registers for the scanline about to be drawn.
    pub fn latch_for_scanline(&mut self)
        ensures
            final(self)@ == old(self)@.line_latched(),
    {
        self.latched = LatchedState::from_registers(&self.registers);
        self.segments = Vec::new();
        self.segments.push(
            ScanlineSegment { x_start: 0, state: self.latched, affine: self.affine },
        );
        assert(self@ =~= old(self)@.line_latched());
    }

    /// Record a mid-scanline register write: split the current scanline at the
    /// pixel the write lands on, so the new register state governs the rest of the
    /// line. A write outside the visible draw only updates the registers, taking
    /// effect at the next line's latch.
    pub fn split_segment(&mut self, now: Timestamp)
        ensures
            final(self)@ == old(self)@.split(now),
    {
        if (self.vcount() as usize) >= HEIGHT {
            return ;
        }
        // Four cycles per pixel across the 240-pixel visible draw.
        let x: u64 = now.saturating_sub(self.line_start_time) / 4;
        if x >= WIDTH as u64 {
            return ;
        }
        let x: u16 = x as u16;
        let state = LatchedState::from_registers(&self.registers);
        let segment = ScanlineSegment { x_start: x, state, affine: self.affine };
        let count: usize = self.segments.len();
        // A write at or before the last split refines it in place.
        if count > 0 && x <= self.segments[count - 1].x_start {
            self.segments.set(count - 1, segment);
        } else {
            self.segments.push(segment);
        }
        assert(self@ =~= old(self)@.split(now));
    }

    /// Reload the internal affine reference points from the `BGxX`/`BGxY`
    /// registers.
    pub fn reload_affine_references(&mut self)
        ensures
            final(self)@ == old(self)@.references_reloaded(),
    {
        self.affine = AffineInternalState {
            bg2: AffineReference { x: self.registers.bg_ref_x[0], y: self.registers.bg_ref_y[0] },
            bg3: AffineReference { x: self.registers.bg_ref_x[1], y: self.registers.bg_ref_y[1] },
        };
    }

    /// Advance each internal affine reference by its `PB`/`PD` as one visible
    /// scanline completes.
    pub fn advance_affine_references(&mut self)
        ensures
            final(self)@ == old(self)@.references_advanced(),
    {
        self.affine = AffineInternalState {
            bg2: advance(self.affine.bg2, &self.registers, 0),
            bg3: advance(self.affine.bg3, &self.registers, 1),
        };
    }

    /// The affine reference background index `k` (0 = BG2, 1 = BG3) would hold at
    /// line `y`, reconstructed from the register reference.
    pub fn affine_reference_for_line(&self, k: usize, y: u16) -> (reference: AffineReference)
        requires
            k < 2,
        ensures
            reference == line_reference(self@.registers, k as int, y as nat),
    {
        let mut reference = AffineReference {
            x: self.registers.bg_ref_x[k],
            y: self.registers.bg_ref_y[k],
        };
        let mut line: u16 = 0;
        while line < y
            invariant
                k < 2,
                line <= y,
                reference == line_reference(self@.registers, k as int, line as nat),
            decreases y - line,
        {
            reference = advance(reference, &self.registers, k);
            line = line + 1;
        }
        reference
    }
}

fn advance(reference: AffineReference, registers: &Registers, k: usize) -> (advanced:
    AffineReference)
    requires
        k < 2,
    ensures
        advanced == advanced_reference(reference, *registers, k as int),
{
    AffineReference {
        x: reference.x.wrapping_add(registers.bg_pb[k] as i32),
        y: reference.y.wrapping_add(registers.bg_pd[k] as i32),
    }
}

/// A mid-frame register write does not change what is already latched: splitting
/// leaves every earlier segment as it was, and the segments stay in order.
pub proof fn split_keeps_earlier_segments(ppu: PpuState, now: Timestamp)
    requires
        ppu.segments_ordered(),
    ensures
        ppu.split(now).segments.len() >= ppu.segments.len(),
        forall|i: int|
            0 <= i < ppu.segments.len() - 1 ==> #[trigger] ppu.split(now).segments[i]
                == ppu.segments[i],
        ppu.segments.len() > 0 && dot_at(now, ppu.line_start_time) > ppu.segments.last().x_start
            ==> ppu.split(now).segments_ordered(),
{
}

/// The reference reconstructed for a line is the one that a reload and an advance
/// per line give.
pub proof fn reconstruction_follows_the_frame(ppu: PpuState, y: nat)
    ensures
        ppu.references_reloaded().affine.bg2 == line_reference(ppu.registers, 0, 0),
        ppu.affine.bg2 == line_reference(ppu.registers, 0, y) ==> ppu.references_advanced().affine.bg2
            == line_reference(ppu.registers, 0, y + 1),
        ppu.references_reloaded().affine.bg3 == line_reference(ppu.registers, 1, 0),
        ppu.affine.bg3 == line_reference(ppu.registers, 1, y) ==> ppu.references_advanced().affine.bg3
            == line_reference(ppu.registers, 1, y + 1),
{
}

} // verus!

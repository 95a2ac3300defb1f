//! Color effects - alpha blend, brighten, darken - applied after priority
//! resolution.
//!
//! Effects run once per pixel on the resolved top (and, for alpha, second)
//! candidate. Until color effects are implemented this is the identity: the top
//! candidate's color passes through unchanged.

use vstd::prelude::*;

use super::debug::explain::{AppliedEffect, EffectExplanation, EffectMode};
use super::registers::Registers;
use super::state::{CandidatePixel, Color15};

verus! {

/// The outcome of the color-effects stage.
#[derive(Clone, Copy, Debug, PartialEq, Eq, Structural)]
pub struct EffectResult {
    pub color: Color15,
    pub mode: EffectMode,
    pub applied: AppliedEffect,
}

/// The outcome for a top candidate whose color passes through.
pub open spec fn unchanged(top: CandidatePixel) -> EffectResult {
    EffectResult {
        color: top.color,
        mode: EffectMode::Unchanged,
        applied: AppliedEffect::Unchanged,
    }
}

/// Apply color effects to a resolved pixel. Identity until color effects exist.
pub fn apply(top: CandidatePixel, _second: CandidatePixel, _regs: &Registers) -> (result:
    EffectResult)
    ensures
        result == unchanged(top),
{
    EffectResult {
        color: top.color,
        mode: EffectMode::Unchanged,
        applied: AppliedEffect::Unchanged,
    }
}

impl EffectResult {
    /// The structured explanation of the applied effect.
    #[verifier::allow_in_spec]
    pub fn explain(&self) -> EffectExplanation
        returns
            (EffectExplanation { mode: self.mode, applied: self.applied, result: self.color }),
    {
        EffectExplanation { mode: self.mode, applied: self.applied, result: self.color }
    }
}

} // verus!

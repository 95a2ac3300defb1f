//! Window masking - reducing the window registers to a per-pixel visibility mask.
//!
//! The compositor never sees raw window-register encoding: it asks this module
//! whether each layer (and color effects) is visible at a position. Until windows
//! are implemented, every layer is visible everywhere.

use vstd::prelude::*;

use super::debug::explain::WindowExplanation;
use super::debug::provenance::WindowRegion;
use super::state::LatchedState;

verus! {

/// Per-pixel visibility of each source layer and of color effects.
#[derive(Clone, Copy, Debug)]
#[verifier::ext_equal]
pub struct WindowMask {
    /// Visibility of BG0..BG3.
    pub bg: [bool; 4],
    pub obj: bool,
    pub effects: bool,
}

impl WindowMask {
    /// Everything visible - the state when no window is active.
    #[verifier::allow_in_spec]
    pub fn all_visible() -> Self
        returns
            (WindowMask { bg: [true, true, true, true], obj: true, effects: true }),
    {
        WindowMask { bg: [true, true, true, true], obj: true, effects: true }
    }

    /// The structured explanation of this mask.
    #[verifier::allow_in_spec]
    pub fn explain(&self) -> WindowExplanation
        returns
            (WindowExplanation {
                region: WindowRegion::Outside,
                layers_enabled: [self.bg[0], self.bg[1], self.bg[2], self.bg[3], self.obj],
                effects_enabled: self.effects,
            }),
    {
        WindowExplanation {
            region: WindowRegion::Outside,
            layers_enabled: [self.bg[0], self.bg[1], self.bg[2], self.bg[3], self.obj],
            effects_enabled: self.effects,
        }
    }
}

/// The window mask at screen position `x` for the scanline governed by `state`.
/// Currently always fully visible; real WIN0/WIN1/OBJ-window precedence is not yet
/// implemented.
#[verifier::allow_in_spec]
pub fn mask_at(_x: usize, _state: &LatchedState) -> WindowMask
    returns
        WindowMask::all_visible(),
{
    WindowMask::all_visible()
}

/// The region that screen position `x` falls in for the scanline governed by `state`:
/// with no window active, every position lies outside.
#[verifier::allow_in_spec]
pub fn region_at(_x: usize, _state: &LatchedState) -> WindowRegion
    returns
        WindowRegion::Outside,
{
    WindowRegion::Outside
}

} // verus!

//! The guest timeline.
//!
//! There is one authoritative machine timestamp for the whole emulator. Every
//! hardware component lives on this single timeline; no device may consult host
//! wall-clock time to decide guest behavior.

use vstd::prelude::*;

verus! {

/// A point on the guest timeline, in master ticks.
///
/// For the GBA this is one system clock cycle.
pub type Timestamp = u64;

} // verus!

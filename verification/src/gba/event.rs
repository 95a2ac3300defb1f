//! The GBA's scheduled-event taxonomy.
//!
//! This is the concrete payload plugged into the scheduler, which is generic over
//! it. Each variant names an externally observable hardware transition.

use vstd::prelude::*;

use super::timer::TimerId;

verus! {

/// A scheduled GBA hardware event.
#[derive(Clone, Copy, Debug, PartialEq, Eq, Structural)]
pub enum EventKind {
    Timer(TimerEvent),
    Ppu(PpuEvent),
    Apu(ApuEvent),
}

/// Timer events.
#[derive(Clone, Copy, Debug, PartialEq, Eq, Structural)]
pub enum TimerEvent {
    /// A timer's counter is about to wrap past `0xFFFF`. `generation` is checked
    /// against the timer's current generation on dispatch so that events left
    /// stale by a reconfiguration are ignored rather than removed from the
    /// queue.
    Overflow { timer: TimerId, generation: u32 },
}

/// Display timing events.
#[derive(Clone, Copy, Debug, PartialEq, Eq, Structural)]
pub enum PpuEvent {
    /// The current scanline enters its horizontal blank.
    HBlank,
    /// The next scanline begins.
    LineStart,
}

/// Audio events.
#[derive(Clone, Copy, Debug, PartialEq, Eq, Structural)]
pub enum ApuEvent {
    /// One output sample is due.
    Sample,
}

} // verus!

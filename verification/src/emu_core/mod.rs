//! Machine-agnostic emulator core: the guest timeline, the deterministic
//! scheduler, and the bus-access vocabulary.
//!
//! Nothing here knows the GBA or the DS. It is the infrastructure those machines
//! are built on - most centrally a [`Scheduler`] that is generic over the event
//! payload, so each machine supplies its own event kinds and devices.

pub mod bus;
pub mod scheduler;
pub mod time;

pub use bus::{Access, AccessKind, AccessMaster, AccessSequence, AccessWidth, BusResult};
pub use scheduler::{EventContext, EventHandle, EventHandler, HandlerModel, ScheduledEvent, Scheduler};
pub use time::Timestamp;

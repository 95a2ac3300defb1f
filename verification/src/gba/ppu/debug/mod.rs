//! Explanations of rendered pixels: where each candidate came from, and why one won.

pub mod explain;
pub mod provenance;
pub mod sink;

pub use explain::{ExplainError, PixelExplanation, ScanlineExplanation, VideoInstrumentation};
pub use provenance::SourceProvenance;

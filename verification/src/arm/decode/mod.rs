//! Turning raw instruction words into the structured
//! [`crate::arm::instruction`] representation.

pub mod arm;
pub mod encodings;
pub mod lossless;
pub mod operand;
pub mod thumb;

pub use arm::decode_arm;
pub use thumb::decode_thumb;

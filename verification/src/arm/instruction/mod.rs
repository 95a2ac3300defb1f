//! Decoded-instruction representation, shared by the ARM and Thumb decoders.

use vstd::prelude::*;

pub mod arm;
pub mod thumb;

pub use arm::{ArmInstruction, ArmOperation};
pub use thumb::ThumbInstruction;

verus! {

/// A decoded instruction from either instruction set.
#[derive(Debug, Clone, Copy, PartialEq, Eq, Structural)]
pub enum Instruction {
    Arm(ArmInstruction),
    Thumb(ThumbInstruction),
}

} // verus!

//! Decoding, disassembling and interpreting ARM and Thumb instructions.
//!
//! Nothing here knows any particular machine: these modules hold the ARM
//! instruction sets and nothing about memory maps or scheduling. They turn raw
//! instruction words into a lossless structured form
//! ([`instruction::Instruction`]), render it as text, and execute it against a
//! [`cpu::Bus`].

pub mod condition;
pub mod cpu;
pub mod decode;
pub mod disasm;
pub mod instruction;
pub mod register;

pub use condition::Condition;
pub use decode::{decode_arm, decode_thumb};
pub use instruction::{ArmInstruction, ArmOperation, Instruction, ThumbInstruction};
pub use register::Register;

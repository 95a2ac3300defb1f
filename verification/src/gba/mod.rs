//! GBA hardware semantics.
//!
//! These modules own the GBA's devices, memory map, and timing behavior, built on
//! the machine-agnostic scheduler and bus vocabulary of [`crate::emu_core`].

pub mod apu;
pub mod bus;
pub mod cartridge;
pub mod dma;
pub mod event;
pub mod interrupt;
pub mod io;
pub mod keypad;
pub mod machine;
pub mod memory;
pub mod mixing;
pub mod ppu;
pub mod prefetch;
pub mod psg;
pub mod register_map;
pub mod system;
pub mod timer;
pub mod wiring;

pub use apu::Apu;
pub use bus::{Bus, Memory};
pub use cartridge::{Backup, Cartridge, FlashSize, SaveType};
pub use dma::{Dma, DmaChannel, DmaTiming};
pub use event::{EventKind, PpuEvent, TimerEvent};
pub use interrupt::{InterruptController, IrqSource};
pub use io::{Io, PowerState, SystemControl};
pub use keypad::{Key, Keypad};
pub use machine::Gba;
pub use ppu::debug::{
    ExplainError, PixelExplanation, ScanlineExplanation, SourceProvenance, VideoInstrumentation,
};
pub use ppu::inspect::{BackgroundKind, BackgroundSummary};
pub use ppu::memory::PpuMemoryView;
pub use ppu::obj::evaluate::SpriteInstance;
pub use ppu::{Color15, LayerId, Ppu};
pub use prefetch::Prefetch;
pub use system::System;
pub use timer::{TimerId, Timers};

pub use crate::emu_core::{
    Access, AccessKind, AccessMaster, AccessSequence, AccessWidth, BusResult,
};

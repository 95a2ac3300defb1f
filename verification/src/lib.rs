//! A handheld-console emulator core.
//!
//! - [`arm`] decodes, renders and interprets the ARM and Thumb instruction sets.
//! - [`emu_core`] holds the event timeline and the vocabulary of bus accesses.
//! - [`gba`] is the machine: bus, DMA, timers, interrupts, display, sound, cartridge.
//! - [`emulator`] is the console-agnostic facade a host drives.
//! - [`debug`] is the structured debug interface and its request protocol.
//! - [`bios`] takes a flat BIOS image out of an assembled object file.

pub mod arm;
pub mod bios;
pub mod bits;
pub mod debug;
pub mod emu_core;
pub mod emulator;
pub mod gba;
pub mod text;

//! A machine under the debugger, and what it is asked to tell.

use std::collections::HashMap;

use vstd::prelude::*;

use super::counts;
use super::readout::{Line, StackFrame};
use super::undisturbed;
use crate::arm::cpu::Mode;
use crate::emu_core::Timestamp;
use crate::emulator::{Console, Emulator};
use crate::gba::event::EventKind;
use crate::gba::ppu::debug::explain::{PixelExplanation, ScanlineExplanation};
use crate::gba::ppu::inspect::BackgroundSummary;
use crate::gba::ppu::registers::Registers;
use crate::gba::system::System;

verus! {

/// What the host records of the guest's memory accesses for the debugger.
pub struct Probes {
    /// How often each address was read, while reads are watched.
    pub read_watch: Option<HashMap<u32, u64>>,
    /// How often each address was written, while writes are watched.
    pub write_watch: Option<HashMap<u32, u64>>,
    /// The address whose next write is waited for.
    pub break_write_addr: Option<u32>,
    /// That address was written.
    pub write_hit: bool,
}

/// The counters of a watch, if it is on.
pub open spec fn watched(watch: Option<HashMap<u32, u64>>) -> Option<Map<u32, u64>> {
    match watch {
        Some(counts) => Some(counts@),
        None => None,
    }
}

/// The counters of a watch after an access to `addr`.
pub open spec fn noted(watch: Option<Map<u32, u64>>, addr: u32) -> Option<Map<u32, u64>> {
    match watch {
        Some(counts) => Some(counts::counted(counts, addr)),
        None => None,
    }
}

impl Probes {
    /// Nothing watched, nothing waited for.
    pub fn new() -> (probes: Self)
        ensures
            probes.read_watch is None,
            probes.write_watch is None,
            probes.break_write_addr is None,
            !probes.write_hit,
    {
        Probes { read_watch: None, write_watch: None, break_write_addr: None, write_hit: false }
    }

    /// The guest read `addr`.
    pub fn note_read(&mut self, addr: u32)
        ensures
            watched(final(self).read_watch) == noted(watched(old(self).read_watch), addr),
            final(self).write_watch == old(self).write_watch,
            final(self).break_write_addr == old(self).break_write_addr,
            final(self).write_hit == old(self).write_hit,
    {
        if let Some(counts) = &mut self.read_watch {
            counts::count(counts, addr);
        }
    }

    /// The guest wrote `addr`.
    pub fn note_write(&mut self, addr: u32)
        ensures
            watched(final(self).write_watch) == noted(watched(old(self).write_watch), addr),
            final(self).read_watch == old(self).read_watch,
            final(self).break_write_addr == old(self).break_write_addr,
            final(self).write_hit == (old(self).write_hit || old(self).break_write_addr == Some(
                addr,
            )),
    {
        if let Some(counts) = &mut self.write_watch {
            counts::count(counts, addr);
        }
        if let Some(waited) = self.break_write_addr {
            if waited == addr {
                self.write_hit = true;
            }
        }
    }
}

/// A machine under the debugger.
pub struct Session {
    pub emu: Emulator,
    pub probes: Probes,
}

impl Session {
    /// A machine, not yet watched.
    pub fn new(emu: Emulator) -> (session: Self)
        ensures
            session.emu == emu,
            session.probes.read_watch is None,
            session.probes.write_watch is None,
            session.probes.break_write_addr is None,
            !session.probes.write_hit,
    {
        Session { emu, probes: Probes::new() }
    }
}

/// A compact "where are we" summary returned by run commands.
#[derive(Clone, Copy, Debug, PartialEq, Eq, Structural)]
pub struct Summary {
    pub console: Console,
    pub frame: u64,
    pub pc: u32,
    pub video_mode: u8,
}

impl Summary {
    /// The summary of a machine.
    pub open spec fn of(system: System) -> Summary {
        Summary {
            console: Console::Gba,
            frame: system.gba.bus@.io.video.frame_counter,
            pc: system.cpu@.r[15],
            video_mode: (system.gba.bus@.io.video.registers.dispcnt % 8) as u8,
        }
    }
}

/// A compact "where are we" summary.
pub fn state_summary(system: &System) -> (summary: Summary)
    ensures
        summary == Summary::of(*system),
{
    Summary {
        console: Console::Gba,
        frame: system.gba.bus.io.video.frame(),
        pc: system.cpu.register(15),
        video_mode: system.gba.bus.io.video.current_mode(),
    }
}

/// What a request is answered.
pub enum Reply {
    /// The command was carried out and has nothing to tell.
    Done,
    Summary(Summary),
    /// Whether the program counter got where it was awaited, and how far it came.
    PcSearch { hit: bool, steps: u64, pc: u32 },
    /// Where the awaited write was made from, if it was made, and what the address holds.
    WriteSearch { writer_pc: Option<u32>, steps: u64, value: u32 },
    Registers { core: u64, r: [u32; 16], cpsr: u32, mode: Option<Mode> },
    Bytes { addr: u32, len: u32, base64: String },
    Value(u32),
    /// Addresses with their counts, highest first.
    Counts(Vec<(u32, u64)>),
    /// The watch that was asked for is off.
    NotWatching,
    Listing { thumb: bool, lines: Vec<Line> },
    CallStack { pc: u32, sp: u32, frames: Vec<StackFrame> },
    VideoState {
        engine: u64,
        mode: u8,
        dispcnt: u16,
        frame: u64,
        backgrounds: [BackgroundSummary; 4],
        registers: Registers,
    },
    Pixel { engine: u64, explanation: PixelExplanation },
    Scanline { engine: u64, y: u16, explanation: ScanlineExplanation },
    Events { now: Timestamp, count: usize, events: Vec<(u64, EventKind)> },
    Interrupts {
        core: u64,
        enabled: u32,
        flags: u32,
        master_enable: bool,
        pending: bool,
        line_asserted: bool,
    },
    /// The levels generated since they were last taken.
    Audio(Vec<i32>),
}

/// The session's machine is as it was, and so are its probes.
pub open spec fn kept(before: Session, after: Session) -> bool {
    &&& undisturbed(before.emu.gba(), after.emu.gba())
    &&& after.probes == before.probes
}

} // verus!

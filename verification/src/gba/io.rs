//! The memory-mapped I/O subsystem (`04000000h` region).
//!
//! The bus decodes an address to a region; when that region is I/O, it hands off
//! here. Registers are dispatched at 16-bit granularity - most GBA registers are
//! 16-bit - with a write *mask* so that 8-, 16-, and 32-bit accesses all compose
//! correctly over read-only bits, write-1-to-clear bits (`IF`), and unused bits.
//!
//! Other I/O reads as zero and ignores writes.

use vstd::prelude::*;

use super::apu::{Apu, ApuState};
use super::dma::{self, Dma, DmaChannel};
use super::event::EventKind;
use super::interrupt::InterruptController;
use super::ppu::registers::Registers;
use super::ppu::{Ppu, PpuState};
use super::timer::{Timer, TimerId, Timers};
use crate::emu_core::scheduler::Timeline;
use crate::emu_core::{AccessWidth, Scheduler, Timestamp};

verus! {

/// The CPU power state, set via `HALTCNT`.
#[derive(Clone, Copy, Debug, PartialEq, Eq, Structural)]
pub enum PowerState {
    Running,
    /// Halt: paused until any enabled interrupt is pending (`IE & IF`).
    Halted,
    /// Stop: woken only by keypad, gamepak, or serial interrupts.
    Stopped,
}

impl Default for PowerState {
    fn default() -> (power: Self)
        ensures
            power == PowerState::Running,
    {
        PowerState::Running
    }
}

/// Interrupt sources that terminate Stop mode: keypad, gamepak, serial.
pub const STOP_WAKE_MASK: u16 = 0x1000 | 0x2000 | 0x0080;

/// System-control registers: `HALTCNT` power state, `WAITCNT`, `POSTFLG`.
#[derive(Clone, Copy, Debug, PartialEq, Eq, Structural)]
pub struct SystemControl {
    pub power: PowerState,
    pub waitcnt: u16,
    pub postflg: u8,
}

impl Default for SystemControl {
    fn default() -> (control: Self)
        ensures
            control == SystemControl::initial(),
    {
        SystemControl { power: PowerState::Running, waitcnt: 0, postflg: 0 }
    }
}

impl SystemControl {
    /// Running, with the reset wait states.
    pub open spec fn initial() -> SystemControl {
        SystemControl { power: PowerState::Running, waitcnt: 0, postflg: 0 }
    }

    /// The CPU power state.
    #[verifier::allow_in_spec]
    pub fn power(&self) -> PowerState
        returns
            self.power,
    {
        self.power
    }

    /// `WAITCNT` (`4000204h`) - the gamepak wait-state configuration.
    #[verifier::allow_in_spec]
    pub fn waitcnt(&self) -> u16
        returns
            self.waitcnt,
    {
        self.waitcnt
    }

    /// The control registers after a write to `HALTCNT`.
    pub open spec fn halted(self, value: u8) -> SystemControl {
        SystemControl {
            power: if value & 0x80 != 0 {
                PowerState::Stopped
            } else {
                PowerState::Halted
            },
            ..self
        }
    }

    /// Write `HALTCNT`: bit 7 selects Halt (0) or Stop (1).
    pub fn write_haltcnt(&mut self, value: u8)
        ensures
            *final(self) == old(self).halted(value),
    {
        self.power = if value & 0x80 != 0 {
            PowerState::Stopped
        } else {
            PowerState::Halted
        };
    }

    /// Resume normal execution.
    pub fn wake(&mut self)
        ensures
            *final(self) == (SystemControl { power: PowerState::Running, ..*old(self) }),
    {
        self.power = PowerState::Running;
    }
}

/// The memory-mapped devices.
#[derive(Clone, Debug)]
pub struct Io {
    pub control: SystemControl,
    pub irq: InterruptController,
    pub timers: Timers,
    pub dma: Dma,
    pub video: Ppu,
    pub apu: Apu,
}

/// What the memory-mapped devices stand for.
#[verifier::ext_equal]
pub struct IoState {
    pub control: SystemControl,
    pub irq: InterruptController,
    pub timers: Seq<Timer>,
    pub dma: Seq<DmaChannel>,
    pub video: PpuState,
    pub apu: ApuState,
}

impl View for Io {
    type V = IoState;

    open spec fn view(&self) -> IoState {
        IoState {
            control: self.control,
            irq: self.irq,
            timers: self.timers.timers@,
            dma: self.dma.channels@,
            video: self.video@,
            apu: self.apu@,
        }
    }
}

impl Default for Io {
    fn default() -> (io: Self)
        ensures
            io@.valid(),
            io@.is_initial(),
    {
        Io {
            control: SystemControl::default(),
            irq: InterruptController::default(),
            timers: Timers::default(),
            dma: Dma::default(),
            video: Ppu::default(),
            apu: Apu::default(),
        }
    }
}

/// The timer whose register block begins at `base` and is addressed by `offset`
/// (blocks are 4 bytes apart).
#[verifier::allow_in_spec]
pub fn timer_at(offset: u32, base: u32) -> TimerId
    requires
        base <= offset,
    returns
        TimerId::from_index(((offset - base) as u32 / 4) as usize),
{
    TimerId::from_index(((offset - base) / 4) as usize)
}

impl IoState {
    /// Every device in its reset state.
    pub open spec fn is_initial(self) -> bool {
        &&& self.control == SystemControl::initial()
        &&& self.irq == InterruptController::off()
        &&& self.timers == Timers::all_stopped()
        &&& self.dma == Dma::idle()
        &&& self.video.is_initial()
        &&& self.apu.is_initial()
    }

    /// Every device is in a valid state.
    pub open spec fn valid(self) -> bool {
        &&& self.timers.len() == 4
        &&& Dma::numbered(self.dma)
        &&& self.video.valid()
    }

    /// Whether a pending interrupt should wake the CPU from low power.
    pub open spec fn should_wake(self) -> bool {
        match self.control.power {
            PowerState::Running => false,
            PowerState::Halted => self.irq.pending(),
            PowerState::Stopped => self.irq.pending_within(STOP_WAKE_MASK),
        }
    }

    /// What the register halfword at `offset` reads as.
    pub open spec fn register(self, offset: u32, now: Timestamp) -> u16 {
        if offset == 0x000 {
            self.video.registers.dispcnt
        } else if offset == 0x004 {
            self.video.timing.dispstat() as u16
        } else if offset == 0x006 {
            self.video.timing.vcount
        } else if 0x0B0 <= offset <= 0x0DF {
            Dma::register(self.dma, offset)
        } else if offset == 0x100 || offset == 0x104 || offset == 0x108 || offset == 0x10C {
            let id = timer_at(offset, 0x100);
            self.timers[id.index() as int].count_at(id, now)
        } else if offset == 0x102 || offset == 0x106 || offset == 0x10A || offset == 0x10E {
            self.timers[timer_at(offset, 0x102).index() as int].control
        } else if offset == 0x200 {
            self.irq.ie
        } else if offset == 0x202 {
            self.irq.iflags
        } else if offset == 0x204 {
            self.control.waitcnt
        } else if offset == 0x208 {
            if self.irq.ime {
                1
            } else {
                0
            }
        } else if offset == 0x300 {
            self.control.postflg as u16
        } else {
            0
        }
    }

    /// What a read of the I/O region yields: the bytes of the registers it spans.
    #[verifier::opaque]
    pub open spec fn read(self, offset: u32, width: AccessWidth, now: Timestamp) -> u32 {
        match width {
            AccessWidth::Byte => if offset % 2 == 0 {
                (self.register(offset, now) % 256) as u32
            } else {
                (self.register((offset - 1) as u32, now) / 256) as u32
            },
            AccessWidth::Half => self.register(offset, now) as u32,
            AccessWidth::Word => (self.register(offset, now) + self.register(
                (offset + 2) as u32,
                now,
            ) * 0x1_0000) as u32,
        }
    }

    /// A register written without any effect on the timeline.
    pub open spec fn plainly_written(self, offset: u32, value: u16, mask: u16) -> IoState {
        if offset == 0x000 {
            IoState {
                video: PpuState {
                    registers: Registers {
                        dispcnt: dma::merge16(self.video.registers.dispcnt, value, mask),
                        ..self.video.registers
                    },
                    ..self.video
                },
                ..self
            }
        } else if offset == 0x004 {
            IoState {
                video: PpuState {
                    timing: self.video.timing.dispstat_written(
                        dma::merge16(self.video.timing.dispstat() as u16, value, mask),
                    ),
                    ..self.video
                },
                ..self
            }
        } else if 0x0B0 <= offset <= 0x0DF {
            IoState { dma: Dma::written(self.dma, offset, value, mask), ..self }
        } else if offset == 0x100 || offset == 0x104 || offset == 0x108 || offset == 0x10C {
            let i = timer_at(offset, 0x100).index() as int;
            IoState {
                timers: self.timers.update(
                    i,
                    Timer {
                        reload: dma::merge16(self.timers[i].reload, value, mask),
                        ..self.timers[i]
                    },
                ),
                ..self
            }
        } else if offset == 0x200 {
            IoState {
                irq: InterruptController { ie: dma::merge16(self.irq.ie, value, mask), ..self.irq },
                ..self
            }
        } else if offset == 0x202 {
            IoState { irq: self.irq.acknowledged(value & mask), ..self }
        } else {
            self.control_written(offset, value, mask)
        }
    }

    /// A system-control register written.
    pub open spec fn control_written(self, offset: u32, value: u16, mask: u16) -> IoState {
        if offset == 0x204 {
            IoState {
                control: SystemControl {
                    waitcnt: dma::merge16(self.control.waitcnt, value, mask),
                    ..self.control
                },
                ..self
            }
        } else if offset == 0x208 {
            if mask & 1 != 0 {
                IoState {
                    irq: InterruptController { ime: value & 1 != 0, ..self.irq },
                    ..self
                }
            } else {
                self
            }
        } else if offset == 0x300 {
            let posted = if mask & 0x00FF != 0 {
                SystemControl { postflg: (value % 256) as u8, ..self.control }
            } else {
                self.control
            };
            IoState {
                control: if mask & 0xFF00 != 0 {
                    posted.halted((value / 256) as u8)
                } else {
                    posted
                },
                ..self
            }
        } else {
            self
        }
    }

    /// The devices and the timeline after a masked register write, and whether the
    /// write may have changed the next deadline; `None` past the end of the
    /// timeline.
    pub open spec fn register_written(
        self,
        offset: u32,
        value: u16,
        mask: u16,
        timeline: Timeline<EventKind>,
    ) -> Option<(IoState, Timeline<EventKind>, bool)> {
        if offset == 0x102 || offset == 0x106 || offset == 0x10A || offset == 0x10E {
            let id = timer_at(offset, 0x102);
            let i = id.index() as int;
            let timer = self.timers[i].controlled(
                id,
                dma::merge16(self.timers[i].control, value, mask),
                timeline.now,
            );
            match timer.predicted(id, timeline) {
                Some(after) => Some(
                    (IoState { timers: self.timers.update(i, timer), ..self }, after, true),
                ),
                None => None,
            }
        } else {
            Some((self.plainly_written(offset, value, mask), timeline, false))
        }
    }

    /// The devices and the timeline after a write to the I/O region. A wide write
    /// goes to the registers it spans, low one first.
    #[verifier::opaque]
    pub open spec fn written(
        self,
        offset: u32,
        width: AccessWidth,
        value: u32,
        timeline: Timeline<EventKind>,
    ) -> Option<(IoState, Timeline<EventKind>, bool)> {
        match width {
            AccessWidth::Byte => if offset % 2 == 0 {
                self.register_written(offset, (value % 256) as u16, 0x00FF, timeline)
            } else {
                self.register_written(
                    (offset - 1) as u32,
                    (value % 256 * 256) as u16,
                    0xFF00,
                    timeline,
                )
            },
            AccessWidth::Half => self.register_written(
                offset,
                (value % 0x1_0000) as u16,
                0xFFFF,
                timeline,
            ),
            AccessWidth::Word => match self.register_written(
                offset,
                (value % 0x1_0000) as u16,
                0xFFFF,
                timeline,
            ) {
                Some((low, low_timeline, low_changed)) => match low.register_written(
                    (offset + 2) as u32,
                    (value / 0x1_0000) as u16,
                    0xFFFF,
                    low_timeline,
                ) {
                    Some((high, high_timeline, high_changed)) => Some(
                        (high, high_timeline, low_changed || high_changed),
                    ),
                    None => None,
                },
                None => None,
            },
        }
    }
}

impl Io {
    /// Every device in its reset state.
    pub fn new() -> (io: Self)
        ensures
            io@.valid(),
            io@.is_initial(),
    {
        Self::default()
    }

    // --- power / halt ---

    /// The CPU power state.
    pub fn power_state(&self) -> (power: PowerState)
        ensures
            power == self@.control.power,
    {
        self.control.power()
    }

    /// Whether the CPU is halted or stopped.
    pub fn is_low_power(&self) -> (low: bool)
        ensures
            low == (self@.control.power != PowerState::Running),
    {
        self.control.power() != PowerState::Running
    }

    /// Whether a pending interrupt should wake the CPU from low power.
    pub fn should_wake(&self) -> (wake: bool)
        ensures
            wake == self@.should_wake(),
    {
        match self.control.power() {
            PowerState::Running => false,
            PowerState::Halted => self.irq.pending(),
            PowerState::Stopped => self.irq.pending_within(STOP_WAKE_MASK),
        }
    }

    /// Resume normal execution.
    pub fn wake(&mut self)
        ensures
            final(self)@ == (IoState {
                control: SystemControl { power: PowerState::Running, ..old(self)@.control },
                ..old(self)@
            }),
            old(self)@.valid() ==> final(self)@.valid(),
    {
        self.control.wake();
    }

    // --- MMIO access, composed from 16-bit registers ---

    /// Read `width` bytes of I/O at `offset` (relative to `04000000h`).
    pub fn read(&self, offset: u32, width: AccessWidth, now: Timestamp) -> (value: u32)
        requires
            self@.valid(),
            width == AccessWidth::Word ==> offset + 2 <= u32::MAX,
        ensures
            value == self@.read(offset, width, now),
    {
        reveal(IoState::read);
        match width {
            AccessWidth::Byte => {
                if offset % 2 == 0 {
                    (self.read16(offset, now) % 256) as u32
                } else {
                    (self.read16(offset - 1, now) / 256) as u32
                }
            },
            AccessWidth::Half => self.read16(offset, now) as u32,
            AccessWidth::Word => {
                self.read16(offset, now) as u32 + self.read16(offset + 2, now) as u32 * 0x1_0000
            },
        }
    }

    /// Write `width` bytes of I/O at `offset`. Returns whether the scheduler's
    /// next deadline may have changed.
    pub fn write(
        &mut self,
        offset: u32,
        width: AccessWidth,
        value: u32,
        scheduler: &mut Scheduler<EventKind>,
    ) -> (changed: bool)
        requires
            old(self)@.valid(),
            old(scheduler)@.valid(),
            width == AccessWidth::Word ==> offset + 2 <= u32::MAX,
            old(self)@.written(offset, width, value, old(scheduler)@) is Some,
        ensures
            final(self)@.valid(),
            final(scheduler)@.valid(),
            old(self)@.written(offset, width, value, old(scheduler)@) == Some(
                (final(self)@, final(scheduler)@, changed),
            ),
    {
        reveal(IoState::written);
        match width {
            AccessWidth::Byte => {
                let byte: u16 = (value % 256) as u16;
                if offset % 2 == 0 {
                    self.write16(offset, byte, 0x00FF, scheduler)
                } else {
                    self.write16(offset - 1, byte * 256, 0xFF00, scheduler)
                }
            },
            AccessWidth::Half => self.write16(
                offset,
                (value % 0x1_0000) as u16,
                0xFFFF,
                scheduler,
            ),
            AccessWidth::Word => {
                let low = self.write16(offset, (value % 0x1_0000) as u16, 0xFFFF, scheduler);
                let high = self.write16(offset + 2, (value / 0x1_0000) as u16, 0xFFFF, scheduler);
                low || high
            },
        }
    }

    fn read16(&self, offset: u32, now: Timestamp) -> (value: u16)
        requires
            self@.valid(),
        ensures
            value == self@.register(offset, now),
    {
        match offset {
            0x000 => self.video.read_dispcnt(),
            0x004 => self.video.read_dispstat(),
            0x006 => self.video.read_vcount(),
            0x100 | 0x104 | 0x108 | 0x10C => self.timers.read_counter(timer_at(offset, 0x100), now),
            0x102 | 0x106 | 0x10A | 0x10E => self.timers.read_control(timer_at(offset, 0x102)),
            0x200 => self.irq.ie(),
            0x202 => self.irq.iflags(),
            0x204 => self.control.waitcnt(),
            0x208 => if self.irq.ime() {
                1
            } else {
                0
            },
            // POSTFLG (low byte); HALTCNT (high byte) is write-only.
            0x300 => self.control.postflg as u16,
            _ => if 0x0B0 <= offset && offset <= 0x0DF {
                self.dma.read_register(offset)
            } else {
                0
            },
        }
    }

    /// Apply a masked 16-bit write to the register at `offset`. Returns whether
    /// scheduling may have changed.
    fn write16(
        &mut self,
        offset: u32,
        value: u16,
        mask: u16,
        scheduler: &mut Scheduler<EventKind>,
    ) -> (changed: bool)
        requires
            old(self)@.valid(),
            old(scheduler)@.valid(),
            old(self)@.register_written(offset, value, mask, old(scheduler)@) is Some,
        ensures
            final(self)@.valid(),
            final(scheduler)@.valid(),
            old(self)@.register_written(offset, value, mask, old(scheduler)@) == Some(
                (final(self)@, final(scheduler)@, changed),
            ),
    {
        match offset {
            0x000 => {
                let merged: u16 = dma::merge16(self.video.read_dispcnt(), value, mask);
                self.video.write_dispcnt(merged);
                false
            },
            0x004 => {
                let merged: u16 = dma::merge16(self.video.read_dispstat(), value, mask);
                self.video.write_dispstat(merged);
                false
            },
            // 0x006 VCOUNT is read-only.
            0x100 | 0x104 | 0x108 | 0x10C => {
                let id = timer_at(offset, 0x100);
                let merged: u16 = dma::merge16(self.timers.read_reload(id), value, mask);
                self.timers.write_reload(id, merged);
                false
            },
            0x102 | 0x106 | 0x10A | 0x10E => {
                let id = timer_at(offset, 0x102);
                let merged: u16 = dma::merge16(self.timers.read_control(id), value, mask);
                let now: Timestamp = scheduler.now();
                self.timers.write_control(id, merged, now, scheduler);
                // A timer control write can (re)schedule an overflow.
                true
            },
            0x200 => {
                let merged: u16 = dma::merge16(self.irq.ie(), value, mask);
                self.irq.set_ie(merged);
                false
            },
            // IF is write-1-to-clear: masking keeps a partial-width write from
            // touching the other byte.
            0x202 => {
                self.irq.acknowledge(value & mask);
                false
            },
            _ => {
                if 0x0B0 <= offset && offset <= 0x0DF {
                    // The transfer itself is run by the bus after this returns.
                    self.dma.write_register(offset, value, mask);
                } else {
                    self.write_control_register(offset, value, mask);
                }
                false
            },
        }
    }

    fn write_control_register(&mut self, offset: u32, value: u16, mask: u16)
        requires
            old(self)@.valid(),
        ensures
            final(self)@.valid(),
            final(self)@ == old(self)@.control_written(offset, value, mask),
    {
        match offset {
            0x204 => self.control.waitcnt = dma::merge16(self.control.waitcnt, value, mask),
            0x208 => if mask & 1 != 0 {
                self.irq.set_ime(value & 1 != 0);
            },
            0x300 => {
                if mask & 0x00FF != 0 {
                    self.control.postflg = (value % 256) as u8;
                }
                if mask & 0xFF00 != 0 {
                    self.control.write_haltcnt((value / 256) as u8);
                }
            },
            _ => {},
        }
    }
}

/// `VCOUNT` is read-only: writing it changes nothing.
pub proof fn vcount_is_read_only(io: IoState, value: u16, mask: u16, timeline: Timeline<EventKind>)
    ensures
        io.register_written(0x006, value, mask, timeline) == Some((io, timeline, false)),
{
}

/// The CPU never wakes while it is running, and a Stop wakes on no more than a Halt
/// does.
pub proof fn stop_is_deeper_than_halt(io: IoState)
    requires
        io.should_wake(),
    ensures
        io.control.power != PowerState::Running,
        io.irq.pending(),
{
    super::interrupt::stop_wakes_less_than_halt(io.irq, STOP_WAKE_MASK);
}

proof fn lemma_byte_masks(current: u16, value: u16)
    by (bit_vector)
    ensures
        ((current & !0x00FFu16) | (value & 0x00FF)) / 256 == current / 256,
        ((current & !0x00FFu16) | (value & 0x00FF)) % 256 == value % 256,
        ((current & !0xFF00u16) | (value & 0xFF00)) % 256 == current % 256,
        ((current & !0xFF00u16) | (value & 0xFF00)) / 256 == value / 256,
        ((current & !0x00FFu16) | (value & 0x00FF)) & 0x00C7 == value & 0x00C7,
        ((current & !0xFF00u16) | (value & 0xFF00)) & 0x00C7 == current & 0x00C7,
{
}

/// The registers that read back every bit that was written: `DISPCNT`, the DMA controls,
/// `IE` and `WAITCNT`.
pub open spec fn reads_back(offset: u32) -> bool {
    offset == 0x000 || offset == 0x0BA || offset == 0x0C6 || offset == 0x0D2 || offset == 0x0DE
        || offset == 0x200 || offset == 0x204
}

/// A byte write touches only its byte: of a register that reads back what was written,
/// the other byte stays as it was, and so does what every other register reads as.
#[verifier::spinoff_prover]
pub proof fn byte_write_touches_only_its_byte(
    io: IoState,
    offset: u32,
    value: u32,
    now: Timestamp,
    timeline: Timeline<EventKind>,
)
    requires
        io.valid(),
        reads_back(offset),
    ensures
        io.written(offset, AccessWidth::Byte, value, timeline) matches Some((after, _, _)) && {
            &&& after.register(offset, now) as int % 256 == value % 256
            &&& after.register(offset, now) / 256 == io.register(offset, now) / 256
            &&& forall|other: u32|
                other != offset ==> #[trigger] after.register(other, now) == io.register(other, now)
        },
        io.written((offset + 1) as u32, AccessWidth::Byte, value, timeline) matches Some(
            (after, _, _),
        ) && {
            &&& after.register(offset, now) as int / 256 == value % 256
            &&& after.register(offset, now) % 256 == io.register(offset, now) % 256
            &&& forall|other: u32|
                other != offset ==> #[trigger] after.register(other, now) == io.register(other, now)
        },
{
    reveal(IoState::written);
    lemma_byte_masks(io.register(offset, now), (value % 256) as u16);
    lemma_byte_masks(io.register(offset, now), (value % 256 * 256) as u16);
}

proof fn lemma_enables_are_low(m: int)
    requires
        0 <= m,
    ensures
        (m / 8) % 8 == (m % 256 / 8) % 8,
{
    assert(m == m / 256 * 256 + m % 256);
    assert(m / 8 == m / 256 * 32 + m % 256 / 8);
}

proof fn lemma_dispstat_merged(timing: super::ppu::timing::TimingState, merged: u16)
    requires
        timing.valid(),
    ensures
        ({
            let after = timing.dispstat_written(merged).dispstat();
            &&& 0 <= after < 0x1_0000
            &&& after / 256 == merged as int / 256
            &&& (after / 8) % 8 == (merged as int % 256 / 8) % 8
        }),
{
    super::ppu::timing::dispstat_control_bits_round_trip(timing, merged);
    lemma_enables_are_low(merged as int);
}

/// Of `DISPSTAT`, a write of the low byte keeps the V-count target, and one of the high
/// byte the interrupt enables.
#[verifier::spinoff_prover]
pub proof fn dispstat_bytes_are_independent(
    io: IoState,
    value: u32,
    now: Timestamp,
    timeline: Timeline<EventKind>,
)
    requires
        io.valid(),
    ensures
        io.written(0x004, AccessWidth::Byte, value, timeline) matches Some((after, _, _)) && {
            &&& after.register(0x004, now) / 256 == io.register(0x004, now) / 256
            &&& (after.register(0x004, now) as int / 8) % 8 == (value as int % 256 / 8) % 8
        },
        io.written(0x005, AccessWidth::Byte, value, timeline) matches Some((after, _, _)) && {
            &&& after.register(0x004, now) as int / 256 == value % 256
            &&& (after.register(0x004, now) / 8) % 8 == (io.register(0x004, now) / 8) % 8
        },
{
    let timing = io.video.timing;
    let current = io.register(0x004, now);
    let low = (value % 256) as u16;
    let high = (value % 256 * 256) as u16;
    lemma_byte_masks(current, low);
    lemma_byte_masks(current, high);
    lemma_dispstat_merged(timing, dma::merge16(current, low, 0x00FF));
    lemma_dispstat_merged(timing, dma::merge16(current, high, 0xFF00));
    lemma_enables_are_low(current as int);
    assert(io.written(0x004, AccessWidth::Byte, value, timeline) == Some(
        (io.plainly_written(0x004, low, 0x00FF), timeline, false),
    )) by {
        reveal(IoState::written);
    }
    assert(io.written(0x005, AccessWidth::Byte, value, timeline) == Some(
        (io.plainly_written(0x004, high, 0xFF00), timeline, false),
    )) by {
        reveal(IoState::written);
    }
}

/// The control of a timer is its low byte: a byte write there replaces it, and one to the
/// high byte keeps it.
#[verifier::spinoff_prover]
pub proof fn timer_control_is_one_byte(
    io: IoState,
    timer: u32,
    value: u32,
    now: Timestamp,
    timeline: Timeline<EventKind>,
)
    requires
        io.valid(),
        timer < 4,
    ensures
        ({
            let offset = (0x102 + 4 * timer) as u32;
            &&& io.written(offset, AccessWidth::Byte, value, timeline) matches Some((after, _, _))
                ==> after.register(offset, now) == (value % 256) as u16 & 0x00C7
            &&& io.written((offset + 1) as u32, AccessWidth::Byte, value, timeline) matches Some(
                (after, _, _),
            ) ==> after.register(offset, now) == io.register(offset, now) & 0x00C7
        }),
{
    reveal(IoState::written);
    let offset = (0x102 + 4 * timer) as u32;
    lemma_byte_masks(io.register(offset, now), (value % 256) as u16);
    lemma_byte_masks(io.register(offset, now), (value % 256 * 256) as u16);
    assert(timer_at(offset, 0x102).index() == timer);
}

} // verus!

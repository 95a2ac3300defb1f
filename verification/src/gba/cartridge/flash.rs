//! Flash backup memory (64 KiB / 128 KiB) and its command protocol.
//!
//! Unlike SRAM, Flash is driven by a command state machine: the game writes an
//! unlock sequence (`0xAA` to `0x5555`, `0x55` to `0x2AAA`) followed by a command
//! byte to `0x5555`. Commands select chip-identify mode, program a byte, erase a
//! 4 KiB sector or the whole chip, or - on 128 KiB parts - switch which 64 KiB
//! bank the region maps. Reads return either the stored data or, in identify
//! mode, the manufacturer/device ID that games probe to learn the chip size.

use vstd::prelude::*;

use super::chip;

verus! {

/// A 4 KiB erase sector.
pub const SECTOR_SIZE: usize = 0x1000;

/// One bank is 64 KiB.
pub const BANK_SIZE: usize = 0x1_0000;

#[derive(Clone, Copy, Debug, PartialEq, Eq, Structural)]
pub enum FlashSize {
    /// 64 KiB, one bank.
    K64,
    /// 128 KiB, two banks selected by the bank command.
    K128,
}

impl FlashSize {
    /// The chip size in bytes.
    #[verifier::allow_in_spec]
    pub fn bytes(self) -> usize
        returns
            (match self {
                FlashSize::K64 => 0x1_0000usize,
                FlashSize::K128 => 0x2_0000usize,
            }),
    {
        match self {
            FlashSize::K64 => 0x1_0000,
            FlashSize::K128 => 0x2_0000,
        }
    }

    /// (manufacturer, device) ID reported in identify mode. These match the parts
    /// emulators conventionally present for each size (Panasonic 64K, Sanyo 128K),
    /// which is what games check to size their saves.
    #[verifier::allow_in_spec]
    pub fn chip_id(self) -> (u8, u8)
        returns
            (match self {
                FlashSize::K64 => (0x32u8, 0x1Bu8),
                FlashSize::K128 => (0x62u8, 0x13u8),
            }),
    {
        match self {
            FlashSize::K64 => (0x32, 0x1B),  // Panasonic MN63F805MNP
            FlashSize::K128 => (0x62, 0x13),  // Sanyo LE26FV10N1TS
        }
    }
}

/// Where the command state machine is between the pieces of a multi-write command.
#[derive(Clone, Copy, Debug, PartialEq, Eq, Structural)]
pub enum Phase {
    /// Awaiting the first unlock write (`0xAA` to `0x5555`).
    Ready,
    /// Saw `0xAA` to `0x5555`; awaiting `0x55` to `0x2AAA`.
    Unlock,
    /// Unlocked; awaiting a command byte at `0x5555`.
    Command,
    /// After command `0xA0`: the next write programs a data byte.
    WriteByte,
    /// After command `0xB0`: the next write to `0x0000` selects the bank.
    BankSelect,
}

#[derive(Clone, Debug)]
pub struct Flash {
    data: Vec<u8>,
    size: FlashSize,
    phase: Phase,
    /// True while an erase command is mid-sequence (a second unlock is required
    /// before the erase target is written).
    erase_armed: bool,
    /// Identify (autoselect) mode: reads return the chip ID.
    id_mode: bool,
    /// Active 64 KiB bank (128 KiB parts only).
    bank: usize,
    dirty: bool,
}

/// What a Flash chip holds, and where its command state machine is.
#[verifier::ext_equal]
pub struct FlashState {
    pub data: Seq<u8>,
    pub size: FlashSize,
    pub phase: Phase,
    pub erase_armed: bool,
    pub id_mode: bool,
    pub bank: int,
    pub dirty: bool,
}

impl View for Flash {
    type V = FlashState;

    closed spec fn view(&self) -> FlashState {
        FlashState {
            data: self.data@,
            size: self.size,
            phase: self.phase,
            erase_armed: self.erase_armed,
            id_mode: self.id_mode,
            bank: self.bank as int,
            dirty: self.dirty,
        }
    }
}

impl FlashState {
    /// An erased chip.
    pub open spec fn blank(size: FlashSize) -> FlashState {
        FlashState {
            data: Seq::new(size.bytes() as nat, |i: int| 0xFFu8),
            size,
            phase: Phase::Ready,
            erase_armed: false,
            id_mode: false,
            bank: 0,
            dirty: false,
        }
    }

    /// The chip has its size, and only a 128 KiB part has a second bank.
    pub open spec fn valid(self) -> bool {
        &&& self.data.len() == self.size.bytes()
        &&& 0 <= self.bank <= 1
        &&& self.size == FlashSize::K64 ==> self.bank == 0 && self.phase != Phase::BankSelect
    }

    /// The byte of the chip that an address names in the active bank.
    pub open spec fn offset(self, addr: u32) -> int {
        self.bank * 0x1_0000 + addr as int % 0x1_0000
    }

    /// A read: the chip ID in identify mode, else the stored byte.
    pub open spec fn read(self, addr: u32) -> u8 {
        if self.id_mode {
            if addr % 2 == 0 {
                self.size.chip_id().0
            } else {
                self.size.chip_id().1
            }
        } else {
            self.data[self.offset(addr)]
        }
    }

    /// Back to awaiting an unlock, with no erase in progress.
    pub open spec fn idle(self) -> FlashState {
        FlashState { phase: Phase::Ready, erase_armed: false, ..self }
    }

    /// Bytes erased, which leaves the chip unsaved.
    pub open spec fn erased(self, start: int, end: int) -> FlashState {
        FlashState {
            data: chip::erased_range(self.data, start, end),
            dirty: true,
            ..self.idle()
        }
    }

    /// A command byte after an unlock.
    pub open spec fn commanded(self, addr: u32, cmd: u8) -> FlashState {
        if cmd == 0x90 {
            FlashState { id_mode: true, phase: Phase::Ready, ..self }
        } else if cmd == 0xF0 {
            FlashState { id_mode: false, phase: Phase::Ready, ..self }
        } else if cmd == 0xA0 {
            FlashState { phase: Phase::WriteByte, ..self }
        } else if cmd == 0xB0 && self.size == FlashSize::K128 {
            FlashState { phase: Phase::BankSelect, ..self }
        } else if cmd == 0x80 {
            FlashState { erase_armed: true, phase: Phase::Ready, ..self }
        } else if cmd == 0x10 && self.erase_armed {
            self.erased(0, self.data.len() as int)
        } else if cmd == 0x30 && self.erase_armed {
            let base = self.offset(addr) - self.offset(addr) % 0x1000;
            self.erased(base, base + 0x1000)
        } else {
            self.idle()
        }
    }

    /// A write. A stray write breaks the command sequence.
    pub open spec fn written(self, addr: u32, value: u8) -> FlashState {
        let cmd_addr = addr as int % 0x1_0000;
        match self.phase {
            Phase::WriteByte => FlashState {
                data: self.data.update(self.offset(addr), value),
                dirty: self.dirty || self.data[self.offset(addr)] != value,
                phase: Phase::Ready,
                ..self
            },
            Phase::BankSelect => FlashState {
                bank: if cmd_addr == 0 {
                    value as int % 2
                } else {
                    self.bank
                },
                phase: Phase::Ready,
                ..self
            },
            Phase::Command => self.commanded(addr, value),
            Phase::Ready => if cmd_addr == 0x5555 && value == 0xAA {
                FlashState { phase: Phase::Unlock, ..self }
            } else {
                self.idle()
            },
            Phase::Unlock => if cmd_addr == 0x2AAA && value == 0x55 {
                FlashState { phase: Phase::Command, ..self }
            } else {
                self.idle()
            },
        }
    }
}

impl Flash {
    /// An erased chip.
    pub fn new(size: FlashSize) -> (flash: Self)
        ensures
            flash@ == FlashState::blank(size),
            flash@.valid(),
    {
        Flash {
            data: chip::erased(size.bytes()),
            size,
            phase: Phase::Ready,
            erase_armed: false,
            id_mode: false,
            bank: 0,
            dirty: false,
        }
    }

    #[inline]
    fn offset(&self, addr: u32) -> (offset: usize)
        requires
            self@.valid(),
        ensures
            offset == self@.offset(addr),
            offset < self@.data.len(),
    {
        self.bank * BANK_SIZE + addr as usize % BANK_SIZE
    }

    /// Read a byte: stored data, or the chip ID in identify mode.
    pub fn read8(&self, addr: u32) -> (value: u8)
        requires
            self@.valid(),
        ensures
            value == self@.read(addr),
    {
        if self.id_mode {
            let (manufacturer, device) = self.size.chip_id();
            if addr % 2 == 0 {
                manufacturer
            } else {
                device
            }
        } else {
            self.data[self.offset(addr)]
        }
    }

    /// Write a byte, which advances the command state machine.
    pub fn write8(&mut self, addr: u32, value: u8)
        requires
            old(self)@.valid(),
        ensures
            final(self)@ == old(self)@.written(addr, value),
            final(self)@.valid(),
    {
        let cmd_addr: u32 = addr % 0x1_0000;
        match self.phase {
            Phase::WriteByte => {
                // Program a single byte, then return to idle.
                let i: usize = self.offset(addr);
                if self.data[i] != value {
                    self.data[i] = value;
                    self.dirty = true;
                }
                self.phase = Phase::Ready;
            },
            Phase::BankSelect => {
                if cmd_addr == 0x0000 {
                    self.bank = value as usize % 2;
                }
                self.phase = Phase::Ready;
            },
            // Unlock sequence + command decode. Most commands are written to
            // `0x5555`, but a sector erase (`0x30`) is written to the target
            // sector's address, so the command phase accepts any address and lets
            // the value disambiguate.
            Phase::Command => self.run_command(addr, value),
            Phase::Ready => {
                if cmd_addr == 0x5555 && value == 0xAA {
                    self.phase = Phase::Unlock;
                } else {
                    self.erase_armed = false;
                }
            },
            Phase::Unlock => {
                if cmd_addr == 0x2AAA && value == 0x55 {
                    self.phase = Phase::Command;
                } else {
                    // Any other write breaks the sequence.
                    self.phase = Phase::Ready;
                    self.erase_armed = false;
                }
            },
        }
    }

    fn run_command(&mut self, addr: u32, cmd: u8)
        requires
            old(self)@.valid(),
        ensures
            final(self)@ == old(self)@.commanded(addr, cmd),
            final(self)@.valid(),
    {
        if cmd == 0x90 {
            self.id_mode = true;
            self.phase = Phase::Ready;
        } else if cmd == 0xF0 {
            self.id_mode = false;
            self.phase = Phase::Ready;
        } else if cmd == 0xA0 {
            self.phase = Phase::WriteByte;
        } else if cmd == 0xB0 && self.size == FlashSize::K128 {
            self.phase = Phase::BankSelect;
        } else if cmd == 0x80 {
            // Erase setup: a second unlock sequence follows, ending in the
            // erase target (chip `0x10` at `0x5555`, or sector `0x30`).
            self.erase_armed = true;
            self.phase = Phase::Ready;
        } else if cmd == 0x10 && self.erase_armed {
            let end: usize = self.data.len();
            chip::erase_range(&mut self.data, 0, end);
            self.dirty = true;
            self.erase_armed = false;
            self.phase = Phase::Ready;
        } else if cmd == 0x30 && self.erase_armed {
            let offset: usize = self.offset(addr);
            let base: usize = offset - offset % SECTOR_SIZE;
            chip::erase_range(&mut self.data, base, base + SECTOR_SIZE);
            self.dirty = true;
            self.erase_armed = false;
            self.phase = Phase::Ready;
        } else {
            self.phase = Phase::Ready;
            self.erase_armed = false;
        }
    }

    /// The raw contents.
    pub fn bytes(&self) -> (bytes: &[u8])
        ensures
            bytes@ == self@.data,
    {
        self.data.as_slice()
    }

    /// Overwrite the contents from a loaded save, leaving any remainder blank.
    pub fn load(&mut self, data: &[u8])
        requires
            old(self)@.valid(),
        ensures
            final(self)@ == (FlashState {
                data: chip::restored(data@, old(self)@.data.len()),
                dirty: false,
                ..old(self)@
            }),
            final(self)@.valid(),
    {
        let size: usize = self.data.len();
        self.data = chip::restore(data, size);
        self.dirty = false;
    }

    /// Whether there are unsaved writes.
    pub fn dirty(&self) -> (dirty: bool)
        ensures
            dirty == self@.dirty,
    {
        self.dirty
    }

    /// Mark the contents as saved.
    pub fn clear_dirty(&mut self)
        ensures
            final(self)@ == (FlashState { dirty: false, ..old(self)@ }),
    {
        self.dirty = false;
    }
}

/// The chip after the unlock sequence and a command byte.
pub open spec fn unlocked(flash: FlashState, addr: u32, cmd: u8) -> FlashState {
    flash.written(0x5555, 0xAA).written(0x2AAA, 0x55).written(addr, cmd)
}

/// Programming a byte - unlock, command `0xA0`, then the byte - stores it where
/// it is read back, and leaves every other byte alone.
pub proof fn programmed_byte_reads_back(flash: FlashState, addr: u32, value: u8, other: u32)
    requires
        flash.valid(),
        flash.phase == Phase::Ready,
        !flash.id_mode,
    ensures
        ({
            let after = unlocked(flash, 0x5555, 0xA0).written(addr, value);
            &&& after.read(addr) == value
            &&& other as int % 0x1_0000 != addr as int % 0x1_0000 ==> after.read(other)
                == flash.read(other)
            &&& after.phase == Phase::Ready
        }),
{
}

/// A sector erase clears its 4 KiB sector and nothing else.
pub proof fn sector_erase_clears_only_its_sector(flash: FlashState, addr: u32, i: int)
    requires
        flash.valid(),
        flash.phase == Phase::Ready,
        0 <= i < flash.data.len(),
    ensures
        ({
            let after = unlocked(unlocked(flash, 0x5555, 0x80), addr, 0x30);
            after.data[i] == (if i / 0x1000 == flash.offset(addr) / 0x1000 {
                0xFFu8
            } else {
                flash.data[i]
            })
        }),
{
}

/// A chip erase clears every byte.
pub proof fn chip_erase_clears_everything(flash: FlashState, i: int)
    requires
        flash.valid(),
        flash.phase == Phase::Ready,
        0 <= i < flash.data.len(),
    ensures
        unlocked(unlocked(flash, 0x5555, 0x80), 0x5555, 0x10).data[i] == 0xFF,
{
}

/// Without the erase setup an erase command changes no byte.
pub proof fn erase_needs_setup(flash: FlashState, addr: u32, cmd: u8)
    requires
        flash.valid(),
        flash.phase == Phase::Ready,
        !flash.erase_armed,
        cmd == 0x10 || cmd == 0x30,
    ensures
        unlocked(flash, addr, cmd).data == flash.data,
{
}

} // verus!

//! The backup-memory device: the save chip behind the GamePak SRAM region.

use vstd::prelude::*;

use super::chip;
use super::eeprom::{Eeprom, EepromState};
use super::flash::{Flash, FlashSize, FlashState};
use super::sram::{Sram, SramState};

verus! {

/// A cartridge's save chip. SRAM and Flash sit in the `0x0E000000` byte-bus region
/// and are driven through [`read8`](Backup::read8)/[`write8`](Backup::write8);
/// EEPROM instead rides the upper GamePak window as a bit stream (see [`Eeprom`]).
#[derive(Clone, Debug)]
pub enum Backup {
    /// No save chip: reads float to all-ones, writes are dropped.
    Absent,
    Sram(Sram),
    Flash(Flash),
    Eeprom(Eeprom),
}

/// What a save chip holds.
#[verifier::ext_equal]
pub enum BackupState {
    Absent,
    Sram(SramState),
    Flash(FlashState),
    Eeprom(EepromState),
}

impl View for Backup {
    type V = BackupState;

    open spec fn view(&self) -> BackupState {
        match self {
            Backup::Absent => BackupState::Absent,
            Backup::Sram(s) => BackupState::Sram(s@),
            Backup::Flash(f) => BackupState::Flash(f@),
            Backup::Eeprom(e) => BackupState::Eeprom(e@),
        }
    }
}

impl BackupState {
    /// The chip is well-formed.
    pub open spec fn valid(self) -> bool {
        match self {
            BackupState::Absent => true,
            BackupState::Sram(s) => s.valid(),
            BackupState::Flash(f) => f.valid(),
            BackupState::Eeprom(e) => e.valid(),
        }
    }

    /// The chip with saved contents restored: what fits of them, the rest erased. For
    /// EEPROM the length also picks the chip size, and any command is abandoned.
    pub open spec fn restored(self, data: Seq<u8>) -> BackupState {
        match self {
            BackupState::Absent => BackupState::Absent,
            BackupState::Sram(_) => BackupState::Sram(
                SramState { data: chip::restored(data, 0x8000), dirty: false },
            ),
            BackupState::Flash(f) => BackupState::Flash(
                FlashState { data: chip::restored(data, f.data.len()), dirty: false, ..f },
            ),
            BackupState::Eeprom(_) => {
                let large = data.len() > 0x200;
                BackupState::Eeprom(
                    EepromState {
                        data: chip::restored(
                            data,
                            if large {
                                0x2000
                            } else {
                                0x200
                            },
                        ),
                        addr_bits: if large {
                            14
                        } else {
                            6
                        },
                        input: 0,
                        input_len: 0,
                        output: 0,
                        output_len: 0,
                        dirty: false,
                    },
                )
            },
        }
    }

    /// The chip with its contents marked as saved.
    pub open spec fn flushed(self) -> BackupState {
        match self {
            BackupState::Absent => BackupState::Absent,
            BackupState::Sram(s) => BackupState::Sram(SramState { dirty: false, ..s }),
            BackupState::Flash(f) => BackupState::Flash(FlashState { dirty: false, ..f }),
            BackupState::Eeprom(e) => BackupState::Eeprom(EepromState { dirty: false, ..e }),
        }
    }

    /// A byte of the `0x0E000000` region; all-ones where no chip answers there.
    pub open spec fn read(self, addr: u32) -> u8 {
        match self {
            BackupState::Absent | BackupState::Eeprom(_) => 0xFF,
            BackupState::Sram(s) => s.read(addr),
            BackupState::Flash(f) => f.read(addr),
        }
    }

    /// A byte written to that region; dropped where no chip answers there.
    pub open spec fn written(self, addr: u32, value: u8) -> BackupState {
        match self {
            BackupState::Sram(s) => BackupState::Sram(s.written(addr, value)),
            BackupState::Flash(f) => BackupState::Flash(f.written(addr, value)),
            other => other,
        }
    }

    /// The raw contents; empty where there is no chip.
    pub open spec fn contents(self) -> Seq<u8> {
        match self {
            BackupState::Absent => Seq::empty(),
            BackupState::Sram(s) => s.data,
            BackupState::Flash(f) => f.data,
            BackupState::Eeprom(e) => e.data,
        }
    }

    /// Whether there are unsaved writes.
    pub open spec fn dirty(self) -> bool {
        match self {
            BackupState::Absent => false,
            BackupState::Sram(s) => s.dirty,
            BackupState::Flash(f) => f.dirty,
            BackupState::Eeprom(e) => e.dirty,
        }
    }
}

impl Backup {
    /// A blank SRAM chip.
    pub fn sram() -> (backup: Self)
        ensures
            backup@ == BackupState::Sram(SramState::blank()),
            backup@.valid(),
    {
        Backup::Sram(Sram::new())
    }

    /// A blank Flash chip.
    pub fn flash(size: FlashSize) -> (backup: Self)
        ensures
            backup@ == BackupState::Flash(FlashState::blank(size)),
            backup@.valid(),
    {
        Backup::Flash(Flash::new(size))
    }

    /// A blank EEPROM.
    pub fn eeprom() -> (backup: Self)
        ensures
            backup@ == BackupState::Eeprom(EepromState::blank()),
            backup@.valid(),
    {
        Backup::Eeprom(Eeprom::new())
    }

    /// A blank 8-KiB EEPROM.
    pub fn eeprom_8k() -> (backup: Self)
        ensures
            backup@ == BackupState::Eeprom(EepromState::blank_large()),
            backup@.valid(),
    {
        Backup::Eeprom(Eeprom::large())
    }

    /// Read a byte from the `0x0E000000` region (an 8-bit bus). An absent chip -
    /// and EEPROM, which does not answer here - reads all-ones.
    pub fn read8(&self, addr: u32) -> (value: u8)
        requires
            self@.valid(),
        ensures
            value == self@.read(addr),
    {
        match self {
            Backup::Absent | Backup::Eeprom(_) => 0xFF,
            Backup::Sram(s) => s.read8(addr),
            Backup::Flash(f) => f.read8(addr),
        }
    }

    /// Write a byte to the `0x0E000000` region.
    pub fn write8(&mut self, addr: u32, value: u8)
        requires
            old(self)@.valid(),
        ensures
            final(self)@ == old(self)@.written(addr, value),
            final(self)@.valid(),
    {
        match self {
            Backup::Absent | Backup::Eeprom(_) => {},
            Backup::Sram(s) => s.write8(addr, value),
            Backup::Flash(f) => f.write8(addr, value),
        }
    }

    /// The raw chip contents, for writing a `.sav`. Empty when absent.
    pub fn bytes(&self) -> (bytes: &[u8])
        ensures
            bytes@ == self@.contents(),
    {
        match self {
            Backup::Absent => {
                let empty: &[u8] = &[];
                assert(empty@ =~= Seq::<u8>::empty());
                empty
            },
            Backup::Sram(s) => s.bytes(),
            Backup::Flash(f) => f.bytes(),
            Backup::Eeprom(e) => e.bytes(),
        }
    }

    /// Restore contents from a loaded `.sav`: what fits of it, the rest erased.
    /// For EEPROM the length also picks the chip size.
    pub fn load(&mut self, data: &[u8])
        requires
            old(self)@.valid(),
        ensures
            final(self)@ == old(self)@.restored(data@),
            final(self)@.valid(),
    {
        match self {
            Backup::Absent => {},
            Backup::Sram(s) => s.load(data),
            Backup::Flash(f) => f.load(data),
            Backup::Eeprom(e) => e.load(data),
        }
    }

    /// Whether the chip has unsaved writes since the last flush.
    pub fn dirty(&self) -> (dirty: bool)
        ensures
            dirty == self@.dirty(),
    {
        match self {
            Backup::Absent => false,
            Backup::Sram(s) => s.dirty(),
            Backup::Flash(f) => f.dirty(),
            Backup::Eeprom(e) => e.dirty(),
        }
    }

    /// Mark the contents as saved.
    pub fn clear_dirty(&mut self)
        ensures
            final(self)@ == old(self)@.flushed(),
            old(self)@.valid() ==> final(self)@.valid(),
    {
        match self {
            Backup::Absent => {},
            Backup::Sram(s) => s.clear_dirty(),
            Backup::Flash(f) => f.clear_dirty(),
            Backup::Eeprom(e) => e.clear_dirty(),
        }
    }
}

} // verus!

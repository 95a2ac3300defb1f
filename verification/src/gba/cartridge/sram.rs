//! Battery-backed SRAM (32 KiB) - the simplest GBA save backup.
//!
//! SRAM is a plain 8-bit static RAM: reads and writes hit bytes directly, with no
//! command protocol. The chip is 32 KiB; the 64 KiB save region mirrors it.

use vstd::prelude::*;

use super::chip;

verus! {

/// GBA SRAM is 32 KiB.
pub const SRAM_SIZE: usize = 0x8000;

#[derive(Clone, Debug)]
pub struct Sram {
    data: Vec<u8>,
    dirty: bool,
}

/// What an SRAM chip holds, and whether that is unsaved.
#[verifier::ext_equal]
pub struct SramState {
    pub data: Seq<u8>,
    pub dirty: bool,
}

impl View for Sram {
    type V = SramState;

    closed spec fn view(&self) -> SramState {
        SramState { data: self.data@, dirty: self.dirty }
    }
}

impl SramState {
    /// An erased chip reads as all-ones.
    pub open spec fn blank() -> SramState {
        SramState { data: Seq::new(SRAM_SIZE as nat, |i: int| 0xFFu8), dirty: false }
    }

    /// The chip has its size.
    pub open spec fn valid(self) -> bool {
        self.data.len() == SRAM_SIZE
    }

    /// The byte an address names: the chip repeats through the region.
    pub open spec fn read(self, addr: u32) -> u8 {
        self.data[addr as int % SRAM_SIZE as int]
    }

    /// The chip after a byte write. Writing what is already there changes
    /// nothing.
    pub open spec fn written(self, addr: u32, value: u8) -> SramState {
        SramState {
            data: self.data.update(addr as int % SRAM_SIZE as int, value),
            dirty: self.dirty || self.read(addr) != value,
        }
    }
}

impl Default for Sram {
    fn default() -> (sram: Self)
        ensures
            sram@ == SramState::blank(),
            sram@.valid(),
    {
        // An erased/blank chip reads as all-ones.
        Sram { data: chip::erased(SRAM_SIZE), dirty: false }
    }
}

impl Sram {
    /// A blank chip.
    pub fn new() -> (sram: Self)
        ensures
            sram@ == SramState::blank(),
            sram@.valid(),
    {
        Self::default()
    }

    /// Read a byte.
    pub fn read8(&self, addr: u32) -> (value: u8)
        requires
            self@.valid(),
        ensures
            value == self@.read(addr),
    {
        self.data[addr as usize % SRAM_SIZE]
    }

    /// Write a byte.
    pub fn write8(&mut self, addr: u32, value: u8)
        requires
            old(self)@.valid(),
        ensures
            final(self)@ == old(self)@.written(addr, value),
            final(self)@.valid(),
    {
        let i: usize = addr as usize % SRAM_SIZE;
        if self.data[i] != value {
            self.data[i] = value;
            self.dirty = true;
        }
    }

    /// The raw contents.
    pub fn bytes(&self) -> (bytes: &[u8])
        ensures
            bytes@ == self@.data,
    {
        self.data.as_slice()
    }

    /// Overwrite the contents from a loaded save (e.g. a `.sav` file), copying up
    /// to the chip size and leaving any remainder blank.
    pub fn load(&mut self, data: &[u8])
        requires
            old(self)@.valid(),
        ensures
            final(self)@ == (SramState { data: chip::restored(data@, SRAM_SIZE as nat), dirty: false }),
            final(self)@.valid(),
    {
        self.data = chip::restore(data, SRAM_SIZE);
        self.dirty = false;
    }

    /// Whether there are unsaved writes.
    pub fn dirty(&self) -> (dirty: bool)
        ensures
            dirty == self@.dirty,
    {
        self.dirty
    }

    /// Mark the contents as saved.
    pub fn clear_dirty(&mut self)
        ensures
            final(self)@ == (SramState { dirty: false, ..old(self)@ }),
    {
        self.dirty = false;
    }
}

/// A written byte reads back, at its address and at every mirror of it; every
/// other byte is as before.
pub proof fn write_reads_back(sram: SramState, addr: u32, value: u8, other: u32)
    requires
        sram.valid(),
    ensures
        other as int % 0x8000 == addr as int % 0x8000 ==> sram.written(addr, value).read(other)
            == value,
        other as int % 0x8000 != addr as int % 0x8000 ==> sram.written(addr, value).read(other)
            == sram.read(other),
{
}

} // verus!

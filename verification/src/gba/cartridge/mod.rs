//! The GamePak cartridge: its ROM and save (backup) memory.
//!
//! A GBA cartridge is a flat ROM (mapped at `0x08000000`) plus at most one backup
//! chip - SRAM, Flash, or EEPROM - used for saves. There are no bank-switching
//! mappers. The save type is declared by an ID string in the ROM and detected at
//! load; the ROM is a plain byte array read directly by the bus, while the backup
//! is a stateful device (see [`Backup`]).

use vstd::prelude::*;

pub mod backup;
pub mod calendar;
pub mod chip;
pub mod eeprom;
pub mod flash;
pub mod laws;
pub mod rtc;
pub mod rtc_wire;
pub mod sram;

pub use backup::{Backup, BackupState};
pub use eeprom::{Eeprom, EepromState};
pub use flash::{Flash, FlashSize, FlashState};
pub use rtc::Rtc;
pub use sram::{Sram, SramState};

use crate::text;

verus! {

/// The kind of save chip a cartridge carries.
#[derive(Clone, Copy, Debug, PartialEq, Eq, Structural)]
pub enum SaveType {
    Absent,
    Sram,
    Flash64,
    Flash128,
    /// EEPROM (512 B, 6-bit address). The default until a 14-bit command upgrades it.
    Eeprom512,
    /// EEPROM (8 KiB, 14-bit address).
    Eeprom8k,
}

impl SaveType {
    /// The chip's size in bytes (0 when absent).
    #[verifier::allow_in_spec]
    pub fn backup_size(self) -> usize
        returns
            (match self {
                SaveType::Absent => 0usize,
                SaveType::Sram => 0x8000usize,
                SaveType::Flash64 => 0x1_0000usize,
                SaveType::Flash128 => 0x2_0000usize,
                SaveType::Eeprom512 => 0x200usize,
                SaveType::Eeprom8k => 0x2000usize,
            }),
    {
        match self {
            SaveType::Absent => 0,
            SaveType::Sram => sram::SRAM_SIZE,
            SaveType::Flash64 => 0x1_0000,
            SaveType::Flash128 => 0x2_0000,
            SaveType::Eeprom512 => 0x200,
            SaveType::Eeprom8k => 0x2000,
        }
    }

    /// A stable short name.
    pub open spec fn spec_name(self) -> Seq<char> {
        match self {
            SaveType::Absent => "NONE"@,
            SaveType::Sram => "SRAM"@,
            SaveType::Flash64 => "FLASH512"@,
            SaveType::Flash128 => "FLASH1M"@,
            SaveType::Eeprom512 => "EEPROM512"@,
            SaveType::Eeprom8k => "EEPROM8K"@,
        }
    }

    /// A stable short name, used in the `.sav.meta` sidecar and diagnostics.
    pub fn name(self) -> (name: &'static str)
        ensures
            name@ == self.spec_name(),
    {
        match self {
            SaveType::Absent => "NONE",
            SaveType::Sram => "SRAM",
            SaveType::Flash64 => "FLASH512",
            SaveType::Flash128 => "FLASH1M",
            SaveType::Eeprom512 => "EEPROM512",
            SaveType::Eeprom8k => "EEPROM8K",
        }
    }

    /// Parse a name produced by [`SaveType::name`] (for a sidecar override).
    pub fn from_name(s: &str) -> (save_type: Option<SaveType>)
        ensures
            match save_type {
                Some(save_type) => s@ == save_type.spec_name(),
                None => forall|save_type: SaveType| s@ != #[trigger] save_type.spec_name(),
            },
    {
        if text::same(s, "NONE") {
            return Some(SaveType::Absent);
        }
        if text::same(s, "SRAM") {
            return Some(SaveType::Sram);
        }
        if text::same(s, "FLASH512") {
            return Some(SaveType::Flash64);
        }
        if text::same(s, "FLASH1M") {
            return Some(SaveType::Flash128);
        }
        if text::same(s, "EEPROM512") {
            return Some(SaveType::Eeprom512);
        }
        if text::same(s, "EEPROM8K") {
            return Some(SaveType::Eeprom8k);
        }
        assert forall|save_type: SaveType| s@ != #[trigger] save_type.spec_name() by {
            match save_type {
                SaveType::Absent => {},
                SaveType::Sram => {},
                SaveType::Flash64 => {},
                SaveType::Flash128 => {},
                SaveType::Eeprom512 => {},
                SaveType::Eeprom8k => {},
            }
        }
        None
    }

    /// A blank chip of this kind.
    pub open spec fn blank_backup(self) -> BackupState {
        match self {
            SaveType::Absent => BackupState::Absent,
            SaveType::Sram => BackupState::Sram(SramState::blank()),
            SaveType::Flash64 => BackupState::Flash(FlashState::blank(FlashSize::K64)),
            SaveType::Flash128 => BackupState::Flash(FlashState::blank(FlashSize::K128)),
            SaveType::Eeprom512 => BackupState::Eeprom(EepromState::blank()),
            SaveType::Eeprom8k => BackupState::Eeprom(EepromState::blank_large()),
        }
    }

    fn make_backup(self) -> (backup: Backup)
        ensures
            backup@ == self.blank_backup(),
            backup@.valid(),
    {
        match self {
            SaveType::Absent => Backup::Absent,
            SaveType::Sram => Backup::sram(),
            SaveType::Flash64 => Backup::flash(FlashSize::K64),
            SaveType::Flash128 => Backup::flash(FlashSize::K128),
            SaveType::Eeprom512 => Backup::eeprom(),
            SaveType::Eeprom8k => Backup::eeprom_8k(),
        }
    }
}

/// Names tell the save types apart, so parsing a name gives the type back.
pub proof fn save_type_names_round_trip(a: SaveType, b: SaveType)
    ensures
        a.spec_name() == b.spec_name() ==> a == b,
{
    reveal_strlit("NONE");
    reveal_strlit("SRAM");
    reveal_strlit("FLASH512");
    reveal_strlit("FLASH1M");
    reveal_strlit("EEPROM512");
    reveal_strlit("EEPROM8K");
    if a.spec_name() == b.spec_name() && a != b {
        assert(a.spec_name().len() == b.spec_name().len());
        assert(a.spec_name()[0] == b.spec_name()[0]);
    }
}

/// Whether a ROM holds an ID string at `at`.
pub open spec fn holds_at(rom: Seq<u8>, id: Seq<char>, at: int) -> bool {
    &&& 0 <= at
    &&& at + id.len() <= rom.len()
    &&& forall|i: int| 0 <= i < id.len() ==> rom[at + i] == #[trigger] id[i] as int
}

/// Whether a ROM holds an ID string anywhere.
pub open spec fn holds(rom: Seq<u8>, id: Seq<char>) -> bool {
    exists|at: int| #[trigger] holds_at(rom, id, at)
}

/// Search a ROM for an ID string.
fn has(rom: &[u8], id: &str) -> (found: bool)
    ensures
        found == holds(rom@, id@),
{
    let len: usize = id.unicode_len();
    let size: usize = rom.len();
    if len > size {
        assert forall|at: int| !(#[trigger] holds_at(rom@, id@, at)) by {}
        return false;
    }
    let mut at: usize = 0;
    while at <= size - len
        invariant
            at <= size - len + 1,
            len <= size,
            len == id@.len(),
            size == rom@.len(),
            size == rom.len(),
            forall|j: int| 0 <= j < at ==> !(#[trigger] holds_at(rom@, id@, j)),
        decreases size - at,
    {
        let mut i: usize = 0;
        while i < len && rom[at + i] as u32 == id.get_char(i) as u32
            invariant
                i <= len,
                at + len <= size,
                len == id@.len(),
                size == rom@.len(),
                size == rom.len(),
                forall|j: int| 0 <= j < i ==> rom@[at + j] == #[trigger] id@[j] as int,
            decreases len - i,
        {
            i = i + 1;
        }
        if i == len {
            assert(holds_at(rom@, id@, at as int));
            return true;
        }
        assert(rom@[at + i] != id@[i as int] as int);
        assert(!holds_at(rom@, id@, at as int));
        if at == size - len {
            assert forall|j: int| !(#[trigger] holds_at(rom@, id@, j)) by {}
            return false;
        }
        at = at + 1;
    }
    assert forall|j: int| !(#[trigger] holds_at(rom@, id@, j)) by {}
    false
}

/// The save type a ROM declares: longer, more specific names first. The size of
/// an EEPROM is only known once the game addresses it, so the smaller is assumed.
pub open spec fn declared_save_type(rom: Seq<u8>) -> SaveType {
    if holds(rom, "EEPROM_V"@) {
        SaveType::Eeprom512
    } else if holds(rom, "FLASH1M_V"@) {
        SaveType::Flash128
    } else if holds(rom, "FLASH512_V"@) || holds(rom, "FLASH_V"@) {
        SaveType::Flash64
    } else if holds(rom, "SRAM_V"@) || holds(rom, "SRAM_F_V"@) {
        SaveType::Sram
    } else {
        SaveType::Absent
    }
}

/// Scan a ROM for its save-type ID string. The Nintendo SDK writes one of a fixed
/// set of strings; longer/more-specific names are checked first.
pub fn detect_save_type(rom: &[u8]) -> (save_type: SaveType)
    ensures
        save_type == declared_save_type(rom@),
{
    if has(rom, "EEPROM_V") {
        // Size (512 B vs 8 KiB) is only known once the game issues a read of a
        // given address width; default to the smaller until then.
        SaveType::Eeprom512
    } else if has(rom, "FLASH1M_V") {
        SaveType::Flash128
    } else if has(rom, "FLASH512_V") || has(rom, "FLASH_V") {
        SaveType::Flash64
    } else if has(rom, "SRAM_V") || has(rom, "SRAM_F_V") {
        SaveType::Sram
    } else {
        SaveType::Absent
    }
}

/// A loaded cartridge: flat ROM plus its backup chip.
#[derive(Clone, Debug)]
pub struct Cartridge {
    /// The ROM image, read directly by the bus over `0x08000000..=0x0DFFFFFF`.
    pub rom: Vec<u8>,
    /// The save chip, behind the `0x0E000000` region.
    pub backup: Backup,
    pub save_type: SaveType,
}

impl Default for Cartridge {
    fn default() -> (cartridge: Self)
        ensures
            cartridge.rom@ == Seq::<u8>::empty(),
            cartridge.backup@ == BackupState::Sram(SramState::blank()),
            cartridge.save_type == SaveType::Sram,
    {
        // A bare cartridge (no ROM loaded) exposes plain SRAM so the save region is
        // usable without a detection pass.
        Cartridge { rom: Vec::new(), backup: Backup::sram(), save_type: SaveType::Sram }
    }
}

impl Cartridge {
    /// Load a ROM, detecting its save type and provisioning a matching backup.
    pub fn load_rom(&mut self, rom: Vec<u8>)
        ensures
            final(self).rom@ == rom@,
            final(self).save_type == declared_save_type(rom@),
            final(self).backup@ == declared_save_type(rom@).blank_backup(),
            final(self).backup@.valid(),
    {
        self.save_type = detect_save_type(rom.as_slice());
        self.backup = self.save_type.make_backup();
        self.rom = rom;
    }

    /// The save type as the chip shows it.
    pub open spec fn live_save_type(self) -> SaveType {
        match self.backup@ {
            BackupState::Eeprom(e) => if e.data.len() > 0x200 {
                SaveType::Eeprom8k
            } else {
                SaveType::Eeprom512
            },
            _ => self.save_type,
        }
    }

    /// The detected (or overridden) save type. For EEPROM the reported size tracks
    /// the chip's live width, which is only pinned down once the game issues its
    /// first (6- or 14-bit) command - so the `.sav`/`.meta` reflect reality.
    pub fn save_type(&self) -> (save_type: SaveType)
        ensures
            save_type == self.live_save_type(),
    {
        if let Backup::Eeprom(e) = &self.backup {
            return if e.size() > 0x200 {
                SaveType::Eeprom8k
            } else {
                SaveType::Eeprom512
            };
        }
        self.save_type
    }

    /// The base of the EEPROM window in the upper GamePak region. Carts of 16 MiB or
    /// less answer across all of `0x0D000000..=0x0DFFFFFF`; larger carts (whose ROM
    /// reaches into that region) confine EEPROM to the top 256 bytes.
    fn eeprom_window_start(&self) -> (start: u32)
        ensures
            start == (if self.rom@.len() > 0x0100_0000 {
                0x0DFF_FF00u32
            } else {
                0x0D00_0000u32
            }),
    {
        if self.rom.len() > 0x0100_0000 {
            0x0DFF_FF00
        } else {
            0x0D00_0000
        }
    }

    /// Whether `addr` (already region-`0x0D`) selects the EEPROM chip: across the
    /// whole region, or its top 256 bytes for a cart of more than 16 MiB.
    pub fn is_eeprom_at(&self, addr: u32) -> (selected: bool)
        ensures
            selected == (self.backup@ is Eeprom && addr >> 24 == 0x0D && (self.rom@.len()
                > 0x0100_0000 ==> addr >= 0x0DFF_FF00)),
    {
        assert(addr >> 24 == 0x0D ==> addr >= 0x0D00_0000) by (bit_vector);
        matches!(self.backup, Backup::Eeprom(_)) && addr >> 24 == 0x0D && addr
            >= self.eeprom_window_start()
    }

    /// Clock one serial bit out of the EEPROM (result in D0).
    pub fn eeprom_read(&mut self) -> (bit: u16)
        requires
            old(self).backup@.valid(),
            old(self).backup@ matches BackupState::Eeprom(e) ==> e.input_len < 130,
        ensures
            final(self).rom == old(self).rom,
            final(self).save_type == old(self).save_type,
            final(self).backup@.valid(),
            match old(self).backup@ {
                BackupState::Eeprom(e) => bit == e.bit_read().0 && final(self).backup@
                    == BackupState::Eeprom(e.bit_read().1),
                other => bit == 1 && final(self).backup@ == other,
            },
    {
        match &mut self.backup {
            Backup::Eeprom(e) => e.read_bit(),
            _ => 1,
        }
    }

    /// Clock one serial bit into the EEPROM (from D0 of a DMA write).
    pub fn eeprom_write(&mut self, bit: bool)
        requires
            old(self).backup@.valid(),
            old(self).backup@ matches BackupState::Eeprom(e) ==> e.input_len < u16::MAX,
        ensures
            final(self).rom == old(self).rom,
            final(self).save_type == old(self).save_type,
            final(self).backup@.valid(),
            final(self).backup@ == (match old(self).backup@ {
                BackupState::Eeprom(e) => BackupState::Eeprom(e.bit_written(bit)),
                other => other,
            }),
    {
        if let Backup::Eeprom(e) = &mut self.backup {
            e.write_bit(bit);
        }
    }

    /// Force a save type, replacing the backup with a fresh chip of that type.
    /// Used to apply a sidecar override before restoring saved contents.
    pub fn set_save_type(&mut self, save_type: SaveType)
        ensures
            final(self).rom == old(self).rom,
            final(self).save_type == save_type,
            final(self).backup@ == save_type.blank_backup(),
            final(self).backup@.valid(),
            final(self).live_save_type() == save_type,
            final(self).backup@.contents() == Seq::new(
                save_type.backup_size() as nat,
                |i: int| 0xFFu8,
            ),
            !final(self).backup@.dirty(),
    {
        self.save_type = save_type;
        self.backup = save_type.make_backup();
    }

    /// The backup contents to persist to a `.sav` (empty when there is no chip).
    pub fn backup_bytes(&self) -> (bytes: &[u8])
        ensures
            bytes@ == self.backup@.contents(),
    {
        self.backup.bytes()
    }

    /// Restore backup contents from a loaded `.sav`: what fits of it, the rest
    /// erased.
    pub fn load_backup(&mut self, data: &[u8])
        requires
            old(self).backup@.valid(),
        ensures
            final(self).rom == old(self).rom,
            final(self).save_type == old(self).save_type,
            final(self).backup@.valid(),
            final(self).backup@ == old(self).backup@.restored(data@),
    {
        self.backup.load(data);
    }

    /// Whether the backup has unsaved writes since the last flush.
    pub fn backup_dirty(&self) -> (dirty: bool)
        ensures
            dirty == self.backup@.dirty(),
    {
        self.backup.dirty()
    }

    /// Mark the backup as saved.
    pub fn clear_backup_dirty(&mut self)
        ensures
            final(self).rom == old(self).rom,
            final(self).save_type == old(self).save_type,
            final(self).backup@ == old(self).backup@.flushed(),
            old(self).backup@.valid() ==> final(self).backup@.valid(),
    {
        self.backup.clear_dirty();
    }
}

/// A save round-trips: restoring what a chip held, into any chip that is blank but of the
/// same kind, gives it back, and leaves nothing to save.
pub proof fn save_round_trips(backup: BackupState, blank: BackupState)
    requires
        backup.valid(),
        blank.valid(),
        backup is Absent == blank is Absent,
        backup is Sram == blank is Sram,
        backup is Eeprom == blank is Eeprom,
        backup is Flash ==> blank.contents().len() == backup.contents().len(),
    ensures
        blank.restored(backup.contents()).contents() == backup.contents(),
        !blank.restored(backup.contents()).dirty(),
{
    assert(blank.restored(backup.contents()).contents() =~= backup.contents());
}

/// Acknowledging a save changes no byte of it.
pub proof fn flushing_keeps_contents(backup: BackupState)
    ensures
        backup.flushed().contents() == backup.contents(),
        !backup.flushed().dirty(),
{
}

} // verus!

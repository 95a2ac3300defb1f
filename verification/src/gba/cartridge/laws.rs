//! Laws of the cartridge: how its chips are told apart, what they keep and how their
//! clock tells the time.

use vstd::prelude::*;

use super::backup::BackupState;
use super::calendar;
use super::eeprom::{stored, EepromState};
use super::flash::{unlocked, FlashSize, FlashState, Phase};
use super::rtc::{datetime, hour_byte, unpacked, RtcState};
use super::sram::SramState;
use super::{declared_save_type, holds, SaveType};

verus! {

/// The save chip that a ROM names: an EEPROM string first, then the larger Flash, the
/// smaller one under either name, and SRAM under either name; nothing without one.
pub proof fn save_strings(rom: Seq<u8>)
    ensures
        holds(rom, "EEPROM_V"@) ==> declared_save_type(rom) == SaveType::Eeprom512,
        !holds(rom, "EEPROM_V"@) && holds(rom, "FLASH1M_V"@) ==> declared_save_type(rom)
            == SaveType::Flash128,
        !holds(rom, "EEPROM_V"@) && !holds(rom, "FLASH1M_V"@) && (holds(rom, "FLASH512_V"@)
            || holds(rom, "FLASH_V"@)) ==> declared_save_type(rom) == SaveType::Flash64,
        !holds(rom, "EEPROM_V"@) && !holds(rom, "FLASH1M_V"@) && !holds(rom, "FLASH512_V"@)
            && !holds(rom, "FLASH_V"@) && (holds(rom, "SRAM_V"@) || holds(rom, "SRAM_F_V"@))
            ==> declared_save_type(rom) == SaveType::Sram,
        !holds(rom, "EEPROM_V"@) && !holds(rom, "FLASH1M_V"@) && !holds(rom, "FLASH512_V"@)
            && !holds(rom, "FLASH_V"@) && !holds(rom, "SRAM_V"@) && !holds(rom, "SRAM_F_V"@)
            ==> declared_save_type(rom) == SaveType::Absent,
{
}

/// The names of the save chips.
pub proof fn save_names()
    ensures
        SaveType::Absent.spec_name() == "NONE"@,
        SaveType::Sram.spec_name() == "SRAM"@,
        SaveType::Flash64.spec_name() == "FLASH512"@,
        SaveType::Flash128.spec_name() == "FLASH1M"@,
        SaveType::Eeprom512.spec_name() == "EEPROM512"@,
        SaveType::Eeprom8k.spec_name() == "EEPROM8K"@,
{
}

/// A new chip is blank, every byte all ones, in its size: 32 KiB of SRAM, 64 or 128 KiB
/// of Flash, 512 bytes or 8 KiB of EEPROM; and has nothing to save.
pub proof fn new_chips_are_blank(kind: SaveType, i: int)
    ensures
        ({
            let contents = kind.blank_backup().contents();
            &&& contents.len() == (match kind {
                SaveType::Absent => 0int,
                SaveType::Sram => 0x8000,
                SaveType::Flash64 => 0x1_0000,
                SaveType::Flash128 => 0x2_0000,
                SaveType::Eeprom512 => 0x200,
                SaveType::Eeprom8k => 0x2000,
            })
            &&& 0 <= i < contents.len() ==> contents[i] == 0xFF
            &&& !kind.blank_backup().dirty()
        }),
{
}

/// A restored chip holds the save's bytes as far as they go and ones beyond, and has
/// nothing to save. An EEPROM takes the larger size for a save of more than 512 bytes.
pub proof fn restored_chips_hold_the_save(chip: BackupState, save: Seq<u8>, i: int)
    requires
        chip.valid(),
        !(chip is Absent),
    ensures
        ({
            let contents = chip.restored(save).contents();
            &&& 0 <= i < contents.len() && i < save.len() ==> contents[i] == save[i]
            &&& save.len() <= i < contents.len() ==> contents[i] == 0xFF
            &&& chip is Sram ==> contents.len() == 0x8000
            &&& chip is Flash ==> contents.len() == chip.contents().len()
            &&& chip is Eeprom ==> contents.len() == (if save.len() > 0x200 {
                0x2000int
            } else {
                0x200
            })
            &&& !chip.restored(save).dirty()
        }),
{
}

/// A chip that answers nothing at the save region reads as all ones there and takes no
/// write: none at all, and an EEPROM, which has its own wire.
pub proof fn silent_chips(chip: BackupState, addr: u32, value: u8)
    requires
        chip is Absent || chip is Eeprom,
    ensures
        chip.read(addr) == 0xFF,
        chip.written(addr, value) == chip,
{
}

/// SRAM repeats every 32 KiB; a write is unsaved only where it changed a byte.
pub proof fn sram_repeats(chip: SramState, addr: u32, value: u8)
    requires
        chip.valid(),
    ensures
        chip.read(addr) == chip.data[addr as int % 0x8000],
        chip.written(addr, value).data == chip.data.update(addr as int % 0x8000, value),
        chip.written(addr, value).dirty == (chip.dirty || chip.data[addr as int % 0x8000]
            != value),
{
}

/// In identify mode, entered by command 0x90, a Flash chip answers with its maker at even
/// addresses and its device at odd ones, by which games know its size; command 0xF0
/// goes back to the data.
pub proof fn flash_identifies_itself(flash: FlashState, addr: u32)
    requires
        flash.valid(),
        flash.phase == Phase::Ready,
    ensures
        ({
            let asked = unlocked(flash, 0x5555, 0x90);
            let answer = asked.read(addr);
            &&& flash.size == FlashSize::K64 && addr % 2 == 0 ==> answer == 0x32
            &&& flash.size == FlashSize::K64 && addr % 2 == 1 ==> answer == 0x1B
            &&& flash.size == FlashSize::K128 && addr % 2 == 0 ==> answer == 0x62
            &&& flash.size == FlashSize::K128 && addr % 2 == 1 ==> answer == 0x13
            &&& unlocked(asked, 0x5555, 0xF0).read(addr) == flash.data[flash.bank * 0x1_0000
                + addr as int % 0x1_0000]
            &&& asked.data == flash.data
        }),
{
}

/// The larger Flash chip shows one of two 64 KiB banks, chosen by the byte written to its
/// first address after command 0xB0; the smaller one has no such command.
pub proof fn flash_banks(flash: FlashState, bank: u8, addr: u32)
    requires
        flash.valid(),
        flash.phase == Phase::Ready,
        !flash.id_mode,
        bank < 2,
    ensures
        flash.size == FlashSize::K128 ==> {
            let after = unlocked(flash, 0x5555, 0xB0).written(0, bank);
            &&& after.read(addr) == flash.data[bank * 0x1_0000 + addr as int % 0x1_0000]
            &&& after.data == flash.data
        },
        flash.size == FlashSize::K64 ==> unlocked(flash, 0x5555, 0xB0).bank == 0,
{
}

/// A programmed byte is unsaved only where it changed the chip; it lands in the active
/// bank. An erase is always unsaved.
pub proof fn flash_dirt(flash: FlashState, addr: u32, value: u8)
    requires
        flash.valid(),
        flash.phase == Phase::Ready,
    ensures
        ({
            let at = flash.bank * 0x1_0000 + addr as int % 0x1_0000;
            let after = unlocked(flash, 0x5555, 0xA0).written(addr, value);
            &&& after.data == flash.data.update(at, value)
            &&& after.dirty == (flash.dirty || flash.data[at] != value)
            &&& unlocked(unlocked(flash, 0x5555, 0x80), addr, 0x30).dirty
            &&& unlocked(unlocked(flash, 0x5555, 0x80), 0x5555, 0x10).dirty
        }),
{
}

/// A write outside the unlock sequence changes nothing that is stored.
pub proof fn flash_needs_unlocking(flash: FlashState, addr: u32, value: u8)
    requires
        flash.phase == Phase::Ready || flash.phase == Phase::Unlock,
    ensures
        flash.written(addr, value).data == flash.data,
        flash.written(addr, value).dirty == flash.dirty,
{
}

/// An EEPROM block is eight bytes, the most significant first.
pub proof fn eeprom_blocks_are_big_endian(data: Seq<u8>, start: int, value: u64, i: int)
    requires
        0 <= start,
        start + 8 <= data.len(),
    ensures
        ({
            let after = stored(data, start, value);
            &&& value == after[start] * 0x100_0000_0000_0000 + after[start + 1]
                * 0x1_0000_0000_0000 + after[start + 2] * 0x100_0000_0000 + after[start + 3]
                * 0x1_0000_0000 + after[start + 4] * 0x100_0000 + after[start + 5] * 0x1_0000
                + after[start + 6] * 0x100 + after[start + 7]
            &&& after.len() == data.len()
            &&& 0 <= i < data.len() && (i < start || start + 8 <= i) ==> after[i] == data[i]
        }),
{
    super::eeprom::lemma_bytes_of(value);
}

/// Reading nothing from an EEPROM gives ready, a one.
pub proof fn idle_eeprom_reads_ready(chip: EepromState)
    requires
        chip.input_len == 0,
        chip.output_len == 0,
    ensures
        chip.bit_read() == (1u16, chip),
{
}

/// The clock's registers tell the time of day: seconds and minutes, the weekday from
/// Sunday, and the hour either of 24 or of 12 with a flag for the afternoon.
pub proof fn clock_fields(control: u8, seconds: u64)
    ensures
        ({
            let dt = datetime(control, seconds);
            let hour = seconds as int / 3600 % 24;
            let days = seconds as int / 86_400;
            let (year, month, day) = calendar::civil(days);
            &&& dt.len() == 7
            &&& unpacked(dt[0]) == year % 100
            &&& 1 <= month <= 12 ==> unpacked(dt[1]) == month
            &&& 1 <= day <= 31 ==> unpacked(dt[2]) == day
            &&& dt[3] == (days + 4) % 7
            &&& control & 0x40 != 0 ==> unpacked(dt[4]) == hour
            &&& control & 0x40 == 0 && hour < 12 ==> 1 <= unpacked(dt[4]) <= 12 && unpacked(dt[4])
                % 12 == hour
            &&& control & 0x40 == 0 && hour >= 12 ==> dt[4] >= 0x80 && 1 <= unpacked(
                (dt[4] - 0x80) as u8,
            ) <= 12 && unpacked((dt[4] - 0x80) as u8) % 12 == hour - 12
            &&& unpacked(dt[5]) == seconds as int / 60 % 60
            &&& unpacked(dt[6]) == seconds as int % 60
        }),
{
    let rem = seconds as int % 86_400;
    assert(rem / 3600 == seconds as int / 3600 % 24);
    assert(rem % 3600 / 60 == seconds as int / 60 % 60);
    assert(rem % 60 == seconds as int % 60);
    let (year, month, day) = calendar::civil(seconds as int / 86_400);
    lemma_packs(year % 100);
    lemma_packs(rem % 3600 / 60);
    lemma_packs(rem % 60);
    if 1 <= month <= 12 {
        lemma_packs(month);
    }
    if 1 <= day <= 31 {
        lemma_packs(day);
    }
    lemma_hour(control, rem / 3600);
}

proof fn lemma_packs(v: int)
    requires
        0 <= v < 100,
    ensures
        unpacked(super::rtc::packed(v)) == v,
{
}

proof fn lemma_hour(control: u8, hour: int)
    requires
        0 <= hour < 24,
    ensures
        control & 0x40 != 0 ==> unpacked(hour_byte(control, hour)) == hour,
        control & 0x40 == 0 && hour < 12 ==> 1 <= unpacked(hour_byte(control, hour)) <= 12
            && unpacked(hour_byte(control, hour)) % 12 == hour,
        control & 0x40 == 0 && hour >= 12 ==> hour_byte(control, hour) >= 0x80 && 1 <= unpacked(
            (hour_byte(control, hour) - 0x80) as u8,
        ) <= 12 && unpacked((hour_byte(control, hour) - 0x80) as u8) % 12 == hour - 12,
{
}

/// The clock's port: pins at 0xC4, directions at 0xC6 and the read switch at 0xC8, four
/// bits each but the last; it reads as nothing while the switch is off.
pub proof fn clock_port(clock: RtcState, value: u16, seconds: u64)
    ensures
        clock.written(0xC6, value, seconds) == (RtcState {
            direction: value as u8 & 0x0F,
            ..clock
        }),
        clock.written(0xC8, value, seconds) == (RtcState {
            read_enable: value & 1 != 0,
            ..clock
        }),
        clock.read(0xC6) == Some(clock.direction as u16),
        clock.read(0xC8) == Some(
            if clock.read_enable {
                1u16
            } else {
                0u16
            },
        ),
        !clock.read_enable ==> clock.read(0xC4) == Some(0u16),
        clock.read(0xCA) is None,
{
}

/// The clock answers its control register with a byte, the date and time with seven and
/// the time with the last three of them.
pub proof fn clock_registers(clock: RtcState, seconds: u64)
    ensures
        clock.register_bytes(1, seconds) == seq![clock.control],
        clock.register_bytes(2, seconds) == datetime(clock.control, seconds),
        clock.register_bytes(3, seconds) == datetime(clock.control, seconds).subrange(4, 7),
{
}

/// The last bit of a byte that is written to the clock completes it: the control register
/// keeps bits 1, 3, 5 and 6 of it, and no other register keeps anything.
pub proof fn clock_keeps_its_control(clock: RtcState, sio: bool)
    requires
        clock.in_byte_bits == 7,
    ensures
        ({
            let byte = clock.shift | (if sio {
                1u8
            } else {
                0u8
            }) << 7u8;
            let after = clock.parameter_bit(sio);
            &&& clock.reg == 1 ==> after.control == byte & 0x6A
            &&& clock.reg != 1 ==> after.control == clock.control
            &&& after.in_byte_bits == 0 && after.shift == 0
        }),
{
}

/// A write that breaks the unlock sequence of a Flash chip sends it back to the start, and
/// an erase that was being set up is forgotten.
pub proof fn stray_writes_break_the_sequence(flash: FlashState, addr: u32, value: u8)
    ensures
        flash.phase == Phase::Ready && !(addr % 0x1_0000 == 0x5555 && value == 0xAA) ==> {
            let after = flash.written(addr, value);
            after.phase == Phase::Ready && !after.erase_armed && after.data == flash.data
        },
        flash.phase == Phase::Unlock && !(addr % 0x1_0000 == 0x2AAA && value == 0x55) ==> {
            let after = flash.written(addr, value);
            after.phase == Phase::Ready && !after.erase_armed && after.data == flash.data
        },
        flash.phase == Phase::Ready && addr % 0x1_0000 == 0x5555 && value == 0xAA ==> flash.written(
            addr,
            value,
        ) == (FlashState { phase: Phase::Unlock, ..flash }),
        flash.phase == Phase::Unlock && addr % 0x1_0000 == 0x2AAA && value == 0x55
            ==> flash.written(addr, value) == (FlashState { phase: Phase::Command, ..flash }),
{
}

} // verus!

use std::time::{SystemTime, UNIX_EPOCH};

use rewinds::gba::cartridge::rtc::{datetime_bcd, Rtc, REG_CONTROL, REG_DATETIME};
use rewinds::gba::cartridge::calendar::civil_from_days;

// These helpers mirror the real driver (e.g. Pokémon's `siirtc`): SIO on GPIO1,
// SCK on GPIO0, CS on GPIO2. Bits are driven while the clock is low and sampled
// by the chip on the rising edge; on a read the chip drives SIO on the falling
// edge and the driver samples after raising the clock. The command byte is
// MSB-first, parameter bytes are LSB-first.

/// Clock one bit from the GBA into the chip (rising-edge sample).
fn clock_in(rtc: &mut Rtc, bit: bool) {
    let sio = (bit as u16) << 1;
    rtc.write(0xC4, 0b0100 | sio); // CS high, SCK low, SIO=bit
    rtc.write(0xC4, 0b0100 | sio | 1); // rising edge
}

/// Clock one bit out of the chip: drop SCK (chip drives SIO), raise it, sample.
fn clock_out(rtc: &mut Rtc) -> bool {
    rtc.write(0xC4, 0b0100); // SCK low — chip presents the bit
    rtc.write(0xC4, 0b0101); // SCK high
    rtc.read(0xC4).unwrap() & 0b0010 != 0
}

fn command(rtc: &mut Rtc, reg: u8, read: bool) {
    rtc.write(0xC6, 0b0111); // SCK/SIO/CS all outputs
    rtc.write(0xC4, 0b0000); // drop CS between commands
    rtc.write(0xC4, 0b0100); // raise CS -> start command
    let cmd = 0b0110_0000 | (reg << 1) | read as u8;
    for i in (0..8).rev() {
        clock_in(rtc, (cmd >> i) & 1 != 0); // command is MSB-first
    }
}

fn write_param(rtc: &mut Rtc, byte: u8) {
    for i in 0..8 {
        clock_in(rtc, (byte >> i) & 1 != 0); // parameters are LSB-first
    }
}

fn read_param(rtc: &mut Rtc) -> u8 {
    rtc.write(0xC6, 0b0101); // SIO -> input
    let mut byte = 0u8;
    for i in 0..8 {
        byte |= (clock_out(rtc) as u8) << i; // LSB-first
    }
    rtc.write(0xC6, 0b0111);
    byte
}

#[test]
fn control_register_write_read_roundtrip() {
    let mut rtc = Rtc::new();
    rtc.write(0xC8, 1); // enable reads
    command(&mut rtc, REG_CONTROL, false);
    write_param(&mut rtc, 0x40); // 24-hour mode
    command(&mut rtc, REG_CONTROL, true);
    assert_eq!(read_param(&mut rtc), 0x40);
}

/// Reading the datetime over the wire must yield valid BCD — the exact check the
/// game performs. Guards against the command/parameter bit-order and clock-edge
/// bugs that made Pokémon report "the internal battery has run dry".
#[test]
fn datetime_reads_valid_bcd_over_the_wire() {
    let mut rtc = Rtc::new();
    rtc.write(0xC8, 1);
    command(&mut rtc, REG_DATETIME, true);
    let dt: Vec<u8> = (0..7).map(|_| read_param(&mut rtc)).collect();
    let bin = |b: u8| (b >> 4) * 10 + (b & 0xF);
    assert!(dt[0] & 0xF <= 9 && dt[0] >> 4 <= 9, "year {:02x}", dt[0]);
    assert!((1..=12).contains(&bin(dt[1])), "month {:02x}", dt[1]);
    assert!((1..=31).contains(&bin(dt[2])), "day {:02x}", dt[2]);
    assert!(bin(dt[4] & 0x7F) <= 23, "hour {:02x}", dt[4]);
    assert!(bin(dt[5]) <= 59, "min {:02x}", dt[5]);
    assert!(bin(dt[6]) <= 59, "sec {:02x}", dt[6]);
}

#[test]
fn datetime_read_is_valid_bcd() {
    let now = SystemTime::now().duration_since(UNIX_EPOCH).unwrap().as_secs();
    let dt = datetime_bcd(0x40, now); // 24-hour mode
    let month = (dt[1] >> 4) * 10 + (dt[1] & 0xF);
    let day = (dt[2] >> 4) * 10 + (dt[2] & 0xF);
    let hour = (dt[4] >> 4) * 10 + (dt[4] & 0xF);
    assert!((1..=12).contains(&month), "month {month}");
    assert!((1..=31).contains(&day), "day {day}");
    assert!(hour <= 23, "hour {hour}");
}

#[test]
fn civil_epoch_is_1970() {
    assert_eq!(civil_from_days(0), (1970, 1, 1));
    assert_eq!(civil_from_days(31), (1970, 2, 1));
    assert_eq!(civil_from_days(365), (1971, 1, 1));
}

#[test]
fn reads_return_zero_until_enabled() {
    let mut rtc = Rtc::new();
    rtc.write(0xC6, 0b0111);
    assert_eq!(rtc.read(0xC4), Some(0)); // read-enable clear
    rtc.write(0xC8, 1);
    assert!(rtc.read(0xC4).is_some());
}

/// Only the writable bits of the control register come back.
#[test]
fn the_power_failure_flag_cannot_be_written() {
    let mut rtc = Rtc::new();
    rtc.write(0xC8, 1);
    for byte in [0xFFu8, 0x80, 0x2A, 0x00] {
        command(&mut rtc, REG_CONTROL, false);
        write_param(&mut rtc, byte);
        command(&mut rtc, REG_CONTROL, true);
        assert_eq!(read_param(&mut rtc), byte & 0x6A);
    }
}

/// Writing the time does not set the clock: it still reads the host's date.
#[test]
fn writing_the_time_does_not_set_the_clock() {
    let mut rtc = Rtc::new();
    rtc.write(0xC8, 1);
    command(&mut rtc, REG_DATETIME, false);
    for _ in 0..7 {
        write_param(&mut rtc, 0x01);
    }
    command(&mut rtc, REG_DATETIME, true);
    let year = read_param(&mut rtc);
    assert_ne!(year, 0x01);
    assert!(year & 0xF <= 9 && year >> 4 <= 9);
}

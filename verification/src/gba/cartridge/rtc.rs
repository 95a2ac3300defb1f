//! Cartridge GPIO port and its Seiko S3511 real-time clock.
//!
//! Some carts wire a 4-bit general-purpose I/O port into the ROM bus at
//! `0x080000C4` (data), `0x080000C6` (direction) and `0x080000C8` (control). The
//! RTC hangs off three of those pins:
//!
//! * GPIO0 = SCK (serial clock, driven by the GBA)
//! * GPIO1 = SIO (serial data, bidirectional)
//! * GPIO2 = CS  (chip select, driven by the GBA)
//!
//! A command is framed by CS: raise CS, clock in an 8-bit command MSB-first
//! (`0110` header, then a 3-bit register select and a read/write bit), then clock
//! the register's bytes LSB-first - out of the chip for a read, into it for a
//! write. Reads are served from the host wall clock, so the in-game clock tracks
//! real time; writes to the time are accepted but do not override it (the control
//! register, e.g. the 24-hour flag, is kept).

use vstd::prelude::*;

use super::calendar;

verus! {

/// Register-select values in the S3511 command byte.
pub const REG_RESET: u8 = 0;

pub const REG_CONTROL: u8 = 1;

pub const REG_DATETIME: u8 = 2;

pub const REG_TIME: u8 = 3;

/// Bit 6 of the control register selects 24-hour mode.
pub const CONTROL_24HOUR: u8 = 0x40;

/// The bits a write command may change (24-hour plus the three interrupt enables);
/// the power-failure flag (bit 7) is not one of them.
pub const CONTROL_WRITABLE: u8 = 0x6A;

/// Where the serial transfer is.
#[derive(Clone, Copy, Debug, PartialEq, Eq, Structural)]
pub enum Phase {
    Idle,
    Command,
    Read,
    Write,
}

#[derive(Clone, Debug)]
pub struct Rtc {
    // GPIO pins: the last value the GBA wrote to them, and which of them it drives.
    data: u8,
    direction: u8,
    read_enable: bool,
    // Serial line state.
    prev_sck: bool,
    cs: bool,
    phase: Phase,
    // Bit/byte assembly for the active transfer: the command byte (MSB-first) or an
    // inbound data byte (LSB-first).
    shift: u8,
    shift_bits: u8,
    reg: u8,
    bytes_left: u8,
    in_byte_bits: u8,
    // Queued output bits for a read (LSB-first per byte), and the live SIO bit.
    out: Vec<bool>,
    out_index: usize,
    sio_out: bool,
    control: u8,
}

/// The state of the clock chip and of the pins it hangs off.
#[verifier::ext_equal]
pub struct RtcState {
    pub data: u8,
    pub direction: u8,
    pub read_enable: bool,
    pub prev_sck: bool,
    pub cs: bool,
    pub phase: Phase,
    pub shift: u8,
    pub shift_bits: u8,
    pub reg: u8,
    pub bytes_left: u8,
    pub in_byte_bits: u8,
    pub out: Seq<bool>,
    pub out_index: int,
    pub sio_out: bool,
    pub control: u8,
}

impl View for Rtc {
    type V = RtcState;

    closed spec fn view(&self) -> RtcState {
        RtcState {
            data: self.data,
            direction: self.direction,
            read_enable: self.read_enable,
            prev_sck: self.prev_sck,
            cs: self.cs,
            phase: self.phase,
            shift: self.shift,
            shift_bits: self.shift_bits,
            reg: self.reg,
            bytes_left: self.bytes_left,
            in_byte_bits: self.in_byte_bits,
            out: self.out@,
            out_index: self.out_index as int,
            sio_out: self.sio_out,
            control: self.control,
        }
    }
}

/// Two decimal digits packed into a byte.
pub open spec fn packed(v: int) -> u8 {
    (v / 10 * 16 + v % 10) as u8
}

/// The hour byte: 24-hour form, or 12-hour form with the PM flag.
pub open spec fn hour_byte(control: u8, hour: int) -> u8 {
    if control & 0x40 != 0 {
        packed(hour)
    } else {
        let shown = if hour % 12 == 0 {
            12
        } else {
            hour % 12
        };
        (packed(shown) + (if hour >= 12 {
            0x80int
        } else {
            0
        })) as u8
    }
}

/// The seven bytes of the datetime register at a time given in seconds since
/// 1970-01-01 (UTC): year, month, day, weekday, hour, minute, second.
pub open spec fn datetime(control: u8, seconds: u64) -> Seq<u8> {
    let days = seconds as int / 86_400;
    let rem = seconds as int % 86_400;
    let (year, month, day) = calendar::civil(days);
    seq![
        packed(year % 100),
        packed(month),
        packed(day),
        ((days + 4) % 7) as u8,
        hour_byte(control, rem / 3600),
        packed(rem % 3600 / 60),
        packed(rem % 60),
    ]
}

/// The bits of bytes, least significant first.
pub open spec fn bits_of(bytes: Seq<u8>) -> Seq<bool> {
    Seq::new(bytes.len() * 8, |k: int| (bytes[k / 8] >> ((k % 8) as u8)) & 1 != 0)
}

/// A byte with its bits in the opposite order.
pub open spec fn reversed(b: u8) -> u8 {
    (b & 0x01) << 7 | (b & 0x02) << 5 | (b & 0x04) << 3 | (b & 0x08) << 1 | (b & 0x10) >> 1 | (b
        & 0x20) >> 3 | (b & 0x40) >> 5 | (b & 0x80) >> 7
}

/// Byte count clocked for a register in a write command.
pub open spec fn register_length(reg: u8) -> u8 {
    if reg == REG_CONTROL {
        1
    } else if reg == REG_DATETIME {
        7
    } else if reg == REG_TIME {
        3
    } else {
        0
    }
}

impl RtcState {
    /// A healthy, initialised clock: 24-hour mode set, no power-failure flag.
    pub open spec fn initial() -> RtcState {
        RtcState {
            data: 0,
            direction: 0,
            read_enable: false,
            prev_sck: false,
            cs: false,
            phase: Phase::Idle,
            shift: 0,
            shift_bits: 0,
            reg: 0,
            bytes_left: 0,
            in_byte_bits: 0,
            out: Seq::empty(),
            out_index: 0,
            sio_out: false,
            control: CONTROL_24HOUR,
        }
    }

    /// A byte under assembly is not complete.
    pub open spec fn valid(self) -> bool {
        &&& self.phase == Phase::Command ==> self.shift_bits < 8
        &&& self.phase == Phase::Write ==> self.in_byte_bits < 8
        &&& self.out_index >= 0
    }

    /// The bytes a read command answers with.
    pub open spec fn register_bytes(self, reg: u8, seconds: u64) -> Seq<u8> {
        if reg == REG_CONTROL {
            seq![self.control]
        } else if reg == REG_DATETIME {
            datetime(self.control, seconds)
        } else if reg == REG_TIME {
            datetime(self.control, seconds).subrange(4, 7)
        } else {
            Seq::empty()
        }
    }

    /// A complete command byte carried out. A byte without the `0110` header was
    /// wired reversed.
    pub open spec fn decoded(self, seconds: u64) -> RtcState {
        let cmd = if self.shift >> 4 == 0b0110 {
            self.shift
        } else {
            reversed(self.shift)
        };
        let reg = (cmd >> 1) & 0b111;
        let s = RtcState { reg, ..self };
        if reg == REG_RESET {
            RtcState { control: 0, phase: Phase::Idle, ..s }
        } else if cmd & 1 != 0 {
            let out = bits_of(self.register_bytes(reg, seconds));
            RtcState {
                out,
                out_index: 0,
                sio_out: false,
                phase: if out.len() == 0 {
                    Phase::Idle
                } else {
                    Phase::Read
                },
                ..s
            }
        } else {
            RtcState {
                bytes_left: register_length(reg),
                shift: 0,
                in_byte_bits: 0,
                phase: if register_length(reg) == 0 {
                    Phase::Idle
                } else {
                    Phase::Write
                },
                ..s
            }
        }
    }

    /// A command bit sampled.
    pub open spec fn command_bit(self, sio: bool, seconds: u64) -> RtcState {
        let s = RtcState {
            shift: self.shift << 1 | (if sio {
                1u8
            } else {
                0u8
            }),
            shift_bits: (self.shift_bits + 1) as u8,
            ..self
        };
        if s.shift_bits == 8 {
            s.decoded(seconds)
        } else {
            s
        }
    }

    /// A parameter bit sampled. Only the control register keeps what is written.
    pub open spec fn parameter_bit(self, sio: bool) -> RtcState {
        let shift = self.shift | (if sio {
            1u8
        } else {
            0u8
        }) << self.in_byte_bits;
        if self.in_byte_bits + 1 == 8 {
            let left = if self.bytes_left == 0 {
                0u8
            } else {
                (self.bytes_left - 1) as u8
            };
            RtcState {
                control: if self.reg == REG_CONTROL {
                    shift & CONTROL_WRITABLE
                } else {
                    self.control
                },
                shift: 0,
                in_byte_bits: 0,
                bytes_left: left,
                phase: if left == 0 {
                    Phase::Idle
                } else {
                    self.phase
                },
                ..self
            }
        } else {
            RtcState { shift, in_byte_bits: (self.in_byte_bits + 1) as u8, ..self }
        }
    }

    /// An output bit presented; low when the queue has run dry.
    pub open spec fn output_bit(self) -> RtcState {
        RtcState {
            sio_out: if self.out_index < self.out.len() {
                self.out[self.out_index]
            } else {
                false
            },
            out_index: self.out_index + 1,
            ..self
        }
    }

    /// The serial state machine after a change of the driven pins. CS frames a
    /// command: a rising edge starts one, a low level ends it. Inbound bits are
    /// sampled on the rising clock edge, outbound bits presented on the falling one.
    pub open spec fn stepped(self, seconds: u64) -> RtcState {
        let pins = self.data & self.direction;
        let sck = pins & 0b0001 != 0;
        let sio = pins & 0b0010 != 0;
        let cs = pins & 0b0100 != 0;
        let s = if cs && !self.cs {
            RtcState { phase: Phase::Command, shift: 0, shift_bits: 0, ..self }
        } else if !cs {
            RtcState { phase: Phase::Idle, ..self }
        } else {
            self
        };
        let s = RtcState { cs, prev_sck: sck, ..s };
        let rising = sck && !self.prev_sck;
        let falling = !sck && self.prev_sck;
        if s.phase == Phase::Command && rising {
            s.command_bit(sio, seconds)
        } else if s.phase == Phase::Write && rising {
            s.parameter_bit(sio)
        } else if s.phase == Phase::Read && falling {
            s.output_bit()
        } else {
            s
        }
    }

    /// The chip after a GPIO register write at a given time; other offsets are no
    /// GPIO registers.
    pub open spec fn written(self, offset: u32, value: u16, seconds: u64) -> RtcState {
        if offset == 0xC4 {
            RtcState { data: value as u8 & 0x0F, ..self }.stepped(seconds)
        } else if offset == 0xC6 {
            RtcState { direction: value as u8 & 0x0F, ..self }
        } else if offset == 0xC8 {
            RtcState { read_enable: value & 1 != 0, ..self }
        } else {
            self
        }
    }

    /// A GPIO register read. Output pins read back their latch; SIO, when it is an
    /// input, reads the clock chip.
    pub open spec fn read(self, offset: u32) -> Option<u16> {
        if offset == 0xC4 {
            let latched = self.data & self.direction;
            let pins = if self.direction & 0b0010 == 0 && self.sio_out {
                latched | 0b0010
            } else {
                latched
            };
            Some(
                if self.read_enable {
                    (pins & 0x0F) as u16
                } else {
                    0u16
                },
            )
        } else if offset == 0xC6 {
            Some(self.direction as u16)
        } else if offset == 0xC8 {
            Some(
                if self.read_enable {
                    1u16
                } else {
                    0u16
                },
            )
        } else {
            None
        }
    }
}

impl Default for Rtc {
    fn default() -> (rtc: Self)
        ensures
            rtc@ == RtcState::initial(),
            rtc@.valid(),
    {
        Rtc {
            data: 0,
            direction: 0,
            read_enable: false,
            prev_sck: false,
            cs: false,
            phase: Phase::Idle,
            shift: 0,
            shift_bits: 0,
            reg: 0,
            bytes_left: 0,
            in_byte_bits: 0,
            out: Vec::new(),
            out_index: 0,
            sio_out: false,
            // A healthy, initialised clock: 24-hour mode set, no power-failure flag.
            // Games treat a clear 24-hour bit as an error and show "the internal
            // battery has run dry", so a real-time RTC must start here.
            control: CONTROL_24HOUR,
        }
    }
}

/// `std::time::SystemTime`, a reading of the host's clock.
#[verifier::external_type_specification]
#[verifier::external_body]
pub struct ExSystemTime(std::time::SystemTime);

/// `SystemTime::now`, the current reading. It may be any time, so nothing is claimed.
#[verifier::external_body]
fn host_clock() -> (now: std::time::SystemTime) {
    std::time::SystemTime::now()
}

/// `SystemTime::duration_since`, from the Unix epoch to a reading; `None` where the
/// reading is earlier. A reading may be any time, so nothing is claimed of the span.
#[verifier::external_body]
fn since_epoch(now: std::time::SystemTime) -> (span: Option<std::time::Duration>) {
    now.duration_since(std::time::UNIX_EPOCH).ok()
}

/// `Duration::as_secs`, the whole seconds of a span. A span may be any length, so nothing
/// is claimed of them.
#[verifier::external_body]
fn whole_seconds(span: std::time::Duration) -> (seconds: u64) {
    span.as_secs()
}

impl Rtc {
    /// A clock chip with idle pins.
    pub fn new() -> (rtc: Self)
        ensures
            rtc@ == RtcState::initial(),
            rtc@.valid(),
    {
        Self::default()
    }

    /// Read one of the three GPIO registers (offset `0xC4`/`0xC6`/`0xC8` within the
    /// ROM region). Returns `None` for any other offset so the bus falls back to ROM.
    pub fn read(&self, offset: u32) -> (value: Option<u16>)
        ensures
            value == self@.read(offset),
    {
        if offset == 0xC4 {
            if !self.read_enable {
                return Some(0);
            }
            // Output pins read back their latch; input pins read the device.
            let mut pins: u8 = self.data & self.direction;
            if self.direction & 0b0010 == 0 && self.sio_out {
                pins = pins | 0b0010;  // SIO is an input right now, driven by the RTC
            }
            Some((pins & 0x0F) as u16)
        } else if offset == 0xC6 {
            Some(self.direction as u16)
        } else if offset == 0xC8 {
            Some(
                if self.read_enable {
                    1
                } else {
                    0
                },
            )
        } else {
            None
        }
    }

    /// Write one of the three GPIO registers, at the time the host clock shows.
    /// Returns `true` if it was a GPIO register (so the bus does not also treat it
    /// as a dropped ROM write).
    pub fn write(&mut self, offset: u32, value: u16) -> (taken: bool)
        requires
            old(self)@.valid(),
            old(self)@.out_index < usize::MAX,
        ensures
            taken == (offset == 0xC4 || offset == 0xC6 || offset == 0xC8),
            exists|seconds: u64|
                final(self)@ == #[trigger] old(self)@.written(offset, value, seconds),
            final(self)@.valid(),
    {
        let seconds: u64 = match since_epoch(host_clock()) {
            Some(span) => whole_seconds(span),
            None => 0,
        };
        self.write_at(offset, value, seconds)
    }

    /// Write one of the three GPIO registers, at a given time.
    pub fn write_at(&mut self, offset: u32, value: u16, seconds: u64) -> (taken: bool)
        requires
            old(self)@.valid(),
            old(self)@.out_index < usize::MAX,
        ensures
            taken == (offset == 0xC4 || offset == 0xC6 || offset == 0xC8),
            final(self)@ == old(self)@.written(offset, value, seconds),
            final(self)@.valid(),
    {
        if offset == 0xC4 {
            self.data = value as u8 & 0x0F;
            self.step(seconds);
            true
        } else if offset == 0xC6 {
            self.direction = value as u8 & 0x0F;
            true
        } else if offset == 0xC8 {
            self.read_enable = value & 1 != 0;
            true
        } else {
            false
        }
    }

    /// The current pin levels the GBA is driving (0 for pins the device owns).
    fn driven(&self) -> (pins: u8)
        ensures
            pins == self@.data & self@.direction,
    {
        self.data & self.direction
    }

    /// Advance the serial state machine on a change to the driven pins.
    fn step(&mut self, seconds: u64)
        requires
            old(self)@.valid(),
            old(self)@.out_index < usize::MAX,
        ensures
            final(self)@ == old(self)@.stepped(seconds),
            final(self)@.valid(),
    {
        let pins: u8 = self.driven();
        let sck = pins & 0b0001 != 0;
        let sio = pins & 0b0010 != 0;
        let cs = pins & 0b0100 != 0;

        // CS frames a command: a rising edge starts one, a low level ends it.
        if cs && !self.cs {
            self.phase = Phase::Command;
            self.shift = 0;
            self.shift_bits = 0;
        } else if !cs {
            self.phase = Phase::Idle;
        }
        self.cs = cs;

        let rising = sck && !self.prev_sck;
        let falling = !sck && self.prev_sck;
        self.prev_sck = sck;

        let bit: u8 = if sio {
            1
        } else {
            0
        };
        if self.phase == Phase::Command && rising {
            // Inbound bits (command + write parameters) are sampled on the rising
            // edge - the game drives SIO while the clock is low.
            self.shift = self.shift << 1 | bit;
            self.shift_bits = self.shift_bits + 1;
            if self.shift_bits == 8 {
                self.decode_command(seconds);
            }
        } else if self.phase == Phase::Write && rising {
            // Parameter bytes are LSB-first (unlike the MSB-first command).
            self.shift = self.shift | bit << self.in_byte_bits;
            self.in_byte_bits = self.in_byte_bits + 1;
            if self.in_byte_bits == 8 {
                let byte: u8 = self.shift;
                self.store_byte(byte);
                self.shift = 0;
                self.in_byte_bits = 0;
                self.bytes_left = self.bytes_left.saturating_sub(1);
                if self.bytes_left == 0 {
                    self.phase = Phase::Idle;
                }
            }
        } else if self.phase == Phase::Read && falling {
            // Outbound bits are presented on the FALLING edge; the game raises the
            // clock and then samples SIO, so it reads the bit driven here. Presenting
            // on the rising edge instead would skip the first bit of every byte.
            self.sio_out = if self.out_index < self.out.len() {
                self.out[self.out_index]
            } else {
                false
            };
            self.out_index = self.out_index + 1;
        }
    }

    fn decode_command(&mut self, seconds: u64)
        ensures
            final(self)@ == old(self)@.decoded(seconds),
            final(self)@.valid(),
    {
        let raw: u8 = self.shift;
        // Expect the fixed 0110 header in the high nibble; if it is in the low
        // nibble instead the cart wired the byte reversed, so flip it.
        let cmd: u8 = if raw >> 4 == 0b0110 {
            raw
        } else {
            reverse(raw)
        };
        self.reg = (cmd >> 1) & 0b111;
        let read = cmd & 1 != 0;

        if self.reg == REG_RESET {
            self.control = 0;
            self.phase = Phase::Idle;
        } else if read {
            self.out = self.read_register(self.reg, seconds);
            // The first output bit is driven on the read phase's first falling
            // clock edge (see `step`), which the game issues before sampling.
            self.out_index = 0;
            self.sio_out = false;
            self.phase = if self.out.len() == 0 {
                Phase::Idle
            } else {
                Phase::Read
            };
        } else {
            self.bytes_left = register_len(self.reg);
            self.shift = 0;
            self.in_byte_bits = 0;
            self.phase = if self.bytes_left == 0 {
                Phase::Idle
            } else {
                Phase::Write
            };
        }
    }

    /// The bytes a read command clocks out, flattened LSB-first (bit 0 of each byte
    /// leaves the chip first - the parameter convention the game's driver expects).
    fn read_register(&self, reg: u8, seconds: u64) -> (out: Vec<bool>)
        ensures
            out@ == bits_of(self@.register_bytes(reg, seconds)),
    {
        let mut bytes: Vec<u8> = Vec::new();
        if reg == REG_CONTROL {
            bytes.push(self.control);
            assert(bytes@ =~= seq![self.control]);
        } else if reg == REG_DATETIME {
            let dt = datetime_bcd(self.control, seconds);
            let mut i: usize = 0;
            while i < 7
                invariant
                    i <= 7,
                    bytes@ == dt@.take(i as int),
                decreases 7 - i,
            {
                bytes.push(dt[i]);
                assert(dt@.take(i + 1) =~= dt@.take(i as int).push(dt@[i as int]));
                i = i + 1;
            }
            assert(dt@.take(7) =~= dt@);
        } else if reg == REG_TIME {
            let dt = datetime_bcd(self.control, seconds);
            bytes.push(dt[4]);
            bytes.push(dt[5]);
            bytes.push(dt[6]);
            assert(bytes@ =~= dt@.subrange(4, 7));
        }
        let mut out: Vec<bool> = Vec::new();
        let mut k: usize = 0;
        let total: usize = bytes.len() * 8;
        while k < total
            invariant
                k <= total,
                total == bytes@.len() * 8,
                total <= 56,
                out@ == bits_of(bytes@).take(k as int),
            decreases total - k,
        {
            let bit = (bytes[k / 8] >> ((k % 8) as u8)) & 1 != 0;
            out.push(bit);
            assert(bits_of(bytes@).take(k + 1) =~= bits_of(bytes@).take(k as int).push(bit));
            k = k + 1;
        }
        assert(bits_of(bytes@).take(total as int) =~= bits_of(bytes@));
        out
    }

    /// Apply one byte clocked into a write command.
    fn store_byte(&mut self, byte: u8)
        ensures
            final(self)@ == (RtcState {
                control: if old(self)@.reg == REG_CONTROL {
                    byte & CONTROL_WRITABLE
                } else {
                    old(self)@.control
                },
                ..old(self)@
            }),
    {
        // Only the control register is retained; time writes are accepted but the
        // clock stays anchored to real time.
        if self.reg == REG_CONTROL {
            self.control = byte & CONTROL_WRITABLE;
        }
    }
}

/// Byte count clocked for a register in a write command.
fn register_len(reg: u8) -> (len: u8)
    ensures
        len == register_length(reg),
{
    if reg == REG_CONTROL {
        1
    } else if reg == REG_DATETIME {
        7
    } else if reg == REG_TIME {
        3
    } else {
        0
    }
}

/// A byte with its bits in the opposite order.
fn reverse(b: u8) -> (r: u8)
    ensures
        r == reversed(b),
{
    (b & 0x01) << 7 | (b & 0x02) << 5 | (b & 0x04) << 3 | (b & 0x08) << 1 | (b & 0x10) >> 1 | (b
        & 0x20) >> 3 | (b & 0x40) >> 5 | (b & 0x80) >> 7
}

/// The 7-byte datetime register (year, month, day, weekday, hour, minute, second)
/// in packed BCD, at a time given in seconds since 1970-01-01 (UTC). Bit 6 of
/// `control` selects 24-hour mode; otherwise the hour uses the 12-hour form with
/// the PM flag.
pub fn datetime_bcd(control: u8, seconds: u64) -> (bytes: [u8; 7])
    ensures
        bytes@ == datetime(control, seconds),
{
    let days: i64 = (seconds / 86_400) as i64;
    let rem: u64 = seconds % 86_400;
    let hour24: u8 = (rem / 3600) as u8;
    let minute: u8 = ((rem % 3600) / 60) as u8;
    let second: u8 = (rem % 60) as u8;
    let (year, month, day) = calendar::civil_from_days(days);
    proof {
        calendar::civil_is_gregorian(days as int);
        lemma_year_is_positive(year as int, month as int, day as int);
    }
    let weekday: u8 = ((days + 4) % 7) as u8;  // 1970-01-01 was a Thursday

    let hour: u8 = if control & 0x40 != 0 {
        bcd(hour24)
    } else {
        let pm = hour24 >= 12;
        let h: u8 = if hour24 % 12 == 0 {
            12
        } else {
            hour24 % 12
        };
        let flag: u8 = if pm {
            0x80
        } else {
            0
        };
        bcd(h) + flag
    };
    let bytes = [
        bcd((year % 100) as u8),
        bcd(month),
        bcd(day),
        weekday,
        hour,
        bcd(minute),
        bcd(second),
    ];
    assert(bytes@ =~= datetime(control, seconds));
    bytes
}

proof fn lemma_year_is_positive(year: int, month: int, day: int)
    requires
        calendar::is_date(year, month, day),
        calendar::day_number(year, month, day) >= 0,
    ensures
        year >= 1970,
{
    if year < 1970 {
        lemma_within_year(year, month, day);
        assert(calendar::days_before_year(year + 1) <= calendar::days_before_year(1970)) by {
            let a = year;
            assert(a / 4 - a / 100 + a / 400 <= 1969int / 4 - 1969int / 100 + 1969int / 400 + (1969
                - a)) by {
                lemma_leaps(a, 1969);
            }
        }
    }
}

proof fn lemma_leaps(a: int, b: int)
    requires
        a <= b,
    ensures
        a / 4 - a / 100 + a / 400 <= b / 4 - b / 100 + b / 400 + (b - a),
{
}

proof fn lemma_within_year(year: int, month: int, day: int)
    requires
        calendar::is_date(year, month, day),
    ensures
        calendar::day_number(year, month, day) < calendar::days_before_year(year + 1)
            - calendar::days_before_year(1970),
{
    calendar::lemma_months(year);
    assert(calendar::days_before_month(year, month) + day <= 365 + (if calendar::is_leap(year) {
        1int
    } else {
        0
    }));
    calendar::lemma_year_length(year);
}

/// Two decimal digits packed into a byte.
fn bcd(v: u8) -> (b: u8)
    requires
        v < 100,
    ensures
        b == packed(v as int),
{
    (v / 10) * 16 + v % 10
}

/// The number a packed byte stands for.
pub open spec fn unpacked(b: u8) -> int {
    b as int / 16 * 10 + b as int % 16
}

proof fn lemma_packed(v: int)
    requires
        0 <= v < 100,
    ensures
        packed(v) == v / 10 * 16 + v % 10,
        packed(v) / 16 <= 9,
        packed(v) % 16 <= 9,
        unpacked(packed(v)) == v,
{
}

/// Whatever the time, the datetime register holds valid packed decimals within
/// the range of a date and a time of day.
pub proof fn datetime_is_valid_bcd(control: u8, seconds: u64)
    ensures
        ({
            let dt = datetime(control, seconds);
            &&& dt.len() == 7
            &&& dt[0] as int / 16 <= 9 && dt[0] as int % 16 <= 9
            &&& 1 <= unpacked(dt[1]) <= 12
            &&& 1 <= unpacked(dt[2]) <= 31
            &&& dt[3] <= 6
            &&& control & 0x40 != 0 ==> unpacked(dt[4]) <= 23
            &&& control & 0x40 == 0 ==> 1 <= unpacked((dt[4] as int % 128) as u8) <= 12
            &&& unpacked(dt[5]) <= 59
            &&& unpacked(dt[6]) <= 59
        }),
{
    let days = seconds as int / 86_400;
    let rem = seconds as int % 86_400;
    let (year, month, day) = calendar::civil(days);
    assert(1 <= month <= 12 && 1 <= day <= 31) by {
        calendar::civil_is_gregorian(days);
    }
    let hour = rem / 3600;
    let shown = if hour % 12 == 0 {
        12
    } else {
        hour % 12
    };
    lemma_packed(year % 100);
    lemma_packed(month);
    lemma_packed(day);
    lemma_packed(hour);
    lemma_packed(shown);
    lemma_packed(rem % 3600 / 60);
    lemma_packed(rem % 60);
    assert(packed(shown) < 32);
}

} // verus!

//! Serial EEPROM save chip (4 Kbit / 64 Kbit).
//!
//! Unlike SRAM/Flash, EEPROM does not live in the `0x0E000000` save region. It is
//! a bit-serial device wired into the *upper GamePak window* (`0x0D000000..`), and
//! the game talks to it exclusively through DMA3: each 16-bit transfer moves a
//! single bit (only D0 matters). A command is a burst of *write* transfers,
//! followed by *read* transfers:
//!
//! * Read:  `1 1` + address + `0`, then 68 reads (4 don't-care bits + 64 data).
//! * Write: `1 0` + address + 64 data bits + `0`, then reads poll the ready bit.
//!
//! The address is 6 bits on a 512-byte chip and 14 bits on an 8-KiB chip; the chip
//! is organised as 8-byte blocks. The width is not encoded anywhere - hardware
//! infers it from the number of bits the game clocks in, so it is detected from the
//! command-burst length (9/73 bits => 6-bit, 17/81 bits => 14-bit).

use vstd::prelude::*;

use super::chip;

verus! {

pub const SIZE_512: usize = 0x200;

pub const SIZE_8K: usize = 0x2000;

#[derive(Clone, Debug)]
pub struct Eeprom {
    data: Vec<u8>,
    /// Address bits per command: 6 or 14. `0` until the first command reveals it.
    addr_bits: u8,
    /// Bits clocked in since the current command started (MSB first).
    input: u128,
    input_len: u16,
    /// Bits queued to clock out (MSB first), and how many remain.
    output: u128,
    output_len: u16,
    dirty: bool,
}

/// What an EEPROM holds, and where its serial protocol is.
#[verifier::ext_equal]
pub struct EepromState {
    pub data: Seq<u8>,
    pub addr_bits: u8,
    pub input: u128,
    pub input_len: u16,
    pub output: u128,
    pub output_len: u16,
    pub dirty: bool,
}

impl View for Eeprom {
    type V = EepromState;

    closed spec fn view(&self) -> EepromState {
        EepromState {
            data: self.data@,
            addr_bits: self.addr_bits,
            input: self.input,
            input_len: self.input_len,
            output: self.output,
            output_len: self.output_len,
            dirty: self.dirty,
        }
    }
}

/// `count` bytes from `start` on, as one big-endian number.
pub open spec fn big_endian(data: Seq<u8>, start: int, count: nat) -> u128
    decreases count,
{
    if count == 0 {
        0
    } else {
        big_endian(data, start, (count - 1) as nat) << 8 | data[start + count - 1] as u128
    }
}

/// Byte `i` of a big-endian doubleword.
pub open spec fn byte_of(value: u64, i: int) -> u8 {
    (value >> ((56 - 8 * i) as u64)) as u8
}

/// `data` with a doubleword stored big-endian at `start`.
pub open spec fn stored(data: Seq<u8>, start: int, value: u64) -> Seq<u8> {
    Seq::new(
        data.len(),
        |i: int|
            if start <= i < start + 8 {
                byte_of(value, i - start)
            } else {
                data[i]
            },
    )
}

impl EepromState {
    /// A blank chip, sized for the smaller part until a command says otherwise.
    pub open spec fn blank() -> EepromState {
        EepromState {
            data: Seq::new(SIZE_512 as nat, |i: int| 0xFFu8),
            addr_bits: 0,
            input: 0,
            input_len: 0,
            output: 0,
            output_len: 0,
            dirty: false,
        }
    }

    /// A blank chip of the larger part, whose address width is known.
    pub open spec fn blank_large() -> EepromState {
        EepromState {
            data: Seq::new(SIZE_8K as nat, |i: int| 0xFFu8),
            addr_bits: 14,
            ..EepromState::blank()
        }
    }

    /// The address width, once known, is that of the chip's size, and no bit is held
    /// where none was clocked in.
    pub open spec fn valid(self) -> bool {
        &&& self.data.len() == SIZE_512 || self.data.len() == SIZE_8K
        &&& self.addr_bits == 0 || self.addr_bits == 6 || self.addr_bits == 14
        &&& self.addr_bits == 14 ==> self.data.len() == SIZE_8K
        &&& self.addr_bits == 6 ==> self.data.len() == SIZE_512
        &&& self.output_len <= 68
        &&& self.input_len == 0 ==> self.input == 0
    }

    /// One bit clocked in. It ends an output phase.
    pub open spec fn bit_written(self, bit: bool) -> EepromState {
        EepromState {
            input: self.input << 1 | (if bit {
                1u128
            } else {
                0u128
            }),
            input_len: (self.input_len + 1) as u16,
            output: if self.output_len != 0 {
                0
            } else {
                self.output
            },
            output_len: 0,
            ..self
        }
    }

    /// The chip sized for an address width, keeping what fits.
    pub open spec fn with_width(self, addr_bits: u8) -> EepromState {
        let size = if addr_bits == 14 {
            SIZE_8K
        } else {
            SIZE_512
        };
        EepromState {
            addr_bits,
            data: if self.data.len() == size {
                self.data
            } else {
                chip::restored(self.data, size as nat)
            },
            ..self
        }
    }

    /// The block that the command in `input` addresses.
    pub open spec fn block(self) -> int {
        let width = self.addr_bits as u128;
        let addr = (self.input >> ((self.input_len - 2 - width) as u128)) & ((1u128 << width)
            - 1) as u128;
        (addr as int % (self.data.len() as int / 8)) * 8
    }

    /// The command bits of the burst in `input`.
    pub open spec fn command(self) -> u128 {
        (self.input >> ((self.input_len - 2) as u128)) & 3
    }

    /// The data bits of a write burst.
    pub open spec fn payload(self) -> u64 {
        ((self.input >> 1) & 0xFFFF_FFFF_FFFF_FFFFu128) as u64
    }

    /// The accumulated burst carried out. The first burst fixes the address
    /// width; one too short to hold an address does nothing more.
    pub open spec fn executed(self) -> EepromState {
        let s = if self.addr_bits == 0 {
            self.with_width(
                if self.input_len == 17 || self.input_len == 81 {
                    14
                } else {
                    6
                },
            )
        } else {
            self
        };
        if s.input_len < 2 + s.addr_bits {
            s
        } else if s.command() == 3 {
            EepromState { output: big_endian(s.data, s.block(), 8), output_len: 68, ..s }
        } else if s.command() == 2 {
            let data = if s.input_len > 2 + s.addr_bits + 64 {
                stored(s.data, s.block(), s.payload())
            } else {
                s.data
            };
            EepromState {
                data,
                dirty: s.dirty || data != s.data,
                output: 0,
                output_len: 0,
                ..s
            }
        } else {
            s
        }
    }

    /// The chip after a pending burst, if any, was carried out.
    pub open spec fn settled(self) -> EepromState {
        if self.input_len != 0 {
            EepromState { input: 0, input_len: 0, ..self.executed() }
        } else {
            self
        }
    }

    /// One bit clocked out, most significant first; `1` when nothing is queued.
    pub open spec fn bit_read(self) -> (u16, EepromState) {
        let s = self.settled();
        if s.output_len == 0 {
            (1, s)
        } else {
            let left = (s.output_len - 1) as u16;
            (((s.output >> (left as u128)) & 1) as u16, EepromState { output_len: left, ..s })
        }
    }
}

impl Default for Eeprom {
    fn default() -> (eeprom: Self)
        ensures
            eeprom@ == EepromState::blank(),
            eeprom@.valid(),
    {
        // Start sized for the smaller chip; a 14-bit command upgrades it to 8 KiB.
        Eeprom {
            data: chip::erased(SIZE_512),
            addr_bits: 0,
            input: 0,
            input_len: 0,
            output: 0,
            output_len: 0,
            dirty: false,
        }
    }
}

impl Eeprom {
    /// A blank chip.
    pub fn new() -> (eeprom: Self)
        ensures
            eeprom@ == EepromState::blank(),
            eeprom@.valid(),
    {
        Self::default()
    }

    /// A blank 8-KiB chip, addressed with 14 bits.
    pub fn large() -> (eeprom: Self)
        ensures
            eeprom@ == EepromState::blank_large(),
            eeprom@.valid(),
    {
        Eeprom { data: chip::erased(SIZE_8K), addr_bits: 14, ..Self::default() }
    }

    /// The raw contents.
    pub fn bytes(&self) -> (bytes: &[u8])
        ensures
            bytes@ == self@.data,
    {
        self.data.as_slice()
    }

    /// The chip size in bytes (512 or 8192).
    pub fn size(&self) -> (size: usize)
        ensures
            size == self@.data.len(),
    {
        self.data.len()
    }

    /// Address bits per command: 6 or 14, or 0 until the first command reveals it.
    pub fn addr_bits(&self) -> (bits: u8)
        ensures
            bits == self@.addr_bits,
    {
        self.addr_bits
    }

    /// Restore from a `.sav`: the file length picks the chip size (and thus the
    /// address width), so a save round-trips even without the `.meta` sidecar.
    pub fn load(&mut self, data: &[u8])
        ensures
            final(self)@ == ({
                let large = data@.len() > SIZE_512;
                EepromState {
                    data: chip::restored(
                        data@,
                        if large {
                            SIZE_8K as nat
                        } else {
                            SIZE_512 as nat
                        },
                    ),
                    addr_bits: if large {
                        14
                    } else {
                        6
                    },
                    input: 0,
                    input_len: 0,
                    output: 0,
                    output_len: 0,
                    dirty: false,
                }
            }),
            final(self)@.valid(),
    {
        let size: usize = if data.len() > SIZE_512 {
            SIZE_8K
        } else {
            SIZE_512
        };
        self.addr_bits = if size == SIZE_8K {
            14
        } else {
            6
        };
        self.data = chip::restore(data, size);
        self.input = 0;
        self.input_len = 0;
        self.output = 0;
        self.output_len = 0;
        self.dirty = false;
    }

    /// Whether there are unsaved writes.
    pub fn dirty(&self) -> (dirty: bool)
        ensures
            dirty == self@.dirty,
    {
        self.dirty
    }

    /// Mark the contents as saved.
    pub fn clear_dirty(&mut self)
        ensures
            final(self)@ == (EepromState { dirty: false, ..old(self)@ }),
    {
        self.dirty = false;
    }

    /// Clock one bit in (from a DMA write to the EEPROM window; only D0 is used).
    pub fn write_bit(&mut self, bit: bool)
        requires
            old(self)@.valid(),
            old(self)@.input_len < u16::MAX,
        ensures
            final(self)@ == old(self)@.bit_written(bit),
            final(self)@.valid(),
    {
        // A write after an output phase begins the next command.
        if self.output_len != 0 {
            self.output = 0;
            self.output_len = 0;
        }
        let low: u128 = if bit {
            1
        } else {
            0
        };
        self.input = self.input << 1 | low;
        self.input_len = self.input_len + 1;
    }

    /// Clock one bit out (to a DMA read from the EEPROM window; the bit is in D0).
    /// A read that follows a command burst first executes the command. When no
    /// data is queued the chip reads back ready (`1`).
    pub fn read_bit(&mut self) -> (bit: u16)
        requires
            old(self)@.valid(),
            old(self)@.input_len < 130,
        ensures
            (bit, final(self)@) == old(self)@.bit_read(),
            final(self)@.valid(),
    {
        if self.input_len != 0 {
            self.execute();
            self.input = 0;
            self.input_len = 0;
        }
        if self.output_len == 0 {
            return 1;  // ready / idle
        }
        self.output_len = self.output_len - 1;
        ((self.output >> (self.output_len as u128)) & 1) as u16
    }

    /// Interpret the accumulated command burst.
    fn execute(&mut self)
        requires
            old(self)@.valid(),
            0 < old(self)@.input_len < 130,
        ensures
            final(self)@ == old(self)@.executed(),
            final(self)@.valid(),
    {
        let len: u16 = self.input_len;
        // Detect address width from the burst length the game clocked in.
        if self.addr_bits == 0 {
            self.set_width(
                if len == 17 || len == 81 {
                    14
                } else {
                    6
                },
            );
        }
        let width: u16 = self.addr_bits as u16;
        if len < 2 + width {
            return ;  // malformed / partial burst
        }
        let command: u128 = (self.input >> ((len - 2) as u128)) & 3;
        let shifted: u128 = self.input >> ((len - 2 - width) as u128);
        proof {
            lemma_next_bit(0, 0);
        }
        let mask: u128 = (1u128 << (width as u128)) - 1;
        let addr: u128 = shifted & mask;
        let blocks: u128 = (self.data.len() / 8) as u128;
        let block: usize = (addr % blocks) as usize * 8;
        assert(block == self@.block());

        if command == 3 {
            // Read: 4 leading don't-care bits (left as 0) then 64 data bits.
            let mut out: u128 = 0;
            let mut i: usize = 0;
            while i < 8
                invariant
                    i <= 8,
                    block + 8 <= self.data@.len(),
                    block < 0x2000,
                    out == big_endian(self.data@, block as int, i as nat),
                decreases 8 - i,
            {
                out = out << 8 | self.data[block + i] as u128;
                i = i + 1;
            }
            self.output = out;
            self.output_len = 68;
        } else if command == 2 {
            // Write: 64 data bits sit above the single trailing stop bit.
            if len > 2 + width + 64 {
                let payload: u64 = ((self.input >> 1) & 0xFFFF_FFFF_FFFF_FFFFu128) as u64;
                self.store(block, payload);
            }
            self.output = 0;
            self.output_len = 0;  // subsequent reads poll ready (1)
        }
    }

    /// Store a doubleword big-endian, noting whether anything changed.
    fn store(&mut self, block: usize, value: u64)
        requires
            block + 8 <= old(self)@.data.len(),
            block < 0x2000,
        ensures
            final(self)@ == ({
                let data = stored(old(self)@.data, block as int, value);
                EepromState {
                    data,
                    dirty: old(self)@.dirty || data != old(self)@.data,
                    ..old(self)@
                }
            }),
    {
        let ghost before = self.data@;
        let ghost target = stored(before, block as int, value);
        let ghost was_dirty = self.dirty;
        let mut changed = false;
        let mut i: usize = 0;
        while i < 8
            invariant
                i <= 8,
                block + 8 <= before.len(),
                block < 0x2000,
                self.data@.len() == before.len(),
                target == stored(before, block as int, value),
                forall|j: int|
                    0 <= j < before.len() ==> #[trigger] self.data@[j] == (if block <= j < block
                        + i {
                        target[j]
                    } else {
                        before[j]
                    }),
                changed <==> exists|j: int|
                    block <= j < block + i && #[trigger] target[j] != before[j],
                self.addr_bits == old(self).addr_bits,
                self.input == old(self).input,
                self.input_len == old(self).input_len,
                self.output == old(self).output,
                self.output_len == old(self).output_len,
                self.dirty == old(self).dirty,
            decreases 8 - i,
        {
            let byte: u8 = (value >> ((56 - 8 * i) as u64)) as u8;
            assert(target[block + i] == byte);
            if self.data[block + i] != byte {
                self.data[block + i] = byte;
                changed = true;
            }
            i = i + 1;
        }
        proof {
            assert(self.data@ =~= target);
            if changed {
                let j = choose|j: int|
                    block <= j < block + 8 && #[trigger] target[j] != before[j];
                assert(target != before);
            } else {
                assert(target =~= before);
            }
        }
        if changed {
            self.dirty = true;
        }
    }

    /// Size the chip for an address width, keeping what fits.
    fn set_width(&mut self, addr_bits: u8)
        requires
            addr_bits == 6 || addr_bits == 14,
            old(self)@.valid(),
        ensures
            final(self)@ == old(self)@.with_width(addr_bits),
            final(self)@.valid(),
    {
        self.addr_bits = addr_bits;
        let size: usize = if addr_bits == 14 {
            SIZE_8K
        } else {
            SIZE_512
        };
        if self.data.len() != size {
            self.data = chip::restore(self.data.as_slice(), size);
        }
    }
}

/// The chip after the first `k` of `n` bits were clocked in, most significant first.
pub open spec fn clocked_in(chip: EepromState, bits: u128, n: nat, k: nat) -> EepromState
    decreases k,
{
    if k == 0 {
        chip
    } else {
        clocked_in(chip, bits, n, (k - 1) as nat).bit_written(
            (bits >> ((n - k) as u128)) & 1 != 0,
        )
    }
}

/// What `k` bits clocked out come to, most significant first, and the chip after them.
pub open spec fn clocked_out(chip: EepromState, k: nat) -> (u128, EepromState)
    decreases k,
{
    if k == 0 {
        (0, chip)
    } else {
        let (value, before) = clocked_out(chip, (k - 1) as nat);
        let (bit, after) = before.bit_read();
        (value << 1 | bit as u128, after)
    }
}

/// The address bits of a chip of either size.
pub open spec fn width(large: bool) -> u8 {
    if large {
        14
    } else {
        6
    }
}

/// The burst that writes `value` to block `addr`: `10`, the address, the data, and a stop
/// bit.
pub open spec fn write_burst(large: bool, addr: u128, value: u64) -> u128 {
    if large {
        ((2u128 << 14 | addr) << 64 | value as u128) << 1
    } else {
        ((2u128 << 6 | addr) << 64 | value as u128) << 1
    }
}

/// The burst that reads block `addr`: `11`, the address, and a stop bit.
pub open spec fn read_burst(large: bool, addr: u128) -> u128 {
    if large {
        (3u128 << 14 | addr) << 1
    } else {
        (3u128 << 6 | addr) << 1
    }
}

proof fn lemma_bursts(addr: u128, value: u64)
    by (bit_vector)
    ensures
        addr < 64 ==> {
            let input = ((2u128 << 6 | addr) << 64 | value as u128) << 1;
            &&& (input >> 71u128) & 3 == 2
            &&& (input >> 65u128) & (((1u128 << 6u128) - 1) as u128) == addr
            &&& ((input >> 1) & 0xFFFF_FFFF_FFFF_FFFFu128) as u64 == value
            &&& input >> 73u128 == 0
        },
        addr < 64 ==> {
            let input = (3u128 << 6 | addr) << 1;
            &&& (input >> 7u128) & 3 == 3
            &&& (input >> 1u128) & (((1u128 << 6u128) - 1) as u128) == addr
            &&& input >> 9u128 == 0
        },
        addr < 0x4000 ==> {
            let input = ((2u128 << 14 | addr) << 64 | value as u128) << 1;
            &&& (input >> 79u128) & 3 == 2
            &&& (input >> 65u128) & (((1u128 << 14u128) - 1) as u128) == addr
            &&& ((input >> 1) & 0xFFFF_FFFF_FFFF_FFFFu128) as u64 == value
            &&& input >> 81u128 == 0
        },
        addr < 0x4000 ==> {
            let input = (3u128 << 14 | addr) << 1;
            &&& (input >> 15u128) & 3 == 3
            &&& (input >> 1u128) & (((1u128 << 14u128) - 1) as u128) == addr
            &&& input >> 17u128 == 0
        },
{
}

proof fn lemma_next_bit(bits: u128, left: u128)
    by (bit_vector)
    requires
        left < 127,
    ensures
        (bits >> ((left + 1) as u128)) << 1 | ((bits >> left) & 1) == bits >> left,
        (bits >> left) & 1 == 0 || (bits >> left) & 1 == 1,
        bits >> 0u128 == bits,
        1u128 << 6u128 == 64,
        1u128 << 14u128 == 16384,
{
}

proof fn lemma_reassemble(value: u64)
    by (bit_vector)
    ensures
        (((((((((0u128 << 8 | ((value >> 56u64) as u8) as u128) << 8 | ((value >> 48u64) as u8) as u128)
            << 8 | ((value >> 40u64) as u8) as u128) << 8 | ((value >> 32u64) as u8) as u128) << 8
            | ((value >> 24u64) as u8) as u128) << 8 | ((value >> 16u64) as u8) as u128) << 8 | ((
        value >> 8u64) as u8) as u128) << 8 | ((value >> 0u64) as u8) as u128)) == value as u128,
        value as u128 >> 68u128 == 0,
        value == ((value >> 56u64) as u8) * 0x100_0000_0000_0000 + ((value >> 48u64) as u8)
            * 0x1_0000_0000_0000 + ((value >> 40u64) as u8) * 0x100_0000_0000 + ((value >> 32u64)
            as u8) * 0x1_0000_0000 + ((value >> 24u64) as u8) * 0x100_0000 + ((value >> 16u64) as u8)
            * 0x1_0000 + ((value >> 8u64) as u8) * 0x100 + ((value >> 0u64) as u8),
{
}

/// The bytes of a doubleword, the most significant first.
pub proof fn lemma_bytes_of(value: u64)
    ensures
        value == byte_of(value, 0) * 0x100_0000_0000_0000 + byte_of(value, 1) * 0x1_0000_0000_0000
            + byte_of(value, 2) * 0x100_0000_0000 + byte_of(value, 3) * 0x1_0000_0000 + byte_of(
            value,
            4,
        ) * 0x100_0000 + byte_of(value, 5) * 0x1_0000 + byte_of(value, 6) * 0x100 + byte_of(
            value,
            7,
        ),
{
    lemma_reassemble(value);
}

proof fn lemma_clocked_in(chip: EepromState, bits: u128, n: nat, k: nat)
    requires
        chip.valid(),
        chip.input_len == 0,
        k <= n <= 81,
        bits >> (n as u128) == 0,
    ensures
        ({
            let after = clocked_in(chip, bits, n, k);
            &&& after.input == bits >> ((n - k) as u128)
            &&& after.input_len == k
            &&& after.data == chip.data
            &&& after.addr_bits == chip.addr_bits
            &&& k > 0 ==> after.output_len == 0
        }),
    decreases k,
{
    if k > 0 {
        lemma_clocked_in(chip, bits, n, (k - 1) as nat);
        lemma_next_bit(bits, (n - k) as u128);
        assert((n - (k - 1)) as u128 == ((n - k) as u128 + 1) as u128);
    }
}

proof fn lemma_clocked_out(chip: EepromState, k: nat)
    requires
        chip.settled().output_len == 68,
        chip.settled().input_len == 0,
        chip.settled().output >> 68u128 == 0,
        0 < k <= 68,
    ensures
        ({
            let (value, after) = clocked_out(chip, k);
            &&& value == chip.settled().output >> ((68 - k) as u128)
            &&& after == EepromState { output_len: (68 - k) as u16, ..chip.settled() }
        }),
    decreases k,
{
    let output = chip.settled().output;
    lemma_next_bit(output, (68 - k) as u128);
    assert((68 - (k - 1)) as u128 == ((68 - k) as u128 + 1) as u128);
    if k > 1 {
        lemma_clocked_out(chip, (k - 1) as nat);
    } else {
        assert(clocked_out(chip, 0) == (0u128, chip));
    }
}

proof fn lemma_write_settles(chip: EepromState, large: bool, addr: u128, value: u64)
    requires
        chip.valid(),
        chip.addr_bits == 0 || chip.addr_bits == width(large),
        chip.input == write_burst(large, addr, value),
        chip.input_len == 67 + width(large),
        chip.output_len == 0,
        addr < (if large {
            0x4000u128
        } else {
            64u128
        }),
    ensures
        ({
            let sized = chip.with_width(width(large));
            let after = chip.settled();
            let block = (addr as int % (sized.data.len() as int / 8)) * 8;
            &&& after.data == stored(sized.data, block, value)
            &&& after.addr_bits == width(large)
            &&& after.input == 0 && after.input_len == 0 && after.output_len == 0
            &&& after.valid()
        }),
{
    lemma_bursts(addr, value);
    let sized = chip.with_width(width(large));
    let input = chip.input;
    assert(sized.addr_bits as u128 == width(large) as u128);
    assert((sized.input_len - 2 - sized.addr_bits as u128) as u128 == 65u128);
    assert((input >> 65u128) & (((1u128 << (sized.addr_bits as u128)) - 1) as u128) == addr);
    assert(chip.executed().data == stored(sized.data, sized.block(), value));
}

proof fn lemma_read_settles(chip: EepromState, large: bool, addr: u128)
    requires
        chip.valid(),
        chip.addr_bits == width(large),
        chip.input == read_burst(large, addr),
        chip.input_len == 3 + width(large),
        addr < (if large {
            0x4000u128
        } else {
            64u128
        }),
    ensures
        chip.settled().output == big_endian(
            chip.data,
            (addr as int % (chip.data.len() as int / 8)) * 8,
            8,
        ),
        chip.settled().output_len == 68,
        chip.settled().input_len == 0,
{
    lemma_bursts(addr, 0);
    let input = chip.input;
    assert(chip.addr_bits as u128 == width(large) as u128);
    assert((chip.input_len - 2 - chip.addr_bits as u128) as u128 == 1u128);
    assert((input >> 1u128) & (((1u128 << (chip.addr_bits as u128)) - 1) as u128) == addr);
}

/// What is written to a block is what a read of that block clocks out, on a chip of either
/// size, whether its address width is known already or the write is its first command. A
/// poll in between reads ready, and the 68 bits of the answer are four zeros and the data.
pub proof fn write_then_read_round_trips(chip: EepromState, large: bool, addr: u128, value: u64)
    requires
        chip.valid(),
        chip.input_len == 0,
        chip.addr_bits == 0 || chip.addr_bits == width(large),
        addr < (if large {
            0x4000u128
        } else {
            64u128
        }),
    ensures
        ({
            let writing = (67 + width(large)) as nat;
            let reading = (3 + width(large)) as nat;
            let written = clocked_in(chip, write_burst(large, addr, value), writing, writing);
            let (ready, polled) = written.bit_read();
            let asked = clocked_in(polled, read_burst(large, addr), reading, reading);
            &&& ready == 1
            &&& polled.addr_bits == width(large)
            &&& polled.data.len() == (if large {
                SIZE_8K
            } else {
                SIZE_512
            })
            &&& clocked_out(asked, 68).0 == value as u128
        }),
{
    let writing = (67 + width(large)) as nat;
    let reading = (3 + width(large)) as nat;
    lemma_bursts(addr, value);
    lemma_clocked_in(chip, write_burst(large, addr, value), writing, writing);
    lemma_next_bit(write_burst(large, addr, value), 0);
    let written = clocked_in(chip, write_burst(large, addr, value), writing, writing);
    assert(written.valid());
    lemma_write_settles(written, large, addr, value);
    let polled = written.bit_read().1;
    assert(polled == written.settled());
    lemma_clocked_in(polled, read_burst(large, addr), reading, reading);
    lemma_next_bit(read_burst(large, addr), 0);
    let asked = clocked_in(polled, read_burst(large, addr), reading, reading);
    assert(asked.valid());
    lemma_read_settles(asked, large, addr);
    let d = asked.data;
    let block = (addr as int % (d.len() as int / 8)) * 8;
    lemma_reassemble(value);
    reveal_with_fuel(big_endian, 9);
    assert(0 <= block && block + 8 <= d.len());
    assert(big_endian(d, block, 1) == 0u128 << 8 | d[block] as u128);
    assert(big_endian(d, block, 8) == value as u128);
    lemma_clocked_out(asked, 68);
    lemma_next_bit(asked.settled().output, 0);
}

} // verus!

//! The clock chip's serial protocol as the GBA drives it: whole frames of GPIO accesses,
//! and what is read back of what was written.
//!
//! Every access happens at a time of its own; `clock` gives the host's seconds at the
//! `n`th access of a conversation.

use vstd::prelude::*;

use super::rtc::{bits_of, datetime, Phase, RtcState, CONTROL_WRITABLE, REG_CONTROL, REG_DATETIME};

verus! {

/// The pins that clock a bit in, SCK low: CS high, SIO the bit.
pub open spec fn setup(bit: bool) -> u16 {
    if bit {
        0b0110
    } else {
        0b0100
    }
}

/// The same pins, SCK high.
pub open spec fn sampling(bit: bool) -> u16 {
    if bit {
        0b0111
    } else {
        0b0101
    }
}

/// The chip after the first `k` of some bits were clocked in, from access `n` on.
pub open spec fn sent(
    chip: RtcState,
    bits: Seq<bool>,
    k: nat,
    clock: spec_fn(int) -> u64,
    n: int,
) -> RtcState
    decreases k,
{
    if k == 0 {
        chip
    } else {
        let bit = bits[k - 1];
        sent(chip, bits, (k - 1) as nat, clock, n).written(
            0xC4,
            setup(bit),
            clock(n + 2 * (k - 1)),
        ).written(0xC4, sampling(bit), clock(n + 2 * (k - 1) + 1))
    }
}

/// A byte's bits, most significant first, as commands are clocked in.
pub open spec fn most_significant_first(byte: u8) -> Seq<bool> {
    Seq::new(8, |k: int| (byte >> ((7 - k) as u8)) & 1 != 0)
}

/// A byte's bits, least significant first, as parameters travel.
pub open spec fn least_significant_first(byte: u8) -> Seq<bool> {
    Seq::new(8, |k: int| (byte >> (k as u8)) & 1 != 0)
}

/// The chip after a new frame was opened - all pins outputs, CS dropped and raised - and
/// a command clocked in: 19 accesses.
pub open spec fn commanded(
    chip: RtcState,
    command: u8,
    clock: spec_fn(int) -> u64,
    n: int,
) -> RtcState {
    let opened = chip.written(0xC6, 0b0111, clock(n)).written(0xC4, 0, clock(n + 1)).written(
        0xC4,
        0b0100,
        clock(n + 2),
    );
    sent(opened, most_significant_first(command), 8, clock, n + 3)
}

/// The first `k` bits clocked out, from access `n` on, and the chip after them: SCK is
/// dropped and raised, and SIO read.
pub open spec fn received(chip: RtcState, k: nat, clock: spec_fn(int) -> u64, n: int) -> (
    Seq<bool>,
    RtcState,
)
    decreases k,
{
    if k == 0 {
        (Seq::empty(), chip)
    } else {
        let (bits, before) = received(chip, (k - 1) as nat, clock, n);
        let after = before.written(0xC4, 0b0100, clock(n + 2 * (k - 1))).written(
            0xC4,
            0b0101,
            clock(n + 2 * (k - 1) + 1),
        );
        (bits.push(after.read(0xC4)->0 & 0b0010 != 0), after)
    }
}

proof fn lemma_pins()
    by (bit_vector)
    ensures
        0u16 as u8 & 0x0F == 0u8 && 4u16 as u8 & 0x0F == 4u8 && 5u16 as u8 & 0x0F == 5u8 && 6u16 as u8
            & 0x0F == 6u8 && 7u16 as u8 & 0x0F == 7u8,
        0u8 & 7 == 0 && 4u8 & 7 == 4 && 5u8 & 7 == 5 && 6u8 & 7 == 6 && 7u8 & 7 == 7,
        4u8 & 5 == 4 && 5u8 & 5 == 5 && 5u8 & 2 == 0,
        0u8 & 1 == 0 && 4u8 & 1 == 0 && 5u8 & 1 != 0 && 6u8 & 1 == 0 && 7u8 & 1 != 0,
        4u8 & 2 == 0 && 6u8 & 2 != 0 && 7u8 & 2 != 0,
        0u8 & 4 == 0 && 4u8 & 4 != 0 && 5u8 & 4 != 0 && 6u8 & 4 != 0 && 7u8 & 4 != 0,
        (5u8 & 0x0F) as u16 & 2 == 0 && ((5u8 | 2) & 0x0F) as u16 & 2 != 0,
        1u16 & 1 != 0,
        0x62u8 >> 4 == 6 && (0x62u8 >> 1) & 7 == 1 && 0x62u8 & 1 == 0,
        0x64u8 >> 4 == 6 && (0x64u8 >> 1) & 7 == 2 && 0x64u8 & 1 == 0,
        0x65u8 >> 4 == 6 && (0x65u8 >> 1) & 7 == 2 && 0x65u8 & 1 != 0,
        0x63u8 >> 4 == 6 && (0x63u8 >> 1) & 7 == 1 && 0x63u8 & 1 != 0,
{
}

proof fn lemma_assembly(byte: u8, left: u8)
    by (bit_vector)
    requires
        left < 8,
    ensures
        ((byte >> ((left + 1) as u8)) << 1) | (if (byte >> left) & 1 != 0 {
            1u8
        } else {
            0u8
        }) == byte >> left,
        (byte & (0xFFu8 >> ((8 - left) as u8))) | ((if (byte >> left) & 1 != 0 {
            1u8
        } else {
            0u8
        }) << left) == byte & (0xFFu8 >> ((7 - left) as u8)),
        byte >> 0u8 == byte,
        byte >> 8u8 == 0,
        byte & (0xFFu8 >> 8u8) == 0,
        byte & (0xFFu8 >> 0u8) == byte,
{
}

proof fn lemma_bit_sent(chip: RtcState, bit: bool, early: u64, late: u64)
    requires
        chip.cs,
        chip.direction == 7,
        chip.phase != Phase::Read,
    ensures
        ({
            let clocked = RtcState { data: sampling(bit) as u8, prev_sck: true, ..chip };
            let after = chip.written(0xC4, setup(bit), early).written(0xC4, sampling(bit), late);
            after == (if chip.phase == Phase::Command {
                clocked.command_bit(bit, late)
            } else if chip.phase == Phase::Write {
                clocked.parameter_bit(bit)
            } else {
                clocked
            })
        }),
{
    lemma_pins();
    let low = chip.written(0xC4, setup(bit), early);
    assert(low == RtcState { data: setup(bit) as u8, prev_sck: false, ..chip });
}

/// What a frame leaves alone of the chip while its command is clocked in.
spec fn in_frame(chip: RtcState, opened: RtcState) -> bool {
    &&& chip.cs
    &&& chip.direction == 7
    &&& chip.read_enable == opened.read_enable
    &&& chip.control == opened.control
}

proof fn lemma_command_sent(
    opened: RtcState,
    command: u8,
    k: nat,
    clock: spec_fn(int) -> u64,
    n: int,
)
    requires
        opened.cs,
        opened.direction == 7,
        opened.phase == Phase::Command,
        opened.shift == 0,
        opened.shift_bits == 0,
        k < 8,
    ensures
        ({
            let after = sent(opened, most_significant_first(command), k, clock, n);
            &&& in_frame(after, opened)
            &&& after.phase == Phase::Command
            &&& after.shift == command >> ((8 - k) as u8)
            &&& after.shift_bits == k
        }),
    decreases k,
{
    if k == 0 {
        lemma_assembly(command, 0);
    } else {
        let bits = most_significant_first(command);
        let before = sent(opened, bits, (k - 1) as nat, clock, n);
        lemma_command_sent(opened, command, (k - 1) as nat, clock, n);
        lemma_bit_sent(
            before,
            bits[k - 1],
            clock(n + 2 * (k - 1)),
            clock(n + 2 * (k - 1) + 1),
        );
        lemma_assembly(command, (8 - k) as u8);
        assert((8 - (k - 1)) as u8 == ((8 - k) as u8 + 1) as u8);
        assert((7 - (k - 1)) as u8 == (8 - k) as u8);
    }
}

proof fn lemma_commanded(chip: RtcState, command: u8, clock: spec_fn(int) -> u64, n: int)
    ensures
        exists|before: RtcState|
            {
                &&& #[trigger] before.decoded(clock(n + 18)) == commanded(chip, command, clock, n)
                &&& before.shift == command
                &&& before.direction == 7
                &&& before.cs
                &&& before.prev_sck
                &&& before.read_enable == chip.read_enable
                &&& before.control == chip.control
            },
{
    lemma_pins();
    let bits = most_significant_first(command);
    let wired = chip.written(0xC6, 0b0111, clock(n));
    let dropped = wired.written(0xC4, 0, clock(n + 1));
    assert(!dropped.cs && !dropped.prev_sck && dropped.direction == 7);
    assert(dropped.control == chip.control && dropped.read_enable == chip.read_enable);
    let opened = dropped.written(0xC4, 0b0100, clock(n + 2));
    assert(opened.phase == Phase::Command && opened.cs && opened.direction == 7);
    lemma_command_sent(opened, command, 7, clock, n + 3);
    let seven = sent(opened, bits, 7, clock, n + 3);
    lemma_bit_sent(seven, bits[7], clock(n + 3 + 14), clock(n + 3 + 15));
    lemma_assembly(command, 0);
    let clocked = RtcState { data: sampling(bits[7]) as u8, prev_sck: true, ..seven };
    let last = RtcState {
        shift: clocked.shift << 1 | (if bits[7] {
            1u8
        } else {
            0u8
        }),
        shift_bits: 8,
        ..clocked
    };
    assert(sent(opened, bits, 8, clock, n + 3) == clocked.command_bit(bits[7], clock(n + 18)));
    assert(last.shift == command);
    assert(last.decoded(clock(n + 18)) == commanded(chip, command, clock, n));
}

proof fn lemma_parameter_sent(
    chip: RtcState,
    byte: u8,
    k: nat,
    clock: spec_fn(int) -> u64,
    n: int,
)
    requires
        chip.cs,
        chip.direction == 7,
        chip.phase == Phase::Write,
        chip.reg == REG_CONTROL,
        chip.shift == 0,
        chip.in_byte_bits == 0,
        chip.bytes_left == 1,
        k <= 8,
    ensures
        ({
            let after = sent(chip, least_significant_first(byte), k, clock, n);
            &&& after.read_enable == chip.read_enable
            &&& k < 8 ==> {
                &&& in_frame(after, chip)
                &&& after.phase == Phase::Write
                &&& after.reg == REG_CONTROL
                &&& after.shift == byte & (0xFFu8 >> ((8 - k) as u8))
                &&& after.in_byte_bits == k
                &&& after.bytes_left == 1
            }
            &&& k == 8 ==> after.control == byte & CONTROL_WRITABLE
        }),
    decreases k,
{
    if k == 0 {
        lemma_assembly(byte, 0);
    } else {
        let bits = least_significant_first(byte);
        let before = sent(chip, bits, (k - 1) as nat, clock, n);
        lemma_parameter_sent(chip, byte, (k - 1) as nat, clock, n);
        lemma_bit_sent(
            before,
            bits[k - 1],
            clock(n + 2 * (k - 1)),
            clock(n + 2 * (k - 1) + 1),
        );
        lemma_assembly(byte, (k - 1) as u8);
        assert((8 - (k - 1)) as u8 == (8 - (k - 1) as u8) as u8);
        assert((8 - k) as u8 == (7 - (k - 1) as u8) as u8);
    }
}

proof fn lemma_received(chip: RtcState, k: nat, clock: spec_fn(int) -> u64, n: int)
    requires
        chip.cs,
        chip.prev_sck,
        chip.direction == 5,
        chip.read_enable,
        chip.phase == Phase::Read,
        chip.out_index == 0,
        k <= chip.out.len(),
    ensures
        ({
            let (bits, after) = received(chip, k, clock, n);
            &&& bits == chip.out.take(k as int)
            &&& after.cs && after.prev_sck && after.direction == 5 && after.read_enable
            &&& after.phase == Phase::Read
            &&& after.out == chip.out
            &&& after.out_index == k
        }),
    decreases k,
{
    lemma_pins();
    if k > 0 {
        lemma_received(chip, (k - 1) as nat, clock, n);
        let before = received(chip, (k - 1) as nat, clock, n).1;
        let low = before.written(0xC4, 0b0100, clock(n + 2 * (k - 1)));
        assert(low.sio_out == before.out[k - 1]);
        let after = low.written(0xC4, 0b0101, clock(n + 2 * (k - 1) + 1));
        assert(after.sio_out == low.sio_out && after.data == 5);
        assert(chip.out.take(k as int) =~= chip.out.take(k - 1).push(chip.out[k - 1]));
    } else {
        assert(chip.out.take(0) =~= Seq::<bool>::empty());
    }
}

/// The control register comes back: a byte written to it in one frame is what the next
/// frame reads, but for the bits that cannot be written, the power-failure flag among
/// them. Whatever the chip was doing before, and whatever the time of each access.
pub proof fn control_byte_reads_back(chip: RtcState, byte: u8, clock: spec_fn(int) -> u64)
    ensures
        ({
            let enabled = chip.written(0xC8, 1, clock(0));
            let writing = commanded(enabled, 0x62, clock, 1);
            let wrote = sent(writing, least_significant_first(byte), 8, clock, 20);
            let asked = commanded(wrote, 0x63, clock, 36);
            let reading = asked.written(0xC6, 0b0101, clock(55));
            &&& wrote.control == byte & CONTROL_WRITABLE
            &&& received(reading, 8, clock, 56).0 == least_significant_first(
                byte & CONTROL_WRITABLE,
            )
        }),
{
    lemma_pins();
    let enabled = chip.written(0xC8, 1, clock(0));
    assert(enabled.read_enable);
    let writing = commanded(enabled, 0x62, clock, 1);
    lemma_commanded(enabled, 0x62, clock, 1);
    assert(writing.phase == Phase::Write && writing.reg == REG_CONTROL && writing.bytes_left == 1);
    lemma_parameter_sent(writing, byte, 8, clock, 20);
    let wrote = sent(writing, least_significant_first(byte), 8, clock, 20);
    let asked = commanded(wrote, 0x63, clock, 36);
    lemma_commanded(wrote, 0x63, clock, 36);
    let held = byte & CONTROL_WRITABLE;
    assert(asked.out =~= bits_of(seq![held]));
    assert(asked.phase == Phase::Read);
    let reading = asked.written(0xC6, 0b0101, clock(55));
    lemma_received(reading, 8, clock, 56);
    assert forall|k: int| 0 <= k < 8 implies #[trigger] bits_of(seq![held])[k]
        == least_significant_first(held)[k] by {
        assert(seq![held][k / 8] == held);
    }
    assert(bits_of(seq![held]).take(8) =~= least_significant_first(held));
}

/// A datetime command is answered with the seven bytes of the datetime register at the
/// time its last bit was clocked in, each byte least significant bit first.
pub proof fn datetime_travels_the_wire(chip: RtcState, clock: spec_fn(int) -> u64)
    ensures
        ({
            let enabled = chip.written(0xC8, 1, clock(0));
            let asked = commanded(enabled, 0x65, clock, 1);
            let reading = asked.written(0xC6, 0b0101, clock(20));
            received(reading, 56, clock, 21).0 == bits_of(datetime(chip.control, clock(19)))
        }),
{
    lemma_pins();
    let enabled = chip.written(0xC8, 1, clock(0));
    let asked = commanded(enabled, 0x65, clock, 1);
    lemma_commanded(enabled, 0x65, clock, 1);
    assert(asked.out == bits_of(datetime(chip.control, clock(19))));
    let reading = asked.written(0xC6, 0b0101, clock(20));
    lemma_received(reading, 56, clock, 21);
    assert(asked.out.take(56) =~= asked.out);
}

proof fn lemma_time_bits_sent(
    chip: RtcState,
    bits: Seq<bool>,
    k: nat,
    clock: spec_fn(int) -> u64,
    n: int,
)
    requires
        chip.cs,
        chip.direction == 7,
        chip.phase == Phase::Write || chip.phase == Phase::Idle,
        chip.reg != REG_CONTROL,
    ensures
        ({
            let after = sent(chip, bits, k, clock, n);
            &&& in_frame(after, chip)
            &&& after.phase == Phase::Write || after.phase == Phase::Idle
            &&& after.reg == chip.reg
        }),
    decreases k,
{
    if k > 0 {
        lemma_time_bits_sent(chip, bits, (k - 1) as nat, clock, n);
        lemma_bit_sent(
            sent(chip, bits, (k - 1) as nat, clock, n),
            bits[k - 1],
            clock(n + 2 * (k - 1)),
            clock(n + 2 * (k - 1) + 1),
        );
    }
}

/// Writes to the time are accepted but do not override it: whatever is written to the
/// datetime register, the next frame reads the host's time.
pub proof fn time_writes_do_not_set_the_clock(
    chip: RtcState,
    bits: Seq<bool>,
    clock: spec_fn(int) -> u64,
)
    ensures
        ({
            let enabled = chip.written(0xC8, 1, clock(0));
            let writing = commanded(enabled, 0x64, clock, 1);
            let n = 20 + 2 * (bits.len() as int);
            let wrote = sent(writing, bits, bits.len(), clock, 20);
            let asked = commanded(wrote, 0x65, clock, n);
            let reading = asked.written(0xC6, 0b0101, clock(n + 19));
            &&& wrote.control == chip.control
            &&& received(reading, 56, clock, n + 20).0 == bits_of(
                datetime(chip.control, clock(n + 18)),
            )
        }),
{
    lemma_pins();
    let enabled = chip.written(0xC8, 1, clock(0));
    assert(enabled.read_enable);
    let writing = commanded(enabled, 0x64, clock, 1);
    lemma_commanded(enabled, 0x64, clock, 1);
    assert(writing.phase == Phase::Write && writing.reg == REG_DATETIME);
    let n = 20 + 2 * (bits.len() as int);
    lemma_time_bits_sent(writing, bits, bits.len(), clock, 20);
    let wrote = sent(writing, bits, bits.len(), clock, 20);
    let asked = commanded(wrote, 0x65, clock, n);
    lemma_commanded(wrote, 0x65, clock, n);
    assert(asked.out == bits_of(datetime(chip.control, clock(n + 18))));
    let reading = asked.written(0xC6, 0b0101, clock(n + 19));
    lemma_received(reading, 56, clock, n + 20);
    assert(asked.out.take(56) =~= asked.out);
}

} // verus!

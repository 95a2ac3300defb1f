//! Laws of the barrel shifter: what a shift by one place does, and that every
//! longer shift is a shift by one place repeated.

use vstd::prelude::*;

use super::alu::{barrel_shift, immediate_shift, register_shift};
use super::results::{flag, signed};
use super::CpuState;
use crate::arm::instruction::arm::{Operand2, Shift, ShiftKind, ShiftSource};
use crate::bits;

verus! {

spec fn ror(value: u32, n: u32) -> u32 {
    (value >> n) | (value << ((32 - n) as u32))
}

proof fn lemma_shift_by_one(value: u32, half: i32, word: u32)
    by (bit_vector)
    requires
        word == half as u32,
        half == value as i32 >> 1u32,
    ensures
        value < 0x8000_0000 ==> value << 1u32 == value * 2,
        value >= 0x8000_0000 ==> (value << 1u32) + 0x1_0000_0000 == value * 2,
        ((value >> 31u32) & 1 != 0) == (value >= 0x8000_0000),
        (value & 0x8000_0000 != 0) == (value >= 0x8000_0000),
        value >> 1u32 == value / 2,
        value >> 0u32 == value,
        value & 1 == value % 2,
        value & 1 == 0 ==> half * 2 == value as i32,
        value & 1 == 1 ==> half * 2 + 1 == value as i32,
        word as i32 == half,
        value as i32 == (if value >= 0x8000_0000 {
            value - 0x1_0000_0000
        } else {
            value as int
        }),
        (value >> 1u32) | (value << 31u32) == value / 2 + (value % 2) * 0x8000_0000,
        (value >> 1u32) | 0x8000_0000u32 == value / 2 + 0x8000_0000,
        (value >> 1u32) | 0u32 == value / 2,
        (((value >> 1u32) | (value << 31u32)) & 0x8000_0000 != 0) == (value % 2 == 1),
{
}

proof fn lemma_shift_steps(
    value: u32,
    n: u32,
    m: u32,
    k: u32,
    l: u32,
    part: i32,
    word: u32,
    next: i32,
)
    by (bit_vector)
    requires
        part == value as i32 >> n,
        word == part as u32,
        next == part >> 1u32,
        1 <= n <= 31,
        m == n + 1,
        k == 32 - n,
        l == 31 - n,
    ensures
        n < 31 ==> value << m == (value << n) << 1u32,
        n < 31 ==> (value >> l) & 1 == ((value << n) >> 31u32) & 1,
        n == 31 ==> (value << n) << 1u32 == 0,
        n == 31 ==> ((value << n) >> 31u32) & 1 == value & 1,
        n < 31 ==> value >> m == (value >> n) >> 1u32,
        n == 31 ==> (value >> n) >> 1u32 == 0,
        n == 31 ==> (((value >> n) & 1 != 0) == (value & 0x8000_0000 != 0)),
        word as i32 == part,
        n < 31 ==> value as i32 >> m == next,
        (value >> n) & 1 == (part as u32) & 1,
        n == 31 && value & 0x8000_0000 != 0 ==> next as u32 == 0xFFFF_FFFF,
        n == 31 && value & 0x8000_0000 == 0 ==> next as u32 == 0,
        n < 31 ==> (value >> m) | (value << l) == (((value >> n) | (value << k)) >> 1u32) | (((value
            >> n) | (value << k)) << 31u32),
        n == 31 ==> (((value >> n) | (value << k)) >> 1u32) | (((value >> n) | (value << k))
            << 31u32) == value,
{
}

proof fn lemma_one(value: u32)
    ensures
        value << 1u32 == (value * 2) % 0x1_0000_0000,
        ((value >> 31u32) & 1 != 0) == (value >= 0x8000_0000),
        (value & 0x8000_0000 != 0) == (value >= 0x8000_0000),
        value >> 1u32 == value / 2,
        value >> 0u32 == value,
        value & 1 == value % 2,
        signed((value as i32 >> 1u32) as u32) == signed(value) / 2,
        (value >> 1u32) | (value << 31u32) == value / 2 + (value % 2) * 0x8000_0000,
        (value >> 1u32) | 0x8000_0000u32 == value / 2 + 0x8000_0000,
        (value >> 1u32) | 0u32 == value / 2,
        (((value >> 1u32) | (value << 31u32)) & 0x8000_0000 != 0) == (value % 2 == 1),
{
    let half = value as i32 >> 1u32;
    let word = half as u32;
    lemma_shift_by_one(value, half, word);
    lemma_shift_by_one(word, word as i32 >> 1u32, (word as i32 >> 1u32) as u32);
}

/// A shift by one place: `LSL` doubles modulo 2^32, `LSR` halves the unsigned
/// number and `ASR` the signed one, both rounding down, and `ROR` brings the lowest
/// bit round to the top. The carry is the bit that left.
pub proof fn shift_by_one(value: u32)
    ensures
        barrel_shift(ShiftKind::Lsl, value, 1) == (
            ((value * 2) % 0x1_0000_0000) as u32,
            value >= 0x8000_0000,
        ),
        barrel_shift(ShiftKind::Lsr, value, 1) == ((value / 2) as u32, value % 2 == 1),
        signed(barrel_shift(ShiftKind::Asr, value, 1).0) == signed(value) / 2,
        barrel_shift(ShiftKind::Asr, value, 1).1 == (value % 2 == 1),
        barrel_shift(ShiftKind::Ror, value, 1) == (
            (value / 2 + (value % 2) * 0x8000_0000) as u32,
            value % 2 == 1,
        ),
{
    lemma_one(value);
}

/// A shift by `amount` + 1 places, up to 32, is a shift by `amount` and then by
/// one, in its result and its carry.
pub proof fn shifts_compose(kind: ShiftKind, value: u32, amount: u32)
    requires
        1 <= amount < 32,
    ensures
        barrel_shift(kind, value, (amount + 1) as u32) == barrel_shift(
            kind,
            barrel_shift(kind, value, amount).0,
            1,
        ),
{
    lemma_shift_steps(
        value,
        amount,
        (amount + 1) as u32,
        (32 - amount) as u32,
        (31 - amount) as u32,
        value as i32 >> amount,
        (value as i32 >> amount) as u32,
        (value as i32 >> amount) >> 1u32,
    );
    lemma_one(value);
    match kind {
        ShiftKind::Lsl => {
            lemma_one(value << amount);
        },
        ShiftKind::Lsr => {
            lemma_one(value >> amount);
        },
        ShiftKind::Asr => {
            lemma_one((value as i32 >> amount) as u32);
        },
        ShiftKind::Ror => {
            assert(bits::rotated_right(value, amount) == ror(value, amount));
            lemma_one(ror(value, amount));
        },
    }
}

/// Beyond 32 places `LSL` and `LSR` leave nothing and carry nothing, `ASR` stays
/// at the sign, and `ROR` goes round again.
pub proof fn long_shifts(value: u32, amount: u32)
    requires
        32 < amount <= 255,
    ensures
        barrel_shift(ShiftKind::Lsl, value, amount) == (0u32, false),
        barrel_shift(ShiftKind::Lsr, value, amount) == (0u32, false),
        barrel_shift(ShiftKind::Asr, value, amount) == barrel_shift(ShiftKind::Asr, value, 32),
        barrel_shift(ShiftKind::Ror, value, amount) == barrel_shift(
            ShiftKind::Ror,
            value,
            (amount - 32) as u32,
        ),
{
}

/// A shift by a register's amount of zero changes neither the value nor the carry;
/// any other amount shifts by it. An encoded immediate of zero is no shift for
/// `LSL`, 32 places for `LSR` and `ASR`, and for `ROR` one place with the carry
/// coming in at the top; any other immediate shifts by it.
pub proof fn encoded_amounts(kind: ShiftKind, value: u32, amount: u32, small: u8, carry: bool)
    requires
        small < 32,
    ensures
        register_shift(kind, value, amount, carry) == (if amount == 0 {
            (value, carry)
        } else {
            barrel_shift(kind, value, amount)
        }),
        small != 0 ==> immediate_shift(kind, value, small, carry) == barrel_shift(
            kind,
            value,
            small as u32,
        ),
        immediate_shift(ShiftKind::Lsl, value, 0, carry) == (value, carry),
        immediate_shift(ShiftKind::Lsr, value, 0, carry) == (0u32, value >= 0x8000_0000),
        immediate_shift(ShiftKind::Asr, value, 0, carry) == (if value >= 0x8000_0000 {
            (0xFFFF_FFFFu32, true)
        } else {
            (0u32, false)
        }),
        immediate_shift(ShiftKind::Ror, value, 0, carry) == (
            (value / 2 + (if carry {
                0x8000_0000int
            } else {
                0
            })) as u32,
            value % 2 == 1,
        ),
{
    lemma_one(value);
}

/// The flexible second operand: an immediate rotated right by twice its field,
/// carrying its top bit where it was rotated at all; a register shifted by an
/// encoded amount; or a register shifted by the low byte of another.
pub proof fn second_operand(state: CpuState, kind: ShiftKind, value: u8, rotate: u8, rm: u8, rs: u8)
    requires
        state.valid(),
        !flag(state, 0x20),
        rotate < 16,
        rm < 15,
        rs < 15,
    ensures
        state.eval_operand2(Operand2::Immediate { value, rotate: 0 }) == (
            value as u32,
            flag(state, 0x2000_0000),
        ),
        rotate != 0 ==> state.eval_operand2(Operand2::Immediate { value, rotate }) == barrel_shift(
            ShiftKind::Ror,
            value as u32,
            (rotate * 2) as u32,
        ),
        rotate < 32 ==> state.eval_operand2(
            Operand2::Register {
                rm: crate::arm::register::Register(rm),
                shift: Shift { kind, source: ShiftSource::Immediate(rotate) },
            },
        ) == immediate_shift(kind, state.r[rm as int], rotate, flag(state, 0x2000_0000)),
        state.eval_operand2(
            Operand2::Register {
                rm: crate::arm::register::Register(rm),
                shift: Shift {
                    kind,
                    source: ShiftSource::Register(crate::arm::register::Register(rs)),
                },
            },
        ) == register_shift(
            kind,
            state.r[rm as int],
            state.r[rs as int] & 0xFF,
            flag(state, 0x2000_0000),
        ),
{
}

} // verus!

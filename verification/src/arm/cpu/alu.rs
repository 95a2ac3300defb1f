//! The arithmetic unit and the barrel shifter.

use vstd::prelude::*;

use crate::arm::instruction::arm::ShiftKind;
use crate::bits;

verus! {

/// A result with the carry and the signed overflow it produced.
pub open spec fn sum_with_carry(a: u32, b: u32, carry: bool) -> (u32, bool, bool) {
    let c: int = if carry {
        1
    } else {
        0
    };
    let unsigned = a + b + c;
    let signed = bits::signed32(a) + bits::signed32(b) + c;
    (
        bits::wrapped32(unsigned),
        unsigned >= 0x1_0000_0000,
        signed < -0x8000_0000 || signed >= 0x8000_0000,
    )
}

/// A difference `a - b - !carry`, with the carry (set when nothing was borrowed)
/// and the signed overflow it produced.
pub open spec fn difference_with_carry(a: u32, b: u32, carry: bool) -> (u32, bool, bool) {
    let borrow: int = if carry {
        0
    } else {
        1
    };
    let signed = bits::signed32(a) - bits::signed32(b) - borrow;
    (
        bits::wrapped32(a - b - borrow),
        a >= b + borrow,
        signed < -0x8000_0000 || signed >= 0x8000_0000,
    )
}

proof fn lemma_sum(a: u32, b: u32, c: u64, result: u32)
    by (bit_vector)
    requires
        c <= 1,
        result == ((a as u64 + b as u64 + c) as u64) as u32,
    ensures
        result == (a as u64 + b as u64 + c) % 0x1_0000_0000,
        ((a ^ result) & (b ^ result) & 0x8000_0000 != 0) == ({
            let signed = (if a >= 0x8000_0000 {
                a - 0x1_0000_0000
            } else {
                a as int
            }) + (if b >= 0x8000_0000 {
                b - 0x1_0000_0000
            } else {
                b as int
            }) + c;
            signed < -0x8000_0000 || signed >= 0x8000_0000
        }),
{
}

/// `a + b + carry`, returning `(result, carry_out, signed_overflow)`.
pub fn adc(a: u32, b: u32, carry: bool) -> (sum: (u32, bool, bool))
    ensures
        sum == sum_with_carry(a, b, carry),
{
    let c: u64 = if carry {
        1
    } else {
        0
    };
    let sum: u64 = a as u64 + b as u64 + c;
    let result: u32 = sum as u32;
    let carry_out = sum > 0xFFFF_FFFF;
    let overflow = (a ^ result) & (b ^ result) & 0x8000_0000 != 0;
    proof {
        lemma_sum(a, b, c, result);
    }
    (result, carry_out, overflow)
}

/// `a - b - !carry`, via `a + !b + carry`.
pub fn sbc(a: u32, b: u32, carry: bool) -> (difference: (u32, bool, bool))
    ensures
        difference == difference_with_carry(a, b, carry),
{
    assert(!b == 0xFFFF_FFFF - b) by (bit_vector);
    assert(bits::signed32(!b) == -bits::signed32(b) - 1);
    let ghost borrow: int = if carry {
        0
    } else {
        1
    };
    assert((a + !b + 1 - borrow) % 0x1_0000_0000 == (a - b - borrow) % 0x1_0000_0000);
    adc(a, !b, carry)
}

/// `a - b`.
pub fn sub(a: u32, b: u32) -> (difference: (u32, bool, bool))
    ensures
        difference == difference_with_carry(a, b, true),
{
    sbc(a, b, true)
}

/// A left shift by 1..=31, and the last bit shifted out.
pub fn lsl(value: u32, amount: u32) -> (shifted: (u32, bool))
    requires
        1 <= amount <= 31,
    ensures
        shifted == shifted_left(value, amount),
{
    let carry = (value >> (32 - amount)) & 1 != 0;
    (value << amount, carry)
}

/// A logical right shift by 1..=32, and the last bit shifted out.
pub fn lsr(value: u32, amount: u32) -> (shifted: (u32, bool))
    requires
        1 <= amount <= 32,
    ensures
        shifted == shifted_right(value, amount),
{
    if amount == 32 {
        (0, value & 0x8000_0000 != 0)
    } else {
        let carry = (value >> (amount - 1)) & 1 != 0;
        (value >> amount, carry)
    }
}

/// An arithmetic right shift by at least 1, and the last bit shifted out.
pub fn asr(value: u32, amount: u32) -> (shifted: (u32, bool))
    requires
        1 <= amount,
    ensures
        shifted == shifted_right_signed(value, amount),
{
    if amount >= 32 {
        let carry = value & 0x8000_0000 != 0;
        proof {
            lemma_sign_fill(value);
        }
        ((value as i32 >> 31) as u32, carry)
    } else {
        let carry = (value >> (amount - 1)) & 1 != 0;
        ((value as i32 >> amount) as u32, carry)
    }
}

proof fn lemma_sign_fill(value: u32)
    by (bit_vector)
    ensures
        (value as i32 >> 31u32) as u32 == (if value & 0x8000_0000 != 0 {
            0xFFFF_FFFFu32
        } else {
            0u32
        }),
{
}

/// A right rotation by 1..=31, and the bit rotated into the top.
pub fn ror(value: u32, amount: u32) -> (rotated: (u32, bool))
    ensures
        rotated == rotated_with_carry(value, amount),
{
    let result: u32 = bits::rotate_right(value, amount);
    let carry = result & 0x8000_0000 != 0;
    (result, carry)
}

/// `LSL`: zeros come in from the right; the carry is the last bit out.
pub open spec fn shifted_left(value: u32, amount: u32) -> (u32, bool) {
    if amount < 32 {
        (value << amount, (value >> ((32 - amount) as u32)) & 1 != 0)
    } else {
        (0, amount == 32 && value & 1 != 0)
    }
}

/// `LSR`: zeros come in from the left; the carry is the last bit out.
pub open spec fn shifted_right(value: u32, amount: u32) -> (u32, bool) {
    if amount < 32 {
        (value >> amount, (value >> ((amount - 1) as u32)) & 1 != 0)
    } else {
        (0, amount == 32 && value & 0x8000_0000 != 0)
    }
}

/// `ASR`: copies of the sign come in from the left; the carry is the last bit
/// out.
pub open spec fn shifted_right_signed(value: u32, amount: u32) -> (u32, bool) {
    if amount < 32 {
        ((value as i32 >> amount) as u32, (value >> ((amount - 1) as u32)) & 1 != 0)
    } else if value & 0x8000_0000 != 0 {
        (0xFFFF_FFFF, true)
    } else {
        (0, false)
    }
}

/// `ROR`: the carry is the bit that arrives at the top.
pub open spec fn rotated_with_carry(value: u32, amount: u32) -> (u32, bool) {
    let result = bits::rotated_right(value, amount);
    (result, result & 0x8000_0000 != 0)
}

/// A barrel shift by a non-zero amount.
pub open spec fn barrel_shift(kind: ShiftKind, value: u32, amount: u32) -> (u32, bool) {
    match kind {
        ShiftKind::Lsl => shifted_left(value, amount),
        ShiftKind::Lsr => shifted_right(value, amount),
        ShiftKind::Asr => shifted_right_signed(value, amount),
        ShiftKind::Ror => rotated_with_carry(value, amount),
    }
}

/// What a shift by an encoded immediate amount means: an encoded zero is no shift
/// for `LSL`, a shift by 32 for `LSR` and `ASR`, and a rotation by one through
/// the carry for `ROR`.
pub open spec fn immediate_shift(kind: ShiftKind, value: u32, amount: u8, carry_in: bool) -> (
    u32,
    bool,
) {
    if amount != 0 {
        barrel_shift(kind, value, amount as u32)
    } else {
        match kind {
            ShiftKind::Lsl => (value, carry_in),
            ShiftKind::Lsr | ShiftKind::Asr => barrel_shift(kind, value, 32),
            ShiftKind::Ror => (
                (value >> 1) | (if carry_in {
                    0x8000_0000u32
                } else {
                    0u32
                }),
                value & 1 != 0,
            ),
        }
    }
}

/// What a shift by a register's low byte means: a zero leaves the value and the
/// carry alone.
pub open spec fn register_shift(kind: ShiftKind, value: u32, amount: u32, carry_in: bool) -> (
    u32,
    bool,
) {
    if amount == 0 {
        (value, carry_in)
    } else {
        barrel_shift(kind, value, amount)
    }
}

/// A barrel shift by an immediate amount, honoring the special `#0` encodings:
/// `LSR`/`ASR #0` mean 32, and `ROR #0` is `RRX`.
pub fn shift_by_immediate(kind: ShiftKind, value: u32, amount: u8, carry_in: bool) -> (shifted: (
    u32,
    bool,
))
    requires
        amount < 32,
    ensures
        shifted == immediate_shift(kind, value, amount, carry_in),
{
    match kind {
        ShiftKind::Lsl => {
            if amount == 0 {
                (value, carry_in)
            } else {
                lsl(value, amount as u32)
            }
        },
        ShiftKind::Lsr => lsr(
            value,
            if amount == 0 {
                32
            } else {
                amount as u32
            },
        ),
        ShiftKind::Asr => asr(
            value,
            if amount == 0 {
                32
            } else {
                amount as u32
            },
        ),
        ShiftKind::Ror => {
            if amount == 0 {
                // RRX: rotate right through carry by one.
                let top: u32 = if carry_in {
                    0x8000_0000
                } else {
                    0
                };
                ((value >> 1) | top, value & 1 != 0)
            } else {
                ror(value, amount as u32)
            }
        },
    }
}

/// A barrel shift by a register amount. An amount of zero leaves the value and
/// carry untouched; amounts of 32 or more are handled per the shift kind.
pub fn shift_by_register(kind: ShiftKind, value: u32, amount: u32, carry_in: bool) -> (shifted: (
    u32,
    bool,
))
    ensures
        shifted == register_shift(kind, value, amount, carry_in),
{
    if amount == 0 {
        return (value, carry_in);
    }
    match kind {
        ShiftKind::Lsl => {
            if amount < 32 {
                lsl(value, amount)
            } else if amount == 32 {
                (0, value & 1 != 0)
            } else {
                (0, false)
            }
        },
        ShiftKind::Lsr => {
            if amount <= 32 {
                lsr(value, amount)
            } else {
                (0, false)
            }
        },
        ShiftKind::Asr => asr(value, amount),
        // A non-zero multiple of 32 leaves the value unchanged, with the carry
        // from bit 31.
        ShiftKind::Ror => ror(value, amount),
    }
}

/// The internal cycles a multiply takes: one per byte of `rs` that has to be
/// looked at before the rest is all zeros or all ones.
pub open spec fn multiply_time(rs: u32) -> u32 {
    let magnitude = if rs >= 0x8000_0000 {
        0xFFFF_FFFF - rs
    } else {
        rs as int
    };
    if magnitude < 0x100 {
        1
    } else if magnitude < 0x1_0000 {
        2
    } else if magnitude < 0x100_0000 {
        3
    } else {
        4
    }
}

/// The `m` internal cycles a multiply takes, from how many high bytes of the
/// `rs` operand are all-zero or all-one.
pub fn multiply_cycles(rs: u32) -> (cycles: u32)
    ensures
        cycles == multiply_time(rs),
        1 <= cycles <= 4,
{
    assert((rs & 0xFFFF_FF00 == 0) == (rs < 0x100) && (rs & 0xFFFF_FF00 == 0xFFFF_FF00) == (rs
        >= 0xFFFF_FF00) && (rs & 0xFFFF_0000 == 0) == (rs < 0x1_0000) && (rs & 0xFFFF_0000
        == 0xFFFF_0000) == (rs >= 0xFFFF_0000) && (rs & 0xFF00_0000 == 0) == (rs < 0x100_0000) && (
    rs & 0xFF00_0000 == 0xFF00_0000) == (rs >= 0xFF00_0000)) by (bit_vector);
    if rs & 0xFFFF_FF00 == 0 || rs & 0xFFFF_FF00 == 0xFFFF_FF00 {
        1
    } else if rs & 0xFFFF_0000 == 0 || rs & 0xFFFF_0000 == 0xFFFF_0000 {
        2
    } else if rs & 0xFF00_0000 == 0 || rs & 0xFF00_0000 == 0xFF00_0000 {
        3
    } else {
        4
    }
}

} // verus!

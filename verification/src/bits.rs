//! Small bit-manipulation helpers shared by the decoders, the interpreter and
//! the devices.

use vstd::prelude::*;

verus! {

/// Masking keeps a value below the mask's bound.
pub proof fn lemma_low_bits_u8(x: u8)
    by (bit_vector)
    ensures
        x & 0x7F < 128,
        x & 0x3F < 64,
        x & 0x1F < 32,
        x & 0xF < 16,
        x & 7 < 8,
        x & 3 < 4,
        x & 1 < 2,
        x < 16 ==> x & 0xF == x,
        x & 7 & 0xF == x & 7,
        x & 7 & 0xF < 8,
{
}

/// Masking keeps a value below the mask's bound.
pub proof fn lemma_low_bits_u16(x: u16)
    by (bit_vector)
    ensures
        x & 0x7FF < 2048,
        x & 0xFF < 256,
        x & 0xF < 16,
        x & 7 < 8,
        x & 3 < 4,
        x & 1 < 2,
        x >> 13 < 8,
        x & 3 == 0 || x & 3 == 1 || x & 3 == 2 || x & 3 == 3,
{
}

/// Masking keeps a value below the mask's bound.
pub proof fn lemma_low_bits_u32(x: u32)
    by (bit_vector)
    ensures
        x & 0xFFFF < 0x1_0000,
        x & 0xFF < 256,
        x & 0x1F < 32,
        x & 0xF < 16,
        x & 7 < 8,
        x & 3 < 4,
        x & 1 < 2,
        x & 0xFF == x % 256,
        x & 3 == x % 4,
        x & 1 == x % 2,
        (x & !3u32) + (x & 3) == x,
        (x & !1u32) + (x & 1) == x,
        (x | 1) + 1 == x + 2 - (x & 1),
        0x20u32 & 0xFFFF_FFDFu32 == 0,
{
}

/// `value` rotated right by `amount` bit positions.
pub open spec fn rotated_right(value: u32, amount: u32) -> u32 {
    let n = amount % 32;
    if n == 0 {
        value
    } else {
        (value >> n) | (value << ((32 - n) as u32))
    }
}

/// Rotate `value` right by `amount` bit positions.
#[inline]
pub fn rotate_right(value: u32, amount: u32) -> (result: u32)
    ensures
        result == rotated_right(value, amount),
{
    let n: u32 = amount % 32;
    if n == 0 {
        value
    } else {
        (value >> n) | (value << (32 - n))
    }
}

/// The number of set bits among the lowest `width` bits of `bits`.
pub open spec fn ones_below(bits: u16, width: nat) -> nat
    decreases width,
{
    if width == 0 {
        0
    } else {
        ones_below(bits, (width - 1) as nat) + (if bits & (1u16 << ((width - 1) as u16)) != 0 {
            1nat
        } else {
            0nat
        })
    }
}

/// There are at most `width` set bits among the lowest `width`.
pub proof fn lemma_ones_below_bound(bits: u16, width: nat)
    ensures
        ones_below(bits, width) <= width,
    decreases width,
{
    if width > 0 {
        lemma_ones_below_bound(bits, (width - 1) as nat);
    }
}

/// The number of set bits of `bits`.
pub fn count_ones(bits: u16) -> (count: u32)
    ensures
        count == ones_below(bits, 16),
        count <= 16,
{
    let mut count: u32 = 0;
    let mut i: u16 = 0;
    while i < 16
        invariant
            i <= 16,
            count == ones_below(bits, i as nat),
            count <= i,
        decreases 16 - i,
    {
        if bits & (1u16 << i) != 0 {
            count = count + 1;
        }
        i = i + 1;
    }
    count
}

/// `x` read as a two's-complement 32-bit integer.
pub open spec fn signed32(x: u32) -> int {
    if x >= 0x8000_0000 {
        x - 0x1_0000_0000
    } else {
        x as int
    }
}

/// The 32-bit word congruent to `x`.
pub open spec fn wrapped32(x: int) -> u32 {
    (x % 0x1_0000_0000) as u32
}

/// The low halfword of `x` read as a two's-complement integer.
pub open spec fn signed16(x: u32) -> int {
    let low = x % 0x1_0000;
    if low >= 0x8000 {
        low - 0x1_0000
    } else {
        low as int
    }
}

/// The low byte of `x` read as a two's-complement integer.
pub open spec fn signed8(x: u32) -> int {
    let low = x % 0x100;
    if low >= 0x80 {
        low - 0x100
    } else {
        low as int
    }
}

proof fn lemma_signed_casts(x: u32, h: u16, b: u8, y: i32)
    by (bit_vector)
    ensures
        x as i32 == (if x >= 0x8000_0000 {
            x - 0x1_0000_0000
        } else {
            x as int
        }),
        h as i16 == (if h >= 0x8000 {
            h - 0x1_0000
        } else {
            h as int
        }),
        b as i8 == (if b >= 0x80 {
            b - 0x100
        } else {
            b as int
        }),
        y as u32 == (if y < 0 {
            y + 0x1_0000_0000
        } else {
            y as int
        }),
        x as u16 == x % 0x1_0000,
        (x >> 16) as u16 == (x >> 16),
{
}

/// Read a word as a two's-complement integer.
#[inline]
pub fn to_signed(x: u32) -> (y: i32)
    ensures
        y == signed32(x),
{
    proof {
        lemma_signed_casts(x, 0, 0, 0);
    }
    x as i32
}

/// The word that represents a two's-complement integer.
#[inline]
pub fn to_word(y: i32) -> (x: u32)
    ensures
        x == wrapped32(y as int),
        signed32(x) == y,
{
    proof {
        lemma_signed_casts(0, 0, 0, y);
    }
    y as u32
}

/// Sign-extend a byte to a word.
#[inline]
pub fn extend8(b: u8) -> (x: u32)
    ensures
        x == wrapped32(signed8(b as u32)),
{
    proof {
        lemma_signed_casts(0, 0, b, b as i8 as i32);
    }
    b as i8 as i32 as u32
}

/// Sign-extend a halfword to a word.
#[inline]
pub fn extend16(h: u16) -> (x: u32)
    ensures
        x == wrapped32(signed16(h as u32)),
{
    proof {
        lemma_signed_casts(0, h, 0, h as i16 as i32);
    }
    h as i16 as i32 as u32
}

/// The low or the high halfword of `x`, sign-extended.
#[inline]
pub fn signed_half(x: u32, top: bool) -> (y: i32)
    ensures
        y == signed16(if top {
            x >> 16
        } else {
            x
        }),
        -0x8000 <= y <= 0x7FFF,
{
    proof {
        lemma_signed_casts(x, x as u16, 0, 0);
        lemma_signed_casts(x >> 16, (x >> 16) as u16, 0, 0);
    }
    if top {
        (x >> 16) as u16 as i16 as i32
    } else {
        x as u16 as i16 as i32
    }
}

proof fn lemma_wide_words(x: i64, hi: u32, lo: u32, w: u64)
    by (bit_vector)
    ensures
        x as u64 == (if x < 0 {
            x + 0x1_0000_0000_0000_0000
        } else {
            x as int
        }),
        ((hi as u64) << 32) | (lo as u64) == hi * 0x1_0000_0000 + lo,
        w as u32 == w % 0x1_0000_0000,
        (w >> 32) as u32 == w / 0x1_0000_0000,
{
}

/// The doubleword that represents a two's-complement integer.
#[inline]
pub fn wrap64(x: i64) -> (w: u64)
    ensures
        w == x as int % 0x1_0000_0000_0000_0000,
{
    proof {
        lemma_wide_words(x, 0, 0, 0);
    }
    x as u64
}

/// A doubleword from its two words.
#[inline]
pub fn join(hi: u32, lo: u32) -> (w: u64)
    ensures
        w == hi * 0x1_0000_0000 + lo,
{
    proof {
        lemma_wide_words(0, hi, lo, 0);
    }
    ((hi as u64) << 32) | (lo as u64)
}

/// The two words of a doubleword.
#[inline]
pub fn split(w: u64) -> (words: (u32, u32))
    ensures
        words.0 == w / 0x1_0000_0000,
        words.1 == w % 0x1_0000_0000,
{
    proof {
        lemma_wide_words(0, 0, 0, w);
    }
    ((w >> 32) as u32, w as u32)
}

/// The exact product of two 32-bit integers.
#[inline]
pub fn product(a: i64, b: i64) -> (p: i64)
    requires
        -0x8000_0000 <= a <= 0x7FFF_FFFF,
        -0x8000_0000 <= b <= 0x7FFF_FFFF,
    ensures
        p == a * b,
{
    assert(-0x4000_0000_0000_0000 <= a * b <= 0x4000_0000_0000_0000) by (nonlinear_arith)
        requires
            -0x8000_0000 <= a <= 0x7FFF_FFFF,
            -0x8000_0000 <= b <= 0x7FFF_FFFF,
    ;
    a * b
}

/// The exact product of two 16-bit integers.
#[inline]
pub fn half_product(a: i32, b: i32) -> (p: i32)
    requires
        -0x8000 <= a <= 0x7FFF,
        -0x8000 <= b <= 0x7FFF,
    ensures
        p == a * b,
{
    assert(-0x4000_0000 <= a * b <= 0x4000_0000) by (nonlinear_arith)
        requires
            -0x8000 <= a <= 0x7FFF,
            -0x8000 <= b <= 0x7FFF,
    ;
    a * b
}

/// The top 32 bits of the 48-bit product of a 32-bit and a 16-bit integer.
#[inline]
pub fn wide_product(a: i32, b: i32) -> (p: i32)
    requires
        -0x8000 <= b <= 0x7FFF,
    ensures
        p == (a * b) / 0x1_0000,
{
    let exact: i64 = product(a as i64, b as i64);
    assert(-0x4000_0000_0000 <= a * b <= 0x4000_0000_0000) by (nonlinear_arith)
        requires
            -0x8000_0000 <= a <= 0x7FFF_FFFF,
            -0x8000 <= b <= 0x7FFF,
    ;
    let shifted: i64 = exact >> 16;
    assert(shifted * 0x1_0000 <= exact < shifted * 0x1_0000 + 0x1_0000) by (bit_vector)
        requires
            shifted == exact >> 16,
            -0x4000_0000_0000 <= exact <= 0x4000_0000_0000,
    ;
    shifted as i32
}

/// The two's-complement readings are the numbers of their ranges that agree with the
/// word, the halfword or the byte modulo its size; wrapping is the word that agrees with
/// a number.
pub proof fn readings_agree(x: u32, n: int)
    ensures
        -0x8000_0000 <= signed32(x) < 0x8000_0000 && (signed32(x) - x) % 0x1_0000_0000 == 0,
        -0x8000 <= signed16(x) < 0x8000 && (signed16(x) - x) % 0x1_0000 == 0,
        -0x80 <= signed8(x) < 0x80 && (signed8(x) - x) % 0x100 == 0,
        (wrapped32(n) - n) % 0x1_0000_0000 == 0,
{
}

} // verus!

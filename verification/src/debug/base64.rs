//! Base64 (standard alphabet), so binary payloads ride in JSON.

use vstd::prelude::*;

verus! {

/// The character that stands for six bits.
pub open spec fn symbol(value: int) -> char {
    if value < 26 {
        ('A' as int + value) as char
    } else if value < 52 {
        ('a' as int + (value - 26)) as char
    } else if value < 62 {
        ('0' as int + (value - 52)) as char
    } else if value == 62 {
        '+'
    } else {
        '/'
    }
}

/// The six bits that a character stands for; padding stands for none.
pub open spec fn value_of(symbol: char) -> int {
    if 'A' <= symbol <= 'Z' {
        symbol as int - 'A' as int
    } else if 'a' <= symbol <= 'z' {
        symbol as int - 'a' as int + 26
    } else if '0' <= symbol <= '9' {
        symbol as int - '0' as int + 52
    } else if symbol == '+' {
        62
    } else if symbol == '/' {
        63
    } else {
        0
    }
}

/// The byte at `i`, or zero past the end.
pub open spec fn byte_or_zero(data: Seq<u8>, i: int) -> int {
    if i < data.len() {
        data[i] as int
    } else {
        0
    }
}

/// The four characters of the first three bytes, padded where there are fewer.
pub open spec fn quad(data: Seq<u8>) -> Seq<char> {
    let n = byte_or_zero(data, 0) * 0x1_0000 + byte_or_zero(data, 1) * 0x100 + byte_or_zero(
        data,
        2,
    );
    seq![
        symbol(n / 0x4_0000),
        symbol(n / 0x1000 % 64),
        if data.len() > 1 {
            symbol(n / 0x40 % 64)
        } else {
            '='
        },
        if data.len() > 2 {
            symbol(n % 64)
        } else {
            '='
        },
    ]
}

/// The encoding of `data`: four characters for every three bytes begun.
pub open spec fn encoded(data: Seq<u8>) -> Seq<char>
    decreases data.len(),
{
    if data.len() == 0 {
        Seq::empty()
    } else if data.len() <= 3 {
        quad(data)
    } else {
        quad(data) + encoded(data.skip(3))
    }
}

/// The bytes of four characters: three, less one for each character of padding.
pub open spec fn unquad(text: Seq<char>) -> Seq<u8> {
    let n = value_of(text[0]) * 0x4_0000 + value_of(text[1]) * 0x1000 + value_of(text[2]) * 0x40
        + value_of(text[3]);
    let bytes = seq![(n / 0x1_0000) as u8, (n / 0x100 % 0x100) as u8, (n % 0x100) as u8];
    if text[2] == '=' {
        bytes.take(1)
    } else if text[3] == '=' {
        bytes.take(2)
    } else {
        bytes
    }
}

/// The bytes that an encoding stands for.
pub open spec fn decoded(text: Seq<char>) -> Seq<u8>
    decreases text.len(),
{
    if text.len() < 4 {
        Seq::empty()
    } else {
        unquad(text.take(4)) + decoded(text.skip(4))
    }
}

const TABLE: &'static str = "ABCDEFGHIJKLMNOPQRSTUVWXYZabcdefghijklmnopqrstuvwxyz0123456789+/";

fn push_symbol(out: &mut String, value: u32)
    requires
        value < 64,
    ensures
        final(out)@ == old(out)@.push(symbol(value as int)),
{
    proof {
        reveal_strlit("ABCDEFGHIJKLMNOPQRSTUVWXYZabcdefghijklmnopqrstuvwxyz0123456789+/");
    }
    let i: usize = value as usize;
    let ghost before = out@;
    out.append(TABLE.substring_ascii(i, i + 1));
    assert(TABLE@.subrange(i as int, i + 1) =~= seq![symbol(value as int)]);
    assert(out@ =~= before.push(symbol(value as int)));
}

fn push_padding(out: &mut String)
    ensures
        final(out)@ == old(out)@.push('='),
{
    proof {
        reveal_strlit("=");
    }
    let ghost before = out@;
    out.append("=");
    assert(out@ =~= before.push('='));
}

/// Base64-encode bytes (standard alphabet).
pub fn base64(data: &[u8]) -> (out: String)
    ensures
        out@ == encoded(data@),
{
    let mut out = String::new();
    let mut i: usize = 0;
    assert(data@.skip(0) =~= data@);
    assert(out@ + encoded(data@) =~= encoded(data@));
    while i < data.len()
        invariant
            i <= data@.len(),
            out@ + encoded(data@.skip(i as int)) == encoded(data@),
        decreases data@.len() - i,
    {
        let ghost rest = data@.skip(i as int);
        let ghost before = out@;
        let left: usize = data.len() - i;
        let b0: u32 = data[i] as u32;
        let b1: u32 = if left > 1 {
            data[i + 1] as u32
        } else {
            0
        };
        let b2: u32 = if left > 2 {
            data[i + 2] as u32
        } else {
            0
        };
        let n: u32 = b0 * 0x1_0000 + b1 * 0x100 + b2;
        push_symbol(&mut out, n / 0x4_0000);
        push_symbol(&mut out, n / 0x1000 % 64);
        if left > 1 {
            push_symbol(&mut out, n / 0x40 % 64);
        } else {
            push_padding(&mut out);
        }
        if left > 2 {
            push_symbol(&mut out, n % 64);
        } else {
            push_padding(&mut out);
        }
        assert(out@ =~= before + quad(rest));
        if left > 3 {
            assert(rest.skip(3) =~= data@.skip(i + 3));
            assert(before + (quad(rest) + encoded(rest.skip(3))) =~= (before + quad(rest))
                + encoded(rest.skip(3)));
            i = i + 3;
        } else {
            i = data.len();
            assert(encoded(data@.skip(data@.len() as int)) =~= Seq::<char>::empty());
            assert(out@ + Seq::<char>::empty() =~= out@);
        }
    }
    assert(encoded(data@.skip(data@.len() as int)) =~= Seq::<char>::empty());
    assert(out@ + Seq::<char>::empty() =~= out@);
    out
}

proof fn lemma_symbols(value: int)
    requires
        0 <= value < 64,
    ensures
        value_of(symbol(value)) == value,
        symbol(value) != '=',
{
}

proof fn lemma_sextets(b0: int, b1: int, b2: int)
    requires
        0 <= b0 < 256,
        0 <= b1 < 256,
        0 <= b2 < 256,
    ensures
        ({
            let n = b0 * 0x1_0000 + b1 * 0x100 + b2;
            &&& n / 0x4_0000 == b0 / 4
            &&& n / 0x1000 % 64 == b0 % 4 * 16 + b1 / 16
            &&& n / 0x40 % 64 == b1 % 16 * 4 + b2 / 64
            &&& n % 64 == b2 % 64
        }),
{
    let (q0, r0, q1, r1, q2, r2) = (b0 / 4, b0 % 4, b1 / 16, b1 % 16, b2 / 64, b2 % 64);
    let n = b0 * 0x1_0000 + b1 * 0x100 + b2;
    let (s1, s2) = (r0 * 16 + q1, r1 * 4 + q2);
    assert(n == q0 * 0x4_0000 + s1 * 0x1000 + s2 * 0x40 + r2);
    assert(n / 0x40 == q0 * 0x1000 + s1 * 0x40 + s2);
    assert(n / 0x1000 == q0 * 0x40 + s1);
}

proof fn lemma_octets(b0: int, b1: int, b2: int)
    requires
        0 <= b0 < 256,
        0 <= b1 < 256,
        0 <= b2 < 256,
    ensures
        ({
            let n = b0 * 0x1_0000 + b1 * 0x100 + b2;
            n / 0x1_0000 == b0 && n / 0x100 % 0x100 == b1 && n % 0x100 == b2
        }),
{
}

proof fn lemma_quad(data: Seq<u8>)
    requires
        0 < data.len() <= 3,
    ensures
        unquad(quad(data)) == data,
{
    let (b0, b1, b2) = (byte_or_zero(data, 0), byte_or_zero(data, 1), byte_or_zero(data, 2));
    let n = b0 * 0x1_0000 + b1 * 0x100 + b2;
    lemma_sextets(b0, b1, b2);
    lemma_octets(b0, b1, b2);
    let (s0, s1, s2, s3) = (n / 0x4_0000, n / 0x1000 % 64, n / 0x40 % 64, n % 64);
    lemma_symbols(s0);
    lemma_symbols(s1);
    lemma_symbols(s2);
    lemma_symbols(s3);
    assert(s0 * 0x4_0000 + s1 * 0x1000 + s2 * 0x40 + s3 == n) by {
        assert(b0 == b0 / 4 * 4 + b0 % 4);
        assert(b1 == b1 / 16 * 16 + b1 % 16);
        assert(b2 == b2 / 64 * 64 + b2 % 64);
    }
    let text = quad(data);
    assert(value_of(text[0]) == s0 && value_of(text[1]) == s1);
    assert(value_of(text[2]) == s2 && (text[2] == '=' <==> data.len() == 1));
    assert(value_of(text[3]) == s3 && (text[3] == '=' <==> data.len() <= 2));
    assert(unquad(text) =~= data);
}

/// What an encoding stands for is what was encoded.
pub proof fn base64_round_trips(data: Seq<u8>)
    ensures
        decoded(encoded(data)) == data,
    decreases data.len(),
{
    if data.len() == 0 {
    } else if data.len() <= 3 {
        lemma_quad(data);
        assert(quad(data).take(4) =~= quad(data));
        assert(decoded(quad(data).skip(4)) =~= Seq::<u8>::empty());
        assert(data + Seq::<u8>::empty() =~= data);
    } else {
        let text = encoded(data);
        assert(quad(data) =~= quad(data.take(3)));
        lemma_quad(data.take(3));
        base64_round_trips(data.skip(3));
        assert(text.take(4) =~= quad(data));
        assert(text.skip(4) =~= encoded(data.skip(3)));
        assert(data.take(3) + data.skip(3) =~= data);
    }
}

/// The alphabet, from zero up: the capital letters, the small letters, the digits, `+` and
/// `/`. No two values share a character.
pub proof fn alphabet(a: int, b: int)
    requires
        0 <= a < 64,
        0 <= b < 64,
    ensures
        symbol(0) == 'A' && symbol(25) == 'Z' && symbol(26) == 'a' && symbol(51) == 'z',
        symbol(52) == '0' && symbol(61) == '9' && symbol(62) == '+' && symbol(63) == '/',
        a + 1 < 62 && a != 25 && a != 51 ==> symbol(a + 1) as int == symbol(a) as int + 1,
        symbol(a) == symbol(b) ==> a == b,
{
}

/// Three bytes make four characters, six bits each from the top; a part of three is padded
/// with `=`, one character for each missing byte.
pub proof fn three_bytes_make_four_characters(data: Seq<u8>)
    requires
        1 <= data.len() <= 3,
    ensures
        ({
            let text = encoded(data);
            let whole = 0x1_0000 * byte_or_zero(data, 0) + 0x100 * byte_or_zero(data, 1)
                + byte_or_zero(data, 2);
            &&& text.len() == 4
            &&& text[0] == symbol(whole / 0x4_0000)
            &&& text[1] == symbol(whole / 0x1000 % 64)
            &&& text[2] == (if data.len() >= 2 {
                symbol(whole / 64 % 64)
            } else {
                '='
            })
            &&& text[3] == (if data.len() == 3 {
                symbol(whole % 64)
            } else {
                '='
            })
        }),
{
    reveal_with_fuel(encoded, 2);
}

} // verus!

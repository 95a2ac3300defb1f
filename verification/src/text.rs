//! Numbers as text.

use vstd::prelude::*;

verus! {

/// The character of a digit below 16.
pub open spec fn digit(d: int) -> char {
    if d < 10 {
        ('0' as int + d) as char
    } else {
        ('a' as int + (d - 10)) as char
    }
}

/// `n` in positional notation with lowercase digits.
pub open spec fn numeral(n: nat, base: nat) -> Seq<char>
    decreases n,
{
    if n < base || base < 2 {
        seq![digit(n as int)]
    } else {
        proof {
            vstd::arithmetic::div_mod::lemma_div_decreases(n as int, base as int);
        }
        numeral(n / base, base).push(digit((n % base) as int))
    }
}

/// `n` in hexadecimal, with leading zeros up to `width` digits.
pub open spec fn padded_hex(n: nat, width: nat) -> Seq<char>
    decreases width, n,
{
    if width > 1 {
        padded_hex(n / 16, (width - 1) as nat).push(digit((n % 16) as int))
    } else {
        numeral(n, 16)
    }
}

/// `n` in decimal, with a sign where it is negative.
pub open spec fn signed_decimal(n: int) -> Seq<char> {
    if n < 0 {
        "-"@ + numeral((-n) as nat, 10)
    } else {
        numeral(n as nat, 10)
    }
}

/// A string that starts out as `s`.
pub fn text(s: &str) -> (out: String)
    ensures
        out@ == s@,
{
    let mut out = String::new();
    out.append(s);
    assert(out@ =~= s@);
    out
}

fn digit_text(d: u32) -> (s: &'static str)
    requires
        d < 16,
    ensures
        s@ == seq![digit(d as int)],
{
    proof {
        reveal_strlit("0");
        reveal_strlit("1");
        reveal_strlit("2");
        reveal_strlit("3");
        reveal_strlit("4");
        reveal_strlit("5");
        reveal_strlit("6");
        reveal_strlit("7");
        reveal_strlit("8");
        reveal_strlit("9");
        reveal_strlit("a");
        reveal_strlit("b");
        reveal_strlit("c");
        reveal_strlit("d");
        reveal_strlit("e");
        reveal_strlit("f");
    }
    match d {
        0 => "0",
        1 => "1",
        2 => "2",
        3 => "3",
        4 => "4",
        5 => "5",
        6 => "6",
        7 => "7",
        8 => "8",
        9 => "9",
        10 => "a",
        11 => "b",
        12 => "c",
        13 => "d",
        14 => "e",
        _ => "f",
    }
}

fn positional(n: u64, base: u64) -> (out: String)
    requires
        2 <= base <= 16,
    ensures
        out@ == numeral(n as nat, base as nat),
    decreases n,
{
    proof {
        if n < base {
            vstd::arithmetic::div_mod::lemma_small_mod(n as nat, base as nat);
        } else {
            vstd::arithmetic::div_mod::lemma_div_decreases(n as int, base as int);
        }
    }
    let mut out = if n < base {
        String::new()
    } else {
        positional(n / base, base)
    };
    let ghost before = out@;
    out.append(digit_text((n % base) as u32));
    assert(out@ =~= before.push(digit((n % base) as int)));
    assert(n < base ==> out@ =~= seq![digit(n as int)]);
    out
}

/// `n` in decimal.
pub fn decimal(n: u32) -> (out: String)
    ensures
        out@ == numeral(n as nat, 10),
{
    positional(n as u64, 10)
}

/// A doubleword in decimal.
pub fn decimal64(n: u64) -> (out: String)
    ensures
        out@ == numeral(n as nat, 10),
{
    positional(n, 10)
}

/// `n` in hexadecimal.
pub fn hex(n: u32) -> (out: String)
    ensures
        out@ == numeral(n as nat, 16),
{
    positional(n as u64, 16)
}

/// `n` in hexadecimal, with leading zeros up to `width` digits.
pub fn hex_padded(n: u32, width: u32) -> (out: String)
    ensures
        out@ == padded_hex(n as nat, width as nat),
    decreases width,
{
    if width > 1 {
        let mut out = hex_padded(n / 16, width - 1);
        let ghost before = out@;
        out.append(digit_text(n % 16));
        assert(out@ =~= before.push(digit((n % 16) as int)));
        out
    } else {
        hex(n)
    }
}

/// `n` in decimal, with a sign where it is negative.
pub fn decimal_signed(n: i32) -> (out: String)
    ensures
        out@ == signed_decimal(n as int),
{
    if n < 0 {
        let mut out = text("-");
        let magnitude: u32 = (-(n as i64)) as u32;
        out.append(decimal(magnitude).as_str());
        out
    } else {
        decimal(n as u32)
    }
}

/// Whether two texts are the same.
pub fn same(a: &str, b: &str) -> (same: bool)
    ensures
        same == (a@ == b@),
{
    let len: usize = a.unicode_len();
    if len != b.unicode_len() {
        return false;
    }
    let mut i: usize = 0;
    while i < len
        invariant
            i <= len,
            len == a@.len(),
            len == b@.len(),
            forall|j: int| 0 <= j < i ==> a@[j] == #[trigger] b@[j],
        decreases len - i,
    {
        if a.get_char(i) != b.get_char(i) {
            return false;
        }
        i = i + 1;
    }
    assert(a@ =~= b@);
    true
}

/// A character in uppercase, for the letters of ASCII.
pub open spec fn upper(c: char) -> char {
    if 'a' <= c <= 'z' {
        (c as int - 32) as char
    } else {
        c
    }
}

/// A text in uppercase, for the letters of ASCII.
pub open spec fn uppercase(s: Seq<char>) -> Seq<char> {
    Seq::new(s.len(), |i: int| upper(s[i]))
}

/// Whether two characters are the same but for the case of the first.
fn is_upper_of(c: char, capital: char) -> (same: bool)
    ensures
        same == (upper(c) == capital),
{
    if 'a' <= c && c <= 'z' {
        c as u32 - 32 == capital as u32
    } else {
        c == capital
    }
}

/// Whether `s` in uppercase reads `capitals`.
pub fn is_uppercased(s: &str, capitals: &str) -> (same: bool)
    ensures
        same == (uppercase(s@) == capitals@),
{
    let len: usize = s.unicode_len();
    if len != capitals.unicode_len() {
        return false;
    }
    let mut i: usize = 0;
    while i < len
        invariant
            i <= len,
            len == s@.len(),
            len == capitals@.len(),
            forall|j: int| 0 <= j < i ==> uppercase(s@)[j] == #[trigger] capitals@[j],
        decreases len - i,
    {
        if !is_upper_of(s.get_char(i), capitals.get_char(i)) {
            assert(uppercase(s@)[i as int] != capitals@[i as int]);
            return false;
        }
        i = i + 1;
    }
    assert(uppercase(s@) =~= capitals@);
    true
}

/// The number that a lowercase digit stands for.
pub open spec fn digit_value(c: char) -> int {
    if '0' <= c <= '9' {
        c as int - '0' as int
    } else {
        c as int - 'a' as int + 10
    }
}

/// The number that digits stand for, the most significant first.
pub open spec fn number_of(digits: Seq<char>, base: int) -> int
    decreases digits.len(),
{
    if digits.len() == 0 {
        0
    } else {
        number_of(digits.drop_last(), base) * base + digit_value(digits.last())
    }
}

/// A numeral reads back as its number, in decimal and in hexadecimal, and has no leading
/// zero but in zero itself.
pub proof fn numeral_reads_back(n: nat, base: nat)
    requires
        2 <= base <= 16,
    ensures
        number_of(numeral(n, base), base as int) == n,
        numeral(n, base).len() > 0,
        n > 0 ==> numeral(n, base)[0] != '0',
    decreases n,
{
    let digits = numeral(n, base);
    if n < base {
        assert(digits.drop_last() =~= Seq::<char>::empty());
        assert(number_of(digits.drop_last(), base as int) == 0);
    } else {
        vstd::arithmetic::div_mod::lemma_div_decreases(n as int, base as int);
        vstd::arithmetic::div_mod::lemma_fundamental_div_mod(n as int, base as int);
        assert(n / base > 0) by (nonlinear_arith)
            requires
                n >= base,
                base > 0,
        ;
        numeral_reads_back(n / base, base);
        assert(digits.drop_last() =~= numeral(n / base, base));
        assert(digits[0] == numeral(n / base, base)[0]);
        assert((n / base) * base == base * (n / base)) by (nonlinear_arith);
    }
}

/// A padded hexadecimal numeral has at least its width in digits, and still reads back
/// as its number.
pub proof fn padded_numeral_reads_back(n: nat, width: nat)
    requires
        width > 0,
    ensures
        padded_hex(n, width).len() >= width,
        number_of(padded_hex(n, width), 16) == n,
    decreases width, n,
{
    let digits = padded_hex(n, width);
    if width > 1 {
        padded_numeral_reads_back(n / 16, (width - 1) as nat);
        assert(digits.drop_last() =~= padded_hex(n / 16, (width - 1) as nat));
    } else {
        numeral_reads_back(n, 16);
    }
}

/// A signed decimal is the numeral of its magnitude, behind a minus sign exactly where
/// the number is negative.
pub proof fn signed_decimal_reads_back(n: int)
    ensures
        n >= 0 ==> number_of(signed_decimal(n), 10) == n,
        n < 0 ==> signed_decimal(n)[0] == '-' && number_of(
            signed_decimal(n).subrange(1, signed_decimal(n).len() as int),
            10,
        ) == -n,
{
    reveal_strlit("-");
    if n >= 0 {
        numeral_reads_back(n as nat, 10);
    } else {
        numeral_reads_back((-n) as nat, 10);
        let shown = signed_decimal(n);
        assert(shown.subrange(1, shown.len() as int) =~= numeral((-n) as nat, 10));
    }
}

} // verus!

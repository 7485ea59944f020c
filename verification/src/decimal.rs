//! Decimal strings: rendering an integer as its decimal digits (for the
//! tooltip) and parsing optional configuration values back into integers,
//! with the same acceptance rules as Rust's unsigned integer parsing
//! (an optional leading `+`, then one or more ASCII digits, value in range).

use vstd::prelude::*;
use vstd::string::*;

verus! {

/// The digit character for a value below ten.
pub open spec fn digit_char(d: nat) -> char {
    if d == 0 {
        '0'
    } else if d == 1 {
        '1'
    } else if d == 2 {
        '2'
    } else if d == 3 {
        '3'
    } else if d == 4 {
        '4'
    } else if d == 5 {
        '5'
    } else if d == 6 {
        '6'
    } else if d == 7 {
        '7'
    } else if d == 8 {
        '8'
    } else {
        '9'
    }
}

/// The value of a digit character; ten for anything that is no decimal digit.
pub open spec fn digit_of(c: char) -> nat {
    if c == '0' {
        0
    } else if c == '1' {
        1
    } else if c == '2' {
        2
    } else if c == '3' {
        3
    } else if c == '4' {
        4
    } else if c == '5' {
        5
    } else if c == '6' {
        6
    } else if c == '7' {
        7
    } else if c == '8' {
        8
    } else if c == '9' {
        9
    } else {
        10
    }
}

pub open spec fn is_dec_digit(c: char) -> bool {
    digit_of(c) < 10
}

/// The decimal rendering of `n`, most significant digit first, no sign and
/// no leading zero (a single `'0'` for zero).
pub open spec fn dec_seq(n: nat) -> Seq<char>
    decreases n,
{
    if n < 10 {
        seq![digit_char(n)]
    } else {
        dec_seq(n / 10) + seq![digit_char(n % 10)]
    }
}

/// The numeric value of a sequence read as decimal digits.
pub open spec fn dec_val(s: Seq<char>) -> nat
    decreases s.len(),
{
    if s.len() == 0 {
        0
    } else {
        dec_val(s.drop_last()) * 10 + digit_of(s.last())
    }
}

/// The part of `s` after an optional leading `+` sign.
pub open spec fn digits_part(s: Seq<char>) -> Seq<char> {
    if s.len() > 0 && s[0] == '+' {
        s.skip(1)
    } else {
        s
    }
}

pub open spec fn all_dec_digits(s: Seq<char>) -> bool {
    forall|i: int| 0 <= i < s.len() ==> is_dec_digit(#[trigger] s[i])
}

/// Whether `s` is accepted as a decimal `u64`: an optional leading `+`,
/// then one or more decimal digits, and the value fits in a `u64`.
pub open spec fn is_u64_decimal(s: Seq<char>) -> bool {
    &&& digits_part(s).len() > 0
    &&& all_dec_digits(digits_part(s))
    &&& dec_val(digits_part(s)) <= u64::MAX
}

/// The value of an accepted decimal string.
pub open spec fn u64_decimal_value(s: Seq<char>) -> nat {
    dec_val(digits_part(s))
}

/// A one-character string slice for a value below ten.
fn digit_str(d: u32) -> (r: &'static str)
    requires
        d < 10,
    ensures
        r@ =~= seq![digit_char(d as nat)],
{
    proof {
        reveal_strlit("0");
        reveal_strlit("1");
        reveal_strlit("2");
        reveal_strlit("3");
        reveal_strlit("4");
        reveal_strlit("5");
        reveal_strlit("6");
        reveal_strlit("7");
        reveal_strlit("8");
        reveal_strlit("9");
    }
    match d {
        0 => "0",
        1 => "1",
        2 => "2",
        3 => "3",
        4 => "4",
        5 => "5",
        6 => "6",
        7 => "7",
        8 => "8",
        _ => "9",
    }
}

/// Renders `n` as its decimal digits.
pub fn u32_to_decimal(n: u32) -> (r: String)
    ensures
        r@ == dec_seq(n as nat),
    decreases n,
{
    if n < 10 {
        String::from_str(digit_str(n))
    } else {
        let mut s = u32_to_decimal(n / 10);
        s.append(digit_str(n % 10));
        s
    }
}

/// The value of a digit character; ten for anything else.
fn digit_value(c: char) -> (d: u32)
    ensures
        d as nat == digit_of(c),
{
    match c {
        '0' => 0,
        '1' => 1,
        '2' => 2,
        '3' => 3,
        '4' => 4,
        '5' => 5,
        '6' => 6,
        '7' => 7,
        '8' => 8,
        '9' => 9,
        _ => 10,
    }
}

/// Extending a prefix of `s` cannot decrease its value as decimal digits.
proof fn lemma_dec_val_prefix_le(s: Seq<char>, j: int, k: int)
    requires
        0 <= j <= k <= s.len(),
    ensures
        dec_val(s.take(j)) <= dec_val(s.take(k)),
    decreases k - j,
{
    if j < k {
        lemma_dec_val_prefix_le(s, j, k - 1);
        assert(s.take(k).drop_last() =~= s.take(k - 1));
        assert(dec_val(s.take(k)) == dec_val(s.take(k - 1)) * 10 + digit_of(s.take(k).last()));
    }
}

/// Parses `s` as a decimal `u64`, accepting exactly the strings that
/// `is_u64_decimal` accepts.
pub fn parse_u64(s: &str) -> (r: Option<u64>)
    ensures
        r is Some <==> is_u64_decimal(s@),
        r is Some ==> r.unwrap() == u64_decimal_value(s@),
{
    let len: usize = s.unicode_len();
    let start: usize = if len > 0 && s.get_char(0) == '+' {
        1
    } else {
        0
    };
    proof {
        if start == 1 {
            assert(digits_part(s@) =~= s@.skip(1));
        } else {
            assert(digits_part(s@) =~= s@.skip(0));
        }
    }
    if start >= len {
        return None;
    }
    let ghost digits = digits_part(s@);
    let mut acc: u64 = 0;
    let mut i: usize = start;
    while i < len
        invariant
            start <= i <= len,
            start <= 1,
            len == s@.len(),
            digits == digits_part(s@),
            digits == s@.skip(start as int),
            all_dec_digits(digits.take(i - start)),
            acc == dec_val(digits.take(i - start)),
        decreases len - i,
    {
        let c = s.get_char(i);
        let d: u32 = digit_value(c);
        proof {
            assert(digits[i - start] == s@[i as int]);
            assert(digits.take(i + 1 - start).drop_last() =~= digits.take(i - start));
            assert(digits.take(i + 1 - start).last() == s@[i as int]);
        }
        if d >= 10 {
            assert(!all_dec_digits(digits));
            return None;
        }
        if acc > u64::MAX / 10 {
            proof {
                assert(dec_val(digits.take(i + 1 - start)) > u64::MAX);
                lemma_dec_val_prefix_le(digits, i + 1 - start, digits.len() as int);
                assert(digits.take(digits.len() as int) =~= digits);
            }
            return None;
        }
        let acc10: u64 = acc * 10;
        let d64: u64 = d as u64;
        if d64 > u64::MAX - acc10 {
            proof {
                assert(dec_val(digits.take(i + 1 - start)) > u64::MAX);
                lemma_dec_val_prefix_le(digits, i + 1 - start, digits.len() as int);
                assert(digits.take(digits.len() as int) =~= digits);
            }
            return None;
        }
        acc = acc10 + d64;
        i = i + 1;
    }
    proof {
        assert(digits.take(len - start) =~= digits);
    }
    Some(acc)
}

/// The value a configuration string stands for with fallback default `d`:
/// its decimal value where it is accepted and fits in a `u32`, else `d`.
pub open spec fn u32_or_default_spec(s: Seq<char>, d: u32) -> u32 {
    if is_u64_decimal(s) && u64_decimal_value(s) <= u32::MAX {
        u64_decimal_value(s) as u32
    } else {
        d
    }
}

/// The value a configuration string stands for with fallback default `d`:
/// its decimal value where it is accepted and fits in a `u16`, else `d`.
pub open spec fn u16_or_default_spec(s: Seq<char>, d: u16) -> u16 {
    if is_u64_decimal(s) && u64_decimal_value(s) <= u16::MAX {
        u64_decimal_value(s) as u16
    } else {
        d
    }
}

/// The value a configuration string stands for with fallback default `d`:
/// its decimal value where it is accepted, else `d`.
pub open spec fn u64_or_default_spec(s: Seq<char>, d: u64) -> u64 {
    if is_u64_decimal(s) {
        u64_decimal_value(s) as u64
    } else {
        d
    }
}

/// Parses a `u32` configuration value, falling back silently to `d`.
pub fn parse_u32_or(s: &str, d: u32) -> (r: u32)
    ensures
        r == u32_or_default_spec(s@, d),
{
    match parse_u64(s) {
        Some(v) => if v <= u32::MAX as u64 {
            v as u32
        } else {
            d
        },
        None => d,
    }
}

/// Parses a `u16` configuration value, falling back silently to `d`.
pub fn parse_u16_or(s: &str, d: u16) -> (r: u16)
    ensures
        r == u16_or_default_spec(s@, d),
{
    match parse_u64(s) {
        Some(v) => if v <= u16::MAX as u64 {
            v as u16
        } else {
            d
        },
        None => d,
    }
}

/// Parses a `u64` configuration value, falling back silently to `d`.
pub fn parse_u64_or(s: &str, d: u64) -> (r: u64)
    ensures
        r == u64_or_default_spec(s@, d),
{
    match parse_u64(s) {
        Some(v) => v,
        None => d,
    }
}

} // verus!

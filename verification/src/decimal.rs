//! Decimal text for unsigned and signed integers: formatting and parsing.

use vstd::prelude::*;
use vstd::utf8::{encode_utf8, is_ascii_chars, is_ascii_chars_encode_utf8};

verus! {

/// The character of the decimal digit `d` (`0 <= d < 10`).
pub open spec fn digit_char(d: int) -> char {
    (48 + d) as char
}

/// The decimal notation of `n`, most significant digit first, without
/// leading zeros (`0` is written as a single `0`).
pub open spec fn decimal(n: nat) -> Seq<char>
    decreases n,
{
    if n < 10 {
        seq![digit_char(n as int)]
    } else {
        decimal(n / 10).push(digit_char((n % 10) as int))
    }
}

/// The decimal notation of a signed integer: a `-` before the digits of its
/// magnitude when it is negative.
pub open spec fn signed_decimal(x: int) -> Seq<char> {
    if x < 0 {
        seq!['-'] + decimal((-x) as nat)
    } else {
        decimal(x as nat)
    }
}

fn digit_str(d: u64) -> (s: &'static str)
    requires
        d < 10,
    ensures
        s@ == seq![digit_char(d as int)],
{
    match d {
        0 => {
            proof { reveal_strlit("0"); }
            "0"
        },
        1 => {
            proof { reveal_strlit("1"); }
            "1"
        },
        2 => {
            proof { reveal_strlit("2"); }
            "2"
        },
        3 => {
            proof { reveal_strlit("3"); }
            "3"
        },
        4 => {
            proof { reveal_strlit("4"); }
            "4"
        },
        5 => {
            proof { reveal_strlit("5"); }
            "5"
        },
        6 => {
            proof { reveal_strlit("6"); }
            "6"
        },
        7 => {
            proof { reveal_strlit("7"); }
            "7"
        },
        8 => {
            proof { reveal_strlit("8"); }
            "8"
        },
        _ => {
            proof { reveal_strlit("9"); }
            "9"
        },
    }
}

/// Writes `n` in decimal, as `format!("{}", n)` does.
pub fn to_decimal(n: u64) -> (s: String)
    ensures
        s@ == decimal(n as nat),
    decreases n,
{
    if n < 10 {
        let mut s = String::new();
        s.append(digit_str(n));
        s
    } else {
        let mut s = to_decimal(n / 10);
        s.append(digit_str(n % 10));
        s
    }
}

/// Writes `x` in decimal, with a leading `-` when it is negative.
pub fn to_signed_decimal(x: i64) -> (s: String)
    ensures
        s@ == signed_decimal(x as int),
{
    if x < 0 {
        let magnitude: u64 = if x == i64::MIN {
            9223372036854775808u64
        } else {
            (-x) as u64
        };
        let mut s = String::new();
        proof { reveal_strlit("-"); }
        s.append("-");
        let digits = to_decimal(magnitude);
        s.append(digits.as_str());
        s
    } else {
        to_decimal(x as u64)
    }
}

/// Why text is not an unsigned integer, as `std::num::IntErrorKind` tells it
/// for an unsigned target type.
#[derive(Debug, Clone, Copy, PartialEq, Eq, Structural)]
pub enum IntErrorKind {
    /// The text is empty.
    Empty,
    /// A byte that is not a decimal digit (or a lone sign).
    InvalidDigit,
    /// The value does not fit in the target type.
    PosOverflow,
}

/// An ASCII decimal digit.
pub open spec fn is_digit(b: u8) -> bool {
    48 <= b <= 57
}

/// Reads the digits of `s` from the left onto the value `acc` read so far,
/// stopping at the first byte that is not a digit, or at the first digit
/// after which the value exceeds `max`.
pub open spec fn scan_digits(s: Seq<u8>, acc: int, max: int) -> Result<int, IntErrorKind>
    decreases s.len(),
{
    if s.len() == 0 {
        Ok(acc)
    } else if !is_digit(s[0]) {
        Err(IntErrorKind::InvalidDigit)
    } else if acc * 10 + (s[0] - 48) > max {
        Err(IntErrorKind::PosOverflow)
    } else {
        scan_digits(s.drop_first(), acc * 10 + (s[0] - 48), max)
    }
}

/// What `str::parse` gives for an unsigned type whose largest value is
/// `max`: an optional `+`, then at least one decimal digit, and nothing else.
pub open spec fn parse_unsigned_spec(s: Seq<u8>, max: int) -> Result<int, IntErrorKind> {
    if s.len() == 0 {
        Err(IntErrorKind::Empty)
    } else if s.len() == 1 && (s[0] == 43 || s[0] == 45) {
        Err(IntErrorKind::InvalidDigit)
    } else if s[0] == 43 {
        scan_digits(s.drop_first(), 0, max)
    } else {
        scan_digits(s, 0, max)
    }
}

/// `r` is the executable form of the spec result `spec`.
pub open spec fn same_outcome(r: Result<u64, IntErrorKind>, spec: Result<int, IntErrorKind>) -> bool {
    match spec {
        Ok(v) => r matches Ok(x) && x == v,
        Err(e) => r == Err::<u64, IntErrorKind>(e),
    }
}

proof fn lemma_scan_bounded(s: Seq<u8>, acc: int, max: int)
    requires
        0 <= acc <= max,
    ensures
        scan_digits(s, acc, max) matches Ok(v) ==> 0 <= v <= max,
    decreases s.len(),
{
    if s.len() > 0 && is_digit(s[0]) && acc * 10 + (s[0] - 48) <= max {
        lemma_scan_bounded(s.drop_first(), acc * 10 + (s[0] - 48), max);
    }
}

/// Parses the digits `s[start..]` as an unsigned value of at most `max`.
fn scan_digits_exec(s: &[u8], start: usize, max: u64) -> (r: Result<u64, IntErrorKind>)
    requires
        start <= s@.len(),
    ensures
        same_outcome(r, scan_digits(s@.skip(start as int), 0, max as int)),
        r matches Ok(v) ==> v <= max,
{
    let mut acc: u64 = 0;
    let mut i: usize = start;
    proof { lemma_scan_bounded(s@.skip(start as int), 0, max as int); }
    while i < s.len()
        invariant
            start <= i <= s@.len(),
            acc <= max,
            scan_digits(s@.skip(start as int), 0, max as int)
                == scan_digits(s@.skip(i as int), acc as int, max as int),
        decreases s@.len() - i,
    {
        let b = s[i];
        assert(s@.skip(i as int)[0] == b);
        assert(s@.skip(i as int).drop_first() =~= s@.skip(i + 1));
        if b < 48 || b > 57 {
            return Err(IntErrorKind::InvalidDigit);
        }
        let d: u64 = (b - 48) as u64;
        if (acc as u128) * 10 + (d as u128) > max as u128 {
            return Err(IntErrorKind::PosOverflow);
        }
        acc = acc * 10 + d;
        i = i + 1;
    }
    assert(s@.skip(i as int).len() == 0);
    Ok(acc)
}

/// Parses `s` as `str::parse` does for an unsigned integer type whose
/// largest value is `max`.
pub fn parse_unsigned(s: &[u8], max: u64) -> (r: Result<u64, IntErrorKind>)
    ensures
        same_outcome(r, parse_unsigned_spec(s@, max as int)),
        r matches Ok(v) ==> v <= max,
{
    if s.len() == 0 {
        return Err(IntErrorKind::Empty);
    }
    if s.len() == 1 && (s[0] == 43 || s[0] == 45) {
        return Err(IntErrorKind::InvalidDigit);
    }
    if s[0] == 43 {
        assert(s@.skip(1) =~= s@.drop_first());
        scan_digits_exec(s, 1, max)
    } else {
        assert(s@.skip(0) =~= s@);
        scan_digits_exec(s, 0, max)
    }
}

proof fn lemma_scan_append(s: Seq<u8>, t: Seq<u8>, acc: int, max: int)
    requires
        scan_digits(s, acc, max) is Ok,
    ensures
        scan_digits(s + t, acc, max) == scan_digits(t, scan_digits(s, acc, max)->Ok_0, max),
    decreases s.len(),
{
    if s.len() == 0 {
        assert(s + t =~= t);
    } else {
        assert((s + t).drop_first() =~= s.drop_first() + t);
        lemma_scan_append(s.drop_first(), t, acc * 10 + (s[0] - 48), max);
    }
}

/// The decimal notation of a number is made of ASCII digits.
pub proof fn lemma_decimal_digits(n: nat)
    ensures
        is_ascii_chars(decimal(n)),
        decimal(n).len() >= 1,
        forall|i: int| 0 <= i < decimal(n).len() ==> 48 <= #[trigger] (decimal(n)[i] as u8) <= 57,
    decreases n,
{
    if n >= 10 {
        lemma_decimal_digits(n / 10);
    }
}

proof fn lemma_scan_decimal(n: nat, max: int)
    requires
        n <= max,
    ensures
        scan_digits(encode_utf8(decimal(n)), 0, max) == Ok::<int, IntErrorKind>(n as int),
    decreases n,
{
    lemma_decimal_digits(n);
    is_ascii_chars_encode_utf8(decimal(n));
    let bytes = encode_utf8(decimal(n));
    if n < 10 {
        assert(bytes[0] == decimal(n)[0] as u8);
        assert(bytes.drop_first().len() == 0);
        assert(scan_digits(bytes.drop_first(), n as int, max) == Ok::<int, IntErrorKind>(n as int));
    } else {
        let head = decimal(n / 10);
        lemma_decimal_digits(n / 10);
        is_ascii_chars_encode_utf8(head);
        lemma_scan_decimal(n / 10, max);
        let last: Seq<u8> = seq![(48 + n % 10) as u8];
        assert(bytes =~= encode_utf8(head) + last) by {
            assert forall|i: int| 0 <= i < bytes.len() implies bytes[i] == (encode_utf8(head) + last)[i] by {
                if i < head.len() {
                    assert(decimal(n)[i] == head[i]);
                }
            }
        }
        lemma_scan_append(encode_utf8(head), last, 0, max);
        assert(last.drop_first().len() == 0);
        assert(scan_digits(last.drop_first(), n as int, max) == Ok::<int, IntErrorKind>(n as int));
    }
}

/// Parsing what `to_decimal` writes gives the number back: for every value
/// that fits the target type (`n <= max`), the UTF-8 bytes of `decimal(n)`
/// parse to `n`.
pub proof fn lemma_parse_decimal_roundtrip(n: nat, max: int)
    requires
        n <= max,
    ensures
        parse_unsigned_spec(encode_utf8(decimal(n)), max) == Ok::<int, IntErrorKind>(n as int),
{
    lemma_decimal_digits(n);
    is_ascii_chars_encode_utf8(decimal(n));
    lemma_scan_decimal(n, max);
    let bytes = encode_utf8(decimal(n));
    assert(bytes[0] == decimal(n)[0] as u8);
}

} // verus!

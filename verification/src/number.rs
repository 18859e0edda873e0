//! Decimal numbers in text: formatting of integers and parsing of unsigned
//! integers and booleans, with the acceptance rules of Rust's `FromStr`.

use vstd::prelude::*;
use crate::text::chars_equal;

verus! {

/// The character of a decimal digit.
pub open spec fn digit_char(d: nat) -> char {
    ((d + 48) as u8) as char
}

/// The decimal digits of `n`, without leading zeros ("0" for zero).
pub open spec fn decimal(n: nat) -> Seq<char>
    decreases n,
{
    if n < 10 {
        seq![digit_char(n)]
    } else {
        decimal(n / 10).push(digit_char(n % 10))
    }
}

/// The decimal text of a signed integer: a minus sign, then the digits.
pub open spec fn signed_decimal(v: int) -> Seq<char> {
    if v < 0 {
        seq!['-'] + decimal((-v) as nat)
    } else {
        decimal(v as nat)
    }
}

fn digit(d: u64) -> (c: char)
    requires
        d < 10,
    ensures
        c == digit_char(d as nat),
{
    let b: u8 = d as u8 + 48;
    b as char
}

/// The decimal digits of `n`.
pub fn decimal_chars(n: u64) -> (r: Vec<char>)
    ensures
        r@ == decimal(n as nat),
    decreases n,
{
    if n < 10 {
        let mut r: Vec<char> = Vec::new();
        r.push(digit(n));
        assert(r@ =~= decimal(n as nat));
        r
    } else {
        let mut r = decimal_chars(n / 10);
        r.push(digit(n % 10));
        r
    }
}

/// The decimal text of a signed integer.
pub fn signed_decimal_chars(v: i64) -> (r: Vec<char>)
    ensures
        r@ == signed_decimal(v as int),
{
    if v < 0 {
        let magnitude: u64 = if v == i64::MIN {
            0x8000_0000_0000_0000
        } else {
            (-v) as u64
        };
        let digits = decimal_chars(magnitude);
        let mut r: Vec<char> = Vec::new();
        r.push('-');
        let mut i: usize = 0;
        while i < digits.len()
            invariant
                i <= digits@.len(),
                r@ =~= seq!['-'] + digits@.take(i as int),
            decreases digits@.len() - i,
        {
            r.push(digits[i]);
            i = i + 1;
        }
        assert(digits@.take(digits@.len() as int) =~= digits@);
        r
    } else {
        decimal_chars(v as u64)
    }
}

/// Why a text is not an unsigned integer (the kinds of `ParseIntError`).
#[derive(Debug, Clone, Copy, PartialEq, Eq, Structural)]
pub enum NumberError {
    /// The text is empty.
    Empty,
    /// A character is not a decimal digit (or the text is a lone sign).
    InvalidDigit,
    /// The value does not fit in the target type.
    PosOverflow,
}

/// Accumulates decimal digits left to right onto `acc`: the first non-digit
/// or the first overflow past `max` decides the error.
pub open spec fn digits_value(d: Seq<char>, acc: nat, max: nat) -> Result<nat, NumberError>
    decreases d.len(),
{
    if d.len() == 0 {
        Ok(acc)
    } else if !('0' <= d[0] && d[0] <= '9') {
        Err(NumberError::InvalidDigit)
    } else if acc * 10 + (d[0] as nat - 48) > max {
        Err(NumberError::PosOverflow)
    } else {
        digits_value(d.drop_first(), (acc * 10 + (d[0] as nat - 48)) as nat, max)
    }
}

/// An unsigned integer no greater than `max` in decimal text: an optional
/// `+`, then digits (`u64::from_str` and its kin).
pub open spec fn parse_unsigned(s: Seq<char>, max: nat) -> Result<nat, NumberError> {
    if s.len() == 0 {
        Err(NumberError::Empty)
    } else if s.len() == 1 && (s[0] == '+' || s[0] == '-') {
        Err(NumberError::InvalidDigit)
    } else if s[0] == '+' {
        digits_value(s.drop_first(), 0, max)
    } else {
        digits_value(s, 0, max)
    }
}

proof fn lemma_digits_value_append(a: Seq<char>, b: Seq<char>, acc: nat, max: nat)
    ensures
        digits_value(a + b, acc, max) == match digits_value(a, acc, max) {
            Ok(v) => digits_value(b, v, max),
            Err(e) => Err(e),
        },
    decreases a.len(),
{
    if a.len() == 0 {
        assert(a + b =~= b);
    } else {
        assert((a + b)[0] == a[0]);
        assert((a + b).drop_first() =~= a.drop_first() + b);
        if '0' <= a[0] && a[0] <= '9' && acc * 10 + (a[0] as nat - 48) <= max {
            lemma_digits_value_append(a.drop_first(), b, (acc * 10 + (a[0] as nat - 48)) as nat, max);
        }
    }
}

proof fn lemma_digit_char(d: nat)
    requires
        d < 10,
    ensures
        '0' <= digit_char(d) <= '9',
        digit_char(d) as nat == d + 48,
{
}

proof fn lemma_decimal_digits(n: nat, max: nat)
    requires
        n <= max,
    ensures
        decimal(n).len() > 0,
        '0' <= decimal(n)[0] <= '9',
        digits_value(decimal(n), 0, max) == Ok::<nat, NumberError>(n),
    decreases n,
{
    if n < 10 {
        lemma_digit_char(n);
        let d = seq![digit_char(n)];
        assert(d.drop_first() =~= Seq::<char>::empty());
        assert(digits_value(Seq::<char>::empty(), n, max) == Ok::<nat, NumberError>(n));
        assert(d[0] as nat - 48 == n);
        assert(digits_value(d, 0, max) == digits_value(d.drop_first(), n, max));
    } else {
        lemma_decimal_digits(n / 10, max);
        lemma_digit_char(n % 10);
        let d = seq![digit_char((n % 10) as nat)];
        assert(decimal(n) =~= decimal(n / 10) + d);
        lemma_digits_value_append(decimal(n / 10), d, 0, max);
        assert((n / 10) * 10 + (n % 10) == n);
        assert(d.drop_first() =~= Seq::<char>::empty());
        assert(d[0] as nat - 48 == n % 10);
        assert(digits_value(Seq::<char>::empty(), n, max) == Ok::<nat, NumberError>(n));
        assert(digits_value(d, n / 10, max) == digits_value(d.drop_first(), n, max));
        assert(decimal(n)[0] == decimal(n / 10)[0]);
    }
}

/// Reading back a formatted number: the decimal text of every `n` up to
/// `max` parses as exactly `n`.
pub proof fn lemma_parse_decimal(n: nat, max: nat)
    requires
        n <= max,
    ensures
        parse_unsigned(decimal(n), max) == Ok::<nat, NumberError>(n),
{
    lemma_decimal_digits(n, max);
}

/// Parses an unsigned integer no greater than `max`.
pub fn parse_unsigned_chars(s: &[char], max: u64) -> (r: Result<u64, NumberError>)
    ensures
        match r {
            Ok(v) => parse_unsigned(s@, max as nat) == Ok::<nat, NumberError>(v as nat),
            Err(e) => parse_unsigned(s@, max as nat) == Err::<nat, NumberError>(e),
        },
{
    let n = s.len();
    if n == 0 {
        return Err(NumberError::Empty);
    }
    if n == 1 && (s[0] == '+' || s[0] == '-') {
        return Err(NumberError::InvalidDigit);
    }
    let mut i: usize = if s[0] == '+' {
        1
    } else {
        0
    };
    assert(s@.skip(1) =~= s@.drop_first());
    assert(s@.skip(0) =~= s@);
    let mut acc: u64 = 0;
    while i < n
        invariant
            n == s@.len(),
            i <= n,
            acc <= max,
            parse_unsigned(s@, max as nat) == digits_value(s@.skip(i as int), acc as nat, max as nat),
        decreases n - i,
    {
        let c = s[i];
        assert(s@.skip(i as int)[0] == c);
        assert(s@.skip(i as int).drop_first() =~= s@.skip(i + 1));
        if !('0' <= c && c <= '9') {
            return Err(NumberError::InvalidDigit);
        }
        let d: u64 = (c as u32 - 48) as u64;
        let next: u128 = acc as u128 * 10 + d as u128;
        if next > max as u128 {
            return Err(NumberError::PosOverflow);
        }
        acc = next as u64;
        i = i + 1;
    }
    assert(s@.skip(n as int).len() == 0);
    Ok(acc)
}

/// `true` or `false` in text (`bool::from_str`); `None` for anything else.
pub open spec fn parse_bool(s: Seq<char>) -> Option<bool> {
    if s == "true"@ {
        Some(true)
    } else if s == "false"@ {
        Some(false)
    } else {
        None
    }
}

/// Parses `true` or `false`.
pub fn parse_bool_chars(s: &[char]) -> (r: Option<bool>)
    ensures
        r == parse_bool(s@),
{
    if chars_equal(s, "true") {
        Some(true)
    } else if chars_equal(s, "false") {
        Some(false)
    } else {
        None
    }
}

} // verus!

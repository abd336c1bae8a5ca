//! Decimal parsing of an `i32`, with the error kinds of `str::parse::<i32>`.
use vstd::prelude::*;
use vstd::string::*;

use crate::text::chars_of;

verus! {

/// Why a string is not an `i32`.
#[derive(Clone, Copy, Debug, PartialEq, Eq, Structural)]
pub enum IntErrorKind {
    Empty,
    InvalidDigit,
    PosOverflow,
    NegOverflow,
}

pub open spec fn is_digit(c: char) -> bool {
    '0' <= c && c <= '9'
}

pub open spec fn digit_value(c: char) -> int {
    c as int - '0' as int
}

pub open spec fn in_i32(v: int) -> bool {
    i32::MIN <= v && v <= i32::MAX
}

/// Reading the digits of `body` from the left, each step multiplying by ten and
/// adding (or, for a negative number, subtracting) the next digit. The first
/// character that is not a digit, or the first step that leaves the range of
/// `i32`, decides the error.
pub open spec fn scan_digits(body: Seq<char>, negative: bool) -> Result<int, IntErrorKind>
    decreases body.len(),
{
    if body.len() == 0 {
        Ok(0)
    } else {
        match scan_digits(body.drop_last(), negative) {
            Err(k) => Err(k),
            Ok(v) => {
                let c = body.last();
                if !is_digit(c) {
                    Err(IntErrorKind::InvalidDigit)
                } else {
                    let w = if negative { v * 10 - digit_value(c) } else { v * 10 + digit_value(c) };
                    if w > i32::MAX {
                        Err(IntErrorKind::PosOverflow)
                    } else if w < i32::MIN {
                        Err(IntErrorKind::NegOverflow)
                    } else {
                        Ok(w)
                    }
                }
            },
        }
    }
}

/// What `str::parse::<i32>` gives for `s`: an optional sign, then at least one digit.
pub open spec fn parse_i32(s: Seq<char>) -> Result<int, IntErrorKind> {
    if s.len() == 0 {
        Err(IntErrorKind::Empty)
    } else if (s[0] == '+' || s[0] == '-') && s.len() == 1 {
        Err(IntErrorKind::InvalidDigit)
    } else if s[0] == '+' {
        scan_digits(s.skip(1), false)
    } else if s[0] == '-' {
        scan_digits(s.skip(1), true)
    } else {
        scan_digits(s, false)
    }
}

/// The message std gives for each kind of error.
pub open spec fn int_error_text(k: IntErrorKind) -> Seq<char> {
    match k {
        IntErrorKind::Empty => "cannot parse integer from empty string"@,
        IntErrorKind::InvalidDigit => "invalid digit found in string"@,
        IntErrorKind::PosOverflow => "number too large to fit in target type"@,
        IntErrorKind::NegOverflow => "number too small to fit in target type"@,
    }
}

fn scan(chars: &Vec<char>, start: usize, negative: bool) -> (r: Result<i32, IntErrorKind>)
    requires
        start <= chars.len(),
    ensures
        match scan_digits(chars@.skip(start as int), negative) {
            Ok(v) => r == Ok::<i32, IntErrorKind>(v as i32),
            Err(k) => r == Err::<i32, IntErrorKind>(k),
        },
{
    let ghost body = chars@.skip(start as int);
    let mut acc: i32 = 0;
    let mut i: usize = start;
    while i < chars.len()
        invariant
            start <= i <= chars.len(),
            body == chars@.skip(start as int),
            scan_digits(body.subrange(0, i - start), negative) == Ok::<int, IntErrorKind>(acc as int),
        decreases chars.len() - i,
    {
        let c = chars[i];
        let ghost prefix = body.subrange(0, i + 1 - start);
        assert(prefix.drop_last() =~= body.subrange(0, i - start));
        assert(prefix.last() == c);
        if !('0' <= c && c <= '9') {
            proof { lemma_scan_extends(body, (i + 1 - start) as int, negative); }
            return Err(IntErrorKind::InvalidDigit);
        }
        let d = (c as u32 - '0' as u32) as i64;
        let w: i64 = if negative { acc as i64 * 10 - d } else { acc as i64 * 10 + d };
        if w > i32::MAX as i64 {
            proof { lemma_scan_extends(body, (i + 1 - start) as int, negative); }
            return Err(IntErrorKind::PosOverflow);
        }
        if w < i32::MIN as i64 {
            proof { lemma_scan_extends(body, (i + 1 - start) as int, negative); }
            return Err(IntErrorKind::NegOverflow);
        }
        acc = w as i32;
        i = i + 1;
    }
    assert(body.subrange(0, i - start) =~= body);
    Ok(acc)
}

/// Once a prefix of the digits fails, every longer prefix fails the same way.
proof fn lemma_scan_extends(body: Seq<char>, n: int, negative: bool)
    requires
        0 <= n <= body.len(),
    ensures
        scan_digits(body.subrange(0, n), negative) is Err ==> scan_digits(body, negative)
            == scan_digits(body.subrange(0, n), negative),
    decreases body.len() - n,
{
    if n < body.len() {
        lemma_scan_extends(body, n + 1, negative);
        let longer = body.subrange(0, n + 1);
        assert(longer.drop_last() =~= body.subrange(0, n));
    } else {
        assert(body.subrange(0, n) =~= body);
    }
}

/// Parses a decimal `i32` as `str::parse::<i32>` does.
pub fn parse_i32_str(s: &str) -> (r: Result<i32, IntErrorKind>)
    ensures
        match parse_i32(s@) {
            Ok(v) => r == Ok::<i32, IntErrorKind>(v as i32),
            Err(k) => r == Err::<i32, IntErrorKind>(k),
        },
{
    let chars = chars_of(s);
    if chars.len() == 0 {
        return Err(IntErrorKind::Empty);
    }
    let first = chars[0];
    if (first == '+' || first == '-') && chars.len() == 1 {
        return Err(IntErrorKind::InvalidDigit);
    }
    if first == '+' {
        scan(&chars, 1, false)
    } else if first == '-' {
        scan(&chars, 1, true)
    } else {
        assert(chars@.skip(0) =~= chars@);
        scan(&chars, 0, false)
    }
}

/// The message std gives for an error kind.
pub fn int_error_message(k: IntErrorKind) -> (r: String)
    ensures
        r@ == int_error_text(k),
{
    match k {
        IntErrorKind::Empty => String::from_str("cannot parse integer from empty string"),
        IntErrorKind::InvalidDigit => String::from_str("invalid digit found in string"),
        IntErrorKind::PosOverflow => String::from_str("number too large to fit in target type"),
        IntErrorKind::NegOverflow => String::from_str("number too small to fit in target type"),
    }
}

pub open spec fn digit_char(d: nat) -> char {
    if d == 0 { '0' }
    else if d == 1 { '1' }
    else if d == 2 { '2' }
    else if d == 3 { '3' }
    else if d == 4 { '4' }
    else if d == 5 { '5' }
    else if d == 6 { '6' }
    else if d == 7 { '7' }
    else if d == 8 { '8' }
    else { '9' }
}

/// The decimal digits of `n`, without leading zeros.
pub open spec fn decimal_nat(n: nat) -> Seq<char>
    decreases n,
{
    if n < 10 {
        seq![digit_char(n)]
    } else {
        decimal_nat(n / 10) + seq![digit_char(n % 10)]
    }
}

/// The decimal text of `n`, with a leading `-` when it is negative.
pub open spec fn decimal(n: int) -> Seq<char> {
    if n < 0 {
        seq!['-'] + decimal_nat((-n) as nat)
    } else {
        decimal_nat(n as nat)
    }
}

fn digit_str(d: u64) -> (r: &'static str)
    requires
        d < 10,
    ensures
        r@ == seq![digit_char(d as nat)],
{
    proof {
        reveal_strlit("0");
        reveal_strlit("1");
        reveal_strlit("2");
        reveal_strlit("3");
        reveal_strlit("4");
        reveal_strlit("5");
        reveal_strlit("6");
        reveal_strlit("7");
        reveal_strlit("8");
        reveal_strlit("9");
    }
    if d == 0 { "0" }
    else if d == 1 { "1" }
    else if d == 2 { "2" }
    else if d == 3 { "3" }
    else if d == 4 { "4" }
    else if d == 5 { "5" }
    else if d == 6 { "6" }
    else if d == 7 { "7" }
    else if d == 8 { "8" }
    else { "9" }
}

fn append_decimal(out: &mut String, n: u64)
    ensures
        final(out)@ == old(out)@ + decimal_nat(n as nat),
    decreases n,
{
    if n >= 10 {
        append_decimal(out, n / 10);
    }
    out.append(digit_str(n % 10));
    assert(n >= 10 ==> decimal_nat(n as nat) == decimal_nat((n / 10) as nat) + seq![digit_char((n % 10) as nat)]);
}

/// The decimal text of an `i64`, as `Display` writes it.
pub fn i64_to_decimal(n: i64) -> (r: String)
    ensures
        r@ == decimal(n as int),
{
    let mut out = String::new();
    if n < 0 {
        proof { reveal_strlit("-"); }
        out.append("-");
        let magnitude: u64 = ((-(n as i128)) as u64);
        append_decimal(&mut out, magnitude);
    } else {
        append_decimal(&mut out, n as u64);
    }
    out
}

} // verus!

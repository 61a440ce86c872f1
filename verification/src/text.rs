//! Decimal rendering of numbers and the clock-style durations shown on
//! screen.

use vstd::prelude::*;

verus! {

/// The character of decimal digit `d`.
pub open spec fn digit_char(d: nat) -> char {
    if d == 0 { '0' }
    else if d == 1 { '1' }
    else if d == 2 { '2' }
    else if d == 3 { '3' }
    else if d == 4 { '4' }
    else if d == 5 { '5' }
    else if d == 6 { '6' }
    else if d == 7 { '7' }
    else if d == 8 { '8' }
    else { '9' }
}

/// The decimal digits of `n`, most significant first, without leading zeros.
pub open spec fn decimal_nat(n: nat) -> Seq<char>
    decreases n,
{
    if n < 10 {
        seq![digit_char(n)]
    } else {
        decimal_nat(n / 10) + seq![digit_char(n % 10)]
    }
}

/// The decimal rendering of `i`, with a leading minus sign when negative.
pub open spec fn decimal(i: int) -> Seq<char> {
    if i < 0 { seq!['-'] + decimal_nat((-i) as nat) } else { decimal_nat(i as nat) }
}

/// The decimal rendering of `i` padded with zeros to at least two characters
/// (the padding goes after a sign, and negative numbers are already two
/// characters wide).
pub open spec fn decimal_width2(i: int) -> Seq<char> {
    if 0 <= i < 10 { seq!['0'] + decimal(i) } else { decimal(i) }
}

/// Integer division rounding toward zero, as machine division does.
pub open spec fn div_toward_zero(a: int, b: int) -> int {
    if a >= 0 { a / b } else { -((-a) / b) }
}

/// The remainder that goes with `div_toward_zero`; it has the sign of `a`.
pub open spec fn rem_toward_zero(a: int, b: int) -> int {
    a - b * div_toward_zero(a, b)
}

/// `secs` as whole minutes, the separator, and the remaining seconds on two
/// digits.
pub open spec fn minutes_seconds(secs: int, sep: Seq<char>) -> Seq<char> {
    decimal(div_toward_zero(secs, 60)) + sep + decimal_width2(rem_toward_zero(secs, 60))
}

/// The text of one decimal digit.
fn digit_str(d: u64) -> (r: &'static str)
    requires
        d < 10,
    ensures
        r@ == seq![digit_char(d as nat)],
{
    if d == 0 {
        proof { reveal_strlit("0"); }
        "0"
    } else if d == 1 {
        proof { reveal_strlit("1"); }
        "1"
    } else if d == 2 {
        proof { reveal_strlit("2"); }
        "2"
    } else if d == 3 {
        proof { reveal_strlit("3"); }
        "3"
    } else if d == 4 {
        proof { reveal_strlit("4"); }
        "4"
    } else if d == 5 {
        proof { reveal_strlit("5"); }
        "5"
    } else if d == 6 {
        proof { reveal_strlit("6"); }
        "6"
    } else if d == 7 {
        proof { reveal_strlit("7"); }
        "7"
    } else if d == 8 {
        proof { reveal_strlit("8"); }
        "8"
    } else {
        proof { reveal_strlit("9"); }
        "9"
    }
}

/// The decimal digits of `n`.
pub fn decimal_u64(n: u64) -> (r: String)
    ensures
        r@ == decimal_nat(n as nat),
    decreases n,
{
    if n < 10 {
        String::from_str(digit_str(n))
    } else {
        let mut s = decimal_u64(n / 10);
        s.append(digit_str(n % 10));
        s
    }
}

/// The decimal rendering of `i`, with a minus sign when negative.
pub fn decimal_i64(i: i64) -> (r: String)
    ensures
        r@ == decimal(i as int),
{
    if i < 0 {
        let magnitude: u64 = (-(i as i128)) as u64;
        let mut s = String::from_str("-");
        proof { reveal_strlit("-"); }
        let digits = decimal_u64(magnitude);
        s.append(digits.as_str());
        s
    } else {
        decimal_u64(i as u64)
    }
}

/// The decimal rendering of `i`, zero-padded to two characters.
pub fn decimal_i64_width2(i: i64) -> (r: String)
    ensures
        r@ == decimal_width2(i as int),
{
    if 0 <= i && i < 10 {
        let mut s = String::from_str("0");
        proof { reveal_strlit("0"); }
        let digits = decimal_i64(i);
        s.append(digits.as_str());
        s
    } else {
        decimal_i64(i)
    }
}

/// Splits `secs` into whole minutes and leftover seconds, both rounded
/// toward zero.
fn split_minutes(secs: i32) -> (r: (i64, i64))
    ensures
        r.0 == div_toward_zero(secs as int, 60),
        r.1 == rem_toward_zero(secs as int, 60),
{
    let s: i64 = secs as i64;
    if s >= 0 {
        (s / 60, s % 60)
    } else {
        let p: i64 = -s;
        let m: i64 = p / 60;
        let rest: i64 = p % 60;
        (-m, -rest)
    }
}

/// `secs` rendered as minutes, `sep` and two-digit seconds.
pub fn format_minutes_seconds(secs: i32, sep: &str) -> (r: String)
    ensures
        r@ == minutes_seconds(secs as int, sep@),
{
    let (m, s) = split_minutes(secs);
    let mut out = decimal_i64(m);
    out.append(sep);
    let tail = decimal_i64_width2(s);
    out.append(tail.as_str());
    out
}

/// A duration in seconds as `minutes:seconds`, seconds on two digits.
pub fn format_secs_duration(secs: i32) -> (r: String)
    ensures
        r@ == minutes_seconds(secs as int, seq![':']),
{
    proof { reveal_strlit(":"); }
    format_minutes_seconds(secs, ":")
}

} // verus!

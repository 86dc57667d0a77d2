//! Figures as text: share counts, money and percentages, each with at most
//! one decimal place.
//!
//! The digits are those of [`in_units`]: the quotient is rounded as
//! double-precision arithmetic rounds it, so the text agrees with what a
//! caller working in floating point would print for the same figure.

use vstd::prelude::*;
use crate::binary64::{in_units, shown_in_units};
use crate::units::{DOLLAR, PERCENT};

verus! {

/// The character of a decimal digit.
pub open spec fn digit_char(digit: nat) -> char
    recommends
        digit < 10,
{
    if digit == 0 {
        '0'
    } else if digit == 1 {
        '1'
    } else if digit == 2 {
        '2'
    } else if digit == 3 {
        '3'
    } else if digit == 4 {
        '4'
    } else if digit == 5 {
        '5'
    } else if digit == 6 {
        '6'
    } else if digit == 7 {
        '7'
    } else if digit == 8 {
        '8'
    } else {
        '9'
    }
}

/// The decimal digits of `value`, most significant first, with no leading
/// zero but for zero itself.
pub open spec fn decimal(value: nat) -> Seq<char>
    decreases value,
{
    if value < 10 {
        seq![digit_char(value)]
    } else {
        decimal(value / 10).push(digit_char(value % 10))
    }
}

/// A count of tenths as text: the whole part, a point, one digit.
pub open spec fn tenths_text(tenths: nat) -> Seq<char> {
    decimal(tenths / 10).push('.').push(digit_char(tenths % 10))
}

/// `n / d` to one decimal place.
pub open spec fn one_decimal(n: nat, d: nat) -> Seq<char>
    recommends
        d > 0,
{
    tenths_text(in_units(n, d, 10))
}

/// `n / d` to the nearest whole number.
pub open spec fn no_decimal(n: nat, d: nat) -> Seq<char>
    recommends
        d > 0,
{
    decimal(in_units(n, d, 1))
}

/// One decimal digit as text.
fn digit_str(digit: u8) -> (text: &'static str)
    requires
        digit < 10,
    ensures
        text@ == seq![digit_char(digit as nat)],
{
    proof {
        reveal_strlit("0");
        reveal_strlit("1");
        reveal_strlit("2");
        reveal_strlit("3");
        reveal_strlit("4");
        reveal_strlit("5");
        reveal_strlit("6");
        reveal_strlit("7");
        reveal_strlit("8");
        reveal_strlit("9");
    }
    if digit == 0 {
        "0"
    } else if digit == 1 {
        "1"
    } else if digit == 2 {
        "2"
    } else if digit == 3 {
        "3"
    } else if digit == 4 {
        "4"
    } else if digit == 5 {
        "5"
    } else if digit == 6 {
        "6"
    } else if digit == 7 {
        "7"
    } else if digit == 8 {
        "8"
    } else {
        "9"
    }
}

/// Appends the decimal digits of `value` to `text`.
pub fn push_decimal(text: &mut String, value: u128)
    ensures
        final(text)@ == old(text)@ + decimal(value as nat),
    decreases value,
{
    if value >= 10 {
        push_decimal(text, value / 10);
    }
    text.append(digit_str((value % 10) as u8));
}

/// Appends a count of tenths to `text`: the whole part, a point, one digit.
pub fn push_tenths(text: &mut String, tenths: u128)
    ensures
        final(text)@ == old(text)@ + tenths_text(tenths as nat),
{
    push_decimal(text, tenths / 10);
    proof {
        reveal_strlit(".");
    }
    text.append(".");
    text.append(digit_str((tenths % 10) as u8));
}

/// One thousand, the first threshold at which a figure is abbreviated.
pub const THOUSAND: u64 = 1_000;

/// One million.
pub const MILLION: u64 = 1_000_000;

/// One billion.
pub const BILLION: u64 = 1_000_000_000;

/// A share count as text.
///
/// From a million up it is shown in millions with one decimal place and the
/// suffix `M`, from a thousand up in thousands with the suffix `K`, below
/// that as the plain number. The count is taken to the nearest binary64
/// before it is divided, which changes it only above `2^53`.
pub open spec fn shares_text(shares: u64) -> Seq<char> {
    if shares >= MILLION {
        one_decimal(in_units(shares as nat, 1, 1), MILLION as nat) + "M"@
    } else if shares >= THOUSAND {
        one_decimal(shares as nat, THOUSAND as nat) + "K"@
    } else {
        decimal(shares as nat)
    }
}

/// An amount of money, in cents, as text.
///
/// From a billion dollars up it is shown in billions with one decimal place
/// and the suffix `B`, from a million up in millions with `M`, from a
/// thousand up in thousands with `K`, below that in whole dollars. A dollar
/// sign comes first.
pub open spec fn currency_text(amount: u64) -> Seq<char> {
    if amount >= BILLION * DOLLAR {
        "$"@ + one_decimal(amount as nat, (BILLION * DOLLAR) as nat) + "B"@
    } else if amount >= MILLION * DOLLAR {
        "$"@ + one_decimal(amount as nat, (MILLION * DOLLAR) as nat) + "M"@
    } else if amount >= THOUSAND * DOLLAR {
        "$"@ + one_decimal(amount as nat, (THOUSAND * DOLLAR) as nat) + "K"@
    } else {
        "$"@ + no_decimal(amount as nat, DOLLAR as nat)
    }
}

/// A count of percentage units without its sign.
pub open spec fn magnitude(value: i128) -> nat {
    if value < 0 {
        (-value) as nat
    } else {
        value as nat
    }
}

/// A percentage, in percentage units, as text: one decimal place and a
/// percent sign, with a minus sign before anything below zero, also where
/// the digits come to `0.0`.
pub open spec fn percentage_text(value: i128) -> Seq<char> {
    let digits = one_decimal(magnitude(value), PERCENT as nat) + "%"@;
    if value < 0 {
        "-"@ + digits
    } else {
        digits
    }
}

/// A share count as text: `1.5M`, `12.0K`, `999`.
pub fn format_shares(shares: u64) -> (text: String)
    ensures
        text@ == shares_text(shares),
{
    let mut text: String = String::new();
    if shares >= MILLION {
        let nearest: u128 = shown_in_units(shares as u128, 1, 1);
        push_tenths(&mut text, shown_in_units(nearest, MILLION as u128, 10));
        text.append("M");
    } else if shares >= THOUSAND {
        push_tenths(&mut text, shown_in_units(shares as u128, THOUSAND as u128, 10));
        text.append("K");
    } else {
        push_decimal(&mut text, shares as u128);
    }
    text
}

/// An amount of money, in cents, as text: `$1.5B`, `$2.0M`, `$12.5K`,
/// `$999`.
pub fn format_currency(amount: u64) -> (text: String)
    ensures
        text@ == currency_text(amount),
{
    let mut text: String = String::from_str("$");
    if amount >= BILLION * DOLLAR {
        push_tenths(&mut text, shown_in_units(amount as u128, (BILLION * DOLLAR) as u128, 10));
        text.append("B");
    } else if amount >= MILLION * DOLLAR {
        push_tenths(&mut text, shown_in_units(amount as u128, (MILLION * DOLLAR) as u128, 10));
        text.append("M");
    } else if amount >= THOUSAND * DOLLAR {
        push_tenths(&mut text, shown_in_units(amount as u128, (THOUSAND * DOLLAR) as u128, 10));
        text.append("K");
    } else {
        push_decimal(&mut text, shown_in_units(amount as u128, DOLLAR as u128, 1));
    }
    text
}

/// A percentage, in percentage units, as text: `41.7%`, `-8.3%`.
pub fn format_percentage(value: i128) -> (text: String)
    ensures
        text@ == percentage_text(value),
{
    let mut text: String = String::new();
    let size: u128 = if value < 0 {
        text.append("-");
        ((-(value + 1)) as u128) + 1
    } else {
        value as u128
    };
    push_tenths(&mut text, shown_in_units(size, PERCENT as u128, 10));
    text.append("%");
    text
}

} // verus!

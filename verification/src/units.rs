//! Fixed-point units and the arithmetic on them.
//!
//! A percentage is a `u64` count of units of `10^-15` percent, which is
//! fifteen decimal places, as many as double precision holds; money is a
//! `u64` count of cents, a share count a plain `u64`. Every figure computed
//! from them is the floor of an exact quotient; one that does not fit in 64
//! bits is held at `u64::MAX`.

use vstd::prelude::*;

verus! {

/// Percentage units in one percent.
pub const PERCENT: u64 = 1_000_000_000_000_000;

/// Percentage units in the whole: one hundred percent.
pub const WHOLE: u64 = 100_000_000_000_000_000;

/// Money units in one dollar.
pub const DOLLAR: u64 = 100;

/// `x`, held at `u64::MAX` where it is larger.
pub open spec fn saturated(x: int) -> u64
    recommends
        0 <= x,
{
    if x > u64::MAX {
        u64::MAX
    } else {
        x as u64
    }
}

/// The floor of `a * b / d`.
pub open spec fn scaled(a: int, b: int, d: int) -> int
    recommends
        d > 0,
{
    a * b / d
}

/// The sum of two amounts, held at `u64::MAX`.
pub fn add_saturating(a: u64, b: u64) -> (sum: u64)
    ensures
        sum == saturated(a + b),
{
    if a > u64::MAX - b {
        u64::MAX
    } else {
        a + b
    }
}

/// The floor of `a * b / d`, held at `u64::MAX`.
pub fn mul_div(a: u64, b: u64, d: u64) -> (q: u64)
    requires
        d > 0,
    ensures
        q == saturated(scaled(a as int, b as int, d as int)),
{
    assert(a * b <= u64::MAX * u64::MAX) by (nonlinear_arith)
        requires
            a <= u64::MAX,
            b <= u64::MAX,
    ;
    let product: u128 = (a as u128) * (b as u128);
    let wide: u128 = product / (d as u128);
    if wide > u64::MAX as u128 {
        u64::MAX
    } else {
        wide as u64
    }
}

} // verus!

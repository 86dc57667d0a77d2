//! How a quotient is rounded before it is shown.
//!
//! Figures are shown the way double-precision arithmetic shows them, so that
//! a caller who formats the same quotient in floating point prints the same
//! digits. The quotient `n / d` is first rounded to the nearest IEEE 754
//! binary64 value, a 53-bit mantissa times a power of two; that value is
//! then rounded to the decimal places asked for. Both roundings send a tie
//! to the even neighbour. Everything here is integer arithmetic.
//!
//! The quotients that are shown lie far inside the range of binary64, so
//! the model has neither infinities nor subnormal values.

use vstd::prelude::*;
use vstd::arithmetic::power2::{
    lemma2_to64, lemma2_to64_rest, lemma_pow2_adds, lemma_pow2_pos, lemma_pow2_unfold, pow2,
};

verus! {

/// The smallest 53-bit mantissa: two to the power 52.
pub const MANTISSA_MIN: u128 = 0x10_0000_0000_0000;

/// The bound of a 53-bit mantissa: two to the power 53.
pub const MANTISSA_MAX: u128 = 0x20_0000_0000_0000;

/// The integer nearest to `n / d`; of two equally near, the even one.
pub open spec fn round_half_even(n: nat, d: nat) -> nat
    recommends
        d > 0,
{
    let q = n / d;
    let r = n % d;
    if 2 * r > d || (2 * r == d && q % 2 == 1) {
        q + 1
    } else {
        q
    }
}

/// The binary exponent of `n / d`: the `e` with `2^e <= n / d < 2^(e + 1)`,
/// found by halving or doubling the quotient until it lies in `[1, 2)`.
pub open spec fn binary_exponent(n: nat, d: nat) -> int
    recommends
        n > 0,
        d > 0,
    decreases
            (if n < d {
                1int
            } else {
                0int
            }),
            (if n < d {
                d - n
            } else {
                n - d
            }),
{
    if n == 0 || d == 0 {
        0
    } else if n < d {
        binary_exponent(2 * n, d) - 1
    } else if n >= 2 * d {
        binary_exponent(n, 2 * d) + 1
    } else {
        0
    }
}

/// The mantissa of the binary64 value nearest to `n / d`: the quotient in
/// units of `2^(e - 52)`, where `e` is its binary exponent, rounded to an
/// integer.
pub open spec fn binary_mantissa(n: nat, d: nat) -> nat
    recommends
        d > 0,
{
    let e = binary_exponent(n, d);
    if e <= 52 {
        round_half_even(n * pow2((52 - e) as nat), d)
    } else {
        round_half_even(n, d * pow2((e - 52) as nat))
    }
}

/// The binary64 value nearest to `n / d`, counted in units of `1 / unit`
/// and rounded to a whole count.
pub open spec fn in_units(n: nat, d: nat, unit: nat) -> nat
    recommends
        d > 0,
{
    let e = binary_exponent(n, d);
    let m = binary_mantissa(n, d);
    if e >= 52 {
        m * pow2((e - 52) as nat) * unit
    } else {
        round_half_even(m * unit, pow2((52 - e) as nat))
    }
}

/// A quotient that lies in `[2^e, 2^(e + 1))` for an `e` that is not
/// negative has binary exponent `e`.
pub proof fn lemma_exponent_of_large(n: nat, d: nat, e: nat)
    requires
        d > 0,
        d * pow2(e) <= n < d * pow2(e + 1),
    ensures
        binary_exponent(n, d) == e,
    decreases e,
{
    lemma2_to64();
    if e == 0 {
        assert(d * 1 == d && d * 2 == 2 * d);
    } else {
        lemma_pow2_unfold(e);
        lemma_pow2_unfold(e + 1);
        lemma_pow2_pos((e - 1) as nat);
        let p = pow2((e - 1) as nat);
        assert(d * (2 * p) == (2 * d) * p) by (nonlinear_arith);
        assert(d * (2 * pow2(e)) == (2 * d) * pow2(e)) by (nonlinear_arith);
        assert((2 * d) * p >= 2 * d) by (nonlinear_arith)
            requires
                p >= 1,
        ;
        lemma_exponent_of_large(n, 2 * d, (e - 1) as nat);
    }
}

/// A quotient that reaches `[1, 2)` after `j` doublings has binary exponent
/// `-j`.
pub proof fn lemma_exponent_of_small(n: nat, d: nat, j: nat)
    requires
        n > 0,
        d > 0,
        d <= n * pow2(j) < 2 * d,
    ensures
        binary_exponent(n, d) == -(j as int),
    decreases j,
{
    lemma2_to64();
    if j == 0 {
        assert(n * 1 == n);
    } else {
        lemma_pow2_unfold(j);
        lemma_pow2_pos((j - 1) as nat);
        let p = pow2((j - 1) as nat);
        assert(n * (2 * p) == (2 * n) * p) by (nonlinear_arith);
        assert((2 * n) * p >= 2 * n) by (nonlinear_arith)
            requires
                p >= 1,
        ;
        lemma_exponent_of_small(2 * n, d, (j - 1) as nat);
    }
}

/// Where doubling `n` `up` times and `d` `down` times, one of the two counts
/// being nothing, brings the quotient into `[2^52, 2^53)`, the binary
/// exponent of `n / d` is `52 - up + down`.
pub proof fn lemma_exponent_of_normalised(n: nat, d: nat, up: nat, down: nat)
    requires
        n > 0,
        d > 0,
        up == 0 || down == 0,
        d * pow2(down) * pow2(52) <= n * pow2(up) < d * pow2(down) * pow2(53),
    ensures
        binary_exponent(n, d) == 52 - up + down,
{
    lemma2_to64();
    lemma2_to64_rest();
    lemma_pow2_pos(up);
    lemma_pow2_pos(down);
    if up == 0 {
        lemma_pow2_adds(down, 52);
        lemma_pow2_adds(down, 53);
        assert(d * pow2(down) * pow2(52) == d * (pow2(down) * pow2(52))) by (nonlinear_arith);
        assert(d * pow2(down) * pow2(53) == d * (pow2(down) * pow2(53))) by (nonlinear_arith);
        assert(n * 1 == n);
        lemma_exponent_of_large(n, d, down + 52);
    } else if up <= 52 {
        let low = (52 - up) as nat;
        lemma_pow2_adds(low, up);
        lemma_pow2_adds(low + 1, up);
        lemma_pow2_pos(low);
        lemma_pow2_pos(low + 1);
        assert(d * pow2(low) <= n) by (nonlinear_arith)
            requires
                d * (pow2(low) * pow2(up)) <= n * pow2(up),
                pow2(up) > 0,
        ;
        assert(n < d * pow2(low + 1)) by (nonlinear_arith)
            requires
                n * pow2(up) < d * (pow2(low + 1) * pow2(up)),
                pow2(up) > 0,
        ;
        lemma_exponent_of_large(n, d, low);
    } else {
        let j = (up - 52) as nat;
        lemma_pow2_adds(j, 52);
        lemma_pow2_pos(j);
        assert(d * 1 == d);
        assert(d <= n * pow2(j)) by (nonlinear_arith)
            requires
                d * pow2(52) <= n * (pow2(j) * pow2(52)),
                pow2(52) > 0,
        ;
        assert(n * pow2(j) < 2 * d) by (nonlinear_arith)
            requires
                n * (pow2(j) * pow2(52)) < d * pow2(53),
                pow2(53) == 2 * pow2(52),
                pow2(52) > 0,
        ;
        lemma_exponent_of_small(n, d, j);
    }
}

/// The binary exponent is what its name says: `n / d` lies between two to
/// that power and two to the next.
pub proof fn lemma_exponent_brackets(n: nat, d: nat)
    requires
        n > 0,
        d > 0,
    ensures
        binary_exponent(n, d) >= 0 ==> d * pow2(binary_exponent(n, d) as nat) <= n < d * pow2(
            (binary_exponent(n, d) + 1) as nat,
        ),
        binary_exponent(n, d) < 0 ==> d <= n * pow2((-binary_exponent(n, d)) as nat) < 2 * d,
    decreases
            (if n < d {
                1int
            } else {
                0int
            }),
            (if n < d {
                d - n
            } else {
                n - d
            }),
{
    lemma2_to64();
    if n < d {
        let inner = binary_exponent(2 * n, d);
        lemma_exponent_brackets(2 * n, d);
        if inner >= 0 {
            if inner > 0 {
                lemma_pow2_unfold(inner as nat);
                lemma_pow2_pos((inner - 1) as nat);
                assert(d * pow2(inner as nat) >= 2 * d) by (nonlinear_arith)
                    requires
                        pow2(inner as nat) >= 2,
                        d > 0,
                ;
            }
            assert(n * 2 == 2 * n);
        } else {
            let j = (-inner) as nat;
            lemma_pow2_unfold(j + 1);
            assert(n * (2 * pow2(j)) == (2 * n) * pow2(j)) by (nonlinear_arith);
        }
    } else if n >= 2 * d {
        let inner = binary_exponent(n, 2 * d);
        lemma_exponent_brackets(n, 2 * d);
        if inner < 0 {
            let j = (-inner) as nat;
            lemma_pow2_unfold(j);
            lemma_pow2_pos((j - 1) as nat);
            assert(n * pow2(j) >= 2 * n) by (nonlinear_arith)
                requires
                    pow2(j) >= 2,
                    n > 0,
            ;
        }
        lemma_pow2_unfold((inner + 1) as nat);
        lemma_pow2_unfold((inner + 2) as nat);
        assert((2 * d) * pow2(inner as nat) == d * (2 * pow2(inner as nat))) by (nonlinear_arith);
        assert((2 * d) * pow2((inner + 1) as nat) == d * (2 * pow2((inner + 1) as nat)))
            by (nonlinear_arith);
    } else {
        assert(d * 1 == d && d * 2 == 2 * d);
    }
}

/// The mantissa has 53 bits: it lies between two to the power 52 and two
/// to the power 53, the latter where rounding has carried.
pub proof fn lemma_mantissa_has_53_bits(n: nat, d: nat)
    requires
        n > 0,
        d > 0,
    ensures
        pow2(52) <= binary_mantissa(n, d) <= pow2(53),
{
    lemma2_to64();
    lemma2_to64_rest();
    lemma_exponent_brackets(n, d);
    let e = binary_exponent(n, d);
    if e <= 52 {
        let k = (52 - e) as nat;
        let x = n * pow2(k);
        lemma_pow2_pos(k);
        if e >= 0 {
            lemma_pow2_adds(e as nat, k);
            lemma_pow2_adds((e + 1) as nat, k);
            assert(d * pow2(52) <= x) by (nonlinear_arith)
                requires
                    d * pow2(e as nat) <= n,
                    pow2(52) == pow2(e as nat) * pow2(k),
                    x == n * pow2(k),
                    pow2(k) > 0,
            ;
            assert(x < d * pow2(53)) by (nonlinear_arith)
                requires
                    n < d * pow2((e + 1) as nat),
                    pow2(53) == pow2((e + 1) as nat) * pow2(k),
                    x == n * pow2(k),
                    pow2(k) > 0,
            ;
        } else {
            let j = (-e) as nat;
            lemma_pow2_adds(j, 52);
            assert(d * pow2(52) <= x) by (nonlinear_arith)
                requires
                    d <= n * pow2(j),
                    pow2(k) == pow2(j) * pow2(52),
                    x == n * pow2(k),
                    pow2(52) > 0,
            ;
            assert(x < d * pow2(53)) by (nonlinear_arith)
                requires
                    n * pow2(j) < 2 * d,
                    pow2(k) == pow2(j) * pow2(52),
                    pow2(53) == 2 * pow2(52),
                    x == n * pow2(k),
                    pow2(52) > 0,
            ;
        }
        lemma_rounded_quotient_brackets(x, d);
    } else {
        let k = (e - 52) as nat;
        let y = d * pow2(k);
        lemma_pow2_pos(k);
        lemma_pow2_adds(k, 52);
        lemma_pow2_adds(k, 53);
        assert(y > 0) by (nonlinear_arith)
            requires
                y == d * pow2(k),
                d > 0,
                pow2(k) > 0,
        ;
        assert(y * pow2(52) == d * pow2(e as nat)) by (nonlinear_arith)
            requires
                y == d * pow2(k),
                pow2(e as nat) == pow2(k) * pow2(52),
        ;
        assert(y * pow2(53) == d * pow2((e + 1) as nat)) by (nonlinear_arith)
            requires
                y == d * pow2(k),
                pow2((e + 1) as nat) == pow2(k) * pow2(53),
        ;
        lemma_rounded_quotient_brackets(n, y);
    }
}

/// A quotient in `[2^52, 2^53)` rounds to an integer in `[2^52, 2^53]`.
proof fn lemma_rounded_quotient_brackets(x: nat, y: nat)
    requires
        y > 0,
        y * pow2(52) <= x < y * pow2(53),
    ensures
        pow2(52) <= round_half_even(x, y) <= pow2(53),
{
    lemma2_to64_rest();
    let low = pow2(52) as int;
    let high = pow2(53) as int;
    assert(low <= (x as int) / (y as int) < high) by (nonlinear_arith)
        requires
            y > 0,
            y * low <= x < y * high,
    ;
}

/// A whole number below two to the power 53 is a binary64 value: taking it
/// to the nearest one changes nothing.
pub proof fn lemma_small_counts_are_exact(n: nat)
    requires
        n < pow2(53),
    ensures
        in_units(n, 1, 1) == n,
{
    lemma2_to64();
    lemma2_to64_rest();
    if n > 0 {
        lemma_exponent_brackets(n, 1);
        let e = binary_exponent(n, 1);
        // The exponent is not negative, as `n` is at least one ...
        if e < 0 {
            let j = (-e) as nat;
            lemma_pow2_unfold(j);
            lemma_pow2_pos((j - 1) as nat);
            assert(n * pow2(j) >= 2) by (nonlinear_arith)
                requires
                    n >= 1,
                    pow2(j) >= 2,
            ;
        }
        // ... and not above 52, as `n` is below two to the power 53.
        if e > 53 {
            vstd::arithmetic::power2::lemma_pow2_strictly_increases(53, e as nat);
        }
        assert(0 <= e <= 52);
        // So the mantissa is `n` times a power of two, and dividing it by
        // that power leaves no remainder to round.
        let k = (52 - e) as nat;
        lemma_pow2_pos(k);
        let x = n * pow2(k);
        if e == 52 {
            assert(x == n * 1);
        } else {
            vstd::arithmetic::div_mod::lemma_fundamental_div_mod_converse(
                x as int,
                pow2(k) as int,
                n as int,
                0,
            );
        }
    }
}

/// The integer nearest to `n / d`; of two equally near, the even one.
pub fn round_to_even(n: u128, d: u128) -> (q: u128)
    requires
        d > 0,
        n / d < u128::MAX,
    ensures
        q == round_half_even(n as nat, d as nat),
{
    let q: u128 = n / d;
    let r: u128 = n % d;
    if r > d - r || (r == d - r && q % 2 == 1) {
        q + 1
    } else {
        q
    }
}

/// The largest divisor that [`shown_in_units`] takes.
pub const DIVISOR_MAX: u128 = 0xffff_ffff_ffff_ffff;

/// The bound on the quotients that [`shown_in_units`] takes: two to the
/// power 123.
pub const QUOTIENT_BOUND: u128 = 0x800_0000_0000_0000_0000_0000_0000_0000;

/// The binary64 value nearest to `n / d`, counted in units of `1 / unit`
/// and rounded to a whole count, ties to even both times.
///
/// The bounds keep every intermediate product within 128 bits: the divisor
/// within 64 bits, the quotient below `2^123`, and a unit of one or ten.
pub fn shown_in_units(n: u128, d: u128, unit: u128) -> (count: u128)
    requires
        0 < d <= DIVISOR_MAX,
        n / d < QUOTIENT_BOUND,
        unit == 1 || unit == 10,
    ensures
        count == in_units(n as nat, d as nat, unit as nat),
{
    proof {
        lemma2_to64();
        lemma2_to64_rest();
        lemma_pow2_adds(64, 59);
        assert(n < d * pow2(123)) by (nonlinear_arith)
            requires
                d > 0,
                n / d < pow2(123),
        ;
    }
    if n == 0 {
        return 0;
    }
    // Double `n` until the quotient is at least 2^52.
    let mut x: u128 = n;
    let mut scale_up: u128 = 1;
    let ghost mut up: nat = 0;
    while x < d * MANTISSA_MIN
        invariant
            0 < d <= DIVISOR_MAX,
            n > 0,
            x > 0,
            x == n * pow2(up),
            scale_up == pow2(up),
            up > 0 ==> x < d * MANTISSA_MAX,
        decreases
                (if x < d * MANTISSA_MIN {
                    d * MANTISSA_MIN - x
                } else {
                    0
                }),
    {
        proof {
            lemma_pow2_unfold(up + 1);
            assert(n * (2 * pow2(up)) == 2 * (n * pow2(up))) by (nonlinear_arith);
            assert(pow2(up) <= n * pow2(up)) by (nonlinear_arith)
                requires
                    n >= 1,
            ;
        }
        x = x * 2;
        scale_up = scale_up * 2;
        proof {
            up = up + 1;
        }
    }
    // Double `d` until the quotient is below 2^53.
    let mut y: u128 = d;
    let mut scale_down: u128 = 1;
    let ghost mut down: nat = 0;
    while x / MANTISSA_MAX >= y
        invariant
            0 < d <= DIVISOR_MAX,
            y > 0,
            y == d * pow2(down),
            scale_down == pow2(down),
            y * MANTISSA_MIN <= x,
            up > 0 ==> x < d * MANTISSA_MAX,
            up > 0 ==> down == 0,
        decreases x - y,
    {
        proof {
            lemma2_to64();
            if up > 0 {
                assert(d * 1 == d);
            }
            lemma_pow2_unfold(down + 1);
            assert(d * (2 * pow2(down)) == 2 * (d * pow2(down))) by (nonlinear_arith);
            assert(pow2(down) <= d * pow2(down)) by (nonlinear_arith)
                requires
                    d >= 1,
            ;
        }
        y = y * 2;
        scale_down = scale_down * 2;
        proof {
            down = down + 1;
        }
    }
    proof {
        // The quotient has been brought into `[2^52, 2^53)`.
        assert(d * pow2(down) * pow2(52) <= n * pow2(up) < d * pow2(down) * pow2(53));
        lemma_exponent_of_normalised(n as nat, d as nat, up, down);
        assert(binary_exponent(n as nat, d as nat) == 52 - up + down);
    }
    assert(x / y < MANTISSA_MAX) by (nonlinear_arith)
        requires
            y > 0,
            x < y * MANTISSA_MAX,
    ;
    let mantissa: u128 = round_to_even(x, y);
    assert(mantissa == binary_mantissa(n as nat, d as nat));
    if scale_up == 1 {
        proof {
            if up > 0 {
                lemma_pow2_unfold(up);
                lemma_pow2_pos((up - 1) as nat);
            }
            assert(up == 0);
            // The value is `mantissa * 2^down`, and `2^down <= n / (d * 2^52)`.
            assert(scale_down * MANTISSA_MIN < pow2(123)) by (nonlinear_arith)
                requires
                    d * scale_down * MANTISSA_MIN <= n,
                    n < d * pow2(123),
                    d > 0,
            ;
            assert(pow2(123) == pow2(71) * pow2(52)) by {
                lemma_pow2_adds(71, 52);
            }
            assert(scale_down < pow2(71)) by (nonlinear_arith)
                requires
                    scale_down * MANTISSA_MIN < pow2(71) * pow2(52),
                    pow2(52) == MANTISSA_MIN,
            ;
            assert(pow2(71) == 0x80_0000_0000_0000_0000) by {
                lemma_pow2_adds(64, 7);
            }
            assert(mantissa * scale_down <= MANTISSA_MAX * 0x80_0000_0000_0000_0000)
                by (nonlinear_arith)
                requires
                    mantissa <= MANTISSA_MAX,
                    scale_down <= 0x80_0000_0000_0000_0000,
            ;
        }
        mantissa * scale_down * unit
    } else {
        proof {
            lemma_pow2_pos(up);
        }
        let scaled: u128 = mantissa * unit;
        assert(scaled / scale_up <= scaled) by (nonlinear_arith)
            requires
                scale_up > 0,
        ;
        round_to_even(scaled, scale_up)
    }
}

} // verus!

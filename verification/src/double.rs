//! Doubles: the numbers that double-precision arithmetic works with, and how it rounds to them.
//!
//! A double has 53 significant bits. Those that occur here are whole numbers, or whole numbers of
//! some small unit, so that they can be written as such.

use vstd::arithmetic::div_mod::lemma_fundamental_div_mod_converse;
use vstd::arithmetic::power2::{
    lemma2_to64, lemma_pow2_adds, lemma_pow2_pos, lemma_pow2_strictly_increases, lemma_pow2_unfold,
    pow2,
};
use vstd::math::abs;
use vstd::prelude::*;

verus! {

/// The whole number nearest to `n / d`, the even one of two that are equally near.
pub open spec fn nearest(n: nat, d: nat) -> nat {
    let below = n / d;
    let rest = n % d;
    if 2 * rest < d || (2 * rest == d && below % 2 == 0) {
        below
    } else {
        below + 1
    }
}

/// The smallest power of two, from `unit` on, of which `n` holds fewer than `2^53`: the spacing of
/// the doubles around a large `n`.
pub open spec fn spacing(n: nat, unit: nat) -> nat
    decreases n + 1 - unit,
{
    if unit == 0 || n < 0x20_0000_0000_0000 * unit {
        unit
    } else {
        spacing(n, 2 * unit)
    }
}

/// The double nearest to `n / d`, where the doubles around are whole numbers or `n / d` is one: a
/// quotient from `2^52` on, or a whole number.
pub open spec fn rounded(n: nat, d: nat) -> nat {
    nearest(n, spacing(n, d)) * (spacing(n, d) / d)
}

/// The double nearest to a whole number.
pub open spec fn double_of(n: nat) -> nat {
    rounded(n, 1)
}

/// Rounding never turns an order around.
pub proof fn law_rounding_is_monotone(less: nat, more: nat, d: nat)
    requires
        d > 0,
        less <= more,
    ensures
        rounded(less, d) <= rounded(more, d),
{
    let fine = spacing(less, d);
    let coarse = spacing(more, d);
    lemma_spacing(less, d);
    lemma_spacing(more, d);
    lemma_spacing_is_monotone(less, more, d);
    let (p, q) = (nearest(less, fine), nearest(more, coarse));
    let (s, t) = (fine / d, coarse / d);
    if fine == coarse {
        lemma_nearest_is_monotone(less, more, fine);
        assert(p * s <= q * s) by (nonlinear_arith)
            requires
                p <= q,
        ;
    } else {
        lemma_nearest_at_most(less, fine, 0x20_0000_0000_0000);
        lemma_nearest_at_least(more, coarse, 0x10_0000_0000_0000);
        assert(2 * s <= t) by (nonlinear_arith)
            requires
                2 * fine <= coarse,
                fine == d * s,
                coarse == d * t,
                d > 0,
        ;
        assert(p * s <= q * t) by (nonlinear_arith)
            requires
                p <= 0x20_0000_0000_0000,
                q >= 0x10_0000_0000_0000,
                2 * s <= t,
        ;
    }
}

/// Whole numbers up to `2^53` are doubles.
pub proof fn law_small_numbers_are_doubles(n: nat)
    requires
        n <= 0x20_0000_0000_0000,
    ensures
        double_of(n) == n,
{
    if n < 0x20_0000_0000_0000 {
        lemma_nearest_of(n, 1, n, 0);
        assert(n * (1nat / 1nat) == n);
    } else {
        assert(spacing(n, 2) == 2);
        assert(spacing(n, 1) == 2);
        lemma_nearest_of(n, 2, 0x10_0000_0000_0000, 0);
        assert(2nat / 1nat == 2);
    }
}

/// Rounding moves a number by one part in `2^53` at most.
pub proof fn law_rounding_errs_little(n: nat, d: nat)
    requires
        d > 0,
        d == 1 || n >= 0x10_0000_0000_0000 * d,
    ensures
        0x20_0000_0000_0000 * (rounded(n, d) * d - n) <= n,
        0x20_0000_0000_0000 * (n - rounded(n, d) * d) <= n,
{
    let step = spacing(n, d);
    lemma_spacing(n, d);
    let count = nearest(n, step);
    let times = step / d;
    lemma_nearest_is_near(n, step);
    assert((count * times) * d == count * step) by (nonlinear_arith)
        requires
            step == d * times,
    ;
    if step == d && d == 1 {
        assert(count * step == count);
    }
}

/// A number of at most 53 bits, times a power of two, is a double.
pub proof fn law_scaled_numbers_are_doubles(n: nat, exponent: nat, d: nat)
    requires
        d > 0,
        n < 0x20_0000_0000_0000,
    ensures
        rounded(d * (n * pow2(exponent)), d) == n * pow2(exponent),
{
    let power = pow2(exponent);
    lemma_pow2_pos(exponent);
    assert(d * (n * power) < 0x20_0000_0000_0000 * (d * power)) by (nonlinear_arith)
        requires
            n < 0x20_0000_0000_0000,
            d > 0,
            power > 0,
    ;
    lemma_rounds_down(n, exponent, d, 0);
}

/// A number that lies less than half a step above `n * 2^exponent` is rounded down to that.
pub(crate) proof fn lemma_rounds_down(n: nat, exponent: nat, d: nat, rest: nat)
    requires
        d > 0,
        d * (n * pow2(exponent)) + rest < 0x20_0000_0000_0000 * (d * pow2(exponent)),
        2 * rest < spacing(d * (n * pow2(exponent)) + rest, d) || rest == 0,
    ensures
        rounded(d * (n * pow2(exponent)) + rest, d) == n * pow2(exponent),
{
    let power = pow2(exponent);
    let value = d * (n * power) + rest;
    let step = spacing(value, d);
    let times = step / d;
    lemma_spacing(value, d);
    let pieces = lemma_spacing_divides(value, d, exponent);
    assert(d * (n * power) == step * (n * pieces)) by (nonlinear_arith)
        requires
            d * power == step * pieces,
    ;
    lemma_nearest_of(value, step, n * pieces, rest);
    assert(power == times * pieces) by (nonlinear_arith)
        requires
            d * power == step * pieces,
            step == d * times,
            d > 0,
    ;
    assert((n * pieces) * times == n * power) by (nonlinear_arith)
        requires
            power == times * pieces,
    ;
}

/// The doubles around a number are as far apart as it needs, and no farther.
pub(crate) proof fn lemma_spacing(n: nat, unit: nat)
    requires
        unit > 0,
    ensures
        spacing(n, unit) >= unit,
        n < 0x20_0000_0000_0000 * spacing(n, unit),
        spacing(n, unit) == unit || n >= 0x10_0000_0000_0000 * spacing(n, unit),
        spacing(n, unit) == unit * (spacing(n, unit) / unit),
    decreases n + 1 - unit,
{
    let step = spacing(n, unit);
    if n < 0x20_0000_0000_0000 * unit {
        lemma_fundamental_div_mod_converse(step as int, unit as int, 1, 0);
        assert(unit * (step / unit) == unit) by (nonlinear_arith)
            requires
                step / unit == 1,
        ;
    } else {
        lemma_spacing(n, 2 * unit);
        let times = step / (2 * unit);
        assert(step == (2 * times) * unit) by (nonlinear_arith)
            requires
                step == (2 * unit) * times,
        ;
        lemma_fundamental_div_mod_converse(step as int, unit as int, 2 * times as int, 0);
        assert(step == unit * (2 * times)) by (nonlinear_arith)
            requires
                step == (2 * times) * unit,
        ;
    }
}

/// Around larger numbers doubles are as far apart, or at least twice as far.
proof fn lemma_spacing_is_monotone(less: nat, more: nat, unit: nat)
    requires
        unit > 0,
        less <= more,
    ensures
        spacing(less, unit) == spacing(more, unit) || 2 * spacing(less, unit) <= spacing(
            more,
            unit,
        ),
    decreases less + 1 - unit,
{
    if less < 0x20_0000_0000_0000 * unit {
        if more >= 0x20_0000_0000_0000 * unit {
            lemma_spacing(more, 2 * unit);
        }
    } else {
        lemma_spacing_is_monotone(less, more, 2 * unit);
    }
}

/// The spacing divides any power of two, in units, that is large enough. Says how often.
proof fn lemma_spacing_divides(n: nat, unit: nat, exponent: nat) -> (times: nat)
    requires
        unit > 0,
        n < 0x20_0000_0000_0000 * (unit * pow2(exponent)),
    ensures
        unit * pow2(exponent) == spacing(n, unit) * times,
    decreases exponent,
{
    lemma2_to64();
    if n < 0x20_0000_0000_0000 * unit {
        pow2(exponent)
    } else {
        if exponent == 0 {
            assert(unit * pow2(exponent) == unit) by (nonlinear_arith)
                requires
                    pow2(exponent) == 1,
            ;
        }
        lemma_pow2_unfold(exponent);
        let half = pow2((exponent - 1) as nat);
        assert(unit * (2 * half) == (2 * unit) * half) by (nonlinear_arith);
        lemma_spacing_divides(n, 2 * unit, (exponent - 1) as nat)
    }
}

/// Less than half a divisor above a multiple of it, the quotient is rounded down.
pub(crate) proof fn lemma_nearest_of(n: nat, d: nat, quotient: nat, rest: nat)
    requires
        d > 0,
        n == d * quotient + rest,
        2 * rest < d || rest == 0,
    ensures
        nearest(n, d) == quotient,
{
    assert(n == quotient * d + rest) by (nonlinear_arith)
        requires
            n == d * quotient + rest,
    ;
    lemma_fundamental_div_mod_converse(n as int, d as int, quotient as int, rest as int);
}

/// A quotient is rounded by half a divisor at most.
pub(crate) proof fn lemma_nearest_is_near(n: nat, d: nat)
    requires
        d > 0,
    ensures
        2 * (nearest(n, d) * d) <= 2 * n + d,
        2 * n <= 2 * (nearest(n, d) * d) + d,
{
    let below = n as int / d as int;
    let rest = n as int % d as int;
    assert(n == below * d + rest && 0 <= rest < d) by (nonlinear_arith)
        requires
            d > 0,
            below == n as int / d as int,
            rest == n as int % d as int,
    ;
    assert((below + 1) * d == below * d + d) by (nonlinear_arith);
}

/// A larger number is not rounded to a smaller quotient.
proof fn lemma_nearest_is_monotone(less: nat, more: nat, d: nat)
    requires
        d > 0,
        less <= more,
    ensures
        nearest(less, d) <= nearest(more, d),
{
    let (a, b) = (less as int / d as int, more as int / d as int);
    let (r, s) = (less as int % d as int, more as int % d as int);
    assert(a < b || (a == b && r <= s)) by (nonlinear_arith)
        requires
            d > 0,
            less <= more,
            a == less as int / d as int,
            b == more as int / d as int,
            r == less as int % d as int,
            s == more as int % d as int,
    ;
}

/// Rounding stays at or above any whole number that the quotient reaches.
proof fn lemma_nearest_at_least(n: nat, d: nat, limit: nat)
    requires
        d > 0,
        n >= d * limit,
    ensures
        nearest(n, d) >= limit,
{
    assert(n as int / d as int >= limit) by (nonlinear_arith)
        requires
            d > 0,
            n >= d * limit,
    ;
}

/// Rounding stays below any whole number that the quotient does not exceed, and is exact where the
/// division is.
pub(crate) proof fn lemma_nearest_at_most(n: nat, d: nat, limit: nat)
    requires
        d > 0,
        n <= d * limit,
    ensures
        nearest(n, d) <= limit,
        n == d * limit ==> nearest(n, d) == limit,
{
    let below = n as int / d as int;
    let rest = n as int % d as int;
    assert(below <= limit) by (nonlinear_arith)
        requires
            n <= d * limit,
            d > 0,
            below == n as int / d as int,
    ;
    assert(n == d * below + rest) by (nonlinear_arith)
        requires
            d > 0,
            below == n as int / d as int,
            rest == n as int % d as int,
    ;
    if below == limit {
        assert(rest == 0);
    } else {
        assert(n < d * limit) by (nonlinear_arith)
            requires
                n == d * below + rest,
                0 <= rest < d,
                below + 1 <= limit,
        ;
    }
}

/// No whole number is nearer to a quotient than the one that it is rounded to, and where another is
/// equally near, that other one is odd.
pub proof fn law_no_whole_number_is_nearer(n: nat, d: nat, other: nat)
    requires
        d > 0,
    ensures
        abs(nearest(n, d) * d - n) <= abs(other * d - n),
        other != nearest(n, d) && abs(nearest(n, d) * d - n) == abs(other * d - n) ==> nearest(n, d)
            % 2 == 0,
{
    let count = nearest(n, d);
    let below = n as int / d as int;
    let rest = n as int % d as int;
    assert(n == below * d + rest && 0 <= rest < d) by (nonlinear_arith)
        requires
            d > 0,
            below == n as int / d as int,
            rest == n as int % d as int,
    ;
    assert((below + 1) * d == below * d + d) by (nonlinear_arith);
    if other > count {
        assert(other * d >= count * d + d) by (nonlinear_arith)
            requires
                other >= count + 1,
        ;
    } else if other < count {
        assert(other * d + d <= count * d) by (nonlinear_arith)
            requires
                other + 1 <= count,
        ;
    }
}

/// Rounding ends at a double: at most 53 bits, times a power of two. Says which.
pub proof fn law_rounding_ends_at_a_double(n: nat, d: nat) -> (parts: (nat, nat))
    requires
        d > 0,
    ensures
        parts.0 <= 0x20_0000_0000_0000,
        rounded(n, d) == parts.0 * pow2(parts.1),
        parts.1 > 0 ==> n >= 0x10_0000_0000_0000 * (d * pow2(parts.1)),
        2 * abs(rounded(n, d) * d - n) <= d * pow2(parts.1),
        2 * abs(rounded(n, d) * d - n) == d * pow2(parts.1) ==> parts.0 % 2 == 0,
{
    let exponent = lemma_spacing_is_a_power(n, d);
    let power = pow2(exponent);
    let step = spacing(n, d);
    lemma_spacing(n, d);
    lemma_times_power(n, d, exponent);
    let count = nearest(n, step);
    lemma_nearest_at_most(n, step, 0x20_0000_0000_0000);
    lemma_nearest_is_near(n, step);
    assert((count * power) * d == count * step) by (nonlinear_arith)
        requires
            step == d * power,
    ;
    if 2 * abs(count * step - n) == step {
        let other = if count * step > n {
            (count - 1) as nat
        } else {
            count + 1
        };
        assert((count - 1) * step == count * step - step) by (nonlinear_arith);
        assert((count + 1) * step == count * step + step) by (nonlinear_arith);
        if count == 0 {
            assert(count * step == 0) by (nonlinear_arith)
                requires
                    count == 0,
            ;
        }
        law_no_whole_number_is_nearer(n, step, other);
    }
    lemma2_to64();
    if exponent > 0 {
        lemma_pow2_unfold(exponent);
        lemma_pow2_pos((exponent - 1) as nat);
        assert(step > d) by (nonlinear_arith)
            requires
                step == d * power,
                power >= 2,
                d > 0,
        ;
    }
    (count, exponent)
}

/// No double is nearer to a quotient than the one that it is rounded to.
pub proof fn law_no_double_is_nearer(n: nat, d: nat, bits: nat, exponent: nat)
    requires
        d > 0,
        bits <= 0x20_0000_0000_0000,
    ensures
        abs(rounded(n, d) * d - n) <= abs((bits * pow2(exponent)) * d - n),
{
    let scale = lemma_spacing_is_a_power(n, d);
    let power = pow2(scale);
    let step = spacing(n, d);
    lemma_spacing(n, d);
    lemma_times_power(n, d, scale);
    let count = nearest(n, step);
    assert((count * power) * d == count * step) by (nonlinear_arith)
        requires
            step == d * power,
    ;
    if exponent >= scale {
        let more = pow2((exponent - scale) as nat);
        lemma_pow2_adds((exponent - scale) as nat, scale);
        law_no_whole_number_is_nearer(n, step, bits * more);
        assert((bits * (more * power)) * d == (bits * more) * step) by (nonlinear_arith)
            requires
                step == d * power,
        ;
    } else {
        let small = pow2(exponent);
        lemma_pow2_unfold(scale);
        lemma_pow2_pos((scale - 1) as nat);
        if exponent < scale - 1 {
            lemma_pow2_strictly_increases(exponent, (scale - 1) as nat);
        }
        law_no_whole_number_is_nearer(n, step, 0x10_0000_0000_0000);
        assert(step > d) by (nonlinear_arith)
            requires
                step == d * power,
                power >= 2,
                d > 0,
        ;
        assert((bits * small) * d <= 0x10_0000_0000_0000 * step) by (nonlinear_arith)
            requires
                bits <= 0x20_0000_0000_0000,
                2 * small <= power,
                step == d * power,
        ;
    }
}

/// A whole number is rounded to a double, of at most 53 bits times a power of two, and no double is
/// nearer to it. Says which double it is.
pub proof fn law_whole_numbers_round_to_doubles(n: nat, bits: nat, exponent: nat) -> (parts: (
    nat,
    nat,
))
    requires
        bits <= 0x20_0000_0000_0000,
    ensures
        parts.0 <= 0x20_0000_0000_0000,
        double_of(n) == parts.0 * pow2(parts.1),
        abs(double_of(n) - n) <= abs(bits * pow2(exponent) - n),
        parts.1 > 0 ==> n >= 0x10_0000_0000_0000 * pow2(parts.1),
        2 * abs(double_of(n) - n) <= pow2(parts.1),
        2 * abs(double_of(n) - n) == pow2(parts.1) ==> parts.0 % 2 == 0,
{
    let power = pow2(exponent);
    let parts = law_rounding_ends_at_a_double(n, 1);
    law_no_double_is_nearer(n, 1, bits, exponent);
    assert(double_of(n) * 1 == double_of(n));
    assert((bits * power) * 1 == bits * power);
    assert(1 * pow2(parts.1) == pow2(parts.1));
    parts
}

/// The spacing is a power of two, in units. Says which.
pub(crate) proof fn lemma_spacing_is_a_power(n: nat, unit: nat) -> (exponent: nat)
    requires
        unit > 0,
    ensures
        spacing(n, unit) == unit * pow2(exponent),
    decreases n + 1 - unit,
{
    lemma2_to64();
    if n < 0x20_0000_0000_0000 * unit {
        assert(unit * pow2(0) == unit) by (nonlinear_arith)
            requires
                pow2(0) == 1,
        ;
        0
    } else {
        let rest = lemma_spacing_is_a_power(n, 2 * unit);
        lemma_pow2_unfold(rest + 1);
        let half = pow2(rest);
        assert((2 * unit) * half == unit * (2 * half)) by (nonlinear_arith);
        rest + 1
    }
}

/// The spacing, divided by the unit again.
proof fn lemma_times_power(n: nat, unit: nat, exponent: nat)
    requires
        unit > 0,
        spacing(n, unit) == unit * pow2(exponent),
    ensures
        spacing(n, unit) / unit == pow2(exponent),
{
    let power = pow2(exponent);
    assert(unit * power == power * unit) by (nonlinear_arith);
    lemma_fundamental_div_mod_converse(
        spacing(n, unit) as int,
        unit as int,
        power as int,
        0,
    );
}

} // verus!

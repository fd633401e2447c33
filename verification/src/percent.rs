//! Usage ratios in percent, the way double-precision arithmetic prints them.
//!
//! Whoever reads the numbers of a snapshot and works out a percentage in double precision gets the
//! digits that messages and headers show. The ratio is rounded to the nearest double, the
//! hundredfold of that once more, and the result to the decimal places that are shown. Ties go to
//! the even side each time.

use vstd::math::abs;
use vstd::prelude::*;
use vstd::string::StringExecFns;

use crate::ratio::Ratio;

verus! {

/// The power of two by which `n / d` is scaled up to a significand of 53 bits, the number of bits
/// that a double has.
pub open spec fn scale_up(n: nat, d: nat) -> nat
    decreases 0x20_0000_0000_0000 * d - n,
{
    if n == 0 || n >= 0x10_0000_0000_0000 * d {
        1
    } else {
        2 * scale_up(2 * n, d)
    }
}

/// The double nearest to a ratio, as a multiple of one over [`scale_up`].
pub open spec fn ratio_double(ratio: Ratio) -> nat {
    crate::double::nearest(
        ratio.numer as nat * scale_up(ratio.numer as nat, ratio.denom as nat),
        ratio.denom as nat,
    )
}

/// The double nearest to the hundredfold of [`ratio_double`], on the same scale.
pub open spec fn percent_double(ratio: Ratio) -> nat {
    crate::double::double_of(100 * ratio_double(ratio))
}

/// The percentage in whole percent (`parts` one) or tenths of a percent (`parts` ten).
pub open spec fn percent_in(ratio: Ratio, parts: nat) -> nat {
    crate::double::nearest(
        parts * percent_double(ratio),
        scale_up(ratio.numer as nat, ratio.denom as nat),
    )
}

/// A decimal digit.
pub open spec fn digit(value: nat) -> char {
    if value == 0 {
        '0'
    } else if value == 1 {
        '1'
    } else if value == 2 {
        '2'
    } else if value == 3 {
        '3'
    } else if value == 4 {
        '4'
    } else if value == 5 {
        '5'
    } else if value == 6 {
        '6'
    } else if value == 7 {
        '7'
    } else if value == 8 {
        '8'
    } else {
        '9'
    }
}

/// A whole number in decimal digits.
pub open spec fn decimal(value: nat) -> Seq<char>
    decreases value,
{
    if value < 10 {
        seq![digit(value)]
    } else {
        decimal(value / 10).push(digit(value % 10))
    }
}

/// The percentage without decimal places.
pub open spec fn whole_text(ratio: Ratio) -> Seq<char> {
    decimal(percent_in(ratio, 1))
}

/// The percentage with one decimal place.
pub open spec fn tenths_text(ratio: Ratio) -> Seq<char> {
    decimal(percent_in(ratio, 10) / 10).push('.').push(digit(percent_in(ratio, 10) % 10))
}

/// The whole number nearest to `n / d`, the even one of two that are equally near.
fn divide_nearest(n: u128, d: u128) -> (quotient: u128)
    requires
        0 < d,
        d <= u128::MAX / 2,
        n < u128::MAX,
    ensures
        quotient == crate::double::nearest(n as nat, d as nat),
{
    let below = n / d;
    let rest = n % d;
    if 2 * rest < d || (2 * rest == d && below % 2 == 0) {
        below
    } else {
        assert(below <= n) by (nonlinear_arith)
            requires
                below == n / d,
                d > 0,
        ;
        below + 1
    }
}

/// The percentage in whole percent (`parts` one) or tenths of a percent (`parts` ten).
fn percent_parts(ratio: Ratio, parts: u128) -> (value: u128)
    requires
        0 < ratio.denom,
        ratio.numer <= ratio.denom,
        parts == 1 || parts == 10,
    ensures
        value == percent_in(ratio, parts as nat),
{
    let denom = ratio.denom as u128;
    let bound: u128 = 0x10_0000_0000_0000 * denom;
    let ghost numer = ratio.numer as nat;
    let mut n = ratio.numer as u128;
    let mut scale: u128 = 1;
    while n != 0 && n < bound
        invariant
            denom == ratio.denom,
            0 < denom,
            bound == 0x10_0000_0000_0000 * denom,
            numer == ratio.numer,
            n == numer * scale,
            n < 2 * bound,
            1 <= scale,
            scale == 1 || scale <= n,
            scale_up(numer, denom as nat) == scale * scale_up(n as nat, denom as nat),
        decreases 2 * bound - n,
    {
        proof {
            let rest = scale_up((2 * n) as nat, denom as nat);
            assert(scale_up(n as nat, denom as nat) == 2 * rest);
            assert(scale * (2 * rest) == (2 * scale) * rest) by (nonlinear_arith);
            assert(numer * (2 * scale) == 2 * (numer * scale)) by (nonlinear_arith);
            assert(scale <= numer * scale) by (nonlinear_arith)
                requires
                    n == numer * scale,
                    n != 0,
            ;
        }
        n = 2 * n;
        scale = 2 * scale;
    }
    let significand = divide_nearest(n, denom);
    assert(significand <= 0x20_0000_0000_0000) by {
        assert(n / denom < 0x20_0000_0000_0000) by (nonlinear_arith)
            requires
                n < 0x20_0000_0000_0000 * denom,
                denom > 0,
        ;
    }
    let hundredfold = 100 * significand;
    let mut unit: u128 = 1;
    while hundredfold >= 0x20_0000_0000_0000 * unit
        invariant
            hundredfold <= 100 * 0x20_0000_0000_0000,
            1 <= unit,
            unit == 1 || unit <= hundredfold,
            crate::double::spacing(hundredfold as nat, 1) == crate::double::spacing(
                hundredfold as nat,
                unit as nat,
            ),
        decreases hundredfold + 1 - unit,
    {
        unit = 2 * unit;
    }
    let rounded = divide_nearest(hundredfold, unit);
    assert(rounded * unit <= hundredfold + unit) by {
        let below = hundredfold as int / unit as int;
        assert(rounded <= below + 1);
        assert(rounded * unit <= hundredfold + unit) by (nonlinear_arith)
            requires
                rounded <= below + 1,
                below == hundredfold as int / unit as int,
                unit >= 1,
                hundredfold >= 0,
        ;
    }
    let percent = rounded * unit;
    assert(numer * scale_up(numer, denom as nat) == n) by {
        assert(scale_up(n as nat, denom as nat) == 1);
        assert(scale * 1 == scale);
    }
    divide_nearest(parts * percent, scale)
}

/// A decimal digit.
fn digit_text(value: u128) -> (text: &'static str)
    requires
        value < 10,
    ensures
        text@ == seq![digit(value as nat)],
{
    proof {
        reveal_strlit("0");
        reveal_strlit("1");
        reveal_strlit("2");
        reveal_strlit("3");
        reveal_strlit("4");
        reveal_strlit("5");
        reveal_strlit("6");
        reveal_strlit("7");
        reveal_strlit("8");
        reveal_strlit("9");
    }
    if value == 0 {
        "0"
    } else if value == 1 {
        "1"
    } else if value == 2 {
        "2"
    } else if value == 3 {
        "3"
    } else if value == 4 {
        "4"
    } else if value == 5 {
        "5"
    } else if value == 6 {
        "6"
    } else if value == 7 {
        "7"
    } else if value == 8 {
        "8"
    } else {
        "9"
    }
}

/// A whole number in decimal digits.
fn decimal_text(value: u128) -> (text: String)
    ensures
        text@ == decimal(value as nat),
    decreases value,
{
    let mut text = if value < 10 {
        String::new()
    } else {
        decimal_text(value / 10)
    };
    text.append(digit_text(value % 10));
    assert(text@ =~= decimal(value as nat));
    text
}

/// A usage ratio in percent, without decimal places.
pub fn whole_percent(ratio: Ratio) -> (text: String)
    requires
        0 < ratio.denom,
        ratio.numer <= ratio.denom,
    ensures
        text@ == whole_text(ratio),
{
    decimal_text(percent_parts(ratio, 1))
}

/// A usage ratio in percent, with one decimal place.
pub fn percent_with_tenths(ratio: Ratio) -> (text: String)
    requires
        0 < ratio.denom,
        ratio.numer <= ratio.denom,
    ensures
        text@ == tenths_text(ratio),
{
    let tenths = percent_parts(ratio, 10);
    let mut text = decimal_text(tenths / 10);
    text.append(".");
    text.append(digit_text(tenths % 10));
    proof {
        reveal_strlit(".");
        assert(text@ =~= tenths_text(ratio));
    }
    text
}

/// A percentage lies between zero and a hundred: it is zero for an untouched budget, and a hundred
/// for one that is used up.
pub proof fn law_percent_is_in_range(ratio: Ratio, parts: nat)
    requires
        0 < ratio.denom,
        ratio.numer <= ratio.denom,
        parts > 0,
    ensures
        percent_in(ratio, parts) <= 100 * parts,
        ratio.numer == 0 ==> percent_in(ratio, parts) == 0,
        ratio.numer == ratio.denom ==> percent_in(ratio, parts) == 100 * parts,
{
    let n = ratio.numer as nat;
    let d = ratio.denom as nat;
    let scale = scale_up(n, d);
    let significand = ratio_double(ratio);
    let hundredfold = 100 * significand;
    let unit = crate::double::spacing(hundredfold, 1);
    if n == 0 {
        assert(n * scale == 0) by (nonlinear_arith)
            requires
                n == 0,
        ;
        crate::double::lemma_nearest_at_most(0, d, 0);
        crate::double::lemma_nearest_at_most(0, unit, 0);
        crate::double::lemma_nearest_at_most(0, scale, 0);
    } else {
        lemma_scale_up(n, d);
        lemma_scale_is_divisible(n, d);
        crate::double::lemma_nearest_at_most(n * scale, d, 0x20_0000_0000_0000);
        lemma_spacing_divides(hundredfold);
        assert(n * scale <= d * scale) by (nonlinear_arith)
            requires
                n <= d,
        ;
        crate::double::lemma_nearest_at_most(n * scale, d, scale);
        let pieces = 128nat / unit;
        let units = 100 * ((scale / 128) * pieces);
        assert(unit * units == 100 * scale) by (nonlinear_arith)
            requires
                units == 100 * ((scale / 128) * pieces),
                unit * pieces == 128,
                scale == 128 * (scale / 128),
        ;
        crate::double::lemma_nearest_at_most(hundredfold, unit, units);
        let percent = percent_double(ratio);
        let count = crate::double::nearest(hundredfold, unit);
        assert(count * unit <= units * unit) by (nonlinear_arith)
            requires
                count <= units,
        ;
        assert(units * unit == unit * units) by (nonlinear_arith);
        assert(parts * percent <= scale * (100 * parts)) by (nonlinear_arith)
            requires
                percent <= 100 * scale,
        ;
        crate::double::lemma_nearest_at_most(parts * percent, scale, 100 * parts);
        if n == d {
            assert(percent == 100 * scale);
            assert(parts * percent == scale * (100 * parts)) by (nonlinear_arith)
                requires
                    percent == 100 * scale,
            ;
        }
    }
}

/// Scaling up ends below the next power of two.
proof fn lemma_scale_up(n: nat, d: nat)
    requires
        0 < n < 0x20_0000_0000_0000 * d,
    ensures
        n * scale_up(n, d) <= d * 0x20_0000_0000_0000,
        scale_up(n, d) > 0,
    decreases 0x20_0000_0000_0000 * d - n,
{
    if n < 0x10_0000_0000_0000 * d {
        lemma_scale_up(2 * n, d);
        let rest = scale_up(2 * n, d);
        assert(scale_up(n, d) == 2 * rest);
        assert(n * (2 * rest) == (2 * n) * rest) by (nonlinear_arith);
    } else {
        assert(scale_up(n, d) == 1);
        assert(n * 1 == n);
    }
}

/// A proper fraction is doubled seven times at least.
proof fn lemma_scale_is_divisible(n: nat, d: nat)
    requires
        0 < n <= d,
    ensures
        scale_up(n, d) == 128 * (scale_up(n, d) / 128),
{
    let rest = scale_up(128 * n, d);
    assert(scale_up(n, d) == 2 * scale_up(2 * n, d));
    assert(scale_up(2 * n, d) == 2 * scale_up(4 * n, d));
    assert(scale_up(4 * n, d) == 2 * scale_up(8 * n, d));
    assert(scale_up(8 * n, d) == 2 * scale_up(16 * n, d));
    assert(scale_up(16 * n, d) == 2 * scale_up(32 * n, d));
    assert(scale_up(32 * n, d) == 2 * scale_up(64 * n, d));
    assert(scale_up(64 * n, d) == 2 * rest);
}

/// Up to the hundredfold of a significand, doubles are at most 128 apart.
proof fn lemma_spacing_divides(n: nat)
    requires
        n <= 100 * 0x20_0000_0000_0000,
    ensures
        crate::double::spacing(n, 1) > 0,
        crate::double::spacing(n, 1) * (128nat / crate::double::spacing(n, 1)) == 128,
{
    reveal_with_fuel(crate::double::spacing, 9);
    let unit = crate::double::spacing(n, 1);
    assert(unit == 1 || unit == 2 || unit == 4 || unit == 8 || unit == 16 || unit == 32 || unit
        == 64 || unit == 128);
}

/// A percentage is off by half a unit of the last place that is shown, and what three roundings of
/// doubles add to that, at most.
pub proof fn law_percent_is_accurate(ratio: Ratio, parts: nat)
    requires
        0 < ratio.denom,
        ratio.numer <= ratio.denom,
    ensures
        0x4000_0000_0000 * abs(percent_in(ratio, parts) * ratio.denom - 100 * parts * ratio.numer)
            <= (0x2000_0000_0000 + 2 * parts) * ratio.denom,
{
    let n = ratio.numer as nat;
    let d = ratio.denom as nat;
    let scale = scale_up(n, d);
    let r = ratio_double(ratio);
    let p = percent_double(ratio);
    let v = percent_in(ratio, parts);
    lemma_scale_is_a_power(n, d);
    crate::double::lemma_nearest_is_near(n * scale, d);
    crate::double::law_rounding_errs_little(100 * r, 1);
    crate::double::lemma_nearest_is_near(parts * p, scale);
    assert(p * 1 == p);
    if n == 0 {
        assert(n * scale == 0) by (nonlinear_arith)
            requires
                n == 0,
        ;
        crate::double::lemma_nearest_at_most(0, d, 0);
        assert(parts * p == 0) by (nonlinear_arith)
            requires
                p == 0,
        ;
        crate::double::lemma_nearest_at_most(0, scale, 0);
        assert(v * d == 0 && 100 * parts * n == 0) by (nonlinear_arith)
            requires
                v == 0,
                n == 0,
        ;
        assert((0x2000_0000_0000 + 2 * parts) * d >= 0) by (nonlinear_arith);
    } else {
        assert(n * scale <= d * scale) by (nonlinear_arith)
            requires
                n <= d,
        ;
        crate::double::lemma_nearest_at_most(n * scale, d, scale);
        assert(scale >= 0x10_0000_0000_0000) by (nonlinear_arith)
            requires
                n * scale >= 0x10_0000_0000_0000 * d,
                n <= d,
                d > 0,
        ;
        lemma_errors_add_up(
            n as int,
            d as int,
            scale as int,
            r as int,
            p as int,
            v as int,
            parts as int,
        );
    }
}

/// The arithmetic of [`law_percent_is_accurate`].
proof fn lemma_errors_add_up(n: int, d: int, scale: int, r: int, p: int, v: int, parts: int)
    requires
        0 < d,
        0 <= parts,
        0x10_0000_0000_0000 <= scale,
        0 <= r <= scale,
        2 * abs(r * d - n * scale) <= d,
        0x20_0000_0000_0000 * abs(p - 100 * r) <= 100 * r,
        2 * abs(v * scale - parts * p) <= scale,
    ensures
        0x4000_0000_0000 * abs(v * d - 100 * parts * n) <= (0x2000_0000_0000 + 2 * parts) * d,
{
    let e1 = v * scale - parts * p;
    let e2 = p - 100 * r;
    let e3 = r * d - n * scale;
    let error = v * d - 100 * parts * n;
    assert(d * e1 == (v * d) * scale - (parts * d) * p) by (nonlinear_arith)
        requires
            e1 == v * scale - parts * p,
    ;
    assert(parts * d * e2 == (parts * d) * p - 100 * ((parts * d) * r)) by (nonlinear_arith)
        requires
            e2 == p - 100 * r,
    ;
    assert(100 * parts * e3 == 100 * ((parts * d) * r) - 100 * ((parts * n) * scale))
        by (nonlinear_arith)
        requires
            e3 == r * d - n * scale,
    ;
    assert(error * scale == (v * d) * scale - 100 * ((parts * n) * scale)) by (nonlinear_arith)
        requires
            error == v * d - 100 * parts * n,
    ;
    let ds = d * scale;
    assert(2 * (d * e1) <= ds && -2 * (d * e1) <= ds) by (nonlinear_arith)
        requires
            2 * e1 <= scale,
            -2 * e1 <= scale,
            ds == d * scale,
            0 < d,
    ;
    let pds = parts * ds;
    assert(0x20_0000_0000_0000 * (parts * d * e2) <= 100 * pds && -0x20_0000_0000_0000 * (parts * d
        * e2) <= 100 * pds) by (nonlinear_arith)
        requires
            0x20_0000_0000_0000 * e2 <= 100 * scale,
            -0x20_0000_0000_0000 * e2 <= 100 * scale,
            pds == parts * ds,
            ds == d * scale,
            0 < d,
            0 <= parts,
    ;
    assert(0x20_0000_0000_0000 * (100 * parts * e3) <= 100 * pds && -0x20_0000_0000_0000 * (100
        * parts * e3) <= 100 * pds) by (nonlinear_arith)
        requires
            2 * e3 <= d,
            -2 * e3 <= d,
            0x10_0000_0000_0000 <= scale,
            pds == parts * ds,
            ds == d * scale,
            0 < d,
            0 <= parts,
    {
        assert(0x10_0000_0000_0000 * d <= ds);
        assert(0x20_0000_0000_0000 * e3 <= ds);
        assert(-0x20_0000_0000_0000 * e3 <= ds);
        assert(parts * (0x20_0000_0000_0000 * e3) <= parts * ds);
        assert(parts * (-0x20_0000_0000_0000 * e3) <= parts * ds);
    }
    assert(pds >= 0) by (nonlinear_arith)
        requires
            pds == parts * ds,
            ds == d * scale,
            0 < d,
            0 <= parts,
            0 < scale,
    ;
    let bound = (0x2000_0000_0000 + 2 * parts) * d;
    assert(bound * scale == 0x2000_0000_0000 * ds + 2 * pds) by (nonlinear_arith)
        requires
            bound == (0x2000_0000_0000 + 2 * parts) * d,
            pds == parts * ds,
            ds == d * scale,
    ;
    assert(0x4000_0000_0000 * error <= bound && -0x4000_0000_0000 * error <= bound)
        by (nonlinear_arith)
        requires
            0x4000_0000_0000 * (error * scale) <= bound * scale,
            -0x4000_0000_0000 * (error * scale) <= bound * scale,
            0 < scale,
    ;
}

/// A percentage is worked out in doubles. The ratio is scaled by a power of two to 53 bits, and no
/// other number of 53 bits is nearer to it; no double is nearer to the hundredfold of that; and no
/// number of the parts shown is nearer to what comes out. Of two that are equally near, the even one
/// is taken.
pub proof fn law_percent_is_worked_out_in_doubles(
    ratio: Ratio,
    parts: nat,
    other: nat,
    bits: nat,
    exponent: nat,
)
    requires
        0 < ratio.denom,
        0 < ratio.numer <= ratio.denom,
        bits <= 0x20_0000_0000_0000,
    ensures
        ({
            let scale = scale_up(ratio.numer as nat, ratio.denom as nat);
            let scaled = ratio.numer * scale;
            let rounded = ratio_double(ratio);
            let percent = percent_double(ratio);
            let shown = percent_in(ratio, parts);
            &&& exists|power: nat| scale == #[trigger] vstd::arithmetic::power2::pow2(power)
            &&& 0x10_0000_0000_0000 * ratio.denom <= scaled < 0x20_0000_0000_0000 * ratio.denom
            &&& abs(rounded * ratio.denom - scaled) <= abs(other * ratio.denom - scaled)
            &&& other != rounded && abs(rounded * ratio.denom - scaled) == abs(
                other * ratio.denom - scaled,
            ) ==> rounded % 2 == 0
            &&& percent == crate::double::double_of(100 * rounded)
            &&& abs(percent - 100 * rounded) <= abs(
                bits * vstd::arithmetic::power2::pow2(exponent) - 100 * rounded,
            )
            &&& abs(shown * scale - parts * percent) <= abs(other * scale - parts * percent)
            &&& other != shown && abs(shown * scale - parts * percent) == abs(
                other * scale - parts * percent,
            ) ==> shown % 2 == 0
        }),
{
    let n = ratio.numer as nat;
    let d = ratio.denom as nat;
    let scale = scale_up(n, d);
    let percent = percent_double(ratio);
    lemma_scale_is_a_power(n, d);
    crate::double::law_no_whole_number_is_nearer(n * scale, d, other);
    crate::double::law_no_double_is_nearer(100 * ratio_double(ratio), 1, bits, exponent);
    crate::double::law_no_whole_number_is_nearer(parts * percent, scale, other);
    let power = vstd::arithmetic::power2::pow2(exponent);
    assert(percent * 1 == percent);
    assert((bits * power) * 1 == bits * power);
}

/// Scaling up is doubling until 53 bits are reached.
proof fn lemma_scale_is_a_power(n: nat, d: nat)
    requires
        n < 0x20_0000_0000_0000 * d,
    ensures
        exists|power: nat| scale_up(n, d) == #[trigger] vstd::arithmetic::power2::pow2(power),
        scale_up(n, d) > 0,
        n > 0 ==> 0x10_0000_0000_0000 * d <= n * scale_up(n, d) < 0x20_0000_0000_0000 * d,
    decreases 0x20_0000_0000_0000 * d - n,
{
    vstd::arithmetic::power2::lemma2_to64();
    if n > 0 && n < 0x10_0000_0000_0000 * d {
        lemma_scale_is_a_power(2 * n, d);
        let rest = scale_up(2 * n, d);
        let power = choose|power: nat| rest == #[trigger] vstd::arithmetic::power2::pow2(power);
        vstd::arithmetic::power2::lemma_pow2_unfold(power + 1);
        assert(scale_up(n, d) == vstd::arithmetic::power2::pow2(power + 1));
        assert(n * (2 * rest) == (2 * n) * rest) by (nonlinear_arith);
    } else {
        assert(scale_up(n, d) == vstd::arithmetic::power2::pow2(0));
        assert(n * 1 == n);
    }
}

/// The decimal digits of a number: its last digit stands last, after those of the rest.
pub proof fn law_decimals_end_in_the_last_digit(rest: nat, last: nat)
    requires
        last < 10,
    ensures
        decimal(last) == seq![('0' as int + last) as char],
        rest > 0 ==> decimal(10 * rest + last) == decimal(rest).push(('0' as int + last) as char),
{
    assert(digit(last) == ('0' as int + last) as char);
    assert((10 * rest + last) / 10 == rest && (10 * rest + last) % 10 == last);
}

/// A percentage reads as its decimal digits, with a point before the tenths.
pub proof fn law_percentages_read_as_decimals(ratio: Ratio, whole: nat, tenth: nat)
    ensures
        whole_text(ratio) == decimal(percent_in(ratio, 1)),
        tenth < 10 && percent_in(ratio, 10) == 10 * whole + tenth ==> tenths_text(ratio) == decimal(
            whole,
        ) + seq!['.'] + decimal(tenth),
{
    if tenth < 10 && percent_in(ratio, 10) == 10 * whole + tenth {
        assert((10 * whole + tenth) / 10 == whole && (10 * whole + tenth) % 10 == tenth);
        assert(tenths_text(ratio) =~= decimal(whole) + seq!['.'] + decimal(tenth));
    }
}

} // verus!

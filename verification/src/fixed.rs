//! Saturating fixed-point arithmetic with six decimal places.

use vstd::prelude::*;

verus! {

/// The raw value that stands for the number one.
pub const ONE: i64 = 1_000_000;

/// The raw value that stands for the number two.
pub const TWO: i64 = 2_000_000;

/// The representable value nearest to `x`.
pub open spec fn saturate(x: int) -> i64 {
    if x > i64::MAX {
        i64::MAX
    } else if x < i64::MIN {
        i64::MIN
    } else {
        x as i64
    }
}

/// The quotient of `n` by `d`, rounded toward zero.
pub open spec fn quotient(n: int, d: int) -> int
    recommends
        d != 0,
{
    if d > 0 {
        if n >= 0 {
            n / d
        } else {
            -((-n) / d)
        }
    } else {
        if n >= 0 {
            -(n / (-d))
        } else {
            (-n) / (-d)
        }
    }
}

/// The magnitude of `x`.
pub open spec fn magnitude(x: int) -> int {
    if x < 0 {
        -x
    } else {
        x
    }
}

/// Rounding toward zero never grows a magnitude and keeps the sign.
pub proof fn lemma_quotient_bounds(n: int, d: int)
    requires
        d != 0,
    ensures
        magnitude(quotient(n, d)) <= magnitude(n),
        n >= 0 && d > 0 ==> quotient(n, d) >= 0,
        n <= 0 && d > 0 ==> quotient(n, d) <= 0,
        n >= 0 && d < 0 ==> quotient(n, d) <= 0,
        n <= 0 && d < 0 ==> quotient(n, d) >= 0,
        magnitude(quotient(n, d)) * magnitude(d) <= magnitude(n),
        magnitude(n) < (magnitude(quotient(n, d)) + 1) * magnitude(d),
{
    let m = magnitude(n);
    let e = magnitude(d);
    assert(0 <= m / e <= m && (m / e) * e <= m < (m / e + 1) * e) by (nonlinear_arith)
        requires
            m >= 0,
            e > 0,
    ;
}

/// Brings a wide intermediate result back into range.
fn clamp_wide(x: i128) -> (r: i64)
    ensures
        r == saturate(x as int),
{
    if x > i64::MAX as i128 {
        i64::MAX
    } else if x < i64::MIN as i128 {
        i64::MIN
    } else {
        x as i64
    }
}

/// Divides two wide intermediate results, rounding toward zero.
fn quotient_wide(n: i128, d: i128) -> (r: i128)
    requires
        d != 0,
        i128::MIN < n,
        i128::MIN < d,
    ensures
        r == quotient(n as int, d as int),
{
    proof {
        lemma_quotient_bounds(n as int, d as int);
    }
    if d > 0 {
        if n >= 0 {
            n / d
        } else {
            -((-n) / d)
        }
    } else {
        if n >= 0 {
            -(n / (-d))
        } else {
            (-n) / (-d)
        }
    }
}

/// The saturated sum of two numbers.
pub open spec fn spec_plus(a: i64, b: i64) -> i64 {
    saturate(a + b)
}

/// Adds two numbers, saturating at the bounds.
#[verifier::when_used_as_spec(spec_plus)]
pub fn plus(a: i64, b: i64) -> (r: i64)
    ensures
        r == spec_plus(a, b),
{
    clamp_wide(a as i128 + b as i128)
}

/// The saturated difference of two numbers.
pub open spec fn spec_minus(a: i64, b: i64) -> i64 {
    saturate(a - b)
}

/// Subtracts `b` from `a`, saturating at the bounds.
#[verifier::when_used_as_spec(spec_minus)]
pub fn minus(a: i64, b: i64) -> (r: i64)
    ensures
        r == spec_minus(a, b),
{
    clamp_wide(a as i128 - b as i128)
}

/// The saturated negation of a number.
pub open spec fn spec_negate(a: i64) -> i64 {
    saturate(-a)
}

/// Negates a number; the most negative value maps to the most positive one.
#[verifier::when_used_as_spec(spec_negate)]
pub fn negate(a: i64) -> (r: i64)
    ensures
        r == spec_negate(a),
{
    clamp_wide(-(a as i128))
}

/// The saturated magnitude of a number.
pub open spec fn spec_abs(a: i64) -> i64 {
    saturate(magnitude(a as int))
}

/// The magnitude of a number; the most negative value maps to the most
/// positive one.
#[verifier::when_used_as_spec(spec_abs)]
pub fn abs(a: i64) -> (r: i64)
    ensures
        r == spec_abs(a),
{
    if a < 0 {
        clamp_wide(-(a as i128))
    } else {
        a
    }
}

/// The fixed-point product: the exact product divided by `ONE`, rounded
/// toward zero, then saturated.
pub open spec fn spec_times(a: i64, b: i64) -> i64 {
    saturate(quotient(a * b, ONE as int))
}

/// A product of two bounded factors is bounded by the product of the bounds.
proof fn lemma_product_fits(a: int, b: int, la: int, lb: int)
    by (nonlinear_arith)
    requires
        -la <= a <= la,
        -lb <= b <= lb,
    ensures
        -(la * lb) <= a * b <= la * lb,
{
}

/// Multiplies two fixed-point numbers.
#[verifier::when_used_as_spec(spec_times)]
pub fn times(a: i64, b: i64) -> (r: i64)
    ensures
        r == spec_times(a, b),
{
    proof {
        lemma_product_fits(a as int, b as int, 0x8000_0000_0000_0000, 0x8000_0000_0000_0000);
        assert(0x8000_0000_0000_0000int * 0x8000_0000_0000_0000int
            == 0x4000_0000_0000_0000_0000_0000_0000_0000int) by (nonlinear_arith);
    }
    let product: i128 = (a as i128) * (b as i128);
    clamp_wide(quotient_wide(product, ONE as i128))
}

/// The fixed-point quotient: the numerator scaled by `ONE`, divided by the
/// denominator and rounded toward zero, then saturated. Division by zero
/// saturates in the direction of the numerator and leaves zero at zero.
pub open spec fn spec_over(a: i64, b: i64) -> i64 {
    if b == 0 {
        if a > 0 {
            i64::MAX
        } else if a < 0 {
            i64::MIN
        } else {
            0
        }
    } else {
        saturate(quotient(a * ONE, b as int))
    }
}

/// Divides one fixed-point number by another.
#[verifier::when_used_as_spec(spec_over)]
pub fn over(a: i64, b: i64) -> (r: i64)
    ensures
        r == spec_over(a, b),
{
    if b == 0 {
        if a > 0 {
            i64::MAX
        } else if a < 0 {
            i64::MIN
        } else {
            0
        }
    } else {
        let scaled: i128 = (a as i128) * 1_000_000i128;
        clamp_wide(quotient_wide(scaled, b as i128))
    }
}

/// The point reached from `a` toward `b` after the fraction `t` of the way:
/// `a + (b - a) * t`, where the product is rounded toward zero.
pub open spec fn spec_lerp(a: i64, b: i64, t: i64) -> i64 {
    saturate(a + quotient((b - a) * t, ONE as int))
}

/// Interpolates linearly from `a` toward `b`. A fraction outside the unit
/// interval extrapolates.
#[verifier::when_used_as_spec(spec_lerp)]
pub fn lerp(a: i64, b: i64, t: i64) -> (r: i64)
    ensures
        r == spec_lerp(a, b, t),
{
    let span: i128 = (b as i128) - (a as i128);
    proof {
        lemma_product_fits(span as int, t as int, 0xffff_ffff_ffff_ffff, 0x8000_0000_0000_0000);
        assert(0xffff_ffff_ffff_ffffint * 0x8000_0000_0000_0000int
            == 0x7fff_ffff_ffff_ffff_8000_0000_0000_0000int) by (nonlinear_arith);
        lemma_quotient_bounds(span * t, ONE as int);
    }
    let product: i128 = span * (t as i128);
    let step: i128 = quotient_wide(product, ONE as i128);
    clamp_wide((a as i128) + step)
}

/// The quotient of two durations as a fixed-point number: `elapsed` divided
/// by `span`, rounded down, then saturated. A zero span gives zero when
/// nothing has elapsed, and the largest number otherwise.
pub open spec fn spec_ratio(elapsed: u64, span: u64) -> i64 {
    if span == 0 {
        if elapsed == 0 {
            0
        } else {
            i64::MAX
        }
    } else {
        saturate((elapsed * ONE) / (span as int))
    }
}

/// Divides one duration by another.
#[verifier::when_used_as_spec(spec_ratio)]
pub fn ratio(elapsed: u64, span: u64) -> (r: i64)
    ensures
        r == spec_ratio(elapsed, span),
        r >= 0,
{
    if span == 0 {
        if elapsed == 0 {
            0
        } else {
            i64::MAX
        }
    } else {
        let scaled: u128 = (elapsed as u128) * 1_000_000u128;
        let q: u128 = scaled / (span as u128);
        if q > i64::MAX as u128 {
            i64::MAX
        } else {
            q as i64
        }
    }
}

/// The fraction of the way an eased value moves in one frame: the ratio of
/// the frame time to the easing time, capped at `ONE`.
pub open spec fn spec_easing_rate(elapsed: u64, easing: u64) -> i64 {
    if spec_ratio(elapsed, easing) < ONE {
        spec_ratio(elapsed, easing)
    } else {
        ONE
    }
}

/// Computes the capped easing fraction for one frame.
#[verifier::when_used_as_spec(spec_easing_rate)]
pub fn easing_rate(elapsed: u64, easing: u64) -> (r: i64)
    ensures
        r == spec_easing_rate(elapsed, easing),
        0 <= r <= ONE,
{
    let raw: i64 = ratio(elapsed, easing);
    if raw < ONE {
        raw
    } else {
        ONE
    }
}

/// The fixed-point number that stands for the whole number `n`, saturated.
pub open spec fn spec_from_whole(n: i64) -> i64 {
    saturate(n * ONE)
}

/// Converts a whole number to fixed point.
#[verifier::when_used_as_spec(spec_from_whole)]
pub fn from_whole(n: i64) -> (r: i64)
    ensures
        r == spec_from_whole(n),
{
    clamp_wide((n as i128) * 1_000_000i128)
}

/// The whole number nearest to `a`; a tie goes away from zero.
pub open spec fn spec_round(a: i64) -> i64 {
    if a >= 0 {
        ((a + ONE / 2) / ONE as int) as i64
    } else {
        (-((-a + ONE / 2) / ONE as int)) as i64
    }
}

/// Rounds a fixed-point number to the nearest whole number.
#[verifier::when_used_as_spec(spec_round)]
pub fn round(a: i64) -> (r: i64)
    ensures
        r == spec_round(a),
{
    if a >= 0 {
        (((a as i128) + 500_000i128) / 1_000_000i128) as i64
    } else {
        let m: i128 = -(a as i128);
        (-((m + 500_000i128) / 1_000_000i128)) as i64
    }
}

/// Half of `a`, rounded toward zero.
pub open spec fn spec_half(a: i64) -> i64 {
    quotient(a as int, 2) as i64
}

/// Halves a number.
#[verifier::when_used_as_spec(spec_half)]
pub fn half(a: i64) -> (r: i64)
    ensures
        r == spec_half(a),
{
    if a >= 0 {
        a / 2
    } else {
        (-((-(a as i128)) / 2i128)) as i64
    }
}

/// The 32-bit value nearest to `x`.
pub open spec fn saturate_i32(x: int) -> i32 {
    if x > i32::MAX {
        i32::MAX
    } else if x < i32::MIN {
        i32::MIN
    } else {
        x as i32
    }
}

/// The largest whole number not above half of `a`.
pub open spec fn spec_floor_half(a: i64) -> i64 {
    (a as int / (2 * ONE)) as i64
}

/// Rounds half of a fixed-point number down to a whole number.
#[verifier::when_used_as_spec(spec_floor_half)]
pub fn floor_half(a: i64) -> (r: i64)
    ensures
        r == spec_floor_half(a),
        r as int == a as int / (2 * ONE),
{
    if a >= 0 {
        a / 2_000_000i64
    } else {
        let m: i128 = -(a as i128);
        let q: i128 = (m + 1_999_999i128) / 2_000_000i128;
        (-q) as i64
    }
}

/// The duration reached from `a` toward `b` after the fraction `t` of the
/// way. A fraction below zero counts as zero, one above `ONE` as `ONE`; the
/// step is rounded down, so the result never passes `b`.
pub open spec fn spec_lerp_span(a: u64, b: u64, t: i64) -> u64 {
    if t <= 0 {
        a
    } else if t >= ONE {
        b
    } else if b >= a {
        (a + ((b - a) * t) / (ONE as int)) as u64
    } else {
        (a - ((a - b) * t) / (ONE as int)) as u64
    }
}

/// Interpolates from one duration toward another.
#[verifier::when_used_as_spec(spec_lerp_span)]
pub fn lerp_span(a: u64, b: u64, t: i64) -> (r: u64)
    ensures
        r == spec_lerp_span(a, b, t),
        a <= b ==> a <= r <= b,
        b <= a ==> b <= r <= a,
{
    if t <= 0 {
        a
    } else if t >= ONE {
        b
    } else if b >= a {
        let span: u128 = (b - a) as u128;
        proof {
            assert(0 <= span * t <= span * 1_000_000) by (nonlinear_arith)
                requires
                    0 <= t <= 1_000_000,
                    span >= 0,
            ;
        }
        let step: u128 = (span * (t as u128)) / 1_000_000u128;
        a + (step as u64)
    } else {
        let span: u128 = (a - b) as u128;
        proof {
            assert(0 <= span * t <= span * 1_000_000) by (nonlinear_arith)
                requires
                    0 <= t <= 1_000_000,
                    span >= 0,
            ;
        }
        let step: u128 = (span * (t as u128)) / 1_000_000u128;
        a - (step as u64)
    }
}

/// The fixed-point number that stands for a duration, saturated.
pub open spec fn spec_from_span(span: u64) -> i64 {
    saturate(span as int)
}

/// Converts a duration to a signed fixed-point number.
#[verifier::when_used_as_spec(spec_from_span)]
pub fn from_span(span: u64) -> (r: i64)
    ensures
        r == spec_from_span(span),
{
    if span > i64::MAX as u64 {
        i64::MAX
    } else {
        span as i64
    }
}

/// An interpolation by a fraction in the unit interval lands between its end
/// points, on the first at zero and on the second at `ONE`.
pub proof fn lemma_lerp_between(a: i64, b: i64, t: i64)
    requires
        0 <= t <= ONE,
    ensures
        a <= b ==> a <= spec_lerp(a, b, t) <= b,
        b <= a ==> b <= spec_lerp(a, b, t) <= a,
        t == 0 ==> spec_lerp(a, b, t) == a,
        t == ONE ==> spec_lerp(a, b, t) == b,
{
    let span = b - a;
    let product = span * t;
    lemma_quotient_bounds(product, ONE as int);
    assert(magnitude(product) <= magnitude(span) * ONE && (span >= 0 ==> product >= 0) && (span
        <= 0 ==> product <= 0) && (t == 0 ==> product == 0) && (t == ONE ==> product == span
        * ONE)) by (nonlinear_arith)
        requires
            product == span * t,
            0 <= t <= ONE,
    ;
    let q = quotient(product, ONE as int);
    assert(magnitude(q) <= magnitude(span)) by (nonlinear_arith)
        requires
            magnitude(q) * ONE <= magnitude(product),
            magnitude(product) <= magnitude(span) * ONE,
            magnitude(q) >= 0,
    ;
}

} // verus!

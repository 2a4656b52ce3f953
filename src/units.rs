//! Fixed-point units shared by the whole simulation.
//!
//! * lengths are in thousandths of a pixel (`PX` per pixel);
//! * times are in microseconds (`SECOND` per second);
//! * velocities are in thousandths of a pixel per second;
//! * ratios (jump power, shield power, interpolation factors) are in
//!   millionths (`RATIO_ONE` is 1.0);
//! * movement intents and sprite scales are in thousandths (`UNIT` is 1.0).
use vstd::prelude::*;

verus! {

/// Thousandths of a pixel in one pixel.
pub const PX: i64 = 1000;

/// Microseconds in one second.
pub const SECOND: i64 = 1_000_000;

/// The ratio 1.0, in millionths.
pub const RATIO_ONE: i64 = 1_000_000;

/// The value 1.0 of an intent axis or a scale, in thousandths.
pub const UNIT: i64 = 1000;

/// Bound on the magnitude of any coordinate of level geometry or of the view.
pub const COORD_LIMIT: i64 = 1_000_000_000_000;

/// Bound on the magnitude of any coordinate of an object's local rectangle.
pub const LOCAL_LIMIT: i64 = 1_000_000_000;

/// Bound on the magnitude of any object position: the edge of the world.
pub const POS_LIMIT: i64 = 2_000_000_000_000;

/// Bound on the magnitude of any world-space coordinate that takes part in
/// a collision test.
pub const SPAN_LIMIT: i64 = 4_000_000_000_000;

/// Bound on the magnitude of any velocity component.
pub const VEL_LIMIT: i64 = 1_000_000_000;

/// Longest simulation step, in microseconds (1/15 s). Within it the
/// exponential approach of the horizontal velocity cannot overshoot.
pub const MAX_STEP: i64 = 66_666;

/// Division of `a` by a positive `d`, rounded toward zero.
pub open spec fn trunc_div(a: int, d: int) -> int
    recommends
        d > 0,
{
    if a >= 0 {
        a / d
    } else {
        -((-a) / d)
    }
}

/// `a * num / den`, rounded toward zero.
pub open spec fn scaled(a: int, num: int, den: int) -> int {
    trunc_div(a * num, den)
}

/// `v` held to `[lo, hi]`.
pub open spec fn clamp_spec(v: int, lo: int, hi: int) -> int {
    if v < lo {
        lo
    } else if v > hi {
        hi
    } else {
        v
    }
}

/// A truncated quotient lies between zero and the dividend.
pub proof fn lemma_trunc_div_bounds(a: int, d: int)
    requires
        d > 0,
    ensures
        a >= 0 ==> 0 <= trunc_div(a, d) <= a,
        a <= 0 ==> a <= trunc_div(a, d) <= 0,
{
    if a >= 0 {
        assert(0 <= a / d <= a) by (nonlinear_arith)
            requires
                a >= 0,
                d > 0,
        ;
    } else {
        assert(0 <= (-a) / d <= -a) by (nonlinear_arith)
            requires
                -a >= 0,
                d > 0,
        ;
    }
}

/// Truncated division is monotone in the dividend.
pub proof fn lemma_trunc_div_monotone(a: int, b: int, d: int)
    requires
        d > 0,
        a <= b,
    ensures
        trunc_div(a, d) <= trunc_div(b, d),
{
    if a >= 0 {
        assert(a / d <= b / d) by (nonlinear_arith)
            requires
                0 <= a <= b,
                d > 0,
        ;
    } else if b >= 0 {
        lemma_trunc_div_bounds(a, d);
        lemma_trunc_div_bounds(b, d);
    } else {
        assert((-b) / d <= (-a) / d) by (nonlinear_arith)
            requires
                0 <= -b <= -a,
                d > 0,
        ;
    }
}

/// The value `t` millionths of the way from `a` to `b`, the step rounded
/// toward zero.
pub open spec fn toward(a: int, b: int, t: int) -> int {
    a + scaled(b - a, t, RATIO_ONE as int)
}

/// A step of at most the whole way stays between its two ends, and a step
/// whose exact length is at least one unit moves.
pub proof fn lemma_toward_between(a: int, b: int, t: int)
    requires
        0 <= t <= RATIO_ONE,
    ensures
        a <= b ==> a <= toward(a, b, t) <= b,
        b <= a ==> b <= toward(a, b, t) <= a,
        (b - a) * t >= RATIO_ONE ==> toward(a, b, t) > a,
        (a - b) * t >= RATIO_ONE ==> toward(a, b, t) < a,
{
    let d = b - a;
    let k = RATIO_ONE as int;
    assert((d * k) / k == d) by (nonlinear_arith)
        requires
            k > 0,
    ;
    assert(((-d) * k) / k == -d) by (nonlinear_arith)
        requires
            k > 0,
    ;
    if d >= 0 {
        assert(0 <= d * t <= d * k) by (nonlinear_arith)
            requires
                d >= 0,
                0 <= t <= k,
        ;
        lemma_trunc_div_monotone(0, d * t, k);
        lemma_trunc_div_monotone(d * t, d * k, k);
        if d * t >= k {
            lemma_trunc_div_monotone(k, d * t, k);
        }
        assert((a - b) * t <= 0) by (nonlinear_arith)
            requires
                b - a >= 0,
                t >= 0,
        ;
    } else {
        assert(d * k <= d * t <= 0) by (nonlinear_arith)
            requires
                d < 0,
                0 <= t <= k,
        ;
        assert(-(d * k) == (-d) * k) by (nonlinear_arith);
        lemma_trunc_div_monotone(d * k, d * t, k);
        lemma_trunc_div_monotone(d * t, 0, k);
        assert((b - a) * t <= 0) by (nonlinear_arith)
            requires
                b - a < 0,
                t >= 0,
        ;
        if (a - b) * t >= k {
            assert(d * t <= -k) by (nonlinear_arith)
                requires
                    (a - b) * t >= k,
                    d == b - a,
            ;
            lemma_trunc_div_monotone(d * t, -k, k);
            assert(trunc_div(-k, k) == -1);
        }
    }
}

/// `a * num / den` rounded toward zero, for a product that fits in `i64`.
pub fn mul_div(a: i64, num: i64, den: i64) -> (r: i64)
    requires
        den > 0,
        num >= 0,
        -0x4000_0000_0000_0000 <= a * num <= 0x4000_0000_0000_0000,
    ensures
        r == scaled(a as int, num as int, den as int),
{
    let p: i64 = a * num;
    if p >= 0 {
        p / den
    } else {
        let q: i64 = (-p) / den;
        -q
    }
}

/// `v` held to `[lo, hi]`.
pub fn clamp(v: i64, lo: i64, hi: i64) -> (r: i64)
    requires
        lo <= hi,
    ensures
        r == clamp_spec(v as int, lo as int, hi as int),
        lo <= r <= hi,
{
    if v < lo {
        lo
    } else if v > hi {
        hi
    } else {
        v
    }
}

} // verus!

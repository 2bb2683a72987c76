//! Fixed-point numbers. Every continuous quantity of the game (seconds,
//! world units, degrees) is held as an `i64` count of millionths.
use vstd::prelude::*;

verus! {

/// Steps per whole unit: one second is `SCALE` microseconds.
pub const SCALE: i64 = 1_000_000;

/// Largest magnitude a quantity takes; arithmetic saturates here.
pub const LIMIT: i64 = 1_125_899_906_842_624;

/// `x` lies in the representable range `[-LIMIT, LIMIT]`.
pub open spec fn in_range(x: int) -> bool {
    -LIMIT <= x <= LIMIT
}

/// `x` pushed into the representable range.
pub open spec fn sat(x: int) -> int {
    if x > LIMIT {
        LIMIT as int
    } else if x < -LIMIT {
        -LIMIT
    } else {
        x
    }
}

/// Division by a positive `d` that rounds toward zero.
pub open spec fn trunc_div(x: int, d: int) -> int {
    if x >= 0 {
        x / d
    } else {
        -((-x) / d)
    }
}

/// Product of two fixed-point numbers.
pub open spec fn mul_spec(a: int, b: int) -> int {
    sat(trunc_div(a * b, SCALE as int))
}

/// `v` clamped to `[-max, max]`: the lower bound is applied first, then the
/// upper one, so a negative `max` yields `max`.
pub open spec fn clamp_abs_spec(v: int, max: int) -> int {
    let lo = if v < -max { -max } else { v };
    if max < lo { max } else { lo }
}

/// The sign of `v` as a direction: negative numbers give -1, zero and
/// positive numbers give 1.
pub open spec fn signum_spec(v: int) -> int {
    if v < 0 { -1 } else { 1 }
}

pub open spec fn abs_spec(v: int) -> int {
    if v < 0 { -v } else { v }
}

/// Saturating sum.
pub fn sat_add(a: i64, b: i64) -> (r: i64)
    requires
        in_range(a as int),
        in_range(b as int),
    ensures
        r == sat(a + b),
        in_range(r as int),
{
    let s = a + b;
    if s > LIMIT {
        LIMIT
    } else if s < -LIMIT {
        -LIMIT
    } else {
        s
    }
}

/// Saturating difference.
pub fn sat_sub(a: i64, b: i64) -> (r: i64)
    requires
        in_range(a as int),
        in_range(b as int),
    ensures
        r == sat(a - b),
        in_range(r as int),
{
    let s = a - b;
    if s > LIMIT {
        LIMIT
    } else if s < -LIMIT {
        -LIMIT
    } else {
        s
    }
}

/// The product of two representable numbers fits in an `i128`.
proof fn lemma_product_bound(a: int, b: int)
    requires
        in_range(a),
        in_range(b),
    ensures
        -1_267_650_600_228_229_401_496_703_205_376 <= a * b <= 1_267_650_600_228_229_401_496_703_205_376,
{
    let l = LIMIT as int;
    assert(l * l == 1_267_650_600_228_229_401_496_703_205_376);
    if a >= 0 && b >= 0 {
        assert(a * b <= l * l) by (nonlinear_arith) requires 0 <= a <= l, 0 <= b <= l;
        assert(0 <= a * b) by (nonlinear_arith) requires 0 <= a, 0 <= b;
    } else if a < 0 && b < 0 {
        assert((-a) * (-b) <= l * l) by (nonlinear_arith) requires 0 <= -a <= l, 0 <= -b <= l;
        assert(a * b == (-a) * (-b)) by (nonlinear_arith);
        assert(0 <= a * b) by (nonlinear_arith) requires a < 0, b < 0;
    } else if a < 0 {
        assert((-a) * b <= l * l) by (nonlinear_arith) requires 0 <= -a <= l, 0 <= b <= l;
        assert(a * b == -((-a) * b)) by (nonlinear_arith);
        assert(a * b <= 0) by (nonlinear_arith) requires a < 0, b >= 0;
    } else {
        assert(a * (-b) <= l * l) by (nonlinear_arith) requires 0 <= a <= l, 0 <= -b <= l;
        assert(a * b == -(a * (-b))) by (nonlinear_arith);
        assert(a * b <= 0) by (nonlinear_arith) requires a >= 0, b < 0;
    }
}

/// Saturating fixed-point product, rounded toward zero.
pub fn fx_mul(a: i64, b: i64) -> (r: i64)
    requires
        in_range(a as int),
        in_range(b as int),
    ensures
        r == mul_spec(a as int, b as int),
        in_range(r as int),
{
    proof {
        lemma_product_bound(a as int, b as int);
    }
    let p: i128 = (a as i128) * (b as i128);
    let q: i128 = if p >= 0 {
        p / (SCALE as i128)
    } else {
        let n: i128 = -p;
        -(n / (SCALE as i128))
    };
    if q > LIMIT as i128 {
        LIMIT
    } else if q < -(LIMIT as i128) {
        -LIMIT
    } else {
        q as i64
    }
}

/// `v` clamped to `[-max, max]` (see `clamp_abs_spec`).
pub fn clamp_abs(v: i64, max: i64) -> (r: i64)
    requires
        in_range(v as int),
        in_range(max as int),
    ensures
        r == clamp_abs_spec(v as int, max as int),
        in_range(r as int),
{
    let lo = if v < -max { -max } else { v };
    if max < lo { max } else { lo }
}

} // verus!

//! Fixed-point sine and cosine over headings in scaled degrees, using
//! Bhaskara I's rational sine approximation (exact integer arithmetic,
//! worst-case error below 0.2% of full scale).

use vstd::prelude::*;

use crate::fixed::{mod_euclid, SCALE};

verus! {

/// 90 degrees in fixed point.
pub const DEG90: i64 = 324_000;

/// 180 degrees in fixed point.
pub const DEG180: i64 = 648_000;

/// A full turn in fixed point; headings are normalized into `[0, DEG360)`.
pub const DEG360: i64 = 1_296_000;

/// Bhaskara I's approximation of `sin(x degrees)` for `0 <= x <= 180`,
/// in fixed point: `4 x (180 - x) / (40500 - x (180 - x))` with every
/// literal scaled by `SCALE`.
pub open spec fn spec_half_sine(x: int) -> int {
    (4 * SCALE * x * (DEG180 - x)) / (40500 * SCALE * SCALE - x * (DEG180 - x))
}

/// Fixed-point sine of a normalized heading: the approximation on
/// `[0, 180)` degrees, its negation on `[180, 360)`.
pub open spec fn spec_sin_fx(d: int) -> int {
    if d < DEG180 {
        spec_half_sine(d)
    } else {
        -spec_half_sine(d - DEG180)
    }
}

/// Fixed-point cosine of a normalized heading, as the sine shifted a
/// quarter turn.
pub open spec fn spec_cos_fx(d: int) -> int {
    spec_sin_fx((d + DEG90) % (DEG360 as int))
}

/// The product `x * (DEG180 - x)` peaks at the quarter turn and never
/// exceeds `8100 * SCALE * SCALE`.
proof fn lemma_half_sine_product_bounds(x: int)
    requires
        0 <= x <= DEG180,
    ensures
        0 <= x * (DEG180 - x) <= 104_976_000_000,
{
    assert(0 <= x * (DEG180 - x) <= 104_976_000_000) by (nonlinear_arith)
        requires
            0 <= x <= 648_000,
    ;
}

/// The approximation stays within `[0, SCALE]` on its half-turn domain.
pub proof fn lemma_half_sine_bounds(x: int)
    requires
        0 <= x <= DEG180,
    ensures
        0 <= spec_half_sine(x) <= SCALE,
{
    let p = x * (DEG180 - x);
    lemma_half_sine_product_bounds(x);
    assert(4 * SCALE * x * (DEG180 - x) == 14_400 * p) by (nonlinear_arith)
        requires
            p == x * (DEG180 - x),
    ;
    let num = 14_400 * p;
    let den = 524_880_000_000 - p;
    vstd::arithmetic::div_mod::lemma_div_pos_is_pos(num, den);
    vstd::arithmetic::div_mod::lemma_div_is_ordered(num, SCALE * den, den);
    vstd::arithmetic::div_mod::lemma_div_multiples_vanish(SCALE as int, den);
}

/// Sine stays within `[-SCALE, SCALE]` on normalized headings.
pub proof fn lemma_sin_fx_bounds(d: int)
    requires
        0 <= d < DEG360,
    ensures
        -SCALE <= spec_sin_fx(d) <= SCALE,
{
    if d < DEG180 {
        lemma_half_sine_bounds(d);
    } else {
        lemma_half_sine_bounds(d - DEG180);
    }
}

/// Cosine stays within `[-SCALE, SCALE]` on normalized headings.
pub proof fn lemma_cos_fx_bounds(d: int)
    requires
        0 <= d < DEG360,
    ensures
        -SCALE <= spec_cos_fx(d) <= SCALE,
{
    vstd::arithmetic::div_mod::lemma_mod_division_less_than_divisor(
        d + DEG90,
        DEG360 as int,
    );
    lemma_sin_fx_bounds((d + DEG90) % (DEG360 as int));
}

/// Bhaskara I's sine on `[0, 180]` degrees, evaluated in machine integers.
fn half_sine(x: i64) -> (r: i64)
    requires
        0 <= x <= DEG180,
    ensures
        r == spec_half_sine(x as int),
        0 <= r <= SCALE,
{
    proof {
        lemma_half_sine_product_bounds(x as int);
    }
    let p: i64 = x * (DEG180 - x);
    let num: i64 = 14_400 * p;
    let den: i64 = 524_880_000_000 - p;
    proof {
        assert(4 * SCALE * (x as int) * (DEG180 - x as int) == 14_400 * (p as int))
            by (nonlinear_arith)
            requires
                p as int == (x as int) * (DEG180 - x as int),
        ;
        vstd::arithmetic::div_mod::lemma_div_pos_is_pos(num as int, den as int);
        vstd::arithmetic::div_mod::lemma_div_is_ordered(
            num as int,
            SCALE * (den as int),
            den as int,
        );
        vstd::arithmetic::div_mod::lemma_div_multiples_vanish(SCALE as int, den as int);
    }
    let q: u64 = (num as u64) / (den as u64);
    q as i64
}

/// Fixed-point sine of a normalized heading.
pub fn sin_fx(d: i64) -> (r: i64)
    requires
        0 <= d < DEG360,
    ensures
        r == spec_sin_fx(d as int),
        -SCALE <= r <= SCALE,
{
    if d < DEG180 {
        half_sine(d)
    } else {
        -half_sine(d - DEG180)
    }
}

/// Fixed-point cosine of a normalized heading.
pub fn cos_fx(d: i64) -> (r: i64)
    requires
        0 <= d < DEG360,
    ensures
        r == spec_cos_fx(d as int),
        -SCALE <= r <= SCALE,
{
    let shifted: i64 = mod_euclid(d + DEG90, DEG360);
    sin_fx(shifted)
}

} // verus!

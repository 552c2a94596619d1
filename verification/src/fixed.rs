use vstd::prelude::*;

verus! {

/// Fixed-point scale: a physical quantity `v` is stored as the `i64`
/// value `v * SCALE`. The scale is divisible by 60, so a frame time of
/// one sixtieth of a second is represented exactly.
pub const SCALE: i64 = 3600;

/// `SCALE * SCALE`, the divisor of a product of two scaled quantities.
pub const SCALE_SQ: i64 = 12_960_000;

/// Quotient of `a` by `b`, rounded toward zero: the rounding convention
/// of every fixed-point division in this crate.
pub open spec fn tdiv(a: int, b: int) -> int {
    if a >= 0 {
        a / b
    } else {
        -((-a) / b)
    }
}

/// Truncated division on machine integers.
pub fn div_trunc(a: i64, b: i64) -> (r: i64)
    requires
        b > 0,
        a > i64::MIN,
    ensures
        r == tdiv(a as int, b as int),
        a >= 0 ==> 0 <= r <= a,
        a < 0 ==> a <= r <= 0,
{
    if a >= 0 {
        let q: u64 = (a as u64) / (b as u64);
        proof {
            vstd::arithmetic::div_mod::lemma_div_nonincreasing(a as int, b as int);
            vstd::arithmetic::div_mod::lemma_div_pos_is_pos(a as int, b as int);
        }
        q as i64
    } else {
        let neg: i64 = -a;
        let q: u64 = (neg as u64) / (b as u64);
        proof {
            vstd::arithmetic::div_mod::lemma_div_nonincreasing(neg as int, b as int);
            vstd::arithmetic::div_mod::lemma_div_pos_is_pos(neg as int, b as int);
        }
        -(q as i64)
    }
}

/// `v` forced into the closed interval `[lo, hi]`.
pub open spec fn spec_clamp(v: int, lo: int, hi: int) -> int {
    if v < lo {
        lo
    } else if v > hi {
        hi
    } else {
        v
    }
}

/// Clamp on machine integers.
pub fn clamp_i64(v: i64, lo: i64, hi: i64) -> (r: i64)
    requires
        lo <= hi,
    ensures
        r == spec_clamp(v as int, lo as int, hi as int),
{
    if v < lo {
        lo
    } else if v > hi {
        hi
    } else {
        v
    }
}

/// Remainder of `a` modulo `m`, normalized into `[0, m)` (the Euclidean
/// convention, which is what `%` means in specifications).
pub fn mod_euclid(a: i64, m: i64) -> (r: i64)
    requires
        m > 0,
        a > i64::MIN,
    ensures
        r == (a as int) % (m as int),
        0 <= r < m,
{
    proof {
        vstd::arithmetic::div_mod::lemma_mod_division_less_than_divisor(a as int, m as int);
    }
    if a >= 0 {
        let r: u64 = (a as u64) % (m as u64);
        r as i64
    } else {
        let neg: i64 = -a;
        let t: u64 = (neg as u64) % (m as u64);
        proof {
            let q0: int = (neg as int) / (m as int);
            let r0: int = (neg as int) % (m as int);
            vstd::arithmetic::div_mod::lemma_fundamental_div_mod(neg as int, m as int);
            if t == 0 {
                assert(a as int == (-q0) * (m as int) + 0) by (nonlinear_arith)
                    requires
                        neg as int == (m as int) * q0 + r0,
                        r0 == 0,
                        a as int == -(neg as int),
                ;
                vstd::arithmetic::div_mod::lemma_fundamental_div_mod_converse_mod(
                    a as int,
                    m as int,
                    -q0,
                    0,
                );
            } else {
                assert(a as int == (-q0 - 1) * (m as int) + ((m as int) - r0)) by (nonlinear_arith)
                    requires
                        neg as int == (m as int) * q0 + r0,
                        a as int == -(neg as int),
                ;
                vstd::arithmetic::div_mod::lemma_fundamental_div_mod_converse_mod(
                    a as int,
                    m as int,
                    -q0 - 1,
                    (m as int) - r0,
                );
            }
        }
        if t == 0 {
            0
        } else {
            m - (t as i64)
        }
    }
}

} // verus!

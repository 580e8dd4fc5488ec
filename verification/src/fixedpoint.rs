//! Fixed-point scalars and the truncating division they are computed with.
//!
//! Every coordinate, pan offset and zoom factor in this crate is an `i64`
//! holding [`SCALE`] subunits per pixel (or document unit). Division of
//! such scalars rounds toward zero, which [`tdiv`] captures in spec form;
//! the lemmas below bound its result and its remainder, which is all the
//! transform proofs need.

use vstd::prelude::*;

verus! {

use vstd::arithmetic::div_mod::{
    lemma_fundamental_div_mod, lemma_div_is_ordered, lemma_div_is_ordered_by_denominator,
    lemma_div_pos_is_pos, lemma_mod_division_less_than_divisor,
};

/// Subunits per pixel or document unit: one subunit is 1e-6 of a unit.
pub const SCALE: i64 = 1_000_000;

/// Smallest admissible zoom factor, 0.1 in fixed point.
pub const ZOOM_MIN: i64 = 100_000;

/// Largest admissible zoom factor, 10.0 in fixed point.
pub const ZOOM_MAX: i64 = 10_000_000;

/// Largest magnitude of a coordinate handed to the library, in subunits
/// (100 000 pixels). Machine limits force some bound; this one keeps all
/// intermediate products inside `i64`/`i128`.
pub const COORD_LIMIT: i64 = 100_000_000_000;

/// Largest magnitude the pan offset is allowed to reach, in subunits.
pub const PAN_LIMIT: i64 = 100_000_000_000;

/// Magnitude of an integer.
pub open spec fn iabs(a: int) -> int {
    if a >= 0 {
        a
    } else {
        -a
    }
}

/// Division rounding toward zero, the rule executable division follows.
/// Defined for positive divisors in terms of Euclidean division.
pub open spec fn tdiv(a: int, b: int) -> int {
    if a >= 0 {
        a / b
    } else {
        -((-a) / b)
    }
}

/// The value `v` forced into `[lo, hi]`.
pub open spec fn clamp_spec(v: int, lo: int, hi: int) -> int {
    if v < lo {
        lo
    } else if v > hi {
        hi
    } else {
        v
    }
}

/// A quotient is no larger in magnitude than the dividend bound divided
/// by the divisor bound.
pub proof fn lemma_tdiv_bounds(a: int, b: int, m: int, bmin: int)
    requires
        0 < bmin,
        bmin <= b,
        0 <= m,
        -m <= a,
        a <= m,
    ensures
        -(m / bmin) <= tdiv(a, b),
        tdiv(a, b) <= m / bmin,
{
    lemma_div_is_ordered_by_denominator(m, bmin, b);
    if a >= 0 {
        lemma_div_pos_is_pos(a, b);
        lemma_div_is_ordered(a, m, b);
    } else {
        lemma_div_pos_is_pos(-a, b);
        lemma_div_is_ordered(-a, m, b);
    }
}

/// Rounding toward zero loses less than one divisor's worth of value:
/// `tdiv(a, b) * b` lies within `b` of `a`.
pub proof fn lemma_tdiv_remainder(a: int, b: int)
    requires
        0 < b,
    ensures
        iabs(a - tdiv(a, b) * b) < b,
{
    if a >= 0 {
        lemma_fundamental_div_mod(a, b);
        lemma_mod_division_less_than_divisor(a, b);
        assert(a - tdiv(a, b) * b == a % b) by {
            assert(a == b * (a / b) + (a % b));
            assert(b * (a / b) == (a / b) * b) by (nonlinear_arith);
        }
    } else {
        lemma_fundamental_div_mod(-a, b);
        lemma_mod_division_less_than_divisor(-a, b);
        assert(a - tdiv(a, b) * b == -((-a) % b)) by {
            assert(-a == b * ((-a) / b) + ((-a) % b));
            assert(tdiv(a, b) * b == -(b * ((-a) / b))) by (nonlinear_arith)
                requires
                    tdiv(a, b) == -((-a) / b),
            ;
        }
    }
}

/// Dividing a near-multiple of `b` recovers the factor up to the
/// perturbation: if `a == b * x + c` then `tdiv(a, b)` is within
/// `(iabs(c) + b - 1) / b + 1` of `x`; stated multiplicatively to stay
/// linear.
pub proof fn lemma_tdiv_near_multiple(x: int, c: int, b: int)
    requires
        0 < b,
    ensures
        iabs(tdiv(b * x + c, b) - x) * b < iabs(c) + b,
{
    let a = b * x + c;
    let q = tdiv(a, b);
    lemma_tdiv_remainder(a, b);
    let r = a - q * b;
    assert(b * (q - x) == c - r) by (nonlinear_arith)
        requires
            a == b * x + c,
            r == a - q * b,
    ;
    assert(iabs(q - x) * b < iabs(c) + b) by (nonlinear_arith)
        requires
            0 < b,
            b * (q - x) == c - r,
            iabs(r) < b,
            iabs(c) == if c >= 0 { c } else { -c },
            iabs(r) == if r >= 0 { r } else { -r },
            iabs(q - x) == if q - x >= 0 { q - x } else { -(q - x) },
    ;
}

/// Scaling by `num / den` and back loses at most 10 subunits, provided
/// the two factors are within a ratio of ten of one another. This is the
/// core of every round-trip bound in the crate.
pub proof fn lemma_scale_unscale(v: int, num: int, den: int)
    requires
        0 < num,
        0 < den,
        den <= 10 * num,
    ensures
        iabs(tdiv(tdiv(v * num, den) * den, num) - v) <= 10,
{
    let q1 = tdiv(v * num, den);
    lemma_tdiv_remainder(v * num, den);
    let r1 = v * num - q1 * den;
    assert(q1 * den == num * v + (-r1)) by (nonlinear_arith)
        requires
            r1 == v * num - q1 * den,
    ;
    lemma_tdiv_near_multiple(v, -r1, num);
    let q2 = tdiv(num * v + (-r1), num);
    assert(iabs(q2 - v) * num < iabs(-r1) + num);
    assert(iabs(-r1) < den);
    assert(iabs(q2 - v) * num < 11 * num);
    assert(iabs(q2 - v) <= 10) by (nonlinear_arith)
        requires
            0 < num,
            iabs(q2 - v) * num < 11 * num,
            iabs(q2 - v) >= 0,
    ;
    assert(tdiv(q1 * den, num) == q2);
}

/// Executable truncating division on `i64`.
pub fn div_trunc(a: i64, b: i64) -> (q: i64)
    requires
        0 < b,
    ensures
        q == tdiv(a as int, b as int),
{
    proof {
        lemma_tdiv_bounds(a as int, b as int, iabs(a as int), 1);
        if a >= 0 {
        } else {
            assert(iabs(a as int) <= -(i64::MIN as int));
        }
    }
    match a.checked_div(b) {
        Some(q) => q,
        None => {
            proof {
                assert(false);
            }
            0
        },
    }
}

/// Executable truncating division on `i128`, for wide intermediates.
pub fn div_trunc_wide(a: i128, b: i128) -> (q: i128)
    requires
        0 < b,
    ensures
        q == tdiv(a as int, b as int),
{
    proof {
        lemma_tdiv_bounds(a as int, b as int, iabs(a as int), 1);
        if a >= 0 {
        } else {
            assert(iabs(a as int) <= -(i128::MIN as int));
        }
    }
    match a.checked_div(b) {
        Some(q) => q,
        None => {
            proof {
                assert(false);
            }
            0
        },
    }
}

/// Executable clamp to a closed interval.
pub fn clamp_i64(v: i64, lo: i64, hi: i64) -> (r: i64)
    requires
        lo <= hi,
    ensures
        r == clamp_spec(v as int, lo as int, hi as int),
{
    if v < lo {
        lo
    } else if v > hi {
        hi
    } else {
        v
    }
}

} // verus!

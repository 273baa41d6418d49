//! Numeric utilities: wrapping a value into a half-open interval by floored
//! modulo, clamping into a closed interval, and truncating division for the
//! fixed-point arithmetic of the rest of the crate.

use vstd::prelude::*;
use vstd::arithmetic::div_mod::lemma_fundamental_div_mod;
use vstd::arithmetic::div_mod::lemma_fundamental_div_mod_converse_mod;

use crate::consts::MAX_RADIUS;
use crate::consts::NUM_BOUND;
use crate::consts::SCALE;

verus! {

/// Floored-modulo remapping of `val` into the half-open interval
/// `[min(from, to), max(from, to))`; `to` itself when the span is empty.
///
/// Ghost `%` is Euclidean, which for a positive span is exactly the floored
/// modulo `val - span * floor((val - lo) / span)`.
pub open spec fn spec_wrap(val: int, from: int, to: int) -> int {
    let lo = if from <= to { from } else { to };
    let hi = if from <= to { to } else { from };
    if lo == hi {
        to
    } else {
        lo + (val - lo) % (hi - lo)
    }
}

/// `input` restricted to the closed interval `[min(lo, hi), max(lo, hi)]`.
pub open spec fn spec_clamp(input: int, lo: int, hi: int) -> int {
    let a = if lo <= hi { lo } else { hi };
    let b = if lo <= hi { hi } else { lo };
    if input < a {
        a
    } else if input > b {
        b
    } else {
        input
    }
}

/// Division rounding toward zero, as the machine's `/` does; defined for a
/// nonzero divisor.
pub open spec fn spec_div_trunc(a: int, b: int) -> int {
    let m = (vstd::math::abs(a) as int) / (vstd::math::abs(b) as int);
    if (a >= 0) == (b >= 0) {
        m
    } else {
        -m
    }
}

/// The fixed-point product of `a` and `b`: their integer product scaled
/// back down by `SCALE`, rounding toward zero.
pub open spec fn spec_scale_mul(a: int, b: int) -> int {
    spec_div_trunc(a * b, SCALE as int)
}

/// Wrapping a wrapped value changes nothing: one floored-modulo pass already
/// lands in the target interval, and a value in the interval is a fixed
/// point of the operation.
pub proof fn lemma_wrap_idempotent(val: int, from: int, to: int)
    ensures
        spec_wrap(spec_wrap(val, from, to), from, to) == spec_wrap(val, from, to),
{
    let lo = if from <= to { from } else { to };
    let hi = if from <= to { to } else { from };
    if lo != hi {
        let w = spec_wrap(val, from, to);
        assert(0 <= (val - lo) % (hi - lo) < hi - lo);
        assert((w - lo) % (hi - lo) == w - lo) by {
            lemma_fundamental_div_mod_converse_mod(w - lo, hi - lo, 0, w - lo);
        };
    }
}

/// The bounds of a clamp may be given in either order.
pub proof fn lemma_clamp_order_independent(input: int, lo: int, hi: int)
    ensures
        spec_clamp(input, lo, hi) == spec_clamp(input, hi, lo),
{
}

/// Maps `val` into `[min(from, to), max(from, to))` by floored modulo, so a
/// negative input lands near the top of the interval; returns `to` when the
/// interval is empty.
pub fn wrap(val: i64, from: i64, to: i64) -> (r: i64)
    requires
        -NUM_BOUND <= val <= NUM_BOUND,
        -NUM_BOUND <= from <= NUM_BOUND,
        -NUM_BOUND <= to <= NUM_BOUND,
    ensures
        r == spec_wrap(val as int, from as int, to as int),
        from == to ==> r == to,
        from != to ==> vstd::math::min(from as int, to as int) <= r
            < vstd::math::max(from as int, to as int),
{
    let lo: i64 = if from <= to { from } else { to };
    let hi: i64 = if from <= to { to } else { from };
    let cycle: i64 = hi - lo;
    if cycle == 0 {
        return to;
    }
    let diff: i64 = val - lo;
    if diff >= 0 {
        let rem: i64 = diff % cycle;
        lo + rem
    } else {
        let d: i64 = -diff;
        let m: i64 = d % cycle;
        proof {
            lemma_fundamental_div_mod(d as int, cycle as int);
            let q = d as int / cycle as int;
            if m == 0 {
                assert((-q) * cycle == -(q * cycle)) by (nonlinear_arith);
                lemma_fundamental_div_mod_converse_mod(-(d as int), cycle as int, -q, 0);
            } else {
                assert((-q - 1) * cycle == -(q * cycle) - cycle) by (nonlinear_arith);
                lemma_fundamental_div_mod_converse_mod(
                    -(d as int),
                    cycle as int,
                    -q - 1,
                    cycle - m,
                );
            }
        }
        if m == 0 {
            lo
        } else {
            lo + (cycle - m)
        }
    }
}

/// Restricts `input` to `[min(lo, hi), max(lo, hi)]`, swapping the bounds if
/// they are given in reverse order.
pub fn clamp(input: i64, lo: i64, hi: i64) -> (r: i64)
    ensures
        r == spec_clamp(input as int, lo as int, hi as int),
        vstd::math::min(lo as int, hi as int) <= r <= vstd::math::max(lo as int, hi as int),
        vstd::math::min(lo as int, hi as int) <= input <= vstd::math::max(lo as int, hi as int)
            ==> r == input,
{
    let a: i64 = if lo <= hi { lo } else { hi };
    let b: i64 = if lo <= hi { hi } else { lo };
    if input < a {
        a
    } else if input > b {
        b
    } else {
        input
    }
}

/// Truncating division of `a` by a positive `b`, the rounding of the
/// machine's own `/`.
pub fn div_trunc(a: i64, b: i64) -> (r: i64)
    requires
        b > 0,
        a > i64::MIN,
    ensures
        r == spec_div_trunc(a as int, b as int),
{
    if a >= 0 {
        a / b
    } else {
        let d: i64 = (-a) / b;
        -d
    }
}

/// Truncating division of `a` by a nonzero `b` of either sign.
pub fn div_trunc_any(a: i64, b: i64) -> (r: i64)
    requires
        b != 0,
        a > i64::MIN,
        b > i64::MIN,
    ensures
        r == spec_div_trunc(a as int, b as int),
        vstd::math::abs(r as int) <= vstd::math::abs(a as int),
{
    proof {
        vstd::arithmetic::div_mod::lemma_div_nonincreasing(
            vstd::math::abs(a as int) as int,
            vstd::math::abs(b as int) as int,
        );
    }
    let am: u64 = if a < 0 {
        (-a) as u64
    } else {
        a as u64
    };
    let bm: u64 = if b < 0 {
        (-b) as u64
    } else {
        b as u64
    };
    let m: u64 = am / bm;
    if (a < 0) == (b < 0) {
        m as i64
    } else {
        -(m as i64)
    }
}

/// The fixed-point product of `a` and `b`, for `a` no larger in magnitude
/// than a radius and `b` no larger than a cosine or sine sample.
pub fn scale_mul(a: i64, b: i64) -> (r: i64)
    requires
        -MAX_RADIUS <= a <= MAX_RADIUS,
        -SCALE <= b <= SCALE,
    ensures
        r == spec_scale_mul(a as int, b as int),
        -MAX_RADIUS <= r <= MAX_RADIUS,
{
    proof {
        assert(-MAX_RADIUS * SCALE <= a as int * b as int <= MAX_RADIUS * SCALE)
            by (nonlinear_arith)
            requires
                -MAX_RADIUS <= a as int <= MAX_RADIUS,
                -SCALE <= b as int <= SCALE,
        ;
        vstd::arithmetic::div_mod::lemma_div_is_ordered(
            vstd::math::abs(a as int * b as int) as int,
            MAX_RADIUS * SCALE,
            SCALE as int,
        );
    }
    let p: i64 = a * b;
    div_trunc(p, SCALE)
}

} // verus!

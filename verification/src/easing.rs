//! Ease-out-cubic interpolation in exact integer arithmetic.
//!
//! The eased fraction of an animation that has run for `elapsed` of `duration`
//! milliseconds is `1 - (1 - t)^3` with `t = elapsed / duration`. Over the
//! common denominator `duration^3` that fraction is the exact rational
//! `eased_numerator(elapsed, duration) / cube(duration)`, so a position along
//! one axis can be computed without any floating point:
//! `start + (end - start) * eased_numerator / cube(duration)`,
//! with the product divided before it is added back (rounding toward `start`).

use vstd::prelude::*;

verus! {

use vstd::arithmetic::div_mod::lemma_div_is_ordered;
use vstd::arithmetic::div_mod::lemma_div_multiples_vanish;
use vstd::arithmetic::div_mod::lemma_div_of0;
use vstd::arithmetic::div_mod::lemma_div_pos_is_pos;
use vstd::arithmetic::mul::lemma_mul_inequality;
use vstd::arithmetic::mul::lemma_mul_is_commutative;
use vstd::arithmetic::mul::lemma_mul_nonnegative;
use vstd::arithmetic::mul::lemma_mul_upper_bound;

/// How long every animation runs, in milliseconds.
pub const ANIMATION_DURATION_MS: u64 = 120;

/// Largest duration the executable easing code accepts: its cube must fit in
/// a `u64`.
pub const MAX_EASING_DURATION_MS: u64 = 2000000;

pub open spec fn cube(x: int) -> int {
    x * x * x
}

/// Numerator of the eased fraction `1 - (1 - t)^3` over the denominator
/// `cube(duration)`.
pub open spec fn eased_numerator(elapsed: int, duration: int) -> int {
    cube(duration) - cube(duration - elapsed)
}

/// Linear interpolation of one axis by the exact fraction `num / den`,
/// rounding the scaled offset toward zero so the result never overshoots
/// either endpoint.
pub open spec fn lerp_axis_spec(s: int, e: int, num: int, den: int) -> int {
    if e >= s {
        s + ((e - s) * num) / den
    } else {
        s - ((s - e) * num) / den
    }
}

/// Position along one axis after `elapsed` of `duration` milliseconds.
pub open spec fn axis_position(s: int, e: int, elapsed: int, duration: int) -> int {
    lerp_axis_spec(s, e, eased_numerator(elapsed, duration), cube(duration))
}

pub proof fn lemma_cube_monotone(a: int, b: int)
    requires
        0 <= a <= b,
    ensures
        cube(a) <= cube(b),
{
    assert(a * a * a <= b * b * b) by (nonlinear_arith)
        requires
            0 <= a <= b,
    ;
}

pub proof fn lemma_cube_positive(a: int)
    requires
        0 < a,
    ensures
        0 < cube(a),
{
    assert(0 < a * a * a) by (nonlinear_arith)
        requires
            0 < a,
    ;
}

/// The eased numerator stays between 0 and the full denominator.
pub proof fn lemma_eased_numerator_bounds(elapsed: int, duration: int)
    requires
        0 <= elapsed <= duration,
    ensures
        0 <= eased_numerator(elapsed, duration) <= cube(duration),
{
    lemma_cube_monotone(duration - elapsed, duration);
    lemma_cube_monotone(0, duration - elapsed);
}

/// The eased numerator never decreases as time passes.
pub proof fn lemma_eased_numerator_monotone(t1: int, t2: int, duration: int)
    requires
        0 <= t1 <= t2 <= duration,
    ensures
        eased_numerator(t1, duration) <= eased_numerator(t2, duration),
{
    lemma_cube_monotone(duration - t2, duration - t1);
}

/// A distance scaled by a fraction no greater than one stays between zero and
/// the full distance.
pub proof fn lemma_scaled_fraction_bounds(d: int, num: int, den: int)
    requires
        0 <= d,
        0 < den,
        0 <= num <= den,
    ensures
        0 <= (d * num) / den <= d,
{
    lemma_mul_nonnegative(d, num);
    lemma_div_pos_is_pos(d * num, den);
    lemma_mul_inequality(num, den, d);
    lemma_mul_is_commutative(num, d);
    lemma_mul_is_commutative(den, d);
    lemma_div_is_ordered(d * num, d * den, den);
    lemma_mul_is_commutative(d, den);
    lemma_div_multiples_vanish(d, den);
}

/// Scaling a fixed nonnegative distance by a larger fraction never yields a
/// smaller offset.
pub proof fn lemma_scaled_fraction_monotone(d: int, n1: int, n2: int, den: int)
    requires
        0 <= d,
        0 < den,
        0 <= n1 <= n2,
    ensures
        (d * n1) / den <= (d * n2) / den,
{
    lemma_mul_inequality(n1, n2, d);
    lemma_mul_is_commutative(n1, d);
    lemma_mul_is_commutative(n2, d);
    lemma_div_is_ordered(d * n1, d * n2, den);
}

/// At fraction zero the interpolation sits exactly on the start value.
pub proof fn lemma_lerp_at_zero(s: int, e: int, den: int)
    requires
        0 < den,
    ensures
        lerp_axis_spec(s, e, 0, den) == s,
{
    lemma_div_of0(den);
}

/// At the full fraction the interpolation lands exactly on the end value,
/// with no residue from the rounding.
pub proof fn lemma_lerp_at_full(s: int, e: int, den: int)
    requires
        0 < den,
    ensures
        lerp_axis_spec(s, e, den, den) == e,
{
    if e >= s {
        lemma_mul_is_commutative(e - s, den);
        lemma_div_multiples_vanish(e - s, den);
    } else {
        lemma_mul_is_commutative(s - e, den);
        lemma_div_multiples_vanish(s - e, den);
    }
}

/// Computes `eased_numerator(elapsed, duration)`, the eased fraction of the
/// animation expressed over the denominator `cube(duration)`.
pub fn ease_out_cubic(elapsed: u64, duration: u64) -> (num: u64)
    requires
        elapsed < duration,
        duration <= MAX_EASING_DURATION_MS,
    ensures
        num as int == eased_numerator(elapsed as int, duration as int),
        num as int <= cube(duration as int),
{
    let remaining: u64 = duration - elapsed;
    proof {
        assert(duration * duration <= 4000000000000 && duration * duration * duration
            <= 8000000000000000000 && remaining * remaining <= 4000000000000 && remaining
            * remaining * remaining <= 8000000000000000000) by (nonlinear_arith)
            requires
                duration <= 2000000,
                remaining <= 2000000,
        ;
        lemma_eased_numerator_bounds(elapsed as int, duration as int);
    }
    duration * duration * duration - remaining * remaining * remaining
}

/// Interpolates one axis from `s` toward `e` by the exact fraction
/// `num / den`, matching `lerp_axis_spec`.
pub fn lerp_axis(s: i64, e: i64, num: u64, den: u64) -> (r: i64)
    requires
        0 < den,
        num <= den,
    ensures
        r as int == lerp_axis_spec(s as int, e as int, num as int, den as int),
{
    if e >= s {
        let dist: u128 = (e as i128 - s as i128) as u128;
        proof {
            assert(dist as int == e as int - s as int);
            lemma_mul_upper_bound(dist as int, 0xffffffffffffffff, num as int, 0xffffffffffffffff);
            lemma_scaled_fraction_bounds(dist as int, num as int, den as int);
        }
        let scaled: u128 = dist * (num as u128) / (den as u128);
        ((s as i128) + (scaled as i128)) as i64
    } else {
        let dist: u128 = (s as i128 - e as i128) as u128;
        proof {
            assert(dist as int == s as int - e as int);
            lemma_mul_upper_bound(dist as int, 0xffffffffffffffff, num as int, 0xffffffffffffffff);
            lemma_scaled_fraction_bounds(dist as int, num as int, den as int);
        }
        let scaled: u128 = dist * (num as u128) / (den as u128);
        ((s as i128) - (scaled as i128)) as i64
    }
}

} // verus!

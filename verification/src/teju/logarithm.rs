//! What the multiplier table holds, and how the powers of two of a run lie
//! to the power of ten of its decimal exponent.
//!
//! The multiplier for the decimal exponent `f` stands for
//! `2^(127 + e0) / 10^f`, where `e0` is the smallest binary exponent whose
//! decimal exponent is `f`. That every entry lies between `2^127` and `2^128`
//! places every power of two between two powers of ten.

use vstd::prelude::*;
use vstd::arithmetic::power2::{lemma2_to64, lemma_pow2_pos, pow2};
use crate::teju::common::{floor_log10_pow2, floor_log10_pow2_residual};
use crate::teju::exactness::law_multiplier_is_ceiling;
use crate::teju::ieee64::lemma_small_shift;
use crate::teju::lut::{
    exp_base, lemma_exp_base, lemma_multiplier_high_bit, lemma_multiplier_residual_bound,
    multiplier, MAX_EXP, MAX_EXP_FLOOR, MIN_EXP, MIN_EXP_FLOOR,
};
use crate::teju::power::{lemma_pow10_step, pow10};

verus! {

/// The multiplier for the decimal exponent `f`, as one number.
pub open spec fn multiplier_value(f: int) -> int {
    multiplier(f).hi as int * 0x1_0000_0000_0000_0000 + multiplier(f).lo as int
}

/// The unit of error of the multiplier for `f`: the multiplier over `2^100`,
/// rounded up.
pub open spec fn multiplier_unit(f: int) -> int {
    multiplier(f).hi as int / 0x10_0000_0000 + 1
}

/// How far the multiplier for `f` may lie from the number that it stands
/// for: one unit for each step that `f` lies from zero.
pub open spec fn multiplier_error(f: int) -> int {
    vstd::math::abs(f) * multiplier_unit(f)
}

/// `2^e0 / 10^f` is `numerator(f) / denominator(f)`: for a negative `f` both
/// `e0` and `f` change sides.
pub open spec fn numerator(f: int) -> nat {
    if f >= 0 {
        pow2(exp_base(f) as nat)
    } else {
        pow10((-f) as nat)
    }
}

/// See `numerator`.
pub open spec fn denominator(f: int) -> nat {
    if f >= 0 {
        pow10(f as nat)
    } else {
        pow2((-exp_base(f)) as nat)
    }
}

/// Whether the multiplier for `f` lies within its error of
/// `2^127 * numerator(f) / denominator(f)`.
pub open spec fn approximates(f: int) -> bool {
    &&& (multiplier_value(f) - multiplier_error(f)) * denominator(f)
        <= 0x8000_0000_0000_0000_0000_0000_0000_0000int * numerator(f)
    &&& 0x8000_0000_0000_0000_0000_0000_0000_0000int * numerator(f) <= (multiplier_value(f)
        + multiplier_error(f)) * denominator(f)
}

/// The factor from the multiplier for `f` to its upper neighbour, over ten:
/// sixteen where the multiplier is below five eighths of `2^128`, and eight
/// elsewhere.
pub open spec fn step_factor(f: int) -> int {
    if multiplier(f).hi < 0xA000_0000_0000_0000 {
        16
    } else {
        8
    }
}

/// The multiplier for every decimal exponent of the table lies within its
/// error of `2^(127 + e0) / 10^f`.
pub proof fn lemma_approximates(f: int)
    requires
        MIN_EXP_FLOOR <= f <= MAX_EXP_FLOOR,
    ensures
        approximates(f),
{
    law_multiplier_is_ceiling(f);
    lemma_pow10_step(0);
    let k = 0x8000_0000_0000_0000_0000_0000_0000_0000int;
    let m = multiplier_value(f);
    let w = multiplier_error(f);
    let x = denominator(f) as int;
    let y = numerator(f) as int;
    assert(w >= 0 && (f != 0 ==> w >= 1)) by (nonlinear_arith)
        requires
            w == vstd::math::abs(f) * multiplier_unit(f),
            multiplier_unit(f) >= 1,
            vstd::math::abs(f) >= 0,
            f != 0 ==> vstd::math::abs(f) >= 1,
    ;
    assert((m - w) * x <= k * y && k * y <= (m + w) * x) by (nonlinear_arith)
        requires
            0 <= m * x - k * y < x,
            w >= 0,
            f != 0 ==> w >= 1,
            f == 0 ==> x == 1,
            x >= 1,
    ;
}

/// The unit of the decimal exponent is at most the smallest power of two
/// of its run, and more than a tenth of every power of two of the run:
/// `denominator <= numerator` and `2^residual * numerator < 10 * denominator`.
pub proof fn lemma_run_bounds(e: int)
    requires
        MIN_EXP <= e <= MAX_EXP,
    ensures
        MIN_EXP_FLOOR <= floor_log10_pow2(e) <= MAX_EXP_FLOOR,
        1 <= denominator(floor_log10_pow2(e)) <= numerator(floor_log10_pow2(e)),
        floor_log10_pow2(e) != 0 ==> denominator(floor_log10_pow2(e)) < numerator(
            floor_log10_pow2(e),
        ),
        numerator(floor_log10_pow2(e)) * pow2(floor_log10_pow2_residual(e) as nat) < 10
            * denominator(floor_log10_pow2(e)),
{
    let k = 0x8000_0000_0000_0000_0000_0000_0000_0000int;
    let f = floor_log10_pow2(e);
    let r = floor_log10_pow2_residual(e);
    lemma_exp_base(e);
    lemma_multiplier_residual_bound(e);
    lemma_multiplier_high_bit(f);
    lemma_approximates(f);
    lemma2_to64();
    let m = multiplier_value(f);
    let w = multiplier_error(f);
    let x = denominator(f) as int;
    let y = numerator(f) as int;
    let shift = pow2(r as nat) as int;
    assert(x >= 1) by {
        lemma_pow10_step(if f >= 0 { f as nat } else { 0 });
        lemma_pow2_pos(if f >= 0 { 0 } else { (-exp_base(f)) as nat });
    }
    assert(0 <= w < 0x100_0000_0000_0000) by (nonlinear_arith)
        requires
            w == vstd::math::abs(f) * multiplier_unit(f),
            0 <= vstd::math::abs(f) <= 324,
            0 <= multiplier_unit(f) <= 0x1000_0000,
    ;
    assert(m >= k && (f != 0 ==> m >= k + 0x1_0000_0000_0000_0000_0000_0000_0000int));
    assert(f == 0 ==> w == 0) by (nonlinear_arith)
        requires
            w == vstd::math::abs(f) * multiplier_unit(f),
            f == 0 ==> vstd::math::abs(f) == 0,
    ;
    assert(x <= y && (m - w > k ==> x < y)) by (nonlinear_arith)
        requires
            (m - w) * x <= k * y,
            m - w >= k,
            x >= 1,
            k == 0x8000_0000_0000_0000_0000_0000_0000_0000int,
    ;
    assert((m + w) * shift < 10 * k) by {
        lemma_small_shift(m + w, r as nat);
        assert(m < 0x1_0000_0000_0000_0000_0000_0000_0000_0000int);
        assert(r == 3 ==> m < 0x9FFF_0001_0000_0000_0000_0000_0000_0000int);
    }
    assert(y * shift < 10 * x) by (nonlinear_arith)
        requires
            k * y <= (m + w) * x,
            (m + w) * shift < 10 * k,
            x >= 1,
            shift >= 1,
            k == 0x8000_0000_0000_0000_0000_0000_0000_0000int,
    ;
}

/// Whether `f` is the integer part of `log10(2^e)`: `10^f <= 2^e < 10^(f+1)`,
/// written with natural numbers.
pub open spec fn is_log10_pow2(e: int, f: int) -> bool {
    if e >= 0 {
        f >= 0 && pow10(f as nat) <= pow2(e as nat) < pow10((f + 1) as nat)
    } else {
        f < 0 && pow10((-f - 1) as nat) < pow2((-e) as nat) <= pow10((-f) as nat)
    }
}

} // verus!

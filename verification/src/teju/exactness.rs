//! That the scaled value is exact for every entry of the multiplier table.
//!
//! The multiplier for `f` lies a little above `2^127 * numerator /
//! denominator`. How far is followed from entry to entry, upwards and
//! downwards from the entry for zero, which is exact. An argument `n` could
//! only be scaled wrongly if a fraction with the denominator `n` lay between
//! the true ratio and the multiplier. From the entry for zero down to that
//! for -54 the two agree; up to that for 24 the true ratio has too small a
//! denominator for that; and for every other entry two neighbouring fractions
//! enclose both, between which no fraction has a denominator below the limit
//! of the arguments.

use vstd::prelude::*;
use vstd::arithmetic::div_mod::{
    lemma_fundamental_div_mod, lemma_fundamental_div_mod_converse, lemma_truncate_middle,
};
use vstd::arithmetic::power2::{lemma2_to64, lemma_pow2_adds, lemma_pow2_pos, pow2};
use crate::teju::common::Multiplier;
use crate::teju::ieee64::{lemma_small_shift, BinaryView};
use crate::teju::logarithm::{denominator, multiplier_value, numerator, step_factor};
use crate::teju::lut::{
    exp_base, lemma_multiplier_high_bit, lemma_multiplier_residual_bound, lemma_run_length,
    multiplier, run_length, MAX_EXP, MAX_EXP_FLOOR, MIN_EXP, MIN_EXP_FLOOR,
};
use crate::teju::power::{lemma_pow10_step, lemma_pow5_step, lemma_pow5_values, pow5};
use crate::teju::roundtrip::lemma_pow10_factors;

verus! {

/// How far the multiplier for `f` lies above the number that it stands for,
/// in units of one over the denominator.
pub open spec fn excess(f: int) -> int {
    multiplier_value(f) * denominator(f) - 0x8000_0000_0000_0000_0000_0000_0000_0000int
        * numerator(f)
}

/// Whether the excess of the multiplier for `f`, over the denominator, lies
/// between `low / 2^62` and `high / 2^62`.
#[verifier::opaque]
pub open spec fn excess_within(f: int, low: int, high: int) -> bool {
    &&& low * denominator(f) <= excess(f) * 0x4000_0000_0000_0000
    &&& excess(f) * 0x4000_0000_0000_0000 <= high * denominator(f)
}

/// Whether the multiplier for `f` is `2^127 * numerator / denominator`,
/// rounded up.
#[verifier::opaque]
pub open spec fn is_ceiling(f: int) -> bool {
    0 <= excess(f) < denominator(f)
}

/// The arguments that are scaled by the multiplier for `f` lie below this
/// limit: a mantissa with two more bits, shifted by the residual; and forty
/// times a mantissa of one bit, not shifted.
pub open spec fn argument_limit(f: int) -> int {
    if step_factor(f) == 16 {
        0x400_0000_0000_0000
    } else {
        0x300_0000_0000_0000
    }
}

/// The argument `n` scaled by the multiplier for `f`.
pub open spec fn scaled_at(f: int, n: int) -> int {
    (n * multiplier_value(f)) / 0x1_0000_0000_0000_0000_0000_0000_0000_0000int
}

/// The quotient that the scaled value stands for.
pub open spec fn quotient_at(f: int, n: int) -> int {
    (n * numerator(f)) / (2 * denominator(f) as int)
}

/// Whether every argument below the limit is scaled exactly by the
/// multiplier for `f`.
#[verifier::opaque]
pub open spec fn exact_everywhere(f: int) -> bool {
    forall|n: int| 1 <= n < argument_limit(f) ==> #[trigger] scaled_at(f, n) == quotient_at(f, n)
}

/// The numerator and the denominator of the next decimal exponent.
proof fn lemma_next_ratio(f: int)
    requires
        MIN_EXP_FLOOR <= f < MAX_EXP_FLOOR,
    ensures
        denominator(f) >= 1,
        numerator(f) >= 1,
        f >= 0 ==> numerator(f + 1) == step_factor(f) * numerator(f) && denominator(f + 1) == 10
            * denominator(f),
        f < 0 ==> denominator(f) == step_factor(f) * denominator(f + 1) && numerator(f) == 10
            * numerator(f + 1),
{
    lemma2_to64();
    lemma_pow10_step(0);
    lemma_run_length(f);
    let p = step_factor(f);
    if f >= 0 {
        lemma_pow2_adds(exp_base(f) as nat, run_length(f) as nat);
        lemma_pow2_pos(exp_base(f) as nat);
        lemma_pow10_step(f as nat);
        assert(numerator(f) * pow2(run_length(f) as nat) == p * numerator(f)) by (nonlinear_arith)
            requires
                pow2(run_length(f) as nat) == p,
        ;
    } else {
        lemma_pow2_adds((-exp_base(f + 1)) as nat, run_length(f) as nat);
        lemma_pow2_pos((-exp_base(f)) as nat);
        lemma_pow10_step((-f - 1) as nat);
        assert(pow2((-exp_base(f + 1)) as nat) * pow2(run_length(f) as nat) == p * pow2(
            (-exp_base(f + 1)) as nat,
        )) by (nonlinear_arith)
            requires
                pow2(run_length(f) as nat) == p,
        ;
    }
}

/// The multiplier for zero is exact.
proof fn lemma_excess_at_zero()
    ensures
        excess_within(0, 0, 0),
{
    reveal(excess_within);
    lemma_multiplier_high_bit(0);
    lemma2_to64();
    lemma_pow10_step(0);
    assert(excess(0) == 0);
}

/// The bounds of the excess after one step: the excess is multiplied by `up`
/// and grows by `delta` for each unit of the old denominator, which is
/// multiplied by `down`.
proof fn lemma_within_after_step(
    e: int,
    e2: int,
    delta: int,
    l: int,
    low: int,
    high: int,
    low2: int,
    high2: int,
    up: int,
    down: int,
)
    requires
        up == 8 || up == 10 || up == 16,
        down == 8 || down == 10 || down == 16,
        l >= 1,
        e2 == delta * l + up * e,
        low * l <= e * 0x4000_0000_0000_0000,
        e * 0x4000_0000_0000_0000 <= high * l,
        down * low2 <= delta * 0x4000_0000_0000_0000 + up * low,
        delta * 0x4000_0000_0000_0000 + up * high <= down * high2,
    ensures
        low2 * (down * l) <= e2 * 0x4000_0000_0000_0000,
        e2 * 0x4000_0000_0000_0000 <= high2 * (down * l),
{
    let t = 0x4000_0000_0000_0000int;
    let grown = delta * l;
    let scaled = e * t;
    let below = low * l;
    let above = high * l;
    assert(e2 * t == grown * t + up * scaled) by (nonlinear_arith)
        requires
            e2 == grown + up * e,
            scaled == e * t,
            up == 8 || up == 10 || up == 16,
    ;
    assert(grown * t == (delta * t) * l) by (nonlinear_arith)
        requires
            grown == delta * l,
    ;
    assert((delta * t + up * low) * l == (delta * t) * l + up * below) by (nonlinear_arith)
        requires
            below == low * l,
            up == 8 || up == 10 || up == 16,
    ;
    assert((delta * t + up * high) * l == (delta * t) * l + up * above) by (nonlinear_arith)
        requires
            above == high * l,
            up == 8 || up == 10 || up == 16,
    ;
    assert((down * low2) * l <= (delta * t + up * low) * l) by (nonlinear_arith)
        requires
            down * low2 <= delta * t + up * low,
            l >= 1,
    ;
    assert((delta * t + up * high) * l <= (down * high2) * l) by (nonlinear_arith)
        requires
            delta * t + up * high <= down * high2,
            l >= 1,
    ;
    assert((down * low2) * l == low2 * (down * l) && (down * high2) * l == high2 * (down * l))
        by (nonlinear_arith);
}

/// The excess of the next multiplier upwards.
proof fn lemma_excess_up(f: int, low: int, high: int, delta: int, low2: int, high2: int)
    requires
        0 <= f < MAX_EXP_FLOOR,
        excess_within(f, low, high),
        10 * multiplier_value(f + 1) - step_factor(f) * multiplier_value(f) == delta,
        10 * low2 <= delta * 0x4000_0000_0000_0000 + step_factor(f) * low,
        delta * 0x4000_0000_0000_0000 + step_factor(f) * high <= 10 * high2,
    ensures
        excess_within(f + 1, low2, high2),
{
    reveal(excess_within);
    lemma_next_ratio(f);
    let t = 0x4000_0000_0000_0000int;
    let k = 0x8000_0000_0000_0000_0000_0000_0000_0000int;
    let p = step_factor(f);
    let m = multiplier_value(f);
    let m2 = multiplier_value(f + 1);
    let l = denominator(f) as int;
    let r = numerator(f) as int;
    let e = excess(f);
    let e2 = excess(f + 1);
    let ml = m * l;
    let kr = k * r;
    let m2l = m2 * l;
    assert(m2 * (10 * l) == 10 * m2l && k * (p * r) == p * kr) by (nonlinear_arith)
        requires
            m2l == m2 * l,
            kr == k * r,
    ;
    assert(delta * l == 10 * m2l - p * ml) by (nonlinear_arith)
        requires
            10 * m2 - p * m == delta,
            m2l == m2 * l,
            ml == m * l,
            p == 8 || p == 16,
    ;
    assert(e2 == delta * l + p * e);
    lemma_within_after_step(e, e2, delta, l, low, high, low2, high2, p, 10);
}

/// The excess of the next multiplier downwards.
proof fn lemma_excess_down(f: int, low: int, high: int, delta: int, low2: int, high2: int)
    requires
        MIN_EXP_FLOOR < f <= 0,
        excess_within(f, low, high),
        step_factor(f - 1) * multiplier_value(f - 1) - 10 * multiplier_value(f) == delta,
        step_factor(f - 1) * low2 <= delta * 0x4000_0000_0000_0000 + 10 * low,
        delta * 0x4000_0000_0000_0000 + 10 * high <= step_factor(f - 1) * high2,
    ensures
        excess_within(f - 1, low2, high2),
{
    reveal(excess_within);
    lemma_next_ratio(f - 1);
    let t = 0x4000_0000_0000_0000int;
    let k = 0x8000_0000_0000_0000_0000_0000_0000_0000int;
    let p = step_factor(f - 1);
    let m = multiplier_value(f);
    let m2 = multiplier_value(f - 1);
    let l = denominator(f) as int;
    let r = numerator(f) as int;
    let e = excess(f);
    let e2 = excess(f - 1);
    let ml = m * l;
    let kr = k * r;
    let m2l = m2 * l;
    assert(m2 * (p * l) == p * m2l && k * (10 * r) == 10 * kr) by (nonlinear_arith)
        requires
            m2l == m2 * l,
            kr == k * r,
            p == 8 || p == 16,
    ;
    assert(delta * l == p * m2l - 10 * ml) by (nonlinear_arith)
        requires
            p * m2 - 10 * m == delta,
            m2l == m2 * l,
            ml == m * l,
            p == 8 || p == 16,
    ;
    assert(e2 == delta * l + 10 * e);
    lemma_within_after_step(e, e2, delta, l, low, high, low2, high2, 10, p);
}

/// An excess between nothing and less than one is that of a number rounded
/// up.
proof fn lemma_ceiling(f: int, low: int, high: int)
    requires
        MIN_EXP_FLOOR <= f <= MAX_EXP_FLOOR,
        excess_within(f, low, high),
        0 <= low,
        high < 0x4000_0000_0000_0000,
    ensures
        is_ceiling(f),
        0 <= excess(f) < denominator(f),
{
    reveal(excess_within);
    reveal(is_ceiling);
    let t = 0x4000_0000_0000_0000int;
    let l = denominator(f) as int;
    let e = excess(f);
    lemma_denominator_positive(f);
    assert(0 <= e < l) by (nonlinear_arith)
        requires
            low * l <= e * t,
            e * t <= high * l,
            0 <= low,
            high < t,
            t == 0x4000_0000_0000_0000int,
            l >= 1,
    ;
}

/// Where the multiplier is the number that it stands for, every argument is
/// scaled exactly.
proof fn lemma_exact_by_zero(f: int)
    requires
        MIN_EXP_FLOOR <= f <= MAX_EXP_FLOOR,
        excess_within(f, 0, 0),
    ensures
        exact_everywhere(f),
        is_ceiling(f),
{
    lemma_ceiling(f, 0, 0);
    reveal(excess_within);
    reveal(exact_everywhere);
    let k = 0x8000_0000_0000_0000_0000_0000_0000_0000int;
    let m = multiplier_value(f);
    let l = denominator(f) as int;
    let r = numerator(f) as int;
    lemma_denominator_positive(f);
    assert forall|n: int| 1 <= n < argument_limit(f) implies #[trigger] scaled_at(f, n)
        == quotient_at(f, n) by {
        lemma_exact_from_bounds(f, n, 0);
    }
}

/// Both parts of the ratio are at least one.
proof fn lemma_denominator_positive(f: int)
    requires
        MIN_EXP_FLOOR <= f <= MAX_EXP_FLOOR,
    ensures
        denominator(f) >= 1,
        numerator(f) >= 1,
{
    lemma_pow10_step(if f >= 0 { f as nat } else { (-f) as nat });
    lemma_pow2_pos(if f >= 0 { exp_base(f) as nat } else { (-exp_base(f)) as nat });
}

/// The argument `n` is scaled exactly where its part of the excess stays
/// below what the quotient leaves to the next integer: with `gap` at most
/// the distance of `n * numerator` from the next multiple of twice the
/// denominator, `n * excess < 2^127 * gap` or no excess at all.
proof fn lemma_exact_from_bounds(f: int, n: int, gap: int)
    requires
        MIN_EXP_FLOOR <= f <= MAX_EXP_FLOOR,
        n >= 1,
        excess(f) >= 0,
        excess(f) == 0 || (gap >= 1 && gap <= 2 * denominator(f) - (n * numerator(f)) % (2
            * denominator(f) as int) && n * excess(f) < 0x8000_0000_0000_0000_0000_0000_0000_0000int
            * gap),
    ensures
        scaled_at(f, n) == quotient_at(f, n),
{
    let k = 0x8000_0000_0000_0000_0000_0000_0000_0000int;
    let big = 0x1_0000_0000_0000_0000_0000_0000_0000_0000int;
    let m = multiplier_value(f);
    let l = denominator(f) as int;
    let r = numerator(f) as int;
    let e = excess(f);
    lemma_denominator_positive(f);
    let whole = n * r;
    let quotient = whole / (2 * l);
    let rest = whole % (2 * l);
    lemma_fundamental_div_mod(whole, 2 * l);
    let product = m * l;
    assert((n * m) * l == n * product) by (nonlinear_arith)
        requires
            product == m * l,
    ;
    let scaled_whole = k * r;
    assert(n * product == n * scaled_whole + n * e) by (nonlinear_arith)
        requires
            product == scaled_whole + e,
    ;
    assert(n * scaled_whole == k * whole) by (nonlinear_arith)
        requires
            scaled_whole == k * r,
            whole == n * r,
    ;
    assert(k * whole == (big * quotient) * l + k * rest) by (nonlinear_arith)
        requires
            whole == (2 * l) * quotient + rest,
            big == 2 * k,
    ;
    assert(0 <= k * rest + n * e < big * l) by (nonlinear_arith)
        requires
            0 <= rest < 2 * l,
            e == 0 || (gap <= 2 * l - rest && n * e < k * gap && gap >= 1),
            e >= 0,
            n >= 1,
            k == 0x8000_0000_0000_0000_0000_0000_0000_0000int,
            big == 2 * k,
            l >= 1,
    ;
    assert(big * quotient <= n * m < big * (quotient + 1)) by (nonlinear_arith)
        requires
            (n * m) * l == (big * quotient) * l + (k * rest + n * e),
            0 <= k * rest + n * e < big * l,
            l >= 1,
    ;
    lemma_fundamental_div_mod_converse(n * m, big, quotient, n * m - big * quotient);
}

/// Up to the decimal exponent 24 the quotient leaves at least `2^(f+1)` to
/// the next integer, more than the excess can fill.
proof fn lemma_exact_by_factor(f: int, low: int, high: int)
    requires
        1 <= f <= 24,
        excess_within(f, low, high),
        0 <= low,
        high < 0x4000_0000_0000_0000,
    ensures
        exact_everywhere(f),
        is_ceiling(f),
{
    lemma_ceiling(f, low, high);
    reveal(exact_everywhere);
    let k = 0x8000_0000_0000_0000_0000_0000_0000_0000int;
    let t = 0x4000_0000_0000_0000int;
    let l = denominator(f) as int;
    let r = numerator(f) as int;
    let e = excess(f);
    let e0 = exp_base(f);
    lemma_denominator_positive(f);
    lemma_pow5_values();
    lemma_pow5_step(f as nat);
    lemma_pow10_factors(f as nat);
    lemma2_to64();
    assert(e0 >= f + 1);
    let two = pow2((f + 1) as nat) as int;
    let five = pow5(f as nat) as int;
    let spare = pow2((e0 - f - 1) as nat) as int;
    lemma_pow2_adds(f as nat, 1);
    lemma_pow2_adds((f + 1) as nat, (e0 - f - 1) as nat);
    lemma_pow2_pos((f + 1) as nat);
    lemma_pow2_pos((e0 - f - 1) as nat);
    assert(2 * l == two * five) by (nonlinear_arith)
        requires
            l == pow2(f as nat) * five,
            two == pow2(f as nat) * 2,
    ;
    assert forall|n: int| 1 <= n < argument_limit(f) implies #[trigger] scaled_at(f, n)
        == quotient_at(f, n) by {
        let inner = n * spare;
        assert(n * r == two * inner) by (nonlinear_arith)
            requires
                r == two * spare,
                inner == n * spare,
        ;
        assert(inner >= 0) by (nonlinear_arith)
            requires
                inner == n * spare,
                n >= 1,
                spare >= 1,
        ;
        lemma_truncate_middle(inner, two, five);
        let part = inner % five;
        assert((n * r) % (2 * l) == two * part);
        assert(two <= 2 * l - two * part) by (nonlinear_arith)
            requires
                2 * l == two * five,
                0 <= part < five,
                two >= 1,
        ;
        // n * e < 2^58 * 10^f <= 2^127 * 2^(f+1)
        assert(n * e < k * two) by (nonlinear_arith)
            requires
                1 <= n < 0x400_0000_0000_0000,
                0 <= e < l,
                2 * l == two * five,
                five <= 0x40_0000_0000_0000_0000,
                two >= 1,
                k == 0x8000_0000_0000_0000_0000_0000_0000_0000int,
        ;
        lemma_exact_from_bounds(f, n, two);
    }
}

/// Two neighbouring fractions `a / b` and `c / d` that enclose the true
/// ratio and the multiplier leave no room for a fraction with a denominator
/// below the limit of the arguments: every argument is scaled exactly.
proof fn lemma_exact_by_fractions(f: int, low: int, high: int, a: int, b: int, c: int, d: int)
    requires
        MIN_EXP_FLOOR <= f <= MAX_EXP_FLOOR,
        excess_within(f, low, high),
        0 <= low,
        high < 0x4000_0000_0000_0000,
        1 <= b,
        1 <= d,
        0 <= a,
        b * c - a * d == 1,
        argument_limit(f) <= b + d,
        b * high <= (b * multiplier_value(f) - a
            * 0x1_0000_0000_0000_0000_0000_0000_0000_0000int) * 0x4000_0000_0000_0000,
        d * multiplier_value(f) < c * 0x1_0000_0000_0000_0000_0000_0000_0000_0000int,
    ensures
        exact_everywhere(f),
        is_ceiling(f),
{
    lemma_ceiling(f, low, high);
    reveal(excess_within);
    reveal(exact_everywhere);
    let k = 0x8000_0000_0000_0000_0000_0000_0000_0000int;
    let big = 0x1_0000_0000_0000_0000_0000_0000_0000_0000int;
    let t = 0x4000_0000_0000_0000int;
    let m = multiplier_value(f);
    let l = denominator(f) as int;
    let r = numerator(f) as int;
    let e = excess(f);
    lemma_denominator_positive(f);
    // a / b is at most the true ratio: a * 2 * l <= b * r
    let above = b * m - a * big;
    assert((b * e) * t <= (b * high) * l) by (nonlinear_arith)
        requires
            e * t <= high * l,
            b >= 1,
    ;
    assert((b * high) * l <= (above * l) * t) by (nonlinear_arith)
        requires
            b * high <= above * t,
            l >= 1,
    ;
    assert(b * e <= above * l) by (nonlinear_arith)
        requires
            (b * e) * t <= (above * l) * t,
            t > 0,
    ;
    let ml = m * l;
    let kr = k * r;
    assert(b * e == b * ml - b * kr) by (nonlinear_arith)
        requires
            e == ml - kr,
    ;
    assert(above * l == b * ml - (a * big) * l) by (nonlinear_arith)
        requires
            above == b * m - a * big,
            ml == m * l,
    ;
    assert((a * big) * l == (a * (2 * l)) * k) by (nonlinear_arith)
        requires
            big == 2 * k,
    ;
    assert(b * kr == (b * r) * k) by (nonlinear_arith)
        requires
            kr == k * r,
    ;
    assert(a * (2 * l) <= b * r) by (nonlinear_arith)
        requires
            (a * (2 * l)) * k <= (b * r) * k,
            k > 0,
    ;
    assert forall|n: int| 1 <= n < argument_limit(f) implies #[trigger] scaled_at(f, n)
        == quotient_at(f, n) by {
        let whole = n * r;
        let quotient = whole / (2 * l);
        lemma_fundamental_div_mod(whole, 2 * l);
        let product = n * m;
        let scaled = product / big;
        lemma_fundamental_div_mod(product, big);
        // the scaled value is at least the quotient
        assert(product * l >= (big * quotient) * l) by (nonlinear_arith)
            requires
                product == n * m,
                whole == n * r,
                e == m * l - k * r,
                e >= 0,
                n >= 1,
                whole >= (2 * l) * quotient,
                big == 2 * k,
                k > 0,
        ;
        assert(scaled >= quotient) by (nonlinear_arith)
            requires
                product * l >= (big * quotient) * l,
                product == big * scaled + product % big,
                product % big < big,
                l >= 1,
                big > 0,
        ;
        if scaled > quotient {
            // the fraction (quotient + 1) / n lies above the true ratio and
            // at most at the multiplier: between the two neighbours
            let next = quotient + 1;
            assert(next * (2 * l) > n * r) by (nonlinear_arith)
                requires
                    whole == n * r,
                    whole == (2 * l) * quotient + whole % (2 * l),
                    whole % (2 * l) < 2 * l,
                    next == quotient + 1,
            ;
            assert(next * big <= n * m) by (nonlinear_arith)
                requires
                    product == n * m,
                    product == big * scaled + product % big,
                    0 <= product % big,
                    scaled >= next,
                    big > 0,
            ;
            assert((next * b) * (2 * l) > (a * n) * (2 * l)) by (nonlinear_arith)
                requires
                    next * (2 * l) > n * r,
                    a * (2 * l) <= b * r,
                    b >= 1,
                    n >= 1,
            ;
            assert(next * b > a * n) by (nonlinear_arith)
                requires
                    (next * b) * (2 * l) > (a * n) * (2 * l),
                    l >= 1,
            ;
            assert((next * d) * big < (c * n) * big) by (nonlinear_arith)
                requires
                    next * big <= n * m,
                    d * m < c * big,
                    d >= 1,
                    n >= 1,
            ;
            assert(next * d < c * n) by (nonlinear_arith)
                requires
                    (next * d) * big < (c * n) * big,
                    big > 0,
            ;
            assert(n == b * (c * n - next * d) + d * (next * b - a * n)) by (nonlinear_arith)
                requires
                    b * c - a * d == 1,
            ;
            assert(n >= b + d) by (nonlinear_arith)
                requires
                    n == b * (c * n - next * d) + d * (next * b - a * n),
                    c * n - next * d >= 1,
                    next * b - a * n >= 1,
                    b >= 1,
                    d >= 1,
            ;
        }
    }
}

/// The entries for the decimal exponents from 0 to 40.
proof fn lemma_exact_up_0()
    ensures
        excess_within(40, 0x3127_5061_0f97_fee4int, 0x3127_5061_0f97_ff02int),
        forall|f: int| 0 <= f <= 40 ==> exact_everywhere(f) && is_ceiling(f),
{
    reveal(multiplier);
    lemma_excess_at_zero();
    lemma_exact_by_zero(0);
    lemma_excess_up(0, 0x0int, 0x0int, 2, 0xccc_cccc_cccc_ccccint, 0xccc_cccc_cccc_cccdint);
    lemma_exact_by_factor(1, 0xccc_cccc_cccc_ccccint, 0xccc_cccc_cccc_cccdint);
    lemma_excess_up(1, 0xccc_cccc_cccc_ccccint, 0xccc_cccc_cccc_cccdint, 0, 0xa3d_70a3_d70a_3d70int, 0xa3d_70a3_d70a_3d71int);
    lemma_exact_by_factor(2, 0xa3d_70a3_d70a_3d70int, 0xa3d_70a3_d70a_3d71int);
    lemma_excess_up(2, 0xa3d_70a3_d70a_3d70int, 0xa3d_70a3_d70a_3d71int, 4, 0x21ca_c083_126e_978cint, 0x21ca_c083_126e_978eint);
    lemma_exact_by_factor(3, 0x21ca_c083_126e_978cint, 0x21ca_c083_126e_978eint);
    lemma_excess_up(3, 0x21ca_c083_126e_978cint, 0x21ca_c083_126e_978eint, -6, 0xfaa_cd9e_83e4_25acint, 0xfaa_cd9e_83e4_25b0int);
    lemma_exact_by_factor(4, 0xfaa_cd9e_83e4_25acint, 0xfaa_cd9e_83e4_25b0int);
    lemma_excess_up(4, 0xfaa_cd9e_83e4_25acint, 0xfaa_cd9e_83e4_25b0int, 0, 0xc88_a47e_cfe9_b7bcint, 0xc88_a47e_cfe9_b7c0int);
    lemma_exact_by_factor(5, 0xc88_a47e_cfe9_b7bcint, 0xc88_a47e_cfe9_b7c0int);
    lemma_excess_up(5, 0xc88_a47e_cfe9_b7bcint, 0xc88_a47e_cfe9_b7c0int, 0, 0xa06_e9ff_0cba_f963int, 0xa06_e9ff_0cba_f967int);
    lemma_exact_by_factor(6, 0xa06_e9ff_0cba_f963int, 0xa06_e9ff_0cba_f967int);
    lemma_excess_up(6, 0xa06_e9ff_0cba_f963int, 0xa06_e9ff_0cba_f967int, 2, 0x1cd7_dccb_4791_8f04int, 0x1cd7_dccb_4791_8f0cint);
    lemma_exact_by_factor(7, 0x1cd7_dccb_4791_8f04int, 0x1cd7_dccb_4791_8f0cint);
    lemma_excess_up(7, 0x1cd7_dccb_4791_8f04int, 0x1cd7_dccb_4791_8f0cint, 4, 0x30ac_b0a2_9fa7_a59cint, 0x30ac_b0a2_9fa7_a5a4int);
    lemma_exact_by_factor(8, 0x30ac_b0a2_9fa7_a59cint, 0x30ac_b0a2_9fa7_a5a4int);
    lemma_excess_up(8, 0x30ac_b0a2_9fa7_a59cint, 0x30ac_b0a2_9fa7_a5a4int, -6, 0x8a_26e8_7fb9_5149int, 0x8a_26e8_7fb9_5150int);
    lemma_exact_by_factor(9, 0x8a_26e8_7fb9_5149int, 0x8a_26e8_7fb9_5150int);
    lemma_excess_up(9, 0x8a_26e8_7fb9_5149int, 0x8a_26e8_7fb9_5150int, 8, 0x3410_3e40_cc5b_b541int, 0x3410_3e40_cc5b_b54dint);
    lemma_exact_by_factor(10, 0x3410_3e40_cc5b_b541int, 0x3410_3e40_cc5b_b54dint);
    lemma_excess_up(10, 0x3410_3e40_cc5b_b541int, 0x3410_3e40_cc5b_b54dint, -6, 0x340_31cd_7049_5dcdint, 0x340_31cd_7049_5dd8int);
    lemma_exact_by_factor(11, 0x340_31cd_7049_5dcdint, 0x340_31cd_7049_5dd8int);
    lemma_excess_up(11, 0x340_31cd_7049_5dcdint, 0x340_31cd_7049_5dd8int, 0, 0x299_c171_26a1_17d7int, 0x299_c171_26a1_17e0int);
    lemma_exact_by_factor(12, 0x299_c171_26a1_17d7int, 0x299_c171_26a1_17e0int);
    lemma_excess_up(12, 0x299_c171_26a1_17d7int, 0x299_c171_26a1_17e0int, 4, 0x1dc2_cf1b_7101_bfbeint, 0x1dc2_cf1b_7101_bfcdint);
    lemma_exact_by_factor(13, 0x1dc2_cf1b_7101_bfbeint, 0x1dc2_cf1b_7101_bfcdint);
    lemma_excess_up(13, 0x1dc2_cf1b_7101_bfbeint, 0x1dc2_cf1b_7101_bfcdint, 2, 0x249b_d8e2_c0ce_32feint, 0x249b_d8e2_c0ce_330bint);
    lemma_exact_by_factor(14, 0x249b_d8e2_c0ce_32feint, 0x249b_d8e2_c0ce_330bint);
    lemma_excess_up(14, 0x249b_d8e2_c0ce_32feint, 0x249b_d8e2_c0ce_330bint, 2, 0x2a16_471b_cd71_c264int, 0x2a16_471b_cd71_c270int);
    lemma_exact_by_factor(15, 0x2a16_471b_cd71_c264int, 0x2a16_471b_cd71_c270int);
    lemma_excess_up(15, 0x2a16_471b_cd71_c264int, 0x2a16_471b_cd71_c270int, -8, 0x1023_a4f9_48b6_03d3int, 0x1023_a4f9_48b6_03e7int);
    lemma_exact_by_factor(16, 0x1023_a4f9_48b6_03d3int, 0x1023_a4f9_48b6_03e7int);
    lemma_excess_up(16, 0x1023_a4f9_48b6_03d3int, 0x1023_a4f9_48b6_03e7int, -2, 0x1c_83fa_a091_9ca8int, 0x1c_83fa_a091_9cb9int);
    lemma_exact_by_factor(17, 0x1c_83fa_a091_9ca8int, 0x1c_83fa_a091_9cb9int);
    lemma_excess_up(17, 0x1c_83fa_a091_9ca8int, 0x1c_83fa_a091_9cb9int, 8, 0x334a_032e_e6da_e3b9int, 0x334a_032e_e6da_e3c8int);
    lemma_exact_by_factor(18, 0x334a_032e_e6da_e3b9int, 0x334a_032e_e6da_e3c8int);
    lemma_excess_up(18, 0x334a_032e_e6da_e3b9int, 0x334a_032e_e6da_e3c8int, -4, 0x3876_6b7e_3e2b_05f4int, 0x3876_6b7e_3e2b_060dint);
    lemma_exact_by_factor(19, 0x3876_6b7e_3e2b_05f4int, 0x3876_6b7e_3e2b_060dint);
    lemma_excess_up(19, 0x3876_6b7e_3e2b_05f4int, 0x3876_6b7e_3e2b_060dint, 2, 0x39f8_55fe_9822_6b29int, 0x39f8_55fe_9822_6b3eint);
    lemma_exact_by_factor(20, 0x39f8_55fe_9822_6b29int, 0x39f8_55fe_9822_6b3eint);
    lemma_excess_up(20, 0x39f8_55fe_9822_6b29int, 0x39f8_55fe_9822_6b3eint, 0, 0x2e60_44cb_ace8_55baint, 0x2e60_44cb_ace8_55ccint);
    lemma_exact_by_factor(21, 0x2e60_44cb_ace8_55baint, 0x2e60_44cb_ace8_55ccint);
    lemma_excess_up(21, 0x2e60_44cb_ace8_55baint, 0x2e60_44cb_ace8_55ccint, -6, 0x23cd_3adf_7b0d_55f6int, 0x23cd_3adf_7b0d_5614int);
    lemma_exact_by_factor(22, 0x23cd_3adf_7b0d_55f6int, 0x23cd_3adf_7b0d_5614int);
    lemma_excess_up(22, 0x23cd_3adf_7b0d_55f6int, 0x23cd_3adf_7b0d_5614int, 0, 0x1ca4_2f19_2f3d_de5eint, 0x1ca4_2f19_2f3d_de77int);
    lemma_exact_by_factor(23, 0x1ca4_2f19_2f3d_de5eint, 0x1ca4_2f19_2f3d_de77int);
    lemma_excess_up(23, 0x1ca4_2f19_2f3d_de5eint, 0x1ca4_2f19_2f3d_de77int, -2, 0xa1c_f27a_8c31_7eb1int, 0xa1c_f27a_8c31_7ec6int);
    lemma_exact_by_factor(24, 0xa1c_f27a_8c31_7eb1int, 0xa1c_f27a_8c31_7ec6int);
    lemma_excess_up(24, 0xa1c_f27a_8c31_7eb1int, 0xa1c_f27a_8c31_7ec6int, 2, 0x1cfb_1d90_e04f_311bint, 0x1cfb_1d90_e04f_313dint);
    lemma_exact_by_fractions(25, 0x1cfb_1d90_e04f_311bint, 0x1cfb_1d90_e04f_313dint, 0x255_45bb_6802_50a6int, 0x269_90af_7b7b_2739int, 0xd5_5d22_4bfe_d7adint, 0xdc_9ced_c742_be76int);
    lemma_excess_up(25, 0x1cfb_1d90_e04f_311bint, 0x1cfb_1d90_e04f_313dint, 4, 0x30c8_e473_e6a5_c0e2int, 0x30c8_e473_e6a5_c0feint);
    lemma_exact_by_fractions(26, 0x30c8_e473_e6a5_c0e2int, 0x30c8_e473_e6a5_c0feint, 0x1dd_d162_b99b_73b8int, 0x269_90af_7b7b_2739int, 0x1c4_45d3_a8cc_9189int, 0x248_8c80_f6d1_01b0int);
    lemma_excess_up(26, 0x30c8_e473_e6a5_c0e2int, 0x30c8_e473_e6a5_c0feint, -4, 0xd6d_838f_ebb7_cd81int, 0xd6d_838f_ebb7_cd98int);
    lemma_exact_by_fractions(27, 0xd6d_838f_ebb7_cd81int, 0xd6d_838f_ebb7_cd98int, 0xc9_5860_b75d_bbf6int, 0x145_4a6f_0012_a661int, 0x1c4_45d3_a8cc_9189int, 0x2da_afa1_3485_421cint);
    lemma_excess_up(27, 0xd6d_838f_ebb7_cd81int, 0xd6d_838f_ebb7_cd98int, 2, 0x2248_d27f_df8c_7c01int, 0x2248_d27f_df8c_7c27int);
    lemma_exact_by_fractions(28, 0x2248_d27f_df8c_7c01int, 0x2248_d27f_df8c_7c27int, 0x46_9f23_0a88_7943int, 0x47_4f43_5978_aaedint, 0x2b4_ae3e_31ff_b749int, 0x2bb_6dbf_753c_91dcint);
    lemma_excess_up(28, 0x2248_d27f_df8c_7c01int, 0x2248_d27f_df8c_7c27int, 2, 0x283a_41ff_e609_fccdint, 0x283a_41ff_e609_fcecint);
    lemma_exact_by_fractions(29, 0x283a_41ff_e609_fccdint, 0x283a_41ff_e609_fcecint, 0xc3_088e_df39_ec11int, 0xf6_2ab3_36c7_cf64int, 0x1f1_a5af_52c5_cb38int, 0x274_1e7c_1bc3_e6efint);
    lemma_excess_up(29, 0x283a_41ff_e609_fccdint, 0x283a_41ff_e609_fcecint, 4, 0x39c8_34cc_b807_fd70int, 0x39c8_34cc_b807_fd8aint);
    lemma_exact_by_fractions(30, 0x39c8_34cc_b807_fd70int, 0x39c8_34cc_b807_fd8aint, 0xc3_088e_df39_ec11int, 0x133_b560_0479_c33dint, 0x18e_1e25_dbd1_6f60int, 0x274_1e7c_1bc3_e6efint);
    lemma_excess_up(30, 0x39c8_34cc_b807_fd70int, 0x39c8_34cc_b807_fd8aint, 0, 0x2e39_c3d6_f99f_fdf3int, 0x2e39_c3d6_f99f_fe08int);
    lemma_exact_by_fractions(31, 0x2e39_c3d6_f99f_fdf3int, 0x2e39_c3d6_f99f_fe08int, 0x1f9_7a0b_71b7_1453int, 0x3e4_e089_09d7_a269int, 0x112_a830_0b30_9bf1int, 0x21d_aa57_0c89_2dc8int);
    lemma_excess_up(31, 0x2e39_c3d6_f99f_fdf3int, 0x2e39_c3d6_f99f_fe08int, -2, 0x3d29_3957_f5cc_c984int, 0x3d29_3957_f5cc_c9a7int);
    lemma_exact_by_fractions(32, 0x3d29_3957_f5cc_c984int, 0x3d29_3957_f5cc_c9a7int, 0x247_22cb_00ba_8f55int, 0x2ce_c53f_ae7d_e386int, 0x36_ee70_023c_ebfdint, 0x43_b54a_e191_25b9int);
    lemma_excess_up(32, 0x3d29_3957_f5cc_c984int, 0x3d29_3957_f5cc_c9a7int, -2, 0x2420_faac_c4a3_d469int, 0x2420_faac_c4a3_d486int);
    lemma_exact_by_fractions(33, 0x2420_faac_c4a3_d469int, 0x2420_faac_c4a3_d486int, 0x1ea_2922_4290_6163int, 0x2f3_364c_68f1_3986int, 0xdb_b9c0_08f3_aff4int, 0x152_8a76_67d5_bc9dint);
    lemma_excess_up(33, 0x2420_faac_c4a3_d469int, 0x2420_faac_c4a3_d486int, -2, 0x101a_6223_d083_1054int, 0x101a_6223_d083_106cint);
    lemma_exact_by_fractions(34, 0x101a_6223_d083_1054int, 0x101a_6223_d083_106cint, 0x17d_fc94_91eb_4d9dint, 0x2df_adf4_829f_c973int, 0xa5_a379_30a1_2611int, 0x13f_021e_8184_4c8aint);
    lemma_excess_up(34, 0x101a_6223_d083_1054int, 0x101a_6223_d083_106cint, 2, 0x2690_9d06_1a6b_4d53int, 0x2690_9d06_1a6b_4d7aint);
    lemma_exact_by_fractions(35, 0x2690_9d06_1a6b_4d53int, 0x2690_9d06_1a6b_4d7aint, 0x263_2dba_8312_15c8int, 0x2df_adf4_829f_c973int, 0x13e_6ee7_d165_ab83int, 0x17f_4cd0_319a_a233int);
    lemma_excess_up(35, 0x2690_9d06_1a6b_4d53int, 0x2690_9d06_1a6b_4d7aint, -4, 0x540_7d9e_7b89_0aa8int, 0x540_7d9e_7b89_0ac8int);
    lemma_exact_by_fractions(36, 0x540_7d9e_7b89_0aa8int, 0x540_7d9e_7b89_0ac8int, 0x139_4bb0_64a7_04ddint, 0x1d7_6519_45db_ec03int, 0x14d_d88e_17a1_9f75int, 0x1f6_50c5_2671_66f6int);
    lemma_excess_up(36, 0x540_7d9e_7b89_0aa8int, 0x540_7d9e_7b89_0ac8int, 2, 0x1100_647e_c93a_6eecint, 0x1100_647e_c93a_6f07int);
    lemma_exact_by_fractions(37, 0x1100_647e_c93a_6eecint, 0x1100_647e_c93a_6f07int, 0x135_2f84_0da8_1925int, 0x245_8374_9f2d_8847int, 0x145_a035_69a3_c805int, 0x264_6f20_7fc3_033aint);
    lemma_excess_up(37, 0x1100_647e_c93a_6eecint, 0x1100_647e_c93a_6f07int, 4, 0x34cd_6d97_a85d_7e46int, 0x34cd_6d97_a85d_7e72int);
    lemma_exact_by_fractions(38, 0x34cd_6d97_a85d_7e46int, 0x34cd_6d97_a85d_7e72int, 0x131_e5c6_fb42_8fc5int, 0x167_94b3_6769_c5ceint, 0x27e_1976_89b1_6a8aint, 0x2ee_1512_af69_068fint);
    lemma_excess_up(38, 0x34cd_6d97_a85d_7e46int, 0x34cd_6d97_a85d_7e72int, -2, 0x1d71_2479_537d_fe9eint, 0x1d71_2479_537d_fec2int);
    lemma_exact_by_fractions(39, 0x1d71_2479_537d_fe9eint, 0x1d71_2479_537d_fec2int, 0x1b6_c740_676e_e747int, 0x284_ba0f_e543_d7a2int, 0x109_c2f2_d858_af04int, 0x186_805f_47ff_40c1int);
    lemma_excess_up(39, 0x1d71_2479_537d_fe9eint, 0x1d71_2479_537d_fec2int, 4, 0x3127_5061_0f97_fee4int, 0x3127_5061_0f97_ff02int);
    lemma_exact_by_fractions(40, 0x3127_5061_0f97_fee4int, 0x3127_5061_0f97_ff02int, 0x9c_f65f_1ab8_ab29int, 0x120_4b5c_47f3_4159int, 0x196_ab63_7eb3_cd13int, 0x2ea_ef12_e54f_d70aint);
}

/// The entries for the decimal exponents from 41 to 80.
proof fn lemma_exact_up_1()
    ensures
        excess_within(80, 0x3f78_95ce_43ab_2277int, 0x3f78_95ce_43ab_22b5int),
        forall|f: int| 41 <= f <= 80 ==> exact_everywhere(f) && is_ceiling(f),
{
    reveal(multiplier);
    lemma_exact_up_0();
    lemma_excess_up(40, 0x3127_5061_0f97_fee4int, 0x3127_5061_0f97_ff02int, -6, 0x283e_e701_b28c_cb06int, 0x283e_e701_b28c_cb37int);
    lemma_exact_by_fractions(41, 0x283e_e701_b28c_cb06int, 0x283e_e701_b28c_cb37int, 0x22d_ed2d_1b10_6af7int, 0x280_77da_6fee_0253int, 0x145_55e9_3229_70dcint, 0x175_7789_72a7_eb85int);
    lemma_excess_up(41, 0x283e_e701_b28c_cb06int, 0x283e_e701_b28c_cb37int, 0, 0x2032_5267_c20a_3c04int, 0x2032_5267_c20a_3c2cint);
    lemma_exact_by_fractions(42, 0x2032_5267_c20a_3c04int, 0x2032_5267_c20a_3c2cint, 0x1be_5757_48d9_ef2cint, 0x280_77da_6fee_0253int, 0x1b4_ebbf_045f_eca7int, 0x272_f362_6b4d_66fbint);
    lemma_excess_up(42, 0x2032_5267_c20a_3c04int, 0x2032_5267_c20a_3c2cint, -2, 0xcf5_0eb9_6808_3003int, 0xcf5_0eb9_6808_3024int);
    lemma_exact_by_fractions(43, 0xcf5_0eb9_6808_3003int, 0xcf5_0eb9_6808_3024int, 0x16c_9bf2_d776_5af4int, 0x28d_fc52_748e_9dabint, 0x163_305a_92fc_586fint, 0x27d_16bc_6ec5_db7dint);
    lemma_excess_up(43, 0xcf5_0eb9_6808_3003int, 0xcf5_0eb9_6808_3024int, -2, 0x7ee_7df5_7340_4cd1int, 0x7ee_7df5_7340_4d07int);
    lemma_exact_by_fractions(44, 0x7ee_7df5_7340_4cd1int, 0x7ee_7df5_7340_4d07int, 0x97_7eef_b278_8c4bint, 0xa9_d52c_df4e_f03cint, 0x238_4d5d_b7fa_2718int, 0x27d_16bc_6ec5_db7dint);
    lemma_excess_up(44, 0x7ee_7df5_7340_4cd1int, 0x7ee_7df5_7340_4d07int, 6, 0x2cbe_cb2a_c299_d70dint, 0x2cbe_cb2a_c299_d739int);
    lemma_exact_by_fractions(45, 0x2cbe_cb2a_c299_d70dint, 0x2cbe_cb2a_c299_d739int, 0x1e4_f0e1_5079_d4efint, 0x2a7_8c07_a699_978cint, 0x14d_71f1_9e01_48a4int, 0x1d3_418f_8f76_eb41int);
    lemma_excess_up(45, 0x2cbe_cb2a_c299_d70dint, 0x2cbe_cb2a_c299_d739int, 2, 0x3098_a288_9bae_45a4int, 0x3098_a288_9bae_45c8int);
    lemma_exact_by_fractions(46, 0x3098_a288_9bae_45a4int, 0x3098_a288_9bae_45c8int, 0x1e4_f0e1_5079_d4efint, 0x351_6f09_903f_fd6fint, 0x1cc_bb81_d1cb_5c16int, 0x327_0793_62c3_b707int);
    lemma_excess_up(46, 0x3098_a288_9bae_45a4int, 0x3098_a288_9bae_45c8int, -10, 0xdc1_040d_c5e3_a2a0int, 0xdc1_040d_c5e3_a2daint);
    lemma_exact_by_fractions(47, 0xdc1_040d_c5e3_a2a0int, 0xdc1_040d_c5e3_a2daint, 0x18_355f_7eae_78d9int, 0x1a_80a9_dc6d_ac01int, 0x2b5_98bd_6ba4_ed03int, 0x2f7_532e_6f97_e7d2int);
    lemma_excess_up(47, 0xdc1_040d_c5e3_a2a0int, 0xdc1_040d_c5e3_a2daint, 6, 0x3167_3671_6b1c_8219int, 0x3167_3671_6b1c_8248int);
    lemma_exact_by_fractions(48, 0x3167_3671_6b1c_8219int, 0x3167_3671_6b1c_8248int, 0x1d0_9330_a459_7fe7int, 0x27b_c00b_7ac4_1be0int, 0x115_704b_c4a8_5eceint, 0x17b_a997_37cb_f3e9int);
    lemma_excess_up(48, 0x3167_3671_6b1c_8219int, 0x3167_3671_6b1c_8248int, 2, 0x3452_91f4_55b0_6814int, 0x3452_91f4_55b0_683aint);
    lemma_exact_by_fractions(49, 0x3452_91f4_55b0_6814int, 0x3452_91f4_55b0_683aint, 0x5c_ea3c_edab_7ffbint, 0x9e_f002_deb1_06f8int, 0x228_43c1_809c_7b56int, 0x3b0_afe2_ded5_99bdint);
    lemma_excess_up(49, 0x3452_91f4_55b0_6814int, 0x3452_91f4_55b0_683aint, -6, 0x2d50_e986_ef80_a686int, 0x2d50_e986_ef80_a6c4int);
    lemma_exact_by_fractions(50, 0x2d50_e986_ef80_a686int, 0x2d50_e986_ef80_a6c4int, 0x5c_ea3c_edab_7ffbint, 0x63_5601_cb2e_a45bint, 0x2b9_cb22_25a3_5efaint, 0x2ea_03df_4878_5107int);
    lemma_excess_up(50, 0x2d50_e986_ef80_a686int, 0x2d50_e986_ef80_a6c4int, 0, 0x2440_bad2_5933_b86bint, 0x2440_bad2_5933_b89dint);
    lemma_exact_by_fractions(51, 0x2440_bad2_5933_b86bint, 0x2440_bad2_5933_b89dint, 0x173_a8f3_b6ad_ffecint, 0x1f0_ae08_f7e9_35c7int, 0x157_f8c0_1266_c627int, 0x1cb_ad7c_c0de_583cint);
    lemma_excess_up(51, 0x2440_bad2_5933_b86bint, 0x2440_bad2_5933_b89dint, 4, 0x369a_2f0e_adc2_f9efint, 0x369a_2f0e_adc2_fa18int);
    lemma_exact_by_fractions(52, 0x369a_2f0e_adc2_f9efint, 0x369a_2f0e_adc2_fa18int, 0x250_5041_de13_2fb1int, 0x3dd_7257_64bb_6e20int, 0x44_cb59_9d47_c13bint, 0x72_eb5f_3037_960fint);
    lemma_excess_up(52, 0x369a_2f0e_adc2_f9efint, 0x369a_2f0e_adc2_fa18int, -6, 0x30f6_b1b1_1604_c318int, 0x30f6_b1b1_1604_c35aint);
    lemma_exact_by_fractions(53, 0x30f6_b1b1_1604_c318int, 0x30f6_b1b1_1604_c35aint, 0x2be_626a_d9b9_31a9int, 0x2dd_52d5_cf2c_bae3int, 0x6e_1228_fba6_01f8int, 0x72_eb5f_3037_960fint);
    lemma_excess_up(53, 0x30f6_b1b1_1604_c318int, 0x30f6_b1b1_1604_c35aint, -2, 0x1a5e_f48d_ab37_0279int, 0x1a5e_f48d_ab37_02afint);
    lemma_exact_by_fractions(54, 0x1a5e_f48d_ab37_0279int, 0x1a5e_f48d_ab37_02afint, 0x144_fb6e_5559_47daint, 0x1a8_1f1a_7fb2_2879int, 0x17e_a209_21f8_a7ddint, 0x1f3_5bfb_3864_0b62int);
    lemma_excess_up(54, 0x1a5e_f48d_ab37_0279int, 0x1a5e_f48d_ab37_02afint, 0, 0x1518_c3a4_88f8_cec7int, 0x1518_c3a4_88f8_cef3int);
    lemma_exact_by_fractions(55, 0x1518_c3a4_88f8_cec7int, 0x1518_c3a4_88f8_cef3int, 0x236_1792_c5db_262cint, 0x39b_7b15_b816_33dbint, 0x63_963f_bf0b_14c7int, 0xa2_756f_2a71_f44dint);
    lemma_excess_up(55, 0x1518_c3a4_88f8_cec7int, 0x1518_c3a4_88f8_cef3int, -2, 0x14f4_6c3a_74c1_4ad8int, 0x14f4_6c3a_74c1_4b1fint);
    lemma_exact_by_fractions(56, 0x14f4_6c3a_74c1_4ad8int, 0x14f4_6c3a_74c1_4b1fint, 0x299_add2_84e6_3af3int, 0x2a6_b653_0d95_1919int, 0x124_7990_190c_936fint, 0x12a_337f_c6c2_f952int);
    lemma_excess_up(56, 0x14f4_6c3a_74c1_4ad8int, 0x14f4_6c3a_74c1_4b1fint, 4, 0x2a5d_2361_f701_08acint, 0x2a5d_2361_f701_08e6int);
    lemma_exact_by_fractions(57, 0x2a5d_2361_f701_08acint, 0x2a5d_2361_f701_08e6int, 0xcf_c6d0_fcf3_2d4bint, 0x108_ce49_9519_ce38int, 0x248_f320_3219_26deint, 0x2e9_80bf_70e7_6f4dint);
    lemma_excess_up(57, 0x2a5d_2361_f701_08acint, 0x2a5d_2361_f701_08e6int, 2, 0x2eb0_e91b_2c00_d3bcint, 0x2eb0_e91b_2c00_d3ecint);
    lemma_exact_by_fractions(58, 0x2eb0_e91b_2c00_d3bcint, 0x2eb0_e91b_2c00_d3ecint, 0xcf_c6d0_fcf3_2d4bint, 0x14b_01db_fa60_41c6int, 0x180_d95f_c2e6_0cfaint, 0x265_199a_a65a_8831int);
    lemma_excess_up(58, 0x2eb0_e91b_2c00_d3bcint, 0x2eb0_e91b_2c00_d3ecint, 2, 0x3227_20e2_899a_42fcint, 0x3227_20e2_899a_4324int);
    lemma_exact_by_fractions(59, 0x3227_20e2_899a_42fcint, 0x3227_20e2_899a_4324int, 0x19f_8da1_f9e6_5a96int, 0x33b_84a5_f1f0_a46fint, 0x1bc_d3b1_49b0_77cdint, 0x375_d00e_4955_b733int);
    lemma_excess_up(59, 0x3227_20e2_899a_42fcint, 0x3227_20e2_899a_4324int, -4, 0x36a5_016a_75c3_9e60int, 0x36a5_016a_75c3_9ea0int);
    lemma_exact_by_fractions(60, 0x36a5_016a_75c3_9e60int, 0x36a5_016a_75c3_9ea0int, 0x146_967e_84c3_0f6dint, 0x196_78e5_ee0b_afdfint, 0x181_229d_2457_49dbint, 0x1df_5728_5b4a_0754int);
    lemma_excess_up(60, 0x36a5_016a_75c3_9e60int, 0x36a5_016a_75c3_9ea0int, 0, 0x2bb7_3455_2b02_e519int, 0x2bb7_3455_2b02_e54dint);
    lemma_exact_by_fractions(61, 0x2bb7_3455_2b02_e519int, 0x2bb7_3455_2b02_e54dint, 0x6b_3759_8edf_8866int, 0xa6_cd51_c066_ac35int, 0x1ec_59f6_b336_d241int, 0x2fd_fa44_3283_355eint);
    lemma_excess_up(61, 0x2bb7_3455_2b02_e519int, 0x2bb7_3455_2b02_e54dint, 2, 0x2fc5_c377_559b_ea7aint, 0x2fc5_c377_559b_eaa4int);
    lemma_exact_by_fractions(62, 0x2fc5_c377_559b_ea7aint, 0x2fc5_c377_559b_eaa4int, 0x1fd_d7e0_bc79_8ef3int, 0x3df_7cff_86e3_168bint, 0xc4_f0c9_147c_541aint, 0x17e_fd22_1941_9aafint);
    lemma_excess_up(62, 0x2fc5_c377_559b_ea7aint, 0x2fc5_c377_559b_eaa4int, -4, 0x32d6_058b_bc2c_aa5cint, 0x32d6_058b_bc2c_aaa0int);
    lemma_exact_by_fractions(63, 0x32d6_058b_bc2c_aa5cint, 0x32d6_058b_bc2c_aaa0int, 0xdc_220b_fec9_4f0dint, 0x10b_8e8c_ba54_fcd3int, 0x1da_dc0c_a9f4_158fint, 0x241_28ea_da9f_154cint);
    lemma_excess_up(63, 0x32d6_058b_bc2c_aa5cint, 0x32d6_058b_bc2c_aaa0int, 2, 0x3578_046f_c9bd_5516int, 0x3578_046f_c9bd_554dint);
    lemma_exact_by_fractions(64, 0x3578_046f_c9bd_5516int, 0x3578_046f_c9bd_554dint, 0x51_226d_76a3_6e21int, 0x7b_4452_03ad_3780int, 0x1da_dc0c_a9f4_158fint, 0x2d1_7325_9146_da9fint);
    lemma_excess_up(64, 0x3578_046f_c9bd_5516int, 0x3578_046f_c9bd_554dint, -4, 0x112c_d059_6e31_10deint, 0x112c_d059_6e31_110bint);
    lemma_exact_by_fractions(65, 0x112c_d059_6e31_10deint, 0x112c_d059_6e31_110bint, 0x51_226d_76a3_6e21int, 0x9a_1566_8498_8560int, 0x1dd_3fc0_afed_c89aint, 0x38a_59a0_96ca_addfint);
    lemma_excess_up(65, 0x112c_d059_6e31_10deint, 0x112c_d059_6e31_110bint, 0, 0x1b7a_e6f5_7d1b_4e30int, 0x1b7a_e6f5_7d1b_4e78int);
    lemma_exact_by_fractions(66, 0x1b7a_e6f5_7d1b_4e30int, 0x1b7a_e6f5_7d1b_4e78int, 0x51_226d_76a3_6e21int, 0x60_4d60_12df_535cint, 0x279_c885_2876_f728int, 0x2f0_443a_1232_287fint);
    lemma_excess_up(66, 0x1b7a_e6f5_7d1b_4e30int, 0x1b7a_e6f5_7d1b_4e78int, 0, 0x15fb_ebf7_9749_0b59int, 0x15fb_ebf7_9749_0b94int);
    lemma_exact_by_fractions(67, 0x15fb_ebf7_9749_0b59int, 0x15fb_ebf7_9749_0b94int, 0x51_226d_76a3_6e21int, 0x78_60b8_1797_2833int, 0x1ca_588f_3f96_b6d9int, 0x2a8_0a32_040a_a9faint);
    lemma_excess_up(67, 0x15fb_ebf7_9749_0b59int, 0x15fb_ebf7_9749_0b94int, 0, 0x1196_565f_ac3a_6f7aint, 0x1196_565f_ac3a_6faaint);
    lemma_exact_by_fractions(68, 0x1196_565f_ac3a_6f7aint, 0x1196_565f_ac3a_6faaint, 0x1f6_2f22_0bf0_d545int, 0x3a3_5a29_d599_0c2eint, 0x3b_3724_1076_5eebint, 0x6d_d230_7537_1665int);
    lemma_excess_up(68, 0x1196_565f_ac3a_6f7aint, 0x1196_565f_ac3a_6faaint, -4, 0x28a_23cc_46c3_e590int, 0x28a_23cc_46c3_e5ddint);
    lemma_exact_by_fractions(69, 0x28a_23cc_46c3_e590int, 0x28a_23cc_46c3_e5ddint, 0x99_8057_2ace_6fc6int, 0xb1_ed72_3aca_b7d9int, 0x26c_9d6a_2cdd_931bint, 0x2cf_5f16_b804_839bint);
    lemma_excess_up(69, 0x28a_23cc_46c3_e590int, 0x28a_23cc_46c3_e5ddint, 4, 0x1ba1_b63d_0569_8473int, 0x1ba1_b63d_0569_84b1int);
    lemma_exact_by_fractions(70, 0x1ba1_b63d_0569_8473int, 0x1ba1_b63d_0569_84b1int, 0x7a_cd12_88a5_2638int, 0xb1_ed72_3aca_b7d9int, 0x210_839c_4661_b671int, 0x2fd_c4c6_b9ed_9a9fint);
    lemma_excess_up(70, 0x1ba1_b63d_0569_8473int, 0x1ba1_b63d_0569_84b1int, 6, 0x3c81_5e97_3787_9d28int, 0x3c81_5e97_3787_9d5bint);
    lemma_exact_by_fractions(71, 0x3c81_5e97_3787_9d28int, 0x3c81_5e97_3787_9d5bint, 0x62_3da8_6d50_eb60int, 0xb1_ed72_3aca_b7d9int, 0x229_1306_61b5_f149int, 0x3e9_b154_f71b_af3dint);
    lemma_excess_up(71, 0x3c81_5e97_3787_9d28int, 0x3c81_5e97_3787_9d5bint, -6, 0x3a68_9758_58d8_fb73int, 0x3a68_9758_58d8_fbc5int);
    lemma_exact_by_fractions(72, 0x3a68_9758_58d8_fb73int, 0x3a68_9758_58d8_fbc5int, 0x2a2_8f8a_2c18_2243int, 0x2fb_935e_1aaa_bc3dint, 0xc_5fbf_3fd3_7815int, 0xe_01c3_3a24_c300int);
    lemma_excess_up(72, 0x3a68_9758_58d8_fb73int, 0x3a68_9758_58d8_fbc5int, 0, 0x2eba_12ad_13e0_c928int, 0x2eba_12ad_13e0_c96bint);
    lemma_exact_by_fractions(73, 0x2eba_12ad_13e0_c928int, 0x2eba_12ad_13e0_c96bint, 0x216_b2ee_d68b_84faint, 0x2f4_927c_7d98_5abdint, 0xc_5fbf_3fd3_7815int, 0x11_8234_08ad_f3c0int);
    lemma_excess_up(73, 0x2eba_12ad_13e0_c928int, 0x2eba_12ad_13e0_c96bint, -2, 0x1894_dbbd_a980_a0ecint, 0x1894_dbbd_a980_a123int);
    lemma_exact_by_fractions(74, 0x1894_dbbd_a980_a0ecint, 0x1894_dbbd_a980_a123int, 0x21b_2011_ea12_0985int, 0x3b9_8b45_df3d_50edint, 0x227_7fd1_29e5_819aint, 0x3cf_6e06_ea16_c19dint);
    lemma_excess_up(74, 0x1894_dbbd_a980_a0ecint, 0x1894_dbbd_a980_a123int, 2, 0x3421_5f95_dc01_0179int, 0x3421_5f95_dc01_01d2int);
    lemma_exact_by_fractions(75, 0x3421_5f95_dc01_0179int, 0x3421_5f95_dc01_01d2int, 0x2ac_6a27_7904_8140int, 0x2f4_927c_7d98_5abdint, 0xc_5fbf_3fd3_7815int, 0xd_adb8_a6c7_e66eint);
    lemma_excess_up(75, 0x3421_5f95_dc01_0179int, 0x3421_5f95_dc01_01d2int, -4, 0x101a_b2de_499a_6794int, 0x101a_b2de_499a_67dcint);
    lemma_exact_by_fractions(76, 0x101a_b2de_499a_6794int, 0x101a_b2de_499a_67dcint, 0x154_95e5_55de_228bint, 0x1d6_9ddc_a491_80c5int, 0x16d_5563_d585_12b5int, 0x1f8_d02a_4585_40d8int);
    lemma_excess_up(76, 0x101a_b2de_499a_6794int, 0x101a_b2de_499a_67dcint, 4, 0x267b_c24b_6e15_1fa9int, 0x267b_c24b_6e15_1fe4int);
    lemma_exact_by_fractions(77, 0x267b_c24b_6e15_1fa9int, 0x267b_c24b_6e15_1fe4int, 0x1d7_dec1_5eaf_3387int, 0x32f_07ae_b7c1_b154int, 0x1a2_9a12_9a1a_231eint, 0x2d3_05f1_c754_2131int);
    lemma_excess_up(77, 0x267b_c24b_6e15_1fa9int, 0x267b_c24b_6e15_1fe4int, -6, 0x172c_6a12_49bb_65dbint, 0x172c_6a12_49bb_663aint);
    lemma_exact_by_fractions(78, 0x172c_6a12_49bb_65dbint, 0x172c_6a12_49bb_663aint, 0x88_fd18_e367_176fint, 0x93_e1d4_4f2e_fe3cint, 0x29d_c350_f690_3830int, 0x2d3_05f1_c754_2131int);
    lemma_excess_up(78, 0x172c_6a12_49bb_65dbint, 0x172c_6a12_49bb_663aint, 2, 0x1f56_bb41_d495_eb15int, 0x1f56_bb41_d495_eb62int);
    lemma_exact_by_fractions(79, 0x1f56_bb41_d495_eb15int, 0x1f56_bb41_d495_eb62int, 0x88_fd18_e367_176fint, 0xb8_da49_62fa_bdcbint, 0x1fc_69a2_315e_c1ddint, 0x2ae_0d7c_b388_61a2int);
    lemma_excess_up(79, 0x1f56_bb41_d495_eb15int, 0x1f56_bb41_d495_eb62int, 6, 0x3f78_95ce_43ab_2277int, 0x3f78_95ce_43ab_22b5int);
    lemma_exact_by_fractions(80, 0x3f78_95ce_43ab_2277int, 0x3f78_95ce_43ab_22b5int, 0x167_d7d1_abc8_7db1int, 0x25e_f742_3823_a81fint, 0x129_23a1_0b2c_8858int, 0x1f5_3333_508d_a3d7int);
}

/// The entries for the decimal exponents from 81 to 120.
proof fn lemma_exact_up_2()
    ensures
        excess_within(120, 0x1832_4e2b_f8f4_012cint, 0x1832_4e2b_f8f4_0190int),
        forall|f: int| 81 <= f <= 120 ==> exact_everywhere(f) && is_ceiling(f),
{
    reveal(multiplier);
    lemma_exact_up_1();
    lemma_excess_up(80, 0x3f78_95ce_43ab_2277int, 0x3f78_95ce_43ab_22b5int, -8, 0x325a_894a_05de_9d8bint, 0x325a_894a_05de_9defint);
    lemma_exact_by_fractions(81, 0x325a_894a_05de_9d8bint, 0x325a_894a_05de_9defint, 0x265_5f06_4004_c2b7int, 0x286_a0c7_cefb_e9baint, 0x226_aad5_9f68_cd5eint, 0x244_863e_7e3e_270dint);
    lemma_excess_up(81, 0x325a_894a_05de_9d8bint, 0x325a_894a_05de_9defint, -6, 0x1e2_076e_6b18_7e08int, 0x1e2_076e_6b18_7e59int);
    lemma_exact_by_fractions(82, 0x1e2_076e_6b18_7e08int, 0x1e2_076e_6b18_7e59int, 0x189_1ab0_cd0e_0a2bint, 0x206_05da_839b_d0a2int, 0x1b8_88aa_e5ed_7118int, 0x244_863e_7e3e_270dint);
    lemma_excess_up(82, 0x1e2_076e_6b18_7e08int, 0x1e2_076e_6b18_7e59int, 6, 0x27e8_05f1_ef46_cb39int, 0x27e8_05f1_ef46_cb7bint);
    lemma_exact_by_fractions(83, 0x27e8_05f1_ef46_cb39int, 0x27e8_05f1_ef46_cb7bint, 0xfe_d59a_eb61_c8dfint, 0x1a3_c495_e006_07afint, 0x1e7_f6a4_fecc_d805int, 0x323_c84b_1718_9cd6int);
    lemma_excess_up(83, 0x27e8_05f1_ef46_cb39int, 0x27e8_05f1_ef46_cb7bint, -2, 0x330c_d64f_e53e_11f4int, 0x330c_d64f_e53e_125fint);
    lemma_exact_by_fractions(84, 0x330c_d64f_e53e_11f4int, 0x330c_d64f_e53e_125fint, 0x1a0_6acb_6898_bee2int, 0x1ac_b4ce_0a42_e451int, 0x18a_b63a_90a2_0529int, 0x196_5c41_a0aa_bcbcint);
    lemma_excess_up(84, 0x330c_d64f_e53e_11f4int, 0x330c_d64f_e53e_125fint, 0, 0x28d7_11d9_8431_a7f6int, 0x28d7_11d9_8431_a84cint);
    lemma_exact_by_fractions(85, 0x28d7_11d9_8431_a7f6int, 0x28d7_11d9_8431_a84cint, 0x1eb_04ba_2721_6792int, 0x277_e2ee_da98_42afint, 0x18a_b63a_90a2_0529int, 0x1fb_f352_08d5_6bebint);
    lemma_excess_up(85, 0x28d7_11d9_8431_a7f6int, 0x28d7_11d9_8431_a84cint, 4, 0x3a45_a7e1_368e_1ff8int, 0x3a45_a7e1_368e_203dint);
    lemma_exact_by_fractions(86, 0x3a45_a7e1_368e_1ff8int, 0x3a45_a7e1_368e_203dint, 0x1af_5661_8eb4_13d2int, 0x2b5_dabd_4379_ae11int, 0x14f_07e1_f834_b169int, 0x21a_ef39_3d46_219cint);
    lemma_excess_up(86, 0x3a45_a7e1_368e_1ff8int, 0x3a45_a7e1_368e_203dint, -6, 0x36d5_d968_5749_ccc0int, 0x36d5_d968_5749_cd2fint);
    lemma_exact_by_fractions(87, 0x36d5_d968_5749_ccc0int, 0x36d5_d968_5749_cd2fint, 0x2a8_19c9_9d91_8e11int, 0x2ab_c2e2_6808_ac0aint, 0x29e_0fc3_f069_62d2int, 0x2a1_ab07_8c97_aa03int);
    lemma_excess_up(87, 0x36d5_d968_5749_ccc0int, 0x36d5_d968_5749_cd2fint, -4, 0x1244_aded_12a1_7099int, 0x1244_aded_12a1_70f3int);
    lemma_exact_by_fractions(88, 0x1244_aded_12a1_7099int, 0x1244_aded_12a1_70f3int, 0x8c_092a_97f9_fa83int, 0xaf_fca6_07ba_ac06int, 0x207_fc93_ab47_3d10int, 0x28d_7b51_d5b5_a5f5int);
    lemma_excess_up(88, 0x1244_aded_12a1_7099int, 0x1244_aded_12a1_70f3int, -2, 0x1d0_8b24_0ee7_8d47int, 0x1d0_8b24_0ee7_8d90int);
    lemma_exact_by_fractions(89, 0x1d0_8b24_0ee7_8d47int, 0x1d0_8b24_0ee7_8d90int, 0x118_1255_2ff3_f506int, 0x1b7_f79f_1352_ae0fint, 0x124_0421_6c7f_4855int, 0x1ca_bb25_70a6_d3ffint);
    lemma_excess_up(89, 0x1d0_8b24_0ee7_8d47int, 0x1d0_8b24_0ee7_8d90int, 2, 0xe40_6f50_0bec_7105int, 0xe40_6f50_0bec_7140int);
    lemma_exact_by_fractions(90, 0xe40_6f50_0bec_7105int, 0xe40_6f50_0bec_7140int, 0xe4_d5c9_0b61_4bbeint, 0x1c1_5962_41fc_c107int, 0x1d5_9d5e_534d_eacbint, 0x39a_272c_78a2_b17aint);
    lemma_excess_up(90, 0xe40_6f50_0bec_7105int, 0xe40_6f50_0bec_7140int, 0, 0x16cd_7ee6_797a_4e6eint, 0x16cd_7ee6_797a_4ecdint);
    lemma_exact_by_fractions(91, 0x16cd_7ee6_797a_4e6eint, 0x16cd_7ee6_797a_4ecdint, 0x16e_22db_4568_7930int, 0x1c1_5962_41fc_c107int, 0x231_2615_24a8_0917int, 0x2b0_aed4_5be4_df2eint);
    lemma_excess_up(91, 0x16cd_7ee6_797a_4e6eint, 0x16cd_7ee6_797a_4ecdint, -2, 0x571_3251_fac8_3ebeint, 0x571_3251_fac8_3f0bint);
    lemma_exact_by_fractions(92, 0x571_3251_fac8_3ebeint, 0x571_3251_fac8_3f0bint, 0x147_2236_18c2_2935int, 0x1f5_da5e_4c01_e9bfint, 0x1e3_24ca_cb5b_6921int, 0x2e5_2fd0_65ea_07e6int);
    lemma_excess_up(92, 0x571_3251_fac8_3ebeint, 0x571_3251_fac8_3f0bint, 0, 0x45a_8ea7_fbd3_6564int, 0x45a_8ea7_fbd3_65a3int);
    lemma_exact_by_fractions(93, 0x45a_8ea7_fbd3_6564int, 0x45a_8ea7_fbd3_65a3int, 0x1e9_3069_7994_e013int, 0x3aa_1381_8b7d_6098int, 0x9f_0864_09b5_fb65int, 0x130_f6ad_266e_910dint);
    lemma_excess_up(93, 0x45a_8ea7_fbd3_6564int, 0x45a_8ea7_fbd3_65a3int, 0, 0x6f7_4aa6_5fb8_a239int, 0x6f7_4aa6_5fb8_a29fint);
    lemma_exact_by_fractions(94, 0x6f7_4aa6_5fb8_a239int, 0x6f7_4aa6_5fb8_a29fint, 0x1e9_3069_7994_e013int, 0x24a_4c30_f72e_5c5fint, 0x1c2_20ca_402b_8576int, 0x21b_7b8d_894d_e933int);
    lemma_excess_up(94, 0x6f7_4aa6_5fb8_a239int, 0x6f7_4aa6_5fb8_a29fint, 4, 0x1f2c_3bb8_4c93_b4faint, 0x1f2c_3bb8_4c93_b54cint);
    lemma_exact_by_fractions(95, 0x1f2c_3bb8_4c93_b4faint, 0x1f2c_3bb8_4c93_b54cint, 0x196_f9c7_4507_a44eint, 0x261_b482_ae1e_95f5int, 0x16f_ea28_0b9e_49b1int, 0x227_2fb6_64c6_05feint);
    lemma_excess_up(95, 0x1f2c_3bb8_4c93_b4faint, 0x1f2c_3bb8_4c93_b54cint, 2, 0x25bc_fc93_7076_2a61int, 0x25bc_fc93_7076_2aa4int);
    lemma_exact_by_fractions(96, 0x25bc_fc93_7076_2a61int, 0x25bc_fc93_7076_2aa4int, 0x1be_0966_7e70_feebint, 0x343_47a2_b554_ef67int, 0x93_2a76_6b0c_1d7aint, 0x113_97db_3263_02ffint);
    lemma_excess_up(96, 0x25bc_fc93_7076_2a61int, 0x25bc_fc93_7076_2aa4int, -4, 0x22c7_fa85_80bd_109bint, 0x22c7_fa85_80bd_1107int);
    lemma_exact_by_fractions(97, 0x22c7_fa85_80bd_109bint, 0x22c7_fa85_80bd_1107int, 0x163_0383_e63b_bc8aint, 0x19f_83cd_131f_7e19int, 0x19b_2817_b912_97a3int, 0x1e1_39bd_7467_c871int);
    lemma_excess_up(97, 0x22c7_fa85_80bd_109bint, 0x22c7_fa85_80bd_1107int, 4, 0x356c_c86a_cd64_0d48int, 0x356c_c86a_cd64_0da0int);
    lemma_exact_by_fractions(98, 0x356c_c86a_cd64_0d48int, 0x356c_c86a_cd64_0da0int, 0xfa_5344_067b_acf9int, 0x16e_3b58_ca29_4657int, 0x132_77d7_d952_8812int, 0x1c0_5ec5_43c3_a345int);
    lemma_excess_up(98, 0x356c_c86a_cd64_0d48int, 0x356c_c86a_cd64_0da0int, -2, 0x1df0_a055_711c_d76cint, 0x1df0_a055_711c_d7b4int);
    lemma_exact_by_fractions(99, 0x1df0_a055_711c_d76cint, 0x1df0_a055_711c_d7b4int, 0x1d3_e451_6dc7_b546int, 0x357_abd4_4aba_1813int, 0x17a_fd86_fbc1_3581int, 0x2b5_1703_040c_0c23int);
    lemma_excess_up(99, 0x1df0_a055_711c_d76cint, 0x1df0_a055_711c_d7b4int, 0, 0x2fe7_66ef_1b61_58acint, 0x2fe7_66ef_1b61_5920int);
    lemma_exact_by_fractions(100, 0x2fe7_66ef_1b61_58acint, 0x2fe7_66ef_1b61_5920int, 0x58_e6ca_7206_7fc5int, 0x65_9d02_cc2c_c776int, 0x293_b9b7_d739_08abint, 0x2f2_0ed1_7e8d_509dint);
    lemma_excess_up(100, 0x2fe7_66ef_1b61_58acint, 0x2fe7_66ef_1b61_5920int, 4, 0x3fec_5258_e2b4_46f0int, 0x3fec_5258_e2b4_474dint);
    lemma_exact_by_fractions(101, 0x3fec_5258_e2b4_46f0int, 0x3fec_5258_e2b4_474dint, 0x119_aba5_39b1_b69fint, 0x192_6ea9_7251_da2cint, 0x181_89b5_8f56_6db4int, 0x226_d4cb_e633_c1b1int);
    lemma_excess_up(101, 0x3fec_5258_e2b4_46f0int, 0x3fec_5258_e2b4_474dint, -4, 0x1989_db7a_4ef6_9f26int, 0x1989_db7a_4ef6_9f71int);
    lemma_exact_by_fractions(102, 0x1989_db7a_4ef6_9f26int, 0x1989_db7a_4ef6_9f71int, 0x119_aba5_39b1_b69fint, 0x1f7_0a53_cee6_50b7int, 0x1dd_6ec1_2ee2_f889int, 0x354_a7ca_fbf1_2552int);
    lemma_excess_up(102, 0x1989_db7a_4ef6_9f26int, 0x1989_db7a_4ef6_9f71int, -4, 0xf42_f8c3_b18a_983cint, 0xf42_f8c3_b18a_98b5int);
    lemma_exact_by_fractions(103, 0xf42_f8c3_b18a_983cint, 0xf42_f8c3_b18a_98b5int, 0xf2_849f_a241_763dint, 0x10e_b2c5_7bae_97dfint, 0x22b_bccc_5dc3_794dint, 0x26c_503c_a8b9_6c7aint);
    lemma_excess_up(103, 0xf42_f8c3_b18a_983cint, 0xf42_f8c3_b18a_98b5int, 2, 0x1902_609c_8e08_79c9int, 0x1902_609c_8e08_7a2bint);
    lemma_exact_by_fractions(104, 0x1902_609c_8e08_79c9int, 0x1902_609c_8e08_7a2bint, 0x221_dd2f_f182_8c02int, 0x2f9_9da6_b835_2fd9int, 0xe_23e9_050c_e8f7int, 0x13_baac_6c57_0f2fint);
    lemma_excess_up(104, 0x1902_609c_8e08_79c9int, 0x1902_609c_8e08_7a2bint, 4, 0x2d9b_807d_3e6d_2e3aint, 0x2d9b_807d_3e6d_2e89int);
    lemma_exact_by_fractions(105, 0x2d9b_807d_3e6d_2e3aint, 0x2d9b_807d_3e6d_2e89int, 0x226_ef4b_471a_4e73int, 0x3c0_dd0a_65df_4fc3int, 0xca_7fa5_1e6f_50c5int, 0x161_2b78_2bdb_893aint);
    lemma_excess_up(105, 0x2d9b_807d_3e6d_2e3aint, 0x2d9b_807d_3e6d_2e89int, -10, 0x8f8_cd95_30ae_b05cint, 0x8f8_cd95_30ae_b0dcint);
    lemma_exact_by_fractions(106, 0x8f8_cd95_30ae_b05cint, 0x8f8_cd95_30ae_b0dcint, 0x104_dfa5_88ed_95efint, 0x11c_5cb1_9ef3_4518int, 0x225_1eee_f0cf_ad25int, 0x256_8ffa_ceb1_91f9int);
    lemma_excess_up(106, 0x8f8_cd95_30ae_b05cint, 0x8f8_cd95_30ae_b0dcint, 0, 0x72d_7144_26f2_26b0int, 0x72d_7144_26f2_2717int);
    lemma_exact_by_fractions(107, 0x72d_7144_26f2_26b0int, 0x72d_7144_26f2_2717int, 0x104_dfa5_88ed_95efint, 0x163_73de_06b0_165eint, 0x1eb_78ad_0f3c_0ee7int, 0x29d_a727_366e_633fint);
    lemma_excess_up(107, 0x72d_7144_26f2_26b0int, 0x72d_7144_26f2_2717int, 0, 0x5bd_f436_858e_8559int, 0x5bd_f436_858e_85acint);
    lemma_exact_by_fractions(108, 0x5bd_f436_858e_8559int, 0x5bd_f436_858e_85acint, 0x161_1cdb_bea6_931fint, 0x259_6a7a_203b_4266int, 0x219_9748_2a18_8d7fint, 0x393_9dc3_4ff9_8f47int);
    lemma_excess_up(108, 0x5bd_f436_858e_8559int, 0x5bd_f436_858e_85acint, 2, 0x15fc_b9f0_d5b0_d55bint, 0x15fc_b9f0_d5b0_d5e0int);
    lemma_exact_by_fractions(109, 0x15fc_b9f0_d5b0_d55bint, 0x15fc_b9f0_d5b0_d5e0int, 0x22e_a493_f425_2abeint, 0x252_ab74_106a_ec8fint, 0x1aa_e76d_833a_90dfint, 0x1c6_6f5e_a014_9cb8int);
    lemma_excess_up(109, 0x15fc_b9f0_d5b0_d55bint, 0x15fc_b9f0_d5b0_d5e0int, -2, 0x4ca_2e5a_448d_777cint, 0x4ca_2e5a_448d_77e7int);
    lemma_exact_by_fractions(110, 0x4ca_2e5a_448d_777cint, 0x4ca_2e5a_448d_77e7int, 0x214_4b8c_43f6_3f2bint, 0x2c4_474b_b870_13bdint, 0x1aa_e76d_833a_90dfint, 0x238_0b36_4819_c3e6int);
    lemma_excess_up(110, 0x4ca_2e5a_448d_777cint, 0x4ca_2e5a_448d_77e7int, 4, 0x1d6e_8b7b_6a0a_c5fcint, 0x1d6e_8b7b_6a0a_c653int);
    lemma_exact_by_fractions(111, 0x1d6e_8b7b_6a0a_c5fcint, 0x1d6e_8b7b_6a0a_c653int, 0x7f_8988_9a89_fc4bint, 0xd4_20d8_4a31_98e5int, 0x256_bbc9_d161_2928int, 0x3e3_da57_1fdd_37f5int);
    lemma_excess_up(111, 0x1d6e_8b7b_6a0a_c5fcint, 0x1d6e_8b7b_6a0a_c653int, -4, 0x157d_abf8_a9aa_d660int, 0x157d_abf8_a9aa_d6ecint);
    lemma_exact_by_fractions(112, 0x157d_abf8_a9aa_d660int, 0x157d_abf8_a9aa_d6ecint, 0x2e1_9484_19ce_c76dint, 0x2fe_bea9_e2d7_a0d3int, 0x5e_3d40_3e2b_08f9int, 0x61_f72f_dab5_73e2int);
    lemma_excess_up(112, 0x157d_abf8_a9aa_d660int, 0x157d_abf8_a9aa_d6ecint, 4, 0x2aca_effa_2155_784cint, 0x2aca_effa_2155_78bdint);
    lemma_exact_by_fractions(113, 0x2aca_effa_2155_784cint, 0x2aca_effa_2155_78bdint, 0x21c_0ddb_df29_00b3int, 0x2bd_c2b0_7839_8908int, 0xbc_7a80_7c56_11f2int, 0xf4_e9f7_a2c5_a1b5int);
    lemma_excess_up(113, 0x2aca_effa_2155_784cint, 0x2aca_effa_2155_78bdint, -4, 0x8a2_5994_e777_9370int, 0x8a2_5994_e777_93cbint);
    lemma_exact_by_fractions(114, 0x8a2_5994_e777_9370int, 0x8a2_5994_e777_93cbint, 0x6c_02c5_9308_3357int, 0xaf_70ac_1e0e_6242int, 0x219_e476_cb47_e11aint, 0x369_b07d_f1bf_6405int);
    lemma_excess_up(114, 0x8a2_5994_e777_9370int, 0x8a2_5994_e777_93cbint, -2, 0x103_c287_d8bf_524cint, 0x103_c287_d8bf_52dfint);
    lemma_exact_by_fractions(115, 0x103_c287_d8bf_524cint, 0x103_c287_d8bf_52dfint, 0x56_689e_0f39_c2acint, 0x57_b856_0f07_3121int, 0x2c4_8c4d_d5da_46d9int, 0x2cf_4d2f_ae50_ac3aint);
    lemma_excess_up(115, 0x103_c287_d8bf_524cint, 0x103_c287_d8bf_52dfint, 4, 0x1a69_686c_ad65_db70int, 0x1a69_686c_ad65_dbe6int);
    lemma_exact_by_fractions(116, 0x1a69_686c_ad65_db70int, 0x1a69_686c_ad65_dbe6int, 0x159_a278_3ce7_0ab0int, 0x1b6_99ae_4b23_f5a5int, 0x209_e860_a0f6_99edint, 0x296_4925_3e3b_b944int);
    lemma_excess_up(116, 0x1a69_686c_ad65_db70int, 0x1a69_686c_ad65_dbe6int, 0, 0x1521_2056_f11e_4926int, 0x1521_2056_f11e_4985int);
    lemma_exact_by_fractions(117, 0x1521_2056_f11e_4926int, 0x1521_2056_f11e_4985int, 0x1bb_1acc_9ead_15afint, 0x2be_dbd3_abad_6b60int, 0x68_61ac_ecfe_1ec9int, 0xa5_9249_4f8e_ee51int);
    lemma_excess_up(117, 0x1521_2056_f11e_4926int, 0x1521_2056_f11e_4985int, 0, 0x10e7_4d12_5a7e_a0ebint, 0x10e7_4d12_5a7e_a138int);
    lemma_exact_by_fractions(118, 0x10e7_4d12_5a7e_a0ebint, 0x10e7_4d12_5a7e_a138int, 0x1fa_25a9_6d4e_4c47int, 0x3eb_9263_78b6_026dint, 0x1a1_86b3_b3f8_7b24int, 0x33b_db6e_8dca_a795int);
    lemma_excess_up(118, 0x10e7_4d12_5a7e_a0ebint, 0x10e7_4d12_5a7e_a138int, -2, 0xe3e_e1b6_f731_0178int, 0xe3e_e1b6_f731_01f4int);
    lemma_exact_by_fractions(119, 0xe3e_e1b6_f731_0178int, 0xe3e_e1b6_f731_01f4int, 0x11_b964_5844_5d07int, 0x15_f6de_9d5d_6b5bint, 0x262_af40_86a3_e2eaint, 0x2f4_c73e_1ac2_b12bint);
    lemma_excess_up(119, 0xe3e_e1b6_f731_0178int, 0xe3e_e1b6_f731_01f4int, 2, 0x1832_4e2b_f8f4_012cint, 0x1832_4e2b_f8f4_0190int);
    lemma_exact_by_fractions(120, 0x1832_4e2b_f8f4_012cint, 0x1832_4e2b_f8f4_0190int, 0x46_e591_6111_741cint, 0x6d_d259_12d3_18c7int, 0x1e7_4153_353a_a9bfint, 0x2f2_c6b3_dad6_38b2int);
}

/// The entries for the decimal exponents from 121 to 160.
proof fn lemma_exact_up_3()
    ensures
        excess_within(160, 0x1c06_92eb_4653_a603int, 0x1c06_92eb_4653_a690int),
        forall|f: int| 121 <= f <= 160 ==> exact_everywhere(f) && is_ceiling(f),
{
    reveal(multiplier);
    lemma_exact_up_2();
    lemma_excess_up(120, 0x1832_4e2b_f8f4_012cint, 0x1832_4e2b_f8f4_0190int, 6, 0x39c1_d823_2d90_00f0int, 0x39c1_d823_2d90_0140int);
    lemma_exact_by_fractions(121, 0x39c1_d823_2d90_00f0int, 0x39c1_d823_2d90_0140int, 0x199_6590_4f58_873bint, 0x318_b696_de3e_9673int, 0x7d_cf4a_cb12_b6cbint, 0xf3_9ad9_801f_1a90int);
    lemma_excess_up(121, 0x39c1_d823_2d90_00f0int, 0x39c1_d823_2d90_0140int, -8, 0x2936_269e_af4c_ce4cint, 0x2936_269e_af4c_cecdint);
    lemma_exact_by_fractions(122, 0x2936_269e_af4c_ce4cint, 0x2936_269e_af4c_cecdint, 0x211_399c_1a47_bb2dint, 0x280_75ce_ee2b_25d9int, 0x7d_cf4a_cb12_b6cbint, 0x98_40c7_f013_709aint);
    lemma_excess_up(122, 0x2936_269e_af4c_ce4cint, 0x2936_269e_af4c_cecdint, 0, 0x20f8_1ee5_590a_3ea3int, 0x20f8_1ee5_590a_3f0bint);
    lemma_exact_by_fractions(123, 0x20f8_1ee5_590a_3ea3int, 0x20f8_1ee5_590a_3f0bint, 0x1b6_25c5_11a4_c719int, 0x296_cca9_5341_5047int, 0xfb_9e95_9625_6d96int, 0x17c_a1f3_d830_9981int);
    lemma_excess_up(123, 0x20f8_1ee5_590a_3ea3int, 0x20f8_1ee5_590a_3f0bint, -2, 0xd93_4bea_ada1_cbb5int, 0xd93_4bea_ada1_cc09int);
    lemma_exact_by_fractions(124, 0xd93_4bea_ada1_cbb5int, 0xd93_4bea_ada1_cc09int, 0x1f3_bd90_70e9_b3b0int, 0x3b0_f75e_ce52_070dint, 0x3f_5798_bcf5_8055int, 0x77_c64c_8d54_1f0fint);
    lemma_excess_up(124, 0xd93_4bea_ada1_cbb5int, 0xd93_4bea_ada1_cc09int, 0, 0x15b8_7977_7c36_12bbint, 0x15b8_7977_7c36_1342int);
    lemma_exact_by_fractions(125, 0x15b8_7977_7c36_12bbint, 0x15b8_7977_7c36_1342int, 0xe1_3baa_1259_4802int, 0x10a_2f6a_d6e9_8987int, 0x24f_37e2_0f5b_ed57int, 0x2ba_b6df_a3b0_9bf0int);
    lemma_excess_up(125, 0x15b8_7977_7c36_12bbint, 0x15b8_7977_7c36_1342int, 6, 0x37c6_c792_c9c4_dbc8int, 0x37c6_c792_c9c4_dc35int);
    lemma_exact_by_fractions(126, 0x37c6_c792_c9c4_dbc8int, 0x37c6_c792_c9c4_dc35int, 0xb4_2fbb_41e1_0668int, 0x10a_2f6a_d6e9_8987int, 0x19b_0826_cd7a_e6efint, 0x25f_352c_b5b3_3965int);
    lemma_excess_up(126, 0x37c6_c792_c9c4_dbc8int, 0x37c6_c792_c9c4_dc35int, 0, 0x2c9f_060f_07d0_afd3int, 0x2c9f_060f_07d0_b02bint);
    lemma_exact_by_fractions(127, 0x2c9f_060f_07d0_afd3int, 0x2c9f_060f_07d0_b02bint, 0x226_b0ee_a12e_720bint, 0x3f8_e766_67e3_cd50int, 0x17c_a2f0_3ad8_ca76int, 0x2be_e1b6_9d37_eafdint);
    lemma_excess_up(127, 0x2c9f_060f_07d0_afd3int, 0x2c9f_060f_07d0_b02bint, -10, 0x764_d67e_72e7_7fb8int, 0x764_d67e_72e7_8045int);
    lemma_exact_by_fractions(128, 0x764_d67e_72e7_7fb8int, 0x764_d67e_72e7_8045int, 0x226_b0ee_a12e_720bint, 0x27b_90a0_00ee_6052int, 0x116_9a8a_ca3e_ff83int, 0x141_8af0_3642_7dffint);
    lemma_excess_up(128, 0x764_d67e_72e7_7fb8int, 0x764_d67e_72e7_8045int, 6, 0x2c50_ab98_5bec_662cint, 0x2c50_ab98_5bec_669eint);
    lemma_exact_by_fractions(129, 0x2c50_ab98_5bec_662cint, 0x2c50_ab98_5bec_669eint, 0x1b7_3fea_5048_723dint, 0x279_af4f_e608_b967int, 0xde_e208_a1cb_ff9cint, 0x141_8af0_3642_7dffint);
    lemma_excess_up(129, 0x2c50_ab98_5bec_662cint, 0x2c50_ab98_5bec_669eint, -4, 0x9da_22e0_4989_eb56int, 0x9da_22e0_4989_ebb2int);
    lemma_exact_by_fractions(130, 0x9da_22e0_4989_eb56int, 0x9da_22e0_4989_ebb2int, 0x134_205b_1d54_4477int, 0x22b_a637_fa17_2a8dint, 0x18f_e2d4_8c2c_164dint, 0x2d1_1ef8_5876_8ad8int);
    lemma_excess_up(130, 0x9da_22e0_4989_eb56int, 0x9da_22e0_4989_ebb2int, 4, 0x295d_049a_0f43_1223int, 0x295d_049a_0f43_12b7int);
    lemma_exact_by_fractions(131, 0x295d_049a_0f43_1223int, 0x295d_049a_0f43_12b7int, 0x271_8907_32a4_2389int, 0x2c1_060d_e41f_0594int, 0x4f_fa2a_826f_37a9int, 0x5a_23df_0b0e_d15bint);
    lemma_excess_up(131, 0x295d_049a_0f43_1223int, 0x295d_049a_0f43_12b7int, -2, 0x144a_6a14_d902_74e8int, 0x144a_6a14_d902_7560int);
    lemma_exact_by_fractions(132, 0x144a_6a14_d902_74e8int, 0x144a_6a14_d902_7560int, 0x1bd_0411_e0aa_7f59int, 0x272_f4de_b051_d82cint, 0x13f_e8aa_09bc_dea4int, 0x1c2_b35b_374a_16c7int);
    lemma_excess_up(132, 0x144a_6a14_d902_74e8int, 0x144a_6a14_d902_7560int, -2, 0x36e_bb43_e0ce_c3ecint, 0x36e_bb43_e0ce_c44dint);
    lemma_exact_by_fractions(133, 0x36e_bb43_e0ce_c3ecint, 0x36e_bb43_e0ce_c44dint, 0x1bd_0411_e0aa_7f59int, 0x30f_b216_5c66_4e37int, 0xa6_ec84_7474_ff0bint, 0x125_f623_8b35_a0bcint);
    lemma_excess_up(133, 0x36e_bb43_e0ce_c3ecint, 0x36e_bb43_e0ce_c44dint, 0, 0x57d_f86c_9ae4_6cacint, 0x57d_f86c_9ae4_6d48int);
    lemma_exact_by_fractions(134, 0x57d_f86c_9ae4_6cacint, 0x57d_f86c_9ae4_6d48int, 0x1c8_2ac4_2cce_9881int, 0x1f6_1558_8267_4362int, 0x14d_d908_e8e9_fe16int, 0x16f_73ac_6e03_08ebint);
    lemma_excess_up(134, 0x57d_f86c_9ae4_6cacint, 0x57d_f86c_9ae4_6d48int, 8, 0x3797_f9f0_7be9_f089int, 0x3797_f9f0_7be9_f107int);
    lemma_exact_by_fractions(135, 0x3797_f9f0_7be9_f089int, 0x3797_f9f0_7be9_f107int, 0xb6_7781_ab85_d69aint, 0xfb_0aac_4133_a1b1int, 0x189_fecf_508b_3a45int, 0x21e_112c_b13a_23c2int);
    lemma_excess_up(135, 0x3797_f9f0_7be9_f089int, 0x3797_f9f0_7be9_f107int, 2, 0x3946_618d_2fee_5a07int, 0x3946_618d_2fee_5a6cint);
    lemma_exact_by_fractions(136, 0x3946_618d_2fee_5a07int, 0x3946_618d_2fee_5a6cint, 0x11e_2273_7a23_07f3int, 0x1ec_1663_76b2_8b4aint, 0x1bb_bb93_33f4_5275int, 0x2fb_1ef9_cf4f_9d2bint);
    lemma_excess_up(136, 0x3946_618d_2fee_5a07int, 0x3946_618d_2fee_5a6cint, -14, 0x20a_35ae_b316_f671int, 0x20a_35ae_b316_f714int);
    lemma_exact_by_fractions(137, 0x20a_35ae_b316_f671int, 0x20a_35ae_b316_f714int, 0x2b4_890a_bd6d_95b1int, 0x2e8_60ee_595c_c3feint, 0xf0_8847_924f_0b96int, 0x102_89e4_09fb_2bc3int);
    lemma_excess_up(137, 0x20a_35ae_b316_f671int, 0x20a_35ae_b316_f714int, 0, 0x1a1_c48b_c278_c527int, 0x1a1_c48b_c278_c5aaint);
    lemma_exact_by_fractions(138, 0x1a1_c48b_c278_c527int, 0x1a1_c48b_c278_c5aaint, 0x1ff_bbef_df61_5e73int, 0x2af_8da4_c803_28e0int, 0x96_21ba_2348_eff7int, 0xc9_b69a_78a1_90a5int);
    lemma_excess_up(138, 0x1a1_c48b_c278_c527int, 0x1a1_c48b_c278_c5aaint, 2, 0xe1b_03a3_01fa_3752int, 0xe1b_03a3_01fa_37bcint);
    lemma_exact_by_fractions(139, 0xe1b_03a3_01fa_3752int, 0xe1b_03a3_01fa_37bcint, 0x1ff_bbef_df61_5e73int, 0x35b_710d_fa03_f318int, 0x144_cc8e_7594_7f5aint, 0x221_7d6c_dca3_2515int);
    lemma_excess_up(139, 0xe1b_03a3_01fa_3752int, 0xe1b_03a3_01fa_37bcint, -2, 0x9c4_d29e_6990_5883int, 0x9c4_d29e_6990_592dint);
    lemma_exact_by_fractions(140, 0x9c4_d29e_6990_5883int, 0x9c4_d29e_6990_592dint, 0x1ff_bbef_df61_5e73int, 0x219_26a8_bc42_77efint, 0x1a1_54e7_290d_5279int, 0x1b6_0f4b_1d62_a6b2int);
    lemma_excess_up(140, 0x9c4_d29e_6990_5883int, 0x9c4_d29e_6990_592dint, 6, 0x2e37_0ee5_2140_46cfint, 0x2e37_0ee5_2140_4758int);
    lemma_exact_by_fractions(141, 0x2e37_0ee5_2140_46cfint, 0x2e37_0ee5_2140_4758int, 0x230_6e67_7007_91ecint, 0x2df_5563_fa02_1a69int, 0x2d_b491_25ad_d881int, 0x3b_f823_f7e8_c10eint);
    lemma_excess_up(141, 0x2e37_0ee5_2140_46cfint, 0x2e37_0ee5_2140_4758int, -2, 0x182c_0bea_8100_38a5int, 0x182c_0bea_8100_3914int);
    lemma_exact_by_fractions(142, 0x182c_0bea_8100_38a5int, 0x182c_0bea_8100_3914int, 0x26a_1a92_4196_d64dint, 0x3f5_c18b_6044_e386int, 0x12_483a_0f12_569aint, 0x1d_fc11_fbf4_6087int);
    lemma_excess_up(142, 0x182c_0bea_8100_38a5int, 0x182c_0bea_8100_3914int, -6, 0x46_7977_34cd_276eint, 0x46_7977_34cd_2820int);
    lemma_exact_by_fractions(143, 0x46_7977_34cd_276eint, 0x46_7977_34cd_2820int, 0x1ef_e0e9_b402_891aint, 0x1fc_4efb_b5ae_6d5dint, 0x141_115d_164a_9ef5int, 0x149_1daa_d0ba_2800int);
    lemma_excess_up(143, 0x46_7977_34cd_276eint, 0x46_7977_34cd_2820int, 2, 0xd05_2df8_f70a_85f1int, 0xd05_2df8_f70a_8680int);
    lemma_exact_by_fractions(144, 0xd05_2df8_f70a_85f1int, 0xd05_2df8_f70a_8680int, 0x23a_d0da_078e_9c32int, 0x2db_67bf_1068_46d1int, 0x40_36ac_37a8_8631int, 0x52_476a_b42e_8a00int);
    lemma_excess_up(144, 0xd05_2df8_f70a_85f1int, 0xd05_2df8_f70a_8680int, 0, 0xa6a_8b2d_926e_d18dint, 0xa6a_8b2d_926e_d200int);
    lemma_exact_by_fractions(145, 0xa6a_8b2d_926e_d18dint, 0xa6a_8b2d_926e_d200int, 0x255_ec29_4d4b_3dc7int, 0x3bd_ac24_7fe8_4251int, 0x40_36ac_37a8_8631int, 0x66_d945_613a_2c80int);
    lemma_excess_up(145, 0xa6a_8b2d_926e_d18dint, 0xa6a_8b2d_926e_d200int, -2, 0x3dd_ab7c_1d7e_1c14int, 0x3dd_ab7c_1d7e_1ccdint);
    lemma_exact_by_fractions(146, 0x3dd_ab7c_1d7e_1c14int, 0x3dd_ab7c_1d7e_1ccdint, 0x2d5_81d6_19b3_4c8eint, 0x2d6_4348_6525_5e31int, 0x40_36ac_37a8_8631int, 0x40_47cb_5cc4_5bd0int);
    lemma_excess_up(146, 0x3dd_ab7c_1d7e_1c14int, 0x3dd_ab7c_1d7e_1ccdint, 2, 0xfe4_8930_1798_1676int, 0xfe4_8930_1798_170bint);
    lemma_exact_by_fractions(147, 0xfe4_8930_1798_1676int, 0xfe4_8930_1798_170bint, 0x244_67de_7af5_d6d8int, 0x2d6_4348_6525_5e31int, 0x40_36ac_37a8_8631int, 0x50_59be_33f5_72c4int);
    lemma_excess_up(147, 0xfe4_8930_1798_1676int, 0xfe4_8930_1798_170bint, 6, 0x331d_3a8c_dfac_dec4int, 0x331d_3a8c_dfac_df3cint);
    lemma_exact_by_fractions(148, 0x331d_3a8c_dfac_dec4int, 0x331d_3a8c_dfac_df3cint, 0x1ea_0290_78a1_ae5aint, 0x2fe_7027_7f20_1793int, 0x40_36ac_37a8_8631int, 0x64_702d_c0f2_cf75int);
    lemma_excess_up(148, 0x331d_3a8c_dfac_dec4int, 0x331d_3a8c_dfac_df3cint, 0, 0x28e4_2ed7_1957_189cint, 0x28e4_2ed7_1957_18fdint);
    lemma_exact_by_fractions(149, 0x28e4_2ed7_1957_189cint, 0x28e4_2ed7_1957_18fdint, 0x1d6_70d0_8e24_f9fbint, 0x397_c955_96a8_65f5int, 0x100_dab0_dea2_18c4int, 0x1f6_30e4_c4be_0d49int);
    lemma_excess_up(149, 0x28e4_2ed7_1957_189cint, 0x28e4_2ed7_1957_18fdint, -4, 0x27d3_7e24_f558_2760int, 0x27d3_7e24_f558_27fcint);
    lemma_exact_by_fractions(150, 0x27d3_7e24_f558_2760int, 0x27d3_7e24_f558_27fcint, 0xf8_3360_a202_40dbint, 0x12f_4b80_7c9c_51baint, 0x235_a143_2903_40feint, 0x2b3_2f74_ec0c_5811int);
    lemma_excess_up(150, 0x27d3_7e24_f558_2760int, 0x27d3_7e24_f558_27fcint, 2, 0x2ca9_31b7_2aac_ec4cint, 0x2ca9_31b7_2aac_eccaint);
    lemma_exact_by_fractions(151, 0x2ca9_31b7_2aac_ec4cint, 0x2ca9_31b7_2aac_eccaint, 0x1f0_66c1_4404_81b6int, 0x2f6_3cc1_3786_cc51int, 0x1da_73e1_e59d_27a7int, 0x2d4_b61b_11c9_9231int);
    lemma_excess_up(151, 0x2ca9_31b7_2aac_ec4cint, 0x2ca9_31b7_2aac_eccaint, -2, 0x16ed_c15f_5557_2370int, 0x16ed_c15f_5557_23d5int);
    lemma_exact_by_fractions(152, 0x16ed_c15f_5557_2370int, 0x16ed_c15f_5557_23d5int, 0x19a_4a53_d574_d101int, 0x30f_61bd_d3d4_b7e9int, 0x184_5774_770d_76f2int, 0x2e5_796e_24a8_2f41int);
    lemma_excess_up(152, 0x16ed_c15f_5557_2370int, 0x16ed_c15f_5557_23d5int, -4, 0xb16_0232_2225_0580int, 0xb16_0232_2225_0622int);
    lemma_exact_by_fractions(153, 0xb16_0232_2225_0580int, 0xb16_0232_2225_0622int, 0x15_f2df_5e67_5a0fint, 0x1a_3131_cd7b_d569int, 0x276_2046_e43e_e256int, 0x2ef_f382_1073_516bint);
    lemma_excess_up(153, 0xb16_0232_2225_0580int, 0xb16_0232_2225_0622int, 2, 0x15ab_34f4_e81d_9e00int, 0x15ab_34f4_e81d_9e82int);
    lemma_exact_by_fractions(154, 0x15ab_34f4_e81d_9e00int, 0x15ab_34f4_e81d_9e82int, 0x1aa_5ce2_bf09_1abbint, 0x27b_fdea_816b_07f1int, 0x70_db21_c1ce_90d5int, 0xa8_57fb_29ff_f44cint);
    lemma_excess_up(154, 0x15ab_34f4_e81d_9e00int, 0x15ab_34f4_e81d_9e82int, 0, 0x1155_c3f7_2017_b199int, 0x1155_c3f7_2017_b202int);
    lemma_exact_by_fractions(155, 0x1155_c3f7_2017_b199int, 0x1155_c3f7_2017_b202int, 0x213_bfc5_82f3_5578int, 0x3df_7dd3_6517_bfd9int, 0x16_9239_f38f_b691int, 0x2a_15fe_ca7f_fd13int);
    lemma_excess_up(155, 0x1155_c3f7_2017_b199int, 0x1155_c3f7_2017_b202int, 4, 0x3556_0658_3359_1c28int, 0x3556_0658_3359_1cd0int);
    lemma_exact_by_fractions(156, 0x3556_0658_3359_1c28int, 0x3556_0658_3359_1cd0int, 0x232_49ba_1eee_1289int, 0x28f_456b_2932_d30bint, 0xb4_91cf_9c7d_b488int, 0xd2_6df9_f47f_f15fint);
    lemma_excess_up(156, 0x3556_0658_3359_1c28int, 0x3556_0658_3359_1cd0int, -2, 0x1dde_6b79_c2ad_b020int, 0x1dde_6b79_c2ad_b0a7int);
    lemma_exact_by_fractions(157, 0x1dde_6b79_c2ad_b020int, 0x1dde_6b79_c2ad_b0a7int, 0x4c_57fb_b3b0_12cdint, 0x6f_35dc_4d2c_b86bint, 0x1ed_3f4b_56e6_99b9int, 0x2ce_844c_def9_8d9aint);
    lemma_excess_up(157, 0x1dde_6b79_c2ad_b020int, 0x1dde_6b79_c2ad_b0a7int, 0, 0x17e5_22c7_cef1_59b3int, 0x17e5_22c7_cef1_5a20int);
    lemma_exact_by_fractions(158, 0x17e5_22c7_cef1_59b3int, 0x17e5_22c7_cef1_5a20int, 0x22c_b628_7ab4_f5f3int, 0x3f5_b507_7a8d_ca89int, 0xfb_5639_abf4_aabfint, 0x1c9_a7b9_f8ae_3072int);
    lemma_excess_up(158, 0x17e5_22c7_cef1_59b3int, 0x17e5_22c7_cef1_5a20int, 2, 0x3308_37a6_17e8_8f84int, 0x3308_37a6_17e8_9034int);
    lemma_exact_by_fractions(159, 0x3308_37a6_17e8_8f84int, 0x3308_37a6_17e8_9034int, 0x295_044f_8cb1_855bint, 0x2f0_4598_216d_46abint, 0xc9_11c7_bcc3_bbccint, 0xe4_d3dc_fc57_1839int);
    lemma_excess_up(159, 0x3308_37a6_17e8_8f84int, 0x3308_37a6_17e8_9034int, -2, 0x1c06_92eb_4653_a603int, 0x1c06_92eb_4653_a690int);
    lemma_exact_by_fractions(160, 0x1c06_92eb_4653_a603int, 0x1c06_92eb_4653_a690int, 0x14d_45d7_a5b4_09abint, 0x1da_1a3a_43c8_2ff2int, 0x1d7_0147_4d5a_e585int, 0x29e_0916_a9eb_492bint);
}

/// The entries for the decimal exponents from 161 to 200.
proof fn lemma_exact_up_4()
    ensures
        excess_within(200, 0x21a_ac78_c55e_6131int, 0x21a_ac78_c55e_61f1int),
        forall|f: int| 161 <= f <= 200 ==> exact_everywhere(f) && is_ceiling(f),
{
    reveal(multiplier);
    lemma_exact_up_3();
    lemma_excess_up(160, 0x1c06_92eb_4653_a603int, 0x1c06_92eb_4653_a690int, 0, 0x166b_a8bc_3842_eb35int, 0x166b_a8bc_3842_eba7int);
    lemma_exact_by_fractions(161, 0x166b_a8bc_3842_eb35int, 0x166b_a8bc_3842_eba7int, 0x116_2e11_62a4_7e87int, 0x1ee_a95a_a1a8_af52int, 0x184_5d9d_e8c3_94cfint, 0x2b2_9837_07cb_c88bint);
    lemma_excess_up(161, 0x166b_a8bc_3842_eb35int, 0x166b_a8bc_3842_eba7int, -2, 0x1712_a793_8d37_debbint, 0x1712_a793_8d37_df72int);
    lemma_exact_by_fractions(162, 0x1712_a793_8d37_debbint, 0x1712_a793_8d37_df72int, 0x1b1_86b6_f2f2_ba0dint, 0x1e1_cfe6_66fc_5fb6int, 0x26d_6296_4138_ee18int, 0x2b2_9837_07cb_c88bint);
    lemma_excess_up(162, 0x1712_a793_8d37_debbint, 0x1712_a793_8d37_df72int, 6, 0x38db_b942_d75f_e562int, 0x38db_b942_d75f_e5f5int);
    lemma_exact_by_fractions(163, 0x38db_b942_d75f_e562int, 0x38db_b942_d75f_e5f5int, 0x1fc_ab76_abdb_9babint, 0x2c2_a808_5123_2c0eint, 0x96_497f_71d1_c33cint, 0xd0_c850_a0cf_68d5int);
    lemma_excess_up(163, 0x38db_b942_d75f_e562int, 0x38db_b942_d75f_e5f5int, -6, 0x716_2dcf_12b3_1de8int, 0x716_2dcf_12b3_1e5eint);
    lemma_exact_by_fractions(164, 0x716_2dcf_12b3_1de8int, 0x716_2dcf_12b3_1e5eint, 0xf5_1647_6cc9_75b5int, 0x1a9_99dd_ec72_aca0int, 0x20f_2a5e_7e24_4becint, 0x393_7058_f1f2_94e3int);
    lemma_excess_up(164, 0x716_2dcf_12b3_1de8int, 0x716_2dcf_12b3_1e5eint, 4, 0x24f0_494b_511e_9640int, 0x24f0_494b_511e_96fdint);
    lemma_exact_by_fractions(165, 0x24f0_494b_511e_9640int, 0x24f0_494b_511e_96fdint, 0x31_0474_af5b_7df1int, 0x35_333b_bd8e_5594int, 0x2b0_1222_9f66_f398int, 0x2ea_c8ef_69b4_d6cfint);
    lemma_excess_up(165, 0x24f0_494b_511e_9640int, 0x24f0_494b_511e_96fdint, 0, 0x1d8d_076f_7418_7833int, 0x1d8d_076f_7418_78cbint);
    lemma_exact_by_fractions(166, 0x1d8d_076f_7418_7833int, 0x1d8d_076f_7418_78cbint, 0x31_0474_af5b_7df1int, 0x42_800a_acf1_eaf9int, 0x230_4299_6f64_a8ddint, 0x2f8_15be_5918_6c34int);
    lemma_excess_up(166, 0x1d8d_076f_7418_7833int, 0x1d8d_076f_7418_78cbint, 4, 0x313d_9f8c_5ce0_6028int, 0x313d_9f8c_5ce0_60a3int);
    lemma_exact_by_fractions(167, 0x313d_9f8c_5ce0_6028int, 0x313d_9f8c_5ce0_60a3int, 0xc4_11d2_bd6d_f7c4int, 0x14c_8035_60b9_96ddint, 0x1d0_fa33_9e73_ac8dint, 0x314_85cf_aac7_5dceint);
    lemma_excess_up(167, 0x313d_9f8c_5ce0_6028int, 0x313d_9f8c_5ce0_60a3int, -12, 0x1fc_327a_2e33_cd0cint, 0x1fc_327a_2e33_cdd2int);
    lemma_exact_by_fractions(168, 0x1fc_327a_2e33_cd0cint, 0x1fc_327a_2e33_cdd2int, 0x290_8edb_3936_3142int, 0x2b7_e1c3_fbc8_39bfint, 0xc8_8efd_e019_6ad3int, 0xd4_9220_87dc_5d76int);
    lemma_excess_up(168, 0x1fc_327a_2e33_cd0cint, 0x1fc_327a_2e33_cdd2int, 4, 0x1b30_2861_be8f_d73cint, 0x1b30_2861_be8f_d7dcint);
    lemma_exact_by_fractions(169, 0x1b30_2861_be8f_d73cint, 0x1b30_2861_be8f_d7dcint, 0xde_82f1_b6dd_64bdint, 0x126_cc59_dbed_0582int, 0x191_1dfb_c032_d5a6int, 0x213_6d51_53a6_e9a7int);
    lemma_excess_up(169, 0x1b30_2861_be8f_d73cint, 0x1b30_2861_be8f_d7dcint, 6, 0x3c26_86b4_9873_1296int, 0x3c26_86b4_9873_1317int);
    lemma_exact_by_fractions(170, 0x3c26_86b4_9873_1296int, 0x3c26_86b4_9873_1317int, 0x59_012d_7c58_8eb2int, 0x93_662c_edf6_82c1int, 0x243_b905_c988_468fint, 0x3c0_11da_fe39_013fint);
    lemma_excess_up(170, 0x3c26_86b4_9873_1296int, 0x3c26_86b4_9873_1317int, -14, 0x6a4_0aba_8d84_ea89int, 0x6a4_0aba_8d84_eb58int);
    lemma_exact_by_fractions(171, 0x6a4_0aba_8d84_ea89int, 0x6a4_0aba_8d84_eb58int, 0x2bf_5ffa_29ca_224dint, 0x2d8_07b4_b55f_fb84int, 0x2b6_b688_70cf_cf0aint, 0x2cf_1088_c4ef_6943int);
    lemma_excess_up(171, 0x6a4_0aba_8d84_ea89int, 0x6a4_0aba_8d84_eb58int, 4, 0x1ee9_a22e_d79d_886dint, 0x1ee9_a22e_d79d_8914int);
    lemma_exact_by_fractions(172, 0x1ee9_a22e_d79d_886dint, 0x1ee9_a22e_d79d_8914int, 0x120_478b_d7e5_e9eeint, 0x174_fb06_4b20_9003int, 0x19f_186e_51e4_385fint, 0x219_0e9b_9797_6a62int);
    lemma_excess_up(172, 0x1ee9_a22e_d79d_886dint, 0x1ee9_a22e_d79d_8914int, 6, 0x3f21_4e8b_dfb1_39f0int, 0x3f21_4e8b_dfb1_3a77int);
    lemma_exact_by_fractions(173, 0x3f21_4e8b_dfb1_39f0int, 0x3f21_4e8b_dfb1_3a77int, 0xc6_54b4_66bc_cf3fint, 0x140_c12a_0b76_229aint, 0x277_dc28_3d0b_a17fint, 0x3fd_e35a_ef84_675bint);
    lemma_excess_up(173, 0x3f21_4e8b_dfb1_39f0int, 0x3f21_4e8b_dfb1_3a77int, -8, 0x31ce_e412_ff81_f64cint, 0x31ce_e412_ff81_f725int);
    lemma_exact_by_fractions(174, 0x31ce_e412_ff81_f64cint, 0x31ce_e412_ff81_f725int, 0xb7_957c_c99a_ba8bint, 0xb9_90c3_13e1_55bdint, 0x261_bd54_d158_8271int, 0x268_5226_08c6_00c4int);
    lemma_excess_up(174, 0x31ce_e412_ff81_f64cint, 0x31ce_e412_ff81_f725int, 2, 0x34a5_8342_6601_91d6int, 0x34a5_8342_6601_9284int);
    lemma_exact_by_fractions(175, 0x34a5_8342_6601_91d6int, 0x34a5_8342_6601_9284int, 0x200_b5fd_1ee4_16b3int, 0x287_ce5f_9a75_d650int, 0x61_0757_b274_6bbeint, 0x7a_984f_f081_aaa5int);
    lemma_excess_up(175, 0x34a5_8342_6601_91d6int, 0x34a5_8342_6601_9284int, -6, 0x3b7_9c35_1e67_a7deint, 0x3b7_9c35_1e67_a86aint);
    lemma_exact_by_fractions(176, 0x3b7_9c35_1e67_a7deint, 0x3b7_9c35_1e67_a86aint, 0x66_8acc_3960_d157int, 0xa1_f397_e69d_7594int, 0x184_1d5e_c9d1_aef8int, 0x264_f98f_b288_5539int);
    lemma_excess_up(176, 0x3b7_9c35_1e67_a7deint, 0x3b7_9c35_1e67_a86aint, 2, 0xfc6_1690_e51f_b97eint, 0xfc6_1690_e51f_b9efint);
    lemma_exact_by_fractions(177, 0xfc6_1690_e51f_b97eint, 0xfc6_1690_e51f_b9efint, 0x66_8acc_3960_d157int, 0xca_707d_e044_d2f9int, 0x1b1_8ada_7fe8_ba62int, 0x357_e6f3_8c74_8597int);
    lemma_excess_up(177, 0xfc6_1690_e51f_b97eint, 0xfc6_1690_e51f_b9efint, 2, 0x2609_bdb4_a1cc_5bfcint, 0x2609_bdb4_a1cc_5cb2int);
    lemma_exact_by_fractions(178, 0x2609_bdb4_a1cc_5bfcint, 0x2609_bdb4_a1cc_5cb2int, 0x25d_e752_4db5_ec6eint, 0x2eb_9c99_0629_c8b9int, 0x6b_3787_bea8_4f25int, 0x84_4aee_2d97_2b12int);
    lemma_excess_up(178, 0x2609_bdb4_a1cc_5bfcint, 0x2609_bdb4_a1cc_5cb2int, 2, 0x2b3a_fe2a_1b09_e330int, 0x2b3a_fe2a_1b09_e3c2int);
    lemma_exact_by_fractions(179, 0x2b3a_fe2a_1b09_e330int, 0x2b3a_fe2a_1b09_e3c2int, 0x107_ce08_ded0_d4cdint, 0x196_e108_0e7a_af21int, 0x1de_3d18_5c21_7317int, 0x2e1_9c5b_8074_9aceint);
    lemma_excess_up(179, 0x2b3a_fe2a_1b09_e330int, 0x2b3a_fe2a_1b09_e3c2int, 0, 0x2295_9821_af3b_1c26int, 0x2295_9821_af3b_1c9cint);
    lemma_exact_by_fractions(180, 0x2295_9821_af3b_1c26int, 0x2295_9821_af3b_1c9cint, 0x19c_36a9_1dce_1661int, 0x31a_b8a2_f5d5_2d65int, 0xb5_6bd7_de26_efefint, 0x15d_c4c0_991a_1c8aint);
    lemma_excess_up(180, 0x2295_9821_af3b_1c26int, 0x2295_9821_af3b_1c9cint, 0, 0x3755_c035_e52b_603cint, 0x3755_c035_e52b_60faint);
    lemma_exact_by_fractions(181, 0x3755_c035_e52b_603cint, 0x3755_c035_e52b_60faint, 0x212_f0c2_e9cb_e471int, 0x27f_c312_4b83_259dint, 0x1a2_e00b_7622_8c0fint, 0x1f8_ba51_436c_2452int);
    lemma_excess_up(181, 0x3755_c035_e52b_603cint, 0x3755_c035_e52b_60faint, 2, 0x3911_6691_8422_b363int, 0x3911_6691_8422_b3fcint);
    lemma_exact_by_fractions(182, 0x3911_6691_8422_b363int, 0x3911_6691_8422_b3fcint, 0x1db_74a8_fb01_04cdint, 0x2cc_219f_86ca_9e79int, 0xa7_8cd1_6274_3806int, 0xfc_5d28_a1b6_1229int);
    lemma_excess_up(182, 0x3911_6691_8422_b363int, 0x3911_6691_8422_b3fcint, -2, 0x20da_b874_69b5_5c4fint, 0x20da_b874_69b5_5ccaint);
    lemma_exact_by_fractions(183, 0x20da_b874_69b5_5c4fint, 0x20da_b874_69b5_5ccaint, 0x20d_484c_c2e8_d85eint, 0x3dc_f9b5_57ac_7ca3int, 0x48_757c_6374_03ddint, 0x88_6c0a_e870_ef15int);
    lemma_excess_up(183, 0x20da_b874_69b5_5c4fint, 0x20da_b874_69b5_5ccaint, 0, 0x3491_2720_a922_2d4bint, 0x3491_2720_a922_2e10int);
    lemma_exact_by_fractions(184, 0x3491_2720_a922_2d4bint, 0x3491_2720_a922_2e10int, 0x259_5af7_2882_9bb2int, 0x2c3_a045_47a5_21b5int, 0x255_bdc9_265c_dc3bint, 0x2bf_5f98_2812_6353int);
    lemma_excess_up(184, 0x3491_2720_a922_2d4bint, 0x3491_2720_a922_2e10int, -4, 0x1074_1f4d_541b_576fint, 0x1074_1f4d_541b_580dint);
    lemma_exact_by_fractions(185, 0x1074_1f4d_541b_576fint, 0x1074_1f4d_541b_580dint, 0x1_7212_6742_4c96int, 0x2_2056_8fc9_5f31int, 0x209_1d09_2269_291fint, 0x2fe_813f_5fba_0185int);
    lemma_excess_up(185, 0x1074_1f4d_541b_576fint, 0x1074_1f4d_541b_580dint, 2, 0x19f6_7f71_1015_df8cint, 0x19f6_7f71_1015_e00bint);
    lemma_exact_by_fractions(186, 0x19f6_7f71_1015_df8cint, 0x19f6_7f71_1015_e00bint, 0xf1_8dd6_2549_0d7dint, 0x1bc_2077_0a97_685cint, 0x1dd_5362_ad88_e8a2int, 0x36d_9f3d_463f_f4c3int);
    lemma_excess_up(186, 0x19f6_7f71_1015_df8cint, 0x19f6_7f71_1015_e00bint, 2, 0x3657_324e_8022_ff46int, 0x3657_324e_8023_0012int);
    lemma_exact_by_fractions(187, 0x3657_324e_8022_ff46int, 0x3657_324e_8023_0012int, 0x1e3_1bac_4a92_1afaint, 0x22b_2894_cd3d_4273int, 0x14d_8cbd_b692_1dcfint, 0x17f_4b8f_c1cd_0d56int);
    lemma_excess_up(187, 0x3657_324e_8022_ff46int, 0x3657_324e_8023_0012int, 0, 0x2b78_f50b_99b5_9904int, 0x2b78_f50b_99b5_99a8int);
    lemma_exact_by_fractions(188, 0x2b78_f50b_99b5_9904int, 0x2b78_f50b_99b5_99a8int, 0x7e_8885_5fb6_d1a1int, 0xb5_c166_762b_5de4int, 0x19e_0870_adb6_985cint, 0x252_ba1a_7829_e58fint);
    lemma_excess_up(188, 0x2b78_f50b_99b5_9904int, 0x2b78_f50b_99b5_99a8int, 2, 0x2f93_f73c_7af7_ad9cint, 0x2f93_f73c_7af7_ae20int);
    lemma_exact_by_fractions(189, 0x2f93_f73c_7af7_ad9cint, 0x2f93_f73c_7af7_ae20int, 0x7e_8885_5fb6_d1a1int, 0xe3_31c0_13b6_355dint, 0x22e_fc7d_6a74_c005int, 0x3eb_ad41_020b_78d0int);
    lemma_excess_up(189, 0x2f93_f73c_7af7_ad9cint, 0x2f93_f73c_7af7_ae20int, -8, 0x18ec_bec7_2b25_e293int, 0x18ec_bec7_2b25_e367int);
    lemma_exact_by_fractions(190, 0x18ec_bec7_2b25_e293int, 0x18ec_bec7_2b25_e367int, 0x13a_4021_ae6f_0f69int, 0x160_a768_33f7_a477int, 0x22e_fc7d_6a74_c005int, 0x273_4c48_a147_2b82int);
    lemma_excess_up(190, 0x18ec_bec7_2b25_e293int, 0x18ec_bec7_2b25_e367int, -2, 0x723_cbd2_88eb_1ba8int, 0x723_cbd2_88eb_1c53int);
    lemma_exact_by_fractions(191, 0x723_cbd2_88eb_1ba8int, 0x723_cbd2_88eb_1c53int, 0x1e8_e5db_19cf_d27fint, 0x2ad_ce2e_7645_4193int, 0xd1_b10a_93b3_39d9int, 0x126_2582_5ef9_8e66int);
    lemma_excess_up(191, 0x723_cbd2_88eb_1ba8int, 0x723_cbd2_88eb_1c53int, 8, 0x38e9_6fdb_a0bc_1620int, 0x38e9_6fdb_a0bc_16a9int);
    lemma_exact_by_fractions(192, 0x38e9_6fdb_a0bc_1620int, 0x38e9_6fdb_a0bc_16a9int, 0x187_1e48_e173_0eccint, 0x2ad_ce2e_7645_4193int, 0x195_402f_046c_c13fint, 0x2c6_95fa_31da_92c9int);
    lemma_excess_up(192, 0x38e9_6fdb_a0bc_1620int, 0x38e9_6fdb_a0bc_16a9int, -8, 0x27db_e62c_3460_2366int, 0x27db_e62c_3460_2442int);
    lemma_exact_by_fractions(193, 0x27db_e62c_3460_2366int, 0x27db_e62c_3460_2442int, 0x13e_8c2f_f58c_b99eint, 0x15d_190a_2a07_f517int, 0x1fa_1614_3646_7b53int, 0x22a_9f4d_e986_9526int);
    lemma_excess_up(193, 0x27db_e62c_3460_2366int, 0x27db_e62c_3460_2442int, 4, 0x397c_b823_5d19_b5ebint, 0x397c_b823_5d19_b69cint);
    lemma_exact_by_fractions(194, 0x397c_b823_5d19_b5ebint, 0x397c_b823_5d19_b69cint, 0x119_0a35_8234_5fadint, 0x180_fdbb_c4aa_4a59int, 0x1af_121f_4f95_c771int, 0x24e_83ff_8428_ea68int);
    lemma_excess_up(194, 0x397c_b823_5d19_b5ebint, 0x397c_b823_5d19_b69cint, -6, 0x796_f9b5_e414_9188int, 0x796_f9b5_e414_9217int);
    lemma_exact_by_fractions(195, 0x796_f9b5_e414_9188int, 0x796_f9b5_e414_9217int, 0x208_a910_9966_3449int, 0x37b_8dab_b00b_d987int, 0x56_36d3_0fea_c17dint, 0x93_a0ff_e10a_3a9aint);
    lemma_excess_up(195, 0x796_f9b5_e414_9188int, 0x796_f9b5_e414_9217int, 2, 0x18f1_8f89_6ced_b5a6int, 0x18f1_8f89_6ced_b68cint);
    lemma_exact_by_fractions(196, 0x18f1_8f89_6ced_b5a6int, 0x18f1_8f89_6ced_b68cint, 0x27f_55bf_8cf1_dc5bint, 0x2ac_3a8a_8b42_ed83int, 0x158_db4c_3fab_05f4int, 0x171_127f_b299_9281int);
    lemma_excess_up(196, 0x18f1_8f89_6ced_b5a6int, 0x18f1_8f89_6ced_b68cint, 4, 0x2d8e_0c6d_f0be_2aebint, 0x2d8e_0c6d_f0be_2ba4int);
    lemma_exact_by_fractions(197, 0x2d8e_0c6d_f0be_2aebint, 0x2d8e_0c6d_f0be_2ba4int, 0x75_ca94_854f_88f6int, 0x9d_9405_6c54_ad81int, 0x201_06b9_b75e_be77int, 0x2ae_5037_1c00_ea01int);
    lemma_excess_up(197, 0x2d8e_0c6d_f0be_2aebint, 0x2d8e_0c6d_f0be_2ba4int, -2, 0x17a4_d6be_5a31_bbefint, 0x17a4_d6be_5a31_bc84int);
    lemma_exact_by_fractions(198, 0x17a4_d6be_5a31_bbefint, 0x17a4_d6be_5a31_bc84int, 0x1b8_cb0c_ed91_c482int, 0x2e1_1a29_1cd4_26c3int, 0x1a9_9b6a_59bb_94d7int, 0x2c7_b530_1c6a_8862int);
    lemma_excess_up(198, 0x17a4_d6be_5a31_bbefint, 0x17a4_d6be_5a31_bc84int, 2, 0x32a1_5796_f6b5_f97eint, 0x32a1_5796_f6b5_fa6dint);
    lemma_exact_by_fractions(199, 0x32a1_5796_f6b5_f97eint, 0x32a1_5796_f6b5_fa6dint, 0x272_38da_0bb2_fc83int, 0x28e_7cc1_5961_3d4fint, 0x154_7c55_1496_10acint, 0x163_da98_0e35_4431int);
    lemma_excess_up(199, 0x32a1_5796_f6b5_f97eint, 0x32a1_5796_f6b5_fa6dint, -6, 0x21a_ac78_c55e_6131int, 0x21a_ac78_c55e_61f1int);
    lemma_exact_by_fractions(200, 0x21a_ac78_c55e_6131int, 0x21a_ac78_c55e_61f1int, 0x72_4b68_62d8_5e56int, 0x95_5114_a595_fc8fint, 0x1fd_878d_94e7_93d7int, 0x299_a8dd_2b24_2fa4int);
}

/// The entries for the decimal exponents from 201 to 240.
proof fn lemma_exact_up_5()
    ensures
        excess_within(240, 0x533_deac_27f0_9541int, 0x533_deac_27f0_963aint),
        forall|f: int| 201 <= f <= 240 ==> exact_everywhere(f) && is_ceiling(f),
{
    reveal(multiplier);
    lemma_exact_up_4();
    lemma_excess_up(200, 0x21a_ac78_c55e_6131int, 0x21a_ac78_c55e_61f1int, 2, 0xe7b_bd2d_6ab1_e75aint, 0xe7b_bd2d_6ab1_e7f4int);
    lemma_exact_by_fractions(201, 0xe7b_bd2d_6ab1_e75aint, 0xe7b_bd2d_6ab1_e7f4int, 0x178_367d_3e35_9993int, 0x266_5d75_3b8b_0196int, 0x127_3f58_f109_b9ceint, 0x1e2_2583_3b28_1461int);
    lemma_excess_up(201, 0xe7b_bd2d_6ab1_e75aint, 0xe7b_bd2d_6ab1_e7f4int, 4, 0x30c5_fb7b_dde9_7229int, 0x30c5_fb7b_dde9_7320int);
    lemma_exact_by_fractions(202, 0x30c5_fb7b_dde9_7229int, 0x30c5_fb7b_dde9_7320int, 0x12c_f864_31c4_7adcint, 0x133_2eba_9dc5_80cbint, 0x299_bcca_ee84_9253int, 0x2a7_7a92_b163_79acint);
    lemma_excess_up(202, 0x30c5_fb7b_dde9_7229int, 0x30c5_fb7b_dde9_7320int, -4, 0xd6b_2f96_4b21_2820int, 0xd6b_2f96_4b21_28e7int);
    lemma_exact_by_fractions(203, 0xd6b_2f96_4b21_2820int, 0xd6b_2f96_4b21_28e7int, 0xf0_c6b6_8e36_c8b0int, 0x133_2eba_9dc5_80cbint, 0x1a8_f614_604d_c9a3int, 0x21e_2a7c_bff6_d74cint);
    lemma_excess_up(203, 0xd6b_2f96_4b21_2820int, 0xd6b_2f96_4b21_28e7int, 2, 0x1788_f2de_a280_ece6int, 0x1788_f2de_a280_ed86int);
    lemma_exact_by_fractions(204, 0x1788_f2de_a280_ece6int, 0x1788_f2de_a280_ed86int, 0x115_9cfc_8508_2f47int, 0x1ba_b959_cdc3_369eint, 0x1a8_f614_604d_c9a3int, 0x2a5_b51b_eff4_8d1fint);
    lemma_excess_up(204, 0x1788_f2de_a280_ece6int, 0x1788_f2de_a280_ed86int, -2, 0x607_28b2_1b9a_571eint, 0x607_28b2_1b9a_579fint);
    lemma_exact_by_fractions(205, 0x607_28b2_1b9a_571eint, 0x607_28b2_1b9a_579fint, 0x1b8_c3bc_fe26_175bint, 0x36e_a328_fdde_8fa3int, 0x72_763c_0bea_4733int, 0xe4_2c37_8489_78e8int);
    lemma_excess_up(205, 0x607_28b2_1b9a_571eint, 0x607_28b2_1b9a_579fint, 8, 0x3cd8_411c_f8f6_f1c9int, 0x3cd8_411c_f8f6_f298int);
    lemma_exact_by_fractions(206, 0x3cd8_411c_f8f6_f1c9int, 0x3cd8_411c_f8f6_f298int, 0x20a_159b_1d2c_8040int, 0x28a_76f1_7955_16bbint, 0x72_763c_0bea_4733int, 0x8e_9ba2_b2d5_eb91int);
    lemma_excess_up(206, 0x3cd8_411c_f8f6_f1c9int, 0x3cd8_411c_f8f6_f298int, -6, 0xa46_9a7d_93f8_c16dint, 0xa46_9a7d_93f8_c214int);
    lemma_exact_by_fractions(207, 0xa46_9a7d_93f8_c16dint, 0xa46_9a7d_93f8_c214int, 0x15a_301f_b391_558aint, 0x21b_24ec_c8eb_6cb7int, 0x192_0487_f19d_392bint, 0x272_178d_238c_8346int);
    lemma_excess_up(207, 0xa46_9a7d_93f8_c16dint, 0xa46_9a7d_93f8_c214int, 4, 0x21d2_1531_432d_678aint, 0x21d2_1531_432d_6810int);
    lemma_exact_by_fractions(208, 0x21d2_1531_432d_678aint, 0x21d2_1531_432d_6810int, 0x3a_1257_e44d_e395int, 0x71_0c93_1b92_958aint, 0x201_ad58_6db5_006dint, 0x3e7_fc01_4f02_5c7dint);
    lemma_excess_up(208, 0x21d2_1531_432d_678aint, 0x21d2_1531_432d_6810int, -8, 0x2e9_bb82_0515_7276int, 0x2e9_bb82_0515_734dint);
    lemma_exact_by_fractions(209, 0x2e9_bb82_0515_7276int, 0x2e9_bb82_0515_734dint, 0x235_83dd_e691_b661int, 0x2b0_0fba_5e98_9a96int, 0x14d_3a7e_555a_280dint, 0x195_704a_99aa_24bdint);
    lemma_excess_up(209, 0x2e9_bb82_0515_7276int, 0x2e9_bb82_0515_734dint, 2, 0xf21_62ce_6a77_8ec4int, 0xf21_62ce_6a77_8f71int);
    lemma_exact_by_fractions(210, 0xf21_62ce_6a77_8ec4int, 0xf21_62ce_6a77_8f71int, 0x1b0_3944_f7a0_d98fint, 0x291_5b83_a969_aeddint, 0x10a_9531_dde1_b9a4int, 0x195_704a_99aa_24bdint);
    lemma_excess_up(210, 0xf21_62ce_6a77_8ec4int, 0xf21_62ce_6a77_8f71int, 8, 0x3f4d_e8a5_21f9_3f03int, 0x3f4d_e8a5_21f9_3f8eint);
    lemma_exact_by_fractions(211, 0x3f4d_e8a5_21f9_3f03int, 0x3f4d_e8a5_21f9_3f8eint, 0x21_20d0_9ebf_d32fint, 0x3e_face_43ef_e288int, 0x218_47bd_8b89_b3a0int, 0x3fb_8490_c154_8f31int);
    lemma_excess_up(211, 0x3f4d_e8a5_21f9_3f03int, 0x3f4d_e8a5_21f9_3f8eint, -8, 0x3216_4108_365b_9804int, 0x3216_4108_365b_98e4int);
    lemma_exact_by_fractions(212, 0x3216_4108_365b_9804int, 0x3216_4108_365b_98e4int, 0x6_a029_b959_90a3int, 0x7_df59_c87d_fc51int, 0x286_2448_25e0_deceint, 0x2ff_bbef_07fa_b5efint);
    lemma_excess_up(212, 0x3216_4108_365b_9804int, 0x3216_4108_365b_98e4int, -4, 0xe78_3406_91e2_e003int, 0xe78_3406_91e2_e0b7int);
    lemma_exact_by_fractions(213, 0xe78_3406_91e2_e003int, 0xe78_3406_91e2_e0b7int, 0x1a_80a6_e566_428cint, 0x27_5cc0_ea75_ed95int, 0x200_30ad_4732_a15dint, 0x2f8_b812_978d_2358int);
    lemma_excess_up(213, 0xe78_3406_91e2_e003int, 0xe78_3406_91e2_e0b7int, 2, 0x1860_299e_db1b_e668int, 0x1860_299e_db1b_e6f9int);
    lemma_exact_by_fractions(214, 0x1860_299e_db1b_e668int, 0x1860_299e_db1b_e6f9int, 0x1f9_46d8_46b6_13c9int, 0x3aa_1056_0ca3_eae5int, 0x18f_443c_b11d_0999int, 0x2e5_4091_7856_46fcint);
    lemma_excess_up(214, 0x1860_299e_db1b_e668int, 0x1860_299e_db1b_e6f9int, -6, 0x99_dc31_5e93_0a40int, 0x99_dc31_5e93_0b28int);
    lemma_exact_by_fractions(215, 0x99_dc31_5e93_0a40int, 0x99_dc31_5e93_0b28int, 0x1f7_e4e0_e036_c445int, 0x248_af7d_a1cc_e2a6int, 0x9f_b4e5_13a5_370aint, 0xb9_5024_5e15_91bfint);
    lemma_excess_up(215, 0x99_dc31_5e93_0a40int, 0x99_dc31_5e93_0b28int, 0, 0x7b_168d_e542_6e99int, 0x7b_168d_e542_6f54int);
    lemma_exact_by_fractions(216, 0x7b_168d_e542_6e99int, 0x7b_168d_e542_6f54int, 0x124_6d3f_de04_694dint, 0x1a8_2415_f593_9348int, 0x15a_6654_7090_72dbint, 0x1f6_6c9f_e0d8_4573int);
    lemma_excess_up(216, 0x7b_168d_e542_6e99int, 0x7b_168d_e542_6f54int, 2, 0xd2f_453e_5101_f214int, 0xd2f_453e_5101_f2aaint);
    lemma_exact_by_fractions(217, 0xd2f_453e_5101_f214int, 0xd2f_453e_5101_f2aaint, 0x124_6d3f_de04_694dint, 0x212_2d1b_72f8_781aint, 0x1c4_9369_df43_0177int, 0x334_87b0_5906_f3e9int);
    lemma_excess_up(217, 0xd2f_453e_5101_f214int, 0xd2f_453e_5101_f2aaint, 2, 0x21e5_3b96_e803_1cecint, 0x21e5_3b96_e803_1dddint);
    lemma_exact_by_fractions(218, 0x21e5_3b96_e803_1cecint, 0x21e5_3b96_e803_1dddint, 0x159_567b_cfed_235bint, 0x187_50d2_cb15_ca23int, 0x1df_0807_d837_5e7eint, 0x21e_cf1f_0941_97fbint);
    lemma_excess_up(218, 0x21e5_3b96_e803_1cecint, 0x21e5_3b96_e803_1dddint, -4, 0x184_2fab_eccf_4a56int, 0x184_2fab_eccf_4b18int);
    lemma_exact_by_fractions(219, 0x184_2fab_eccf_4a56int, 0x184_2fab_eccf_4b18int, 0xf9_8813_d7e2_1075int, 0x161_713f_bb8a_d6adint, 0x17f_399f_e02c_4b98int, 0x21e_cf1f_0941_97fbint);
    lemma_excess_up(219, 0x184_2fab_eccf_4a56int, 0x184_2fab_eccf_4b18int, 4, 0x1ad0_2623_23d9_0844int, 0x1ad0_2623_23d9_08e0int);
    lemma_exact_by_fractions(220, 0x1ad0_2623_23d9_0844int, 0x1ad0_2623_23d9_08e0int, 0x22f_aec7_c9c2_c7b2int, 0x3de_ef4e_6ba7_cf4fint, 0x1e6_9bdb_db77_3357int, 0x35d_8e26_6150_144cint);
    lemma_excess_up(220, 0x1ad0_2623_23d9_0844int, 0x1ad0_2623_23d9_08e0int, 0, 0x2ae6_a36b_6c8e_73a0int, 0x2ae6_a36b_6c8e_749aint);
    lemma_exact_by_fractions(221, 0x2ae6_a36b_6c8e_73a0int, 0x2ae6_a36b_6c8e_749aint, 0x15e_6ca7_0f1d_957dint, 0x183_c5e2_69a9_e51eint, 0x26e_cb10_a7d0_d131int, 0x2b1_2bcd_8ffa_3441int);
    lemma_excess_up(221, 0x2ae6_a36b_6c8e_73a0int, 0x2ae6_a36b_6c8e_749aint, 0, 0x2252_1c55_f071_f619int, 0x2252_1c55_f071_f6e2int);
    lemma_exact_by_fractions(222, 0x2252_1c55_f071_f619int, 0x2252_1c55_f071_f6e2int, 0x209_d102_77ba_5b99int, 0x2d1_ca47_da96_1bf2int, 0xb3_084b_a680_cf61int, 0xf7_a46e_2d92_a0d9int);
    lemma_excess_up(222, 0x2252_1c55_f071_f619int, 0x2252_1c55_f071_f6e2int, 4, 0x350e_7d11_8d27_f814int, 0x350e_7d11_8d27_f8b5int);
    lemma_exact_by_fractions(223, 0x350e_7d11_8d27_f814int, 0x350e_7d11_8d27_f8b5int, 0x1c2_3417_6853_a23fint, 0x30a_6aa2_ba72_5282int, 0x8f_39d6_1ecd_72b4int, 0xf7_a46e_2d92_a0d9int);
    lemma_excess_up(223, 0x350e_7d11_8d27_f814int, 0x350e_7d11_8d27_f8b5int, -6, 0x2e7d_94e8_e1d9_8cecint, 0x2e7d_94e8_e1d9_8defint);
    lemma_exact_by_fractions(224, 0x2e7d_94e8_e1d9_8cecint, 0x2e7d_94e8_e1d9_8defint, 0x2af_9343_37fa_776dint, 0x2e7_0669_ee88_b068int, 0x105_e96c_06a0_dd4bint, 0x11b_08a6_f97c_42f3int);
    lemma_excess_up(224, 0x2e7d_94e8_e1d9_8cecint, 0x2e7d_94e8_e1d9_8defint, 0, 0x2531_43ed_817a_d723int, 0x2531_43ed_817a_d7f3int);
    lemma_exact_by_fractions(225, 0x2531_43ed_817a_d723int, 0x2531_43ed_817a_d7f3int, 0x15b_0b63_dd4c_6285int, 0x1d4_ca41_751e_6f0dint, 0x161_8ee8_5fea_b022int, 0x1dd_96bf_f530_70a5int);
    lemma_excess_up(225, 0x2531_43ed_817a_d723int, 0x2531_43ed_817a_d7f3int, -2, 0x10f4_3657_9ac8_ac1cint, 0x10f4_3657_9ac8_acc3int);
    lemma_exact_by_fractions(226, 0x10f4_3657_9ac8_ac1cint, 0x10f4_3657_9ac8_acc3int, 0x115_a2b6_4aa3_8204int, 0x1d4_ca41_751e_6f0dint, 0x231_c8f1_17e5_51a5int, 0x3b4_9421_0a53_6018int);
    lemma_excess_up(226, 0x10f4_3657_9ac8_ac1cint, 0x10f4_3657_9ac8_acc3int, -4, 0x186_bd58_f7a7_79c6int, 0x186_bd58_f7a7_7ad2int);
    lemma_exact_by_fractions(227, 0x186_bd58_f7a7_79c6int, 0x186_bd58_f7a7_7ad2int, 0x288_1642_7899_f852int, 0x2ab_f00d_7786_4317int, 0x70_5b63_6b2d_dd21int, 0x76_9284_214a_6c03int);
    lemma_excess_up(227, 0x186_bd58_f7a7_79c6int, 0x186_bd58_f7a7_7ad2int, 2, 0xe05_6447_2c85_fb04int, 0xe05_6447_2c85_fbdcint);
    lemma_exact_by_fractions(228, 0xe05_6447_2c85_fb04int, 0xe05_6447_2c85_fbdcint, 0x11e_eacb_ae2b_cda5int, 0x17a_7c6a_9823_cdcbint, 0x1c1_6d8d_acb7_7484int, 0x250_dc94_a674_1c0fint);
    lemma_excess_up(228, 0xe05_6447_2c85_fb04int, 0xe05_6447_2c85_fbdcint, 4, 0x24d1_1d05_bd37_fc03int, 0x24d1_1d05_bd37_fcb0int);
    lemma_exact_by_fractions(229, 0x24d1_1d05_bd37_fc03int, 0x24d1_1d05_bd37_fcb0int, 0xe5_88a2_f1bc_a484int, 0x17a_7c6a_9823_cdcbint, 0x188_0b64_f048_4b63int, 0x286_749f_2a08_2fa0int);
    lemma_excess_up(229, 0x24d1_1d05_bd37_fc03int, 0x24d1_1d05_bd37_fcb0int, -2, 0x2e1b_61a2_c859_9338int, 0x2e1b_61a2_c859_944dint);
    lemma_exact_by_fractions(230, 0x2e1b_61a2_c859_9338int, 0x2e1b_61a2_c859_944dint, 0x1bd_a9b2_7fa2_afe7int, 0x1cb_4afe_7d64_d3bfint, 0x188_0b64_f048_4b63int, 0x194_08e3_7a45_1dc4int);
    lemma_excess_up(230, 0x2e1b_61a2_c859_9338int, 0x2e1b_61a2_c859_944dint, 0, 0x24e2_b482_39e1_4293int, 0x24e2_b482_39e1_4371int);
    lemma_exact_by_fractions(231, 0x24e2_b482_39e1_4293int, 0x24e2_b482_39e1_4371int, 0xc7_b666_6c65_3b5eint, 0x101_468c_c042_44ddint, 0x24f_c1cb_5cad_86c1int, 0x2fa_51a9_1918_aa12int);
    lemma_excess_up(231, 0x24e2_b482_39e1_4293int, 0x24e2_b482_39e1_4371int, 0, 0x1d82_2a01_c7e7_6875int, 0x1d82_2a01_c7e7_6928int);
    lemma_exact_by_fractions(232, 0x1d82_2a01_c7e7_6875int, 0x1d82_2a01_c7e7_6928int, 0x9f_c51e_bd1d_c918int, 0x101_468c_c042_44ddint, 0x1ff_df3b_fe1e_a235int, 0x338_42cc_ff3d_b228int);
    lemma_excess_up(232, 0x1d82_2a01_c7e7_6875int, 0x1d82_2a01_c7e7_6928int, 2, 0x3c03_7669_3fd8_a721int, 0x3c03_7669_3fd8_a840int);
    lemma_exact_by_fractions(233, 0x3c03_7669_3fd8_a721int, 0x3c03_7669_3fd8_a840int, 0x299_212d_f9e1_c384int, 0x29d_67f3_3fe1_1df1int, 0x1ff_df3b_fe1e_a235int, 0x203_29c0_1f86_8f59int);
    lemma_excess_up(233, 0x3c03_7669_3fd8_a721int, 0x3c03_7669_3fd8_a840int, -4, 0x1669_2b87_6646_ec1aint, 0x1669_2b87_6646_ed00int);
    lemma_exact_by_fractions(234, 0x1669_2b87_6646_ec1aint, 0x1669_2b87_6646_ed00int, 0x251_681f_2c9c_4356int, 0x2ea_870c_d00e_653dint, 0x1b8_262d_30d9_2207int, 0x229_b94c_e79d_32ffint);
    lemma_excess_up(234, 0x1669_2b87_6646_ec1aint, 0x1669_2b87_6646_ed00int, 6, 0x3854_22d2_b838_bce1int, 0x3854_22d2_b838_bd9aint);
    lemma_exact_by_fractions(235, 0x3854_22d2_b838_bce1int, 0x3854_22d2_b838_bd9aint, 0xce_b60f_45e4_4779int, 0x145_1016_6dea_e60fint, 0x139_9e49_da26_93cdint, 0x1ed_2de3_84a5_b492int);
    lemma_excess_up(235, 0x3854_22d2_b838_bce1int, 0x3854_22d2_b838_bd9aint, 2, 0x39dc_e8a8_9360_971aint, 0x39dc_e8a8_9360_97afint);
    lemma_exact_by_fractions(236, 0x39dc_e8a8_9360_971aint, 0x39dc_e8a8_9360_97afint, 0xb9_5469_f50a_3835int, 0x16c_4ca8_c3b6_ebf2int, 0x1c8_2f69_2d7c_ad7aint, 0x380_b71e_9e28_a667int);
    lemma_excess_up(236, 0x39dc_e8a8_9360_971aint, 0x39dc_e8a8_9360_97afint, -10, 0x1c94_a774_1f00_f1c3int, 0x1c94_a774_1f00_f2b2int);
    lemma_exact_by_fractions(237, 0x1c94_a774_1f00_f1c3int, 0x1c94_a774_1f00_f2b2int, 0x256_c439_3c37_ccb2int, 0x2df_9d95_2cfe_2b9fint, 0x47_46b7_4bf8_8a11int, 0x57_9108_5e25_911fint);
    lemma_excess_up(237, 0x1c94_a774_1f00_f1c3int, 0x1c94_a774_1f00_f2b2int, -2, 0xa10_85f6_7f33_f49cint, 0xa10_85f6_7f33_f55cint);
    lemma_exact_by_fractions(238, 0xa10_85f6_7f33_f49cint, 0xa10_85f6_7f33_f55cint, 0x10c_0460_3679_bc4eint, 0x19b_974e_c591_de5fint, 0x114_8f9e_b32d_f249int, 0x1a8_b63c_4e26_d9fdint);
    lemma_excess_up(238, 0xa10_85f6_7f33_f49cint, 0xa10_85f6_7f33_f55cint, 8, 0x3b40_6b2b_98f6_5d49int, 0x3b40_6b2b_98f6_5de4int);
    lemma_exact_by_fractions(239, 0x3b40_6b2b_98f6_5d49int, 0x3b40_6b2b_98f6_5de4int, 0x6c_ea66_2ebb_22ebint, 0xd1_1362_c4ee_2e17int, 0x1c4_c015_b454_f7a2int, 0x365_1adc_e92d_2d67int);
    lemma_excess_up(239, 0x3b40_6b2b_98f6_5d49int, 0x3b40_6b2b_98f6_5de4int, -14, 0x533_deac_27f0_9541int, 0x533_deac_27f0_963aint);
    lemma_exact_by_fractions(240, 0x533_deac_27f0_9541int, 0x533_deac_27f0_963aint, 0x274_4b04_76c2_1b55int, 0x2f1_cc9b_cf30_d872int, 0xf3_082c_ff16_fc03int, 0x123_9452_0976_0e01int);
}

/// The entries for the decimal exponents from 241 to 280.
proof fn lemma_exact_up_6()
    ensures
        excess_within(280, 0x1bb_c182_6df7_3399int, 0x1bb_c182_6df7_34d4int),
        forall|f: int| 241 <= f <= 280 ==> exact_everywhere(f) && is_ceiling(f),
{
    reveal(multiplier);
    lemma_exact_up_5();
    lemma_excess_up(240, 0x533_deac_27f0_9541int, 0x533_deac_27f0_963aint, 0, 0x429_7ef0_1ff3_aa9aint, 0x429_7ef0_1ff3_ab62int);
    lemma_exact_by_fractions(241, 0x429_7ef0_1ff3_aa9aint, 0x429_7ef0_1ff3_ab62int, 0xde_df12_e430_03dfint, 0x14e_3d4f_f887_3d1dint, 0x12f_837b_4fcb_e46fint, 0x1c7_2daa_45b8_8eaeint);
    lemma_excess_up(241, 0x429_7ef0_1ff3_aa9aint, 0x429_7ef0_1ff3_ab62int, 8, 0x3687_98c0_198f_bbaeint, 0x3687_98c0_198f_bc4fint);
    lemma_exact_by_fractions(242, 0x3687_98c0_198f_bbaeint, 0x3687_98c0_198f_bc4fint, 0xb2_4c0f_1cf3_364cint, 0x14e_3d4f_f887_3d1dint, 0x188_a982_de45_7f95int, 0x2e0_17bc_d36a_50e8int);
    lemma_excess_up(242, 0x3687_98c0_198f_bbaeint, 0x3687_98c0_198f_bc4fint, -10, 0x173f_5acc_f5b2_c5e3int, 0x173f_5acc_f5b2_c6e5int);
    lemma_exact_by_fractions(243, 0x173f_5acc_f5b2_c5e3int, 0x173f_5acc_f5b2_c6e5int, 0x11d_467e_94b8_56e0int, 0x14e_3d4f_f887_3d1dint, 0x188_a982_de45_7f95int, 0x1cc_0ed6_0422_7291int);
    lemma_excess_up(243, 0x173f_5acc_f5b2_c5e3int, 0x173f_5acc_f5b2_c6e5int, 2, 0x1f65_e23d_915b_d182int, 0x1f65_e23d_915b_d251int);
    lemma_exact_by_fractions(244, 0x1f65_e23d_915b_d182int, 0x1f65_e23d_915b_d251int, 0x206_4214_a848_3c33int, 0x2f7_0384_067e_ee08int, 0x15_7a34_0eb5_d4f1int, 0x1f_7461_82e6_cd5dint);
    lemma_excess_up(244, 0x1f65_e23d_915b_d182int, 0x1f65_e23d_915b_d251int, 2, 0x25eb_1b64_7449_7468int, 0x25eb_1b64_7449_750eint);
    lemma_exact_by_fractions(245, 0x25eb_1b64_7449_7468int, 0x25eb_1b64_7449_750eint, 0x1d1_0812_8d6f_acfaint, 0x353_5378_aec5_7f77int, 0x113_7871_6423_805fint, 0x1f8_4cb0_1ea3_c124int);
    lemma_excess_up(245, 0x25eb_1b64_7449_7468int, 0x25eb_1b64_7449_750eint, -2, 0x2fde_923a_53a8_ba40int, 0x2fde_923a_53a8_bb4aint);
    lemma_exact_by_fractions(246, 0x2fde_923a_53a8_ba40int, 0x2fde_923a_53a8_bb4aint, 0x60_8e03_d9cf_7069int, 0x6e_79ce_443c_6705int, 0x287_7ee6_a216_7127int, 0x2e4_d9aa_6a89_1872int);
    lemma_excess_up(246, 0x2fde_923a_53a8_ba40int, 0x2fde_923a_53a8_bb4aint, 4, 0x3fe5_41c8_42ed_61ccint, 0x3fe5_41c8_42ed_62a2int);
    lemma_exact_by_fractions(247, 0x3fe5_41c8_42ed_61ccint, 0x3fe5_41c8_42ed_62a2int, 0x1dd_18a2_63bc_11b5int, 0x2aa_5a8a_cdb2_15b3int, 0x5a_e092_fc7e_5011int, 0x81_f983_7884_129aint);
    lemma_excess_up(247, 0x3fe5_41c8_42ed_61ccint, 0x3fe5_41c8_42ed_62a2int, -6, 0xcb7_67d3_68bd_e7d6int, 0xcb7_67d3_68bd_e882int);
    lemma_exact_by_fractions(248, 0xcb7_67d3_68bd_e7d6int, 0xcb7_67d3_68bd_e882int, 0x23c_820e_a2ff_3989int, 0x3ff_8468_c987_d497int, 0x24_59d4_64ff_533aint, 0x40_fcc1_bc42_094dint);
    lemma_excess_up(248, 0xcb7_67d3_68bd_e7d6int, 0xcb7_67d3_68bd_e882int, -2, 0x78b_d952_412f_d956int, 0x78b_d952_412f_da6aint);
    lemma_exact_by_fractions(249, 0x78b_d952_412f_d956int, 0x78b_d952_412f_da6aint, 0x10b_2ce5_6263_690fint, 0x12a_8809_a75e_52fdint, 0x22d_fb88_8a5e_02dfint, 0x26f_77d2_54a8_817eint);
    lemma_excess_up(249, 0x78b_d952_412f_d956int, 0x78b_d952_412f_da6aint, 0, 0x609_7aa8_3426_4778int, 0x609_7aa8_3426_4855int);
    lemma_exact_by_fractions(250, 0x609_7aa8_3426_4778int, 0x609_7aa8_3426_4855int, 0xda_7777_0fd4_2a99int, 0x131_21f9_68d9_49deint, 0x1cc_90ab_e53f_85f3int, 0x283_45a1_9919_6621int);
    lemma_excess_up(250, 0x609_7aa8_3426_4778int, 0x609_7aa8_3426_4855int, 4, 0x1e6d_fbb9_c351_d2c6int, 0x1e6d_fbb9_c351_d378int);
    lemma_exact_by_fractions(251, 0x1e6d_fbb9_c351_d2c6int, 0x1e6d_fbb9_c351_d378int, 0x1b4_eeee_1fa8_5532int, 0x2fa_d4ef_861f_38abint, 0x13b_4e58_fecb_e8bdint, 0x226_7c4b_db2f_aa77int);
    lemma_excess_up(251, 0x1e6d_fbb9_c351_d2c6int, 0x1e6d_fbb9_c351_d378int, 2, 0x3d7c_c5f6_054f_b7a3int, 0x3d7c_c5f6_054f_b8c0int);
    lemma_exact_by_fractions(252, 0x3d7c_c5f6_054f_b7a3int, 0x3d7c_c5f6_054f_b8c0int, 0x1a6_85e4_c6a4_853bint, 0x1cd_0bb5_2329_71a9int, 0x259_ca9f_4b90_318cint, 0x290_a89d_b0a7_7191int);
    lemma_excess_up(252, 0x3d7c_c5f6_054f_b7a3int, 0x3d7c_c5f6_054f_b8c0int, -2, 0x2463_d191_9dd9_5fb5int, 0x2463_d191_9dd9_609aint);
    lemma_exact_by_fractions(253, 0x2463_d191_9dd9_5fb5int, 0x2463_d191_9dd9_609aint, 0x12e_2a2b_5121_481fint, 0x19c_247a_ffc9_f1afint, 0x1e1_6ee5_d60c_f470int, 0x290_a89d_b0a7_7191int);
    lemma_excess_up(253, 0x2463_d191_9dd9_5fb5int, 0x2463_d191_9dd9_609aint, -2, 0x104f_dada_e4ad_e62aint, 0x104f_dada_e4ad_e6e2int);
    lemma_exact_by_fractions(254, 0x104f_dada_e4ad_e62aint, 0x104f_dada_e4ad_e6e2int, 0x55_031f_3911_60c9int, 0x90_f134_d3ad_98dfint, 0x210_8fb3_7bfa_1a34int, 0x385_2cc0_6184_f173int);
    lemma_excess_up(254, 0x104f_dada_e4ad_e62aint, 0x104f_dada_e4ad_e6e2int, -2, 0xd4c_915e_3aaf_d6a9int, 0xd4c_915e_3aaf_d7d0int);
    lemma_exact_by_fractions(255, 0xd4c_915e_3aaf_d6a9int, 0xd4c_915e_3aaf_d7d0int, 0x88_04fe_c1b5_67a8int, 0x90_f134_d3ad_98dfint, 0x287_9412_6578_d4e7int, 0x2b2_0f06_762a_fcabint);
    lemma_excess_up(255, 0xd4c_915e_3aaf_d6a9int, 0xd4c_915e_3aaf_d7d0int, 2, 0x1770_744b_6226_4554int, 0x1770_744b_6226_4640int);
    lemma_exact_by_fractions(256, 0x1770_744b_6226_4554int, 0x1770_744b_6226_4640int, 0x19f_c03d_fd39_9479int, 0x229_c792_0d8b_a3b8int, 0x1ff_8f13_a3c3_6d3fint, 0x2a9_6546_0b1c_bcbfint);
    lemma_excess_up(256, 0x1770_744b_6226_4554int, 0x1770_744b_6226_4640int, 4, 0x2c59_f6a2_b4eb_6aa9int, 0x2c59_f6a2_b4eb_6b67int);
    lemma_exact_by_fractions(257, 0x2c59_f6a2_b4eb_6aa9int, 0x2c59_f6a2_b4eb_6b67int, 0x19f_c03d_fd39_9479int, 0x2b4_3976_90ee_8ca6int, 0x146_18d0_1d2a_6ce7int, 0x21e_f361_87b9_d3d1int);
    lemma_excess_up(257, 0x2c59_f6a2_b4eb_6aa9int, 0x2c59_f6a2_b4eb_6b67int, -6, 0x208f_f104_54ab_dddbint, 0x208f_f104_54ab_df0cint);
    lemma_exact_by_fractions(258, 0x208f_f104_54ab_dddbint, 0x208f_f104_54ab_df0cint, 0x77_0305_25de_60b9int, 0x7b_d8b4_146a_ffcaint, 0x2c6_e8ce_c5f3_4c1cint, 0x2e3_ca07_c6fc_614fint);
    lemma_excess_up(258, 0x208f_f104_54ab_dddbint, 0x208f_f104_54ab_df0cint, 0, 0x1a0c_c0d0_43bc_b17cint, 0x1a0c_c0d0_43bc_b270int);
    lemma_exact_by_fractions(259, 0x1a0c_c0d0_43bc_b17cint, 0x1a0c_c0d0_43bc_b270int, 0xee_060a_4bbc_c172int, 0x135_9dc2_330b_7f79int, 0x163_c555_cc4d_2547int, 0x1ce_c78a_f2ce_707fint);
    lemma_excess_up(259, 0x1a0c_c0d0_43bc_b17cint, 0x1a0c_c0d0_43bc_b270int, 4, 0x2e70_9a40_3630_8dfcint, 0x2e70_9a40_3630_8ec0int);
    lemma_exact_by_fractions(260, 0x2e70_9a40_3630_8dfcint, 0x2e70_9a40_3630_8ec0int, 0x253_d155_ed53_7b59int, 0x3c8_c8d1_22d6_0963int, 0x76_c246_6b35_2e25int, 0xc1_1953_4976_7bfeint);
    lemma_excess_up(260, 0x2e70_9a40_3630_8dfcint, 0x2e70_9a40_3630_8ec0int, -6, 0x23e7_5d33_89e7_4993int, 0x23e7_5d33_89e7_4acdint);
    lemma_exact_by_fractions(261, 0x23e7_5d33_89e7_4993int, 0x23e7_5d33_89e7_4acdint, 0x2b4_d91d_b1fa_ce7dint, 0x2c0_188a_cab4_8641int, 0x5f_01d1_ef5d_be84int, 0x60_8ca9_a4bb_3dffint);
    lemma_excess_up(261, 0x23e7_5d33_89e7_4993int, 0x23e7_5d33_89e7_4acdint, 2, 0x2985_e429_3b1f_6e0fint, 0x2985_e429_3b1f_6f0bint);
    lemma_exact_by_fractions(262, 0x2985_e429_3b1f_6e0fint, 0x2985_e429_3b1f_6f0bint, 0x219_9977_aa88_afddint, 0x2aa_e89d_5384_270bint, 0x17c_0747_bd76_fa10int, 0x1e2_bf50_37a8_35fbint);
    lemma_excess_up(262, 0x2985_e429_3b1f_6e0fint, 0x2985_e429_3b1f_6f0bint, 2, 0x2e04_b687_627f_8b3fint, 0x2e04_b687_627f_8c09int);
    lemma_exact_by_fractions(263, 0x2e04_b687_627f_8b3fint, 0x2e04_b687_627f_8c09int, 0x1f_83a3_2f69_f129int, 0x32_0a53_46f6_fc44int, 0x1e0_2515_d933_d1f7int, 0x2fa_67d4_f072_8923int);
    lemma_excess_up(263, 0x2e04_b687_627f_8b3fint, 0x2e04_b687_627f_8c09int, -4, 0xb36_f86c_4ecc_6f65int, 0xb36_f86c_4ecc_7008int);
    lemma_exact_by_fractions(264, 0xb36_f86c_4ecc_6f65int, 0xb36_f86c_4ecc_7008int, 0x1f_83a3_2f69_f129int, 0x3e_8ce8_18b4_bb55int, 0x1f1_9129_beda_0c26int, 0x3db_964b_afc9_f855int);
    lemma_excess_up(264, 0xb36_f86c_4ecc_6f65int, 0xb36_f86c_4ecc_7008int, 0, 0x11f1_8d7a_17ad_7f08int, 0x11f1_8d7a_17ad_800dint);
    lemma_exact_by_fractions(265, 0x11f1_8d7a_17ad_7f08int, 0x11f1_8d7a_17ad_800dint, 0x126_e6c8_e5bc_7339int, 0x16d_d4cc_d5b5_94f4int, 0x151_b078_5029_5d2aint, 0x1a2_e911_2fe3_813fint);
    lemma_excess_up(265, 0x11f1_8d7a_17ad_7f08int, 0x11f1_8d7a_17ad_800dint, -2, 0x18e_0ac8_12f1_326cint, 0x18e_0ac8_12f1_333eint);
    lemma_exact_by_fractions(266, 0x18e_0ac8_12f1_326cint, 0x18e_0ac8_12f1_333eint, 0x126_e6c8_e5bc_7339int, 0x1c9_4a00_0b22_fa31int, 0x1bf_17a5_96c5_5c77int, 0x2b5_48aa_d02b_b0f6int);
    lemma_excess_up(266, 0x18e_0ac8_12f1_326cint, 0x18e_0ac8_12f1_333eint, 6, 0x27a4_d56c_dbf4_2856int, 0x27a4_d56c_dbf4_28ffint);
    lemma_exact_by_fractions(267, 0x27a4_d56c_dbf4_2856int, 0x27a4_d56c_dbf4_28ffint, 0x108_769c_c254_4493int, 0x200_9cd5_5ca9_8b0cint, 0x182_374d_4ff4_ff2bint, 0x2ec_9b80_21b2_41d1int);
    lemma_excess_up(267, 0x27a4_d56c_dbf4_2856int, 0x27a4_d56c_dbf4_28ffint, -8, 0xc3a_ef14_9320_4089int, 0xc3a_ef14_9320_4198int);
    lemma_exact_by_fractions(268, 0xc3a_ef14_9320_4089int, 0xc3a_ef14_9320_4198int, 0x210_ed39_84a8_8926int, 0x280_c40a_b3d3_edcfint, 0x100_1484_e5e6_5805int, 0x136_3a25_6543_ef87int);
    lemma_excess_up(268, 0xc3a_ef14_9320_4089int, 0xc3a_ef14_9320_4198int, 6, 0x302f_25aa_0f4d_006dint, 0x302f_25aa_0f4d_0147int);
    lemma_exact_by_fractions(269, 0x302f_25aa_0f4d_006dint, 0x302f_25aa_0f4d_0147int, 0x1dd_b5eb_bd14_1125int, 0x2d3_6684_0777_ed61int, 0xcc_dd37_1e51_e004int, 0x136_3a25_6543_ef87int);
    lemma_excess_up(269, 0x302f_25aa_0f4d_006dint, 0x302f_25aa_0f4d_0147int, -4, 0xcf2_8488_0c3d_99f0int, 0xcf2_8488_0c3d_9aa0int);
    lemma_exact_by_fractions(270, 0xcf2_8488_0c3d_99f0int, 0xcf2_8488_0c3d_9aa0int, 0x88_83d3_c57a_c9d5int, 0x102_682a_5b2e_f73aint, 0x199_e961_28d7_2291int, 0x307_ea3b_e8c6_c7f5int);
    lemma_excess_up(270, 0xcf2_8488_0c3d_99f0int, 0xcf2_8488_0c3d_9aa0int, -2, 0x7ea_6da6_79fc_2980int, 0x7ea_6da6_79fc_2a9aint);
    lemma_exact_by_fractions(271, 0x7ea_6da6_79fc_2980int, 0x7ea_6da6_79fc_2a9aint, 0x222_0f4f_15eb_2754int, 0x286_0469_e3f5_6a11int, 0x88_a962_e8d7_18a9int, 0xa1_ad89_aecb_d316int);
    lemma_excess_up(271, 0x7ea_6da6_79fc_2980int, 0x7ea_6da6_79fc_2a9aint, 8, 0x3988_57b8_6196_8799int, 0x3988_57b8_6196_887cint);
    lemma_exact_by_fractions(272, 0x3988_57b8_6196_8799int, 0x3988_57b8_6196_887cint, 0xbf_1772_4099_7133int, 0x11a_96d2_8647_c043int, 0x1d0_6a38_1247_a285int, 0x2ae_c8aa_bb45_4ffaint);
    lemma_excess_up(272, 0x3988_57b8_6196_8799int, 0x3988_57b8_6196_887cint, -2, 0x2139_dfc6_b478_6c7aint, 0x2139_dfc6_b478_6d30int);
    lemma_exact_by_fractions(273, 0x2139_dfc6_b478_6c7aint, 0x2139_dfc6_b478_6d30int, 0x1db_10ef_b80e_02e7int, 0x36e_2b38_fe84_b4a6int, 0xb9_c416_6db6_4102int, 0x157_6455_5da2_a7fdint);
    lemma_excess_up(273, 0x2139_dfc6_b478_6c7aint, 0x2139_dfc6_b478_6d30int, -8, 0x1f6_32d7_8727_13f6int, 0x1f6_32d7_8727_151aint);
    lemma_exact_by_fractions(274, 0x1f6_32d7_8727_13f6int, 0x1f6_32d7_8727_151aint, 0x24e_c946_a297_83a9int, 0x2aa_8cbc_874b_7412int, 0x7f_e7ea_f871_80a1int, 0x93_c5d8_e669_6769int);
    lemma_excess_up(274, 0x1f6_32d7_8727_13f6int, 0x1f6_32d7_8727_151aint, 2, 0xe5e_8f12_d285_a991int, 0xe5e_8f12_d285_aa7cint);
    lemma_exact_by_fractions(275, 0xe5e_8f12_d285_a991int, 0xe5e_8f12_d285_aa7cint, 0x42_feb0_238a_807bint, 0x60_c042_ae9e_2950int, 0x1ff_9fab_e1c6_0284int, 0x2e2_dd3c_800f_050dint);
    lemma_excess_up(275, 0xe5e_8f12_d285_a991int, 0xe5e_8f12_d285_aa7cint, 0, 0xb7e_d8db_db9e_2140int, 0xb7e_d8db_db9e_21fdint);
    lemma_exact_by_fractions(276, 0xb7e_d8db_db9e_2140int, 0xb7e_d8db_db9e_21fdint, 0xd_6623_3a4e_e67fint, 0x18_3010_aba7_8a54int, 0x22f_3569_3ee2_18ffint, 0x3f1_7af4_12a6_1ed5int);
    lemma_excess_up(276, 0xb7e_d8db_db9e_2140int, 0xb7e_d8db_db9e_21fdint, 2, 0x1f31_5af9_5f63_6866int, 0x1f31_5af9_5f63_6995int);
    lemma_exact_by_fractions(277, 0x1f31_5af9_5f63_6866int, 0x1f31_5af9_5f63_6995int, 0x1a_cc46_749d_ccfeint, 0x1e_3c14_d691_6ce9int, 0x29d_ca36_93d2_9fd5int, 0x2f3_b026_fe3d_4a92int);
    lemma_excess_up(277, 0x1f31_5af9_5f63_6866int, 0x1f31_5af9_5f63_6995int, 6, 0x3f5a_af2d_e5e9_2051int, 0x3f5a_af2d_e5e9_2144int);
    lemma_exact_by_fractions(278, 0x3f5a_af2d_e5e9_2051int, 0x3f5a_af2d_e5e9_2144int, 0x6b_3119_d277_33f8int, 0x97_2c68_30d7_208dint, 0x1e7_b0e0_20e6_b1ddint, 0x2af_cb61_93ee_d7a9int);
    lemma_excess_up(278, 0x3f5a_af2d_e5e9_2051int, 0x3f5a_af2d_e5e9_2144int, -4, 0x1915_58f1_84ba_8040int, 0x1915_58f1_84ba_8104int);
    lemma_exact_by_fractions(279, 0x1915_58f1_84ba_8040int, 0x1915_58f1_84ba_8104int, 0x231_a8dc_9e44_14a4int, 0x3de_2431_f59d_18c3int, 0x13a_0d8b_a43b_db83int, 0x229_a3a3_3b28_e9e2int);
    lemma_excess_up(279, 0x1915_58f1_84ba_8040int, 0x1915_58f1_84ba_8104int, -6, 0x1bb_c182_6df7_3399int, 0x1bb_c182_6df7_34d4int);
    lemma_exact_by_fractions(280, 0x1bb_c182_6df7_3399int, 0x1bb_c182_6df7_34d4int, 0x263_2e53_36ac_2011int, 0x2a1_66b1_10d0_b556int, 0xd7_029e_736b_c4a9int, 0xec_e622_565c_8675int);
}

/// The entries for the decimal exponents from 281 to 292.
proof fn lemma_exact_up_7()
    ensures
        excess_within(292, 0x819_33f5_aed5_de40int, 0x819_33f5_aed5_dfa7int),
        forall|f: int| 281 <= f <= 292 ==> exact_everywhere(f) && is_ceiling(f),
{
    reveal(multiplier);
    lemma_exact_up_6();
    lemma_excess_up(280, 0x1bb_c182_6df7_3399int, 0x1bb_c182_6df7_34d4int, 0, 0x163_0135_24c5_c2e0int, 0x163_0135_24c5_c3ddint);
    lemma_exact_by_fractions(281, 0x163_0135_24c5_c2e0int, 0x163_0135_24c5_c3ddint, 0xf4_78ee_15de_733aint, 0x150_b358_8868_5aabint, 0x228_41b3_f1c6_c2efint, 0x2f8_9902_1c1b_7d7aint);
    lemma_excess_up(281, 0x163_0135_24c5_c2e0int, 0x163_0135_24c5_c3ddint, 4, 0x1ab5_9a90_ea37_cf19int, 0x1ab5_9a90_ea37_cfe4int);
    lemma_exact_by_fractions(282, 0x1ab5_9a90_ea37_cf19int, 0x1ab5_9a90_ea37_cfe4int, 0xb6_ea60_1d16_6349int, 0x13a_e6c4_4595_a8a2int, 0x1ad_2498_0036_a30dint, 0x2e2_cc6d_d948_cb71int);
    lemma_excess_up(282, 0x1ab5_9a90_ea37_cf19int, 0x1ab5_9a90_ea37_cfe4int, -6, 0x455_c41b_1059_4b5bint, 0x455_c41b_1059_4ca0int);
    lemma_exact_by_fractions(283, 0x455_c41b_1059_4b5bint, 0x455_c41b_1059_4ca0int, 0x92_5519_b0de_b5d4int, 0x9d_7362_22ca_d451int, 0x2a3_5ecf_e356_e2d1int, 0x2d6_af4e_a41d_74e8int);
    lemma_excess_up(283, 0x455_c41b_1059_4b5bint, 0x455_c41b_1059_4ca0int, 0, 0x377_d015_a6ad_d5e2int, 0x377_d015_a6ad_d6e7int);
    lemma_exact_by_fractions(284, 0x377_d015_a6ad_d5e2int, 0x377_d015_a6ad_d6e7int, 0x171_34b9_1542_837dint, 0x1f0_9297_ee9d_05dcint, 0x20a_49c4_7c4c_b327int, 0x2be_76dd_1de0_ebffint);
    lemma_excess_up(284, 0x377_d015_a6ad_d5e2int, 0x377_d015_a6ad_d6e7int, 4, 0x1c5f_d9aa_ebbe_44b4int, 0x1c5f_d9aa_ebbe_4586int);
    lemma_exact_by_fractions(285, 0x1c5f_d9aa_ebbe_44b4int, 0x1c5f_d9aa_ebbe_4586int, 0x171_34b9_1542_837dint, 0x26c_b73d_ea44_4753int, 0x1eb_abf5_67b1_1005int, 0x33a_9b83_1988_2d76int);
    lemma_excess_up(285, 0x1c5f_d9aa_ebbe_44b4int, 0x1c5f_d9aa_ebbe_4586int, 0, 0x2d66_2911_7930_6decint, 0x2d66_2911_7930_6f3dint);
    lemma_exact_by_fractions(286, 0x2d66_2911_7930_6decint, 0x2d66_2911_7930_6f3dint, 0x31_5918_f3c3_fe31int, 0x33_da5f_1760_0c26int, 0x2ab_a34c_dcdc_6f1aint, 0x2ce_571f_6013_35cbint);
    lemma_excess_up(286, 0x2d66_2911_7930_6decint, 0x2d66_2911_7930_6f3dint, 0, 0x2451_ba74_60f3_8b23int, 0x2451_ba74_60f3_8c31int);
    lemma_exact_by_fractions(287, 0x2451_ba74_60f3_8b23int, 0x2451_ba74_60f3_8c31int, 0x62_b231_e787_fc62int, 0x81_a1ed_ba70_1e5fint, 0x22f_ac7c_4495_bb8dint, 0x2df_1ac1_1981_f2f9int);
    lemma_excess_up(287, 0x2451_ba74_60f3_8b23int, 0x2451_ba74_60f3_8c31int, -2, 0x1041_61f6_b3f6_08e8int, 0x1041_61f6_b3f6_09c1int);
    lemma_exact_by_fractions(288, 0x1041_61f6_b3f6_08e8int, 0x1041_61f6_b3f6_09c1int, 0xd2_a17d_f53f_884bint, 0x159_d119_6f6c_a2b5int, 0x1bf_bd30_36de_2fa4int, 0x2df_1ac1_1981_f2f9int);
    lemma_excess_up(288, 0x1041_61f6_b3f6_08e8int, 0x1041_61f6_b3f6_09c1int, -4, 0x68_9cbd_ecbc_db0cint, 0x68_9cbd_ecbc_dc68int);
    lemma_exact_by_fractions(289, 0x68_9cbd_ecbc_db0cint, 0x68_9cbd_ecbc_dc68int, 0x151_0263_21ff_4078int, 0x159_d119_6f6c_a2b5int, 0x2e6_9f46_f49d_880dint, 0x2fa_07ae_f170_463aint);
    lemma_excess_up(289, 0x68_9cbd_ecbc_db0cint, 0x68_9cbd_ecbc_dc68int, 0, 0x53_b097_f097_15a3int, 0x53_b097_f097_16baint);
    lemma_exact_by_fractions(290, 0x53_b097_f097_15a3int, 0x53_b097_f097_16baint, 0x10d_9b82_8199_0060int, 0x159_d119_6f6c_a2b5int, 0x152_3603_3238_077dint, 0x1b1_cff4_86a9_63b9int);
    lemma_excess_up(290, 0x53_b097_f097_15a3int, 0x53_b097_f097_16baint, 2, 0xd0f_c079_8d45_aae8int, 0xd0f_c079_8d45_abc8int);
    lemma_exact_by_fractions(291, 0xd0f_c079_8d45_aae8int, 0xd0f_c079_8d45_abc8int, 0x1a1_a6b7_126e_98c7int, 0x29d_a27c_190a_1529int, 0xf3_209b_e186_cff2int, 0x185_d086_fb0b_0337int);
    lemma_excess_up(291, 0xd0f_c079_8d45_aae8int, 0xd0f_c079_8d45_abc8int, -2, 0x819_33f5_aed5_de40int, 0x819_33f5_aed5_dfa7int);
    lemma_exact_by_fractions(292, 0x819_33f5_aed5_de40int, 0x819_33f5_aed5_dfa7int, 0x294_c752_f3f5_68b9int, 0x296_27e1_ec8d_2f3cint, 0x28d_50b4_30d3_769aint, 0x28e_ad47_c010_494fint);
}

/// The entries for the decimal exponents from -40 to -1.
proof fn lemma_exact_down_0()
    ensures
        excess_within(-40, 0x0int, 0x0int),
        forall|f: int| -40 <= f <= -1 ==> exact_everywhere(f) && is_ceiling(f),
{
    reveal(multiplier);
    lemma_excess_at_zero();
    lemma_excess_down(0, 0x0int, 0x0int, 0, 0x0int, 0x0int);
    lemma_exact_by_zero(-1);
    lemma_excess_down(-1, 0x0int, 0x0int, 0, 0x0int, 0x0int);
    lemma_exact_by_zero(-2);
    lemma_excess_down(-2, 0x0int, 0x0int, 0, 0x0int, 0x0int);
    lemma_exact_by_zero(-3);
    lemma_excess_down(-3, 0x0int, 0x0int, 0, 0x0int, 0x0int);
    lemma_exact_by_zero(-4);
    lemma_excess_down(-4, 0x0int, 0x0int, 0, 0x0int, 0x0int);
    lemma_exact_by_zero(-5);
    lemma_excess_down(-5, 0x0int, 0x0int, 0, 0x0int, 0x0int);
    lemma_exact_by_zero(-6);
    lemma_excess_down(-6, 0x0int, 0x0int, 0, 0x0int, 0x0int);
    lemma_exact_by_zero(-7);
    lemma_excess_down(-7, 0x0int, 0x0int, 0, 0x0int, 0x0int);
    lemma_exact_by_zero(-8);
    lemma_excess_down(-8, 0x0int, 0x0int, 0, 0x0int, 0x0int);
    lemma_exact_by_zero(-9);
    lemma_excess_down(-9, 0x0int, 0x0int, 0, 0x0int, 0x0int);
    lemma_exact_by_zero(-10);
    lemma_excess_down(-10, 0x0int, 0x0int, 0, 0x0int, 0x0int);
    lemma_exact_by_zero(-11);
    lemma_excess_down(-11, 0x0int, 0x0int, 0, 0x0int, 0x0int);
    lemma_exact_by_zero(-12);
    lemma_excess_down(-12, 0x0int, 0x0int, 0, 0x0int, 0x0int);
    lemma_exact_by_zero(-13);
    lemma_excess_down(-13, 0x0int, 0x0int, 0, 0x0int, 0x0int);
    lemma_exact_by_zero(-14);
    lemma_excess_down(-14, 0x0int, 0x0int, 0, 0x0int, 0x0int);
    lemma_exact_by_zero(-15);
    lemma_excess_down(-15, 0x0int, 0x0int, 0, 0x0int, 0x0int);
    lemma_exact_by_zero(-16);
    lemma_excess_down(-16, 0x0int, 0x0int, 0, 0x0int, 0x0int);
    lemma_exact_by_zero(-17);
    lemma_excess_down(-17, 0x0int, 0x0int, 0, 0x0int, 0x0int);
    lemma_exact_by_zero(-18);
    lemma_excess_down(-18, 0x0int, 0x0int, 0, 0x0int, 0x0int);
    lemma_exact_by_zero(-19);
    lemma_excess_down(-19, 0x0int, 0x0int, 0, 0x0int, 0x0int);
    lemma_exact_by_zero(-20);
    lemma_excess_down(-20, 0x0int, 0x0int, 0, 0x0int, 0x0int);
    lemma_exact_by_zero(-21);
    lemma_excess_down(-21, 0x0int, 0x0int, 0, 0x0int, 0x0int);
    lemma_exact_by_zero(-22);
    lemma_excess_down(-22, 0x0int, 0x0int, 0, 0x0int, 0x0int);
    lemma_exact_by_zero(-23);
    lemma_excess_down(-23, 0x0int, 0x0int, 0, 0x0int, 0x0int);
    lemma_exact_by_zero(-24);
    lemma_excess_down(-24, 0x0int, 0x0int, 0, 0x0int, 0x0int);
    lemma_exact_by_zero(-25);
    lemma_excess_down(-25, 0x0int, 0x0int, 0, 0x0int, 0x0int);
    lemma_exact_by_zero(-26);
    lemma_excess_down(-26, 0x0int, 0x0int, 0, 0x0int, 0x0int);
    lemma_exact_by_zero(-27);
    lemma_excess_down(-27, 0x0int, 0x0int, 0, 0x0int, 0x0int);
    lemma_exact_by_zero(-28);
    lemma_excess_down(-28, 0x0int, 0x0int, 0, 0x0int, 0x0int);
    lemma_exact_by_zero(-29);
    lemma_excess_down(-29, 0x0int, 0x0int, 0, 0x0int, 0x0int);
    lemma_exact_by_zero(-30);
    lemma_excess_down(-30, 0x0int, 0x0int, 0, 0x0int, 0x0int);
    lemma_exact_by_zero(-31);
    lemma_excess_down(-31, 0x0int, 0x0int, 0, 0x0int, 0x0int);
    lemma_exact_by_zero(-32);
    lemma_excess_down(-32, 0x0int, 0x0int, 0, 0x0int, 0x0int);
    lemma_exact_by_zero(-33);
    lemma_excess_down(-33, 0x0int, 0x0int, 0, 0x0int, 0x0int);
    lemma_exact_by_zero(-34);
    lemma_excess_down(-34, 0x0int, 0x0int, 0, 0x0int, 0x0int);
    lemma_exact_by_zero(-35);
    lemma_excess_down(-35, 0x0int, 0x0int, 0, 0x0int, 0x0int);
    lemma_exact_by_zero(-36);
    lemma_excess_down(-36, 0x0int, 0x0int, 0, 0x0int, 0x0int);
    lemma_exact_by_zero(-37);
    lemma_excess_down(-37, 0x0int, 0x0int, 0, 0x0int, 0x0int);
    lemma_exact_by_zero(-38);
    lemma_excess_down(-38, 0x0int, 0x0int, 0, 0x0int, 0x0int);
    lemma_exact_by_zero(-39);
    lemma_excess_down(-39, 0x0int, 0x0int, 0, 0x0int, 0x0int);
    lemma_exact_by_zero(-40);
}

/// The entries for the decimal exponents from -80 to -41.
proof fn lemma_exact_down_1()
    ensures
        excess_within(-80, 0x3359_c5dd_89b3_13f0int, 0x3359_c5dd_89b3_13f0int),
        forall|f: int| -80 <= f <= -41 ==> exact_everywhere(f) && is_ceiling(f),
{
    reveal(multiplier);
    lemma_exact_down_0();
    lemma_excess_down(-40, 0x0int, 0x0int, 0, 0x0int, 0x0int);
    lemma_exact_by_zero(-41);
    lemma_excess_down(-41, 0x0int, 0x0int, 0, 0x0int, 0x0int);
    lemma_exact_by_zero(-42);
    lemma_excess_down(-42, 0x0int, 0x0int, 0, 0x0int, 0x0int);
    lemma_exact_by_zero(-43);
    lemma_excess_down(-43, 0x0int, 0x0int, 0, 0x0int, 0x0int);
    lemma_exact_by_zero(-44);
    lemma_excess_down(-44, 0x0int, 0x0int, 0, 0x0int, 0x0int);
    lemma_exact_by_zero(-45);
    lemma_excess_down(-45, 0x0int, 0x0int, 0, 0x0int, 0x0int);
    lemma_exact_by_zero(-46);
    lemma_excess_down(-46, 0x0int, 0x0int, 0, 0x0int, 0x0int);
    lemma_exact_by_zero(-47);
    lemma_excess_down(-47, 0x0int, 0x0int, 0, 0x0int, 0x0int);
    lemma_exact_by_zero(-48);
    lemma_excess_down(-48, 0x0int, 0x0int, 0, 0x0int, 0x0int);
    lemma_exact_by_zero(-49);
    lemma_excess_down(-49, 0x0int, 0x0int, 0, 0x0int, 0x0int);
    lemma_exact_by_zero(-50);
    lemma_excess_down(-50, 0x0int, 0x0int, 0, 0x0int, 0x0int);
    lemma_exact_by_zero(-51);
    lemma_excess_down(-51, 0x0int, 0x0int, 0, 0x0int, 0x0int);
    lemma_exact_by_zero(-52);
    lemma_excess_down(-52, 0x0int, 0x0int, 0, 0x0int, 0x0int);
    lemma_exact_by_zero(-53);
    lemma_excess_down(-53, 0x0int, 0x0int, 0, 0x0int, 0x0int);
    lemma_exact_by_zero(-54);
    lemma_excess_down(-54, 0x0int, 0x0int, 0, 0x0int, 0x0int);
    lemma_exact_by_fractions(-55, 0x0int, 0x0int, 0xa2_756f_2a71_f44dint, 0xc7_2c7f_7e16_298eint, 0x21e_f842_7144_1414int, 0x299_add2_84e6_3af3int);
    lemma_excess_down(-55, 0x0int, 0x0int, 14, 0x3800_0000_0000_0000int, 0x3800_0000_0000_0000int);
    lemma_exact_by_fractions(-56, 0x3800_0000_0000_0000int, 0x3800_0000_0000_0000int, 0x95_19bf_e361_7ca9int, 0x124_7990_190c_936fint, 0x17c_82d3_46d2_1fc7int, 0x2ea_6884_d7b3_4f08int);
    lemma_excess_down(-56, 0x3800_0000_0000_0000int, 0x3800_0000_0000_0000int, -2, 0x3600_0000_0000_0000int, 0x3600_0000_0000_0000int);
    lemma_exact_by_fractions(-57, 0x3600_0000_0000_0000int, 0x3600_0000_0000_0000int, 0x1e0_b275_dbcd_a115int, 0x2f2_589e_6a4b_f326int, 0x84_6724_ca8c_e71cint, 0xcf_c6d0_fcf3_2d4bint);
    lemma_excess_down(-57, 0x3600_0000_0000_0000int, 0x3600_0000_0000_0000int, -4, 0x2380_0000_0000_0000int, 0x2380_0000_0000_0000int);
    lemma_exact_by_fractions(-58, 0x2380_0000_0000_0000int, 0x2380_0000_0000_0000int, 0x1bf_98ac_a92a_674eint, 0x231_ebee_88d8_eca9int, 0xa5_80ed_fd30_20e3int, 0xcf_c6d0_fcf3_2d4bint);
    lemma_excess_down(-58, 0x2380_0000_0000_0000int, 0x2380_0000_0000_0000int, -2, 0x1c60_0000_0000_0000int, 0x1c60_0000_0000_0000int);
    lemma_exact_by_fractions(-59, 0x1c60_0000_0000_0000int, 0x1c60_0000_0000_0000int, 0x1d_25b4_2bb2_8962int, 0x1d_460f_4fca_1d37int, 0x2e4_1389_6ed9_0849int, 0x2e7_4916_046e_5d87int);
    lemma_excess_down(-59, 0x1c60_0000_0000_0000int, 0x1c60_0000_0000_0000int, -2, 0x9bc_0000_0000_0000int, 0x9bc_0000_0000_0000int);
    lemma_exact_by_fractions(-60, 0x9bc_0000_0000_0000int, 0x9bc_0000_0000_0000int, 0xef_ab94_2da5_03aaint, 0x181_229d_2457_49dbint, 0x196_78e5_ee0b_afdfint, 0x28d_2cfd_0986_1edaint);
    lemma_excess_down(-60, 0x9bc_0000_0000_0000int, 0x9bc_0000_0000_0000int, 6, 0x3c2b_0000_0000_0000int, 0x3c2b_0000_0000_0000int);
    lemma_exact_by_fractions(-61, 0x3c2b_0000_0000_0000int, 0x3c2b_0000_0000_0000int, 0x17e_fd22_1941_9aafint, 0x1ec_59f6_b336_d241int, 0x225_ca73_d9a8_46e4int, 0x2c2_c8a9_d0f5_e30dint);
    lemma_excess_down(-61, 0x3c2b_0000_0000_0000int, 0x3c2b_0000_0000_0000int, -4, 0x2b35_c000_0000_0000int, 0x2b35_c000_0000_0000int);
    lemma_exact_by_fractions(-62, 0x2b35_c000_0000_0000int, 0x2b35_c000_0000_0000int, 0x17e_fd22_1941_9aafint, 0x189_e192_28f8_a834int, 0x2af_3d10_d012_589dint, 0x2c2_c8a9_d0f5_e30dint);
    lemma_excess_down(-62, 0x2b35_c000_0000_0000int, 0x2b35_c000_0000_0000int, 2, 0x2301_9800_0000_0000int, 0x2301_9800_0000_0000int);
    lemma_exact_by_fractions(-63, 0x2301_9800_0000_0000int, 0x2301_9800_0000_0000int, 0x22c_2302_27a4_8779int, 0x393_2024_a786_b3a9int, 0x10b_8e8c_ba54_fcd3int, 0x1b8_4417_fd92_9e1aint);
    lemma_excess_down(-63, 0x2301_9800_0000_0000int, 0x2301_9800_0000_0000int, 0, 0x2bc1_fe00_0000_0000int, 0x2bc1_fe00_0000_0000int);
    lemma_exact_by_fractions(-64, 0x2bc1_fe00_0000_0000int, 0x2bc1_fe00_0000_0000int, 0x218_8caa_8bc3_075fint, 0x2c2_50d0_effd_e0bbint, 0x3d_a229_01d6_9bc0int, 0x51_226d_76a3_6e21int);
    lemma_excess_down(-64, 0x2bc1_fe00_0000_0000int, 0x2bc1_fe00_0000_0000int, 0, 0x36b2_7d80_0000_0000int, 0x36b2_7d80_0000_0000int);
    lemma_exact_by_fractions(-65, 0x36b2_7d80_0000_0000int, 0x36b2_7d80_0000_0000int, 0x2a3_3986_cfe5_e5cfint, 0x2c7_1838_fbf1_46d1int, 0x4d_0ab3_424c_42b0int, 0x51_226d_76a3_6e21int);
    lemma_excess_down(-65, 0x36b2_7d80_0000_0000int, 0x36b2_7d80_0000_0000int, 2, 0x2a2f_8e70_0000_0000int, 0x2a2f_8e70_0000_0000int);
    lemma_exact_by_fractions(-66, 0x2a2f_8e70_0000_0000int, 0x2a2f_8e70_0000_0000int, 0x22f_a979_ec73_81c7int, 0x3af_0754_7660_35ccint, 0x30_26b0_096f_a9aeint, 0x51_226d_76a3_6e21int);
    lemma_excess_down(-66, 0x2a2f_8e70_0000_0000int, 0x2a2f_8e70_0000_0000int, -2, 0x24bb_720c_0000_0000int, 0x24bb_720c_0000_0000int);
    lemma_exact_by_fractions(-67, 0x24bb_720c_0000_0000int, 0x24bb_720c_0000_0000int, 0x1cc_65d1_199c_7d30int, 0x26c_9d6a_2cdd_931bint, 0x78_60b8_1797_2833int, 0xa2_44da_ed46_dc42int);
    lemma_excess_down(-67, 0x24bb_720c_0000_0000int, 0x24bb_720c_0000_0000int, 0, 0x2dea_4e8f_0000_0000int, 0x2dea_4e8f_0000_0000int);
    lemma_exact_by_fractions(-68, 0x2dea_4e8f_0000_0000int, 0x2dea_4e8f_0000_0000int, 0x23f_7f45_6003_9c7cint, 0x26c_9d6a_2cdd_931bint, 0x1d1_ad14_eacc_8617int, 0x1f6_2f22_0bf0_d545int);
    lemma_excess_down(-68, 0x2dea_4e8f_0000_0000int, 0x2dea_4e8f_0000_0000int, 4, 0x2cb2_7119_6000_0000int, 0x2cb2_7119_6000_0000int);
    lemma_exact_by_fractions(-69, 0x2cb2_7119_6000_0000int, 0x2cb2_7119_6000_0000int, 0x1c0_a644_7967_9dbaint, 0x306_1dc1_57ac_02e1int, 0xb1_ed72_3aca_b7d9int, 0x133_00ae_559c_df8cint);
    lemma_excess_down(-69, 0x2cb2_7119_6000_0000int, 0x2cb2_7119_6000_0000int, -6, 0x7df_0d5f_b800_0000int, 0x7df_0d5f_b800_0000int);
    lemma_exact_by_fractions(-70, 0x7df_0d5f_b800_0000int, 0x7df_0d5f_b800_0000int, 0x1d7_d91c_7a5c_293cint, 0x28b_50ae_cf06_dca9int, 0xb1_ed72_3aca_b7d9int, 0xf5_9a25_114a_4c70int);
    lemma_excess_down(-70, 0x7df_0d5f_b800_0000int, 0x7df_0d5f_b800_0000int, 6, 0x39d6_d0b7_a600_0000int, 0x39d6_d0b7_a600_0000int);
    lemma_exact_by_fractions(-71, 0x39d6_d0b7_a600_0000int, 0x39d6_d0b7_a600_0000int, 0x24d_cf63_98f3_338bint, 0x28b_50ae_cf06_dca9int, 0xb1_ed72_3aca_b7d9int, 0xc4_7b50_daa1_d6c0int);
    lemma_excess_down(-71, 0x39d6_d0b7_a600_0000int, 0x39d6_d0b7_a600_0000int, -6, 0xc26_4272_c7c0_0000int, 0xc26_4272_c7c0_0000int);
    lemma_exact_by_fractions(-72, 0xc26_4272_c7c0_0000int, 0xc26_4272_c7c0_0000int, 0x7_00e1_9d12_6180int, 0xc_5fbf_3fd3_7815int, 0x23e_7b92_89ba_73bdint, 0x3f7_05e8_9ce2_9a4fint);
    lemma_excess_down(-72, 0xc26_4272_c7c0_0000int, 0xc26_4272_c7c0_0000int, 4, 0x2f2f_d30f_79b0_0000int, 0x2f2f_d30f_79b0_0000int);
    lemma_exact_by_fractions(-73, 0x2f2f_d30f_79b0_0000int, 0x2f2f_d30f_79b0_0000int, 0x8_c11a_0456_f9e0int, 0xc_5fbf_3fd3_7815int, 0x219_b6f2_1119_f3ddint, 0x2f8_0c30_7170_4fe7int);
    lemma_excess_down(-73, 0x2f2f_d30f_79b0_0000int, 0x2f2f_d30f_79b0_0000int, -4, 0x1afb_c7d3_581c_0000int, 0x1afb_c7d3_581c_0000int);
    lemma_exact_by_fractions(-74, 0x1afb_c7d3_581c_0000int, 0x1afb_c7d3_581c_0000int, 0xa_f160_856c_b858int, 0xc_5fbf_3fd3_7815int, 0x29d_0778_5232_97fdint, 0x2f4_86b7_58a9_e0e8int);
    lemma_excess_down(-74, 0x1afb_c7d3_581c_0000int, 0x1afb_c7d3_581c_0000int, -4, 0xdd_5ce4_1711_8000int, 0xdd_5ce4_1711_8000int);
    lemma_exact_by_fractions(-75, 0xdd_5ce4_1711_8000int, 0xdd_5ce4_1711_8000int, 0x6_d6dc_5363_f337int, 0xc_5fbf_3fd3_7815int, 0x235_1263_5ea9_c0b9int, 0x3fe_5b63_f6e7_e034int);
    lemma_excess_down(-75, 0xdd_5ce4_1711_8000int, 0xdd_5ce4_1711_8000int, 2, 0x1114_b41d_1cd5_e000int, 0x1114_b41d_1cd5_e000int);
    lemma_exact_by_fractions(-76, 0x1114_b41d_1cd5_e000int, 0x1114_b41d_1cd5_e000int, 0xfc_6815_22c2_a06cint, 0x16d_5563_d585_12b5int, 0x1d6_9ddc_a491_80c5int, 0x2a9_2bca_abbc_4516int);
    lemma_excess_down(-76, 0x1114_b41d_1cd5_e000int, 0x1114_b41d_1cd5_e000int, 0, 0x1559_e124_640b_5800int, 0x1559_e124_640b_5800int);
    lemma_exact_by_fractions(-77, 0x1559_e124_640b_5800int, 0x1559_e124_640b_5800int, 0x13b_821a_6b73_4887int, 0x16d_5563_d585_12b5int, 0x197_83d7_5be0_d8aaint, 0x1d7_dec1_5eaf_3387int);
    lemma_excess_down(-77, 0x1559_e124_640b_5800int, 0x1559_e124_640b_5800int, 10, 0x3558_2cb6_be87_1700int, 0x3558_2cb6_be87_1700int);
    lemma_exact_by_fractions(-78, 0x3558_2cb6_be87_1700int, 0x3558_2cb6_be87_1700int, 0x1f5_3333_508d_a3d7int, 0x3a0_8f57_42eb_2a13int, 0x49_f0ea_2797_7f1eint, 0x88_fd18_e367_176fint);
    lemma_excess_down(-78, 0x3558_2cb6_be87_1700int, 0x3558_2cb6_be87_1700int, -8, 0x2ae_37e4_6e28_dcc0int, 0x2ae_37e4_6e28_dcc0int);
    lemma_exact_by_fractions(-79, 0x2ae_37e4_6e28_dcc0int, 0x2ae_37e4_6e28_dcc0int, 0x157_06be_59c4_30d1int, 0x1fc_69a2_315e_c1ddint, 0xb8_da49_62fa_bdcbint, 0x111_fa31_c6ce_2edeint);
    lemma_excess_down(-79, 0x2ae_37e4_6e28_dcc0int, 0x2ae_37e4_6e28_dcc0int, 6, 0x3359_c5dd_89b3_13f0int, 0x3359_c5dd_89b3_13f0int);
    lemma_exact_by_fractions(-80, 0x3359_c5dd_89b3_13f0int, 0x3359_c5dd_89b3_13f0int, 0x22a_153a_c458_a5fbint, 0x290_fb72_b6f5_0609int, 0x25e_f742_3823_a81fint, 0x2cf_afa3_5790_fb62int);
}

/// The entries for the decimal exponents from -120 to -81.
proof fn lemma_exact_down_2()
    ensures
        excess_within(-120, 0x100f_d15a_26e4_fccaint, 0x100f_d15a_26e4_fcecint),
        forall|f: int| -120 <= f <= -81 ==> exact_everywhere(f) && is_ceiling(f),
{
    reveal(multiplier);
    lemma_exact_down_1();
    lemma_excess_down(-80, 0x3359_c5dd_89b3_13f0int, 0x3359_c5dd_89b3_13f0int, -6, 0x818_1baa_760f_ec76int, 0x818_1baa_760f_ec76int);
    lemma_exact_by_fractions(-81, 0x818_1baa_760f_ec76int, 0x818_1baa_760f_ec76int, 0x101_35da_96c0_3230int, 0x1e7_f6a4_fecc_d805int, 0x143_5063_e77d_f4ddint, 0x265_5f06_4004_c2b7int);
    lemma_excess_down(-81, 0x818_1baa_760f_ec76int, 0x818_1baa_760f_ec76int, 0, 0xa1e_2295_1393_e793int, 0xa1e_2295_1393_e794int);
    lemma_exact_by_fractions(-82, 0xa1e_2295_1393_e793int, 0xa1e_2295_1393_e794int, 0x141_8351_3c70_3ebcint, 0x1e7_f6a4_fecc_d805int, 0x103_02ed_41cd_e851int, 0x189_1ab0_cd0e_0a2bint);
    lemma_excess_down(-82, 0xa1e_2295_1393_e793int, 0xa1e_2295_1393_e794int, 6, 0x3ca5_ab3a_5878_e177int, 0x3ca5_ab3a_5878_e179int);
    lemma_exact_by_fractions(-83, 0x3ca5_ab3a_5878_e177int, 0x3ca5_ab3a_5878_e179int, 0x191_e425_8b8c_4e6bint, 0x1e7_f6a4_fecc_d805int, 0x1a3_c495_e006_07afint, 0x1fd_ab35_d6c3_91beint);
    lemma_excess_down(-83, 0x3ca5_ab3a_5878_e177int, 0x3ca5_ab3a_5878_e179int, 6, 0x3de7_8b04_774b_8ceaint, 0x3de7_8b04_774b_8cecint);
    lemma_exact_by_fractions(-84, 0x3de7_8b04_774b_8ceaint, 0x3de7_8b04_774b_8cecint, 0xcb_2e20_d055_5e5eint, 0x18a_b63a_90a2_0529int, 0x1ac_b4ce_0a42_e451int, 0x340_d596_d131_7dc4int);
    lemma_excess_down(-84, 0x3de7_8b04_774b_8ceaint, 0x3de7_8b04_774b_8cecint, -6, 0x1d61_6dc5_951e_7024int, 0x1d61_6dc5_951e_7027int);
    lemma_exact_by_fractions(-85, 0x1d61_6dc5_951e_7024int, 0x1d61_6dc5_951e_7027int, 0x1bd_fb83_9ff4_0089int, 0x2b5_1df5_8ac4_a7e9int, 0x3d_f7ce_68e1_6b62int, 0x60_4e7f_967f_6269int);
    lemma_excess_down(-85, 0x1d61_6dc5_951e_7024int, 0x1d61_6dc5_951e_7027int, -2, 0x14b9_c936_fa66_0c2dint, 0x14b9_c936_fa66_0c31int);
    lemma_exact_by_fractions(-86, 0x14b9_c936_fa66_0c2dint, 0x14b9_c936_fa66_0c31int, 0x10d_779c_9ea3_10ceint, 0x14f_07e1_f834_b169int, 0x1a8_6320_a4d6_9d43int, 0x20f_a4e1_2533_763bint);
    lemma_excess_down(-86, 0x14b9_c936_fa66_0c2dint, 0x14b9_c936_fa66_0c31int, 10, 0x34f4_1dc2_5c7f_c79cint, 0x34f4_1dc2_5c7f_c79fint);
    lemma_exact_by_fractions(-87, 0x34f4_1dc2_5c7f_c79cint, 0x34f4_1dc2_5c7f_c79fint, 0x14b_c996_5893_53feint, 0x294_05be_4341_3793int, 0x155_e171_3404_5605int, 0x2a8_19c9_9d91_8e11int);
    lemma_excess_down(-87, 0x34f4_1dc2_5c7f_c79cint, 0x34f4_1dc2_5c7f_c79fint, -2, 0x3231_2532_f39f_b983int, 0x3231_2532_f39f_b987int);
    lemma_exact_by_fractions(-88, 0x3231_2532_f39f_b983int, 0x3231_2532_f39f_b987int, 0x1dd_7eab_cdfa_f9efint, 0x2f7_e6d2_269a_851aint, 0x57_fe53_03dd_5603int, 0x8c_092a_97f9_fa83int);
    lemma_excess_down(-88, 0x3231_2532_f39f_b983int, 0x3231_2532_f39f_b987int, -4, 0x1ebd_6e7f_b087_a7e3int, 0x1ebd_6e7f_b087_a7e9int);
    lemma_exact_by_fractions(-89, 0x1ebd_6e7f_b087_a7e3int, 0x1ebd_6e7f_b087_a7e9int, 0x1ca_bb25_70a6_d3ffint, 0x248_0842_d8fe_90aaint, 0x1c1_5962_41fc_c107int, 0x23c_1676_9c73_3d5bint);
    lemma_excess_down(-89, 0x1ebd_6e7f_b087_a7e3int, 0x1ebd_6e7f_b087_a7e9int, -4, 0x66c_ca1f_9ca9_91dbint, 0x66c_ca1f_9ca9_91e4int);
    lemma_exact_by_fractions(-90, 0x66c_ca1f_9ca9_91dbint, 0x66c_ca1f_9ca9_91e4int, 0x1cd_1396_3c51_58bdint, 0x1d5_9d5e_534d_eacbint, 0x1c1_5962_41fc_c107int, 0x1c9_ab92_16c2_977cint);
    lemma_excess_down(-90, 0x66c_ca1f_9ca9_91dbint, 0x66c_ca1f_9ca9_91e4int, 8, 0x2403_fe53_c1e9_fb28int, 0x2403_fe53_c1e9_fb2fint);
    lemma_exact_by_fractions(-91, 0x2403_fe53_c1e9_fb28int, 0x2403_fe53_c1e9_fb2fint, 0x158_576a_2df2_6f97int, 0x231_2615_24a8_0917int, 0x1c1_5962_41fc_c107int, 0x2dc_45b6_8ad0_f260int);
    lemma_excess_down(-91, 0x2403_fe53_c1e9_fb28int, 0x2403_fe53_c1e9_fb2fint, 2, 0x3d04_fde8_b264_79f2int, 0x3d04_fde8_b264_79fbint);
    lemma_exact_by_fractions(-92, 0x3d04_fde8_b264_79f2int, 0x3d04_fde8_b264_79fbint, 0x172_97e8_32f5_03f3int, 0x1e3_24ca_cb5b_6921int, 0x1f5_da5e_4c01_e9bfint, 0x28e_446c_3184_526aint);
    lemma_excess_down(-92, 0x3d04_fde8_b264_79f2int, 0x3d04_fde8_b264_79fbint, -2, 0x3c46_3d62_defd_986eint, 0x3c46_3d62_defd_987aint);
    lemma_exact_by_fractions(-93, 0x3c46_3d62_defd_986eint, 0x3c46_3d62_defd_987aint, 0x130_f6ad_266e_910dint, 0x13e_10c8_136b_f6caint, 0x1d5_09c0_c5be_b04cint, 0x1e9_3069_7994_e013int);
    lemma_excess_down(-93, 0x3c46_3d62_defd_986eint, 0x3c46_3d62_defd_987aint, -4, 0x15ab_e65d_cb5e_7f44int, 0x15ab_e65d_cb5e_7f4dint);
    lemma_exact_by_fractions(-94, 0x15ab_e65d_cb5e_7f44int, 0x15ab_e65d_cb5e_7f4dint, 0x232_e3df_403e_22c9int, 0x3ab_5133_b9c0_6589int, 0x24a_4c30_f72e_5c5fint, 0x3d2_60d2_f329_c026int);
    lemma_excess_down(-94, 0x15ab_e65d_cb5e_7f44int, 0x15ab_e65d_cb5e_7f4dint, 0, 0x1b16_dff5_3e36_1f15int, 0x1b16_dff5_3e36_1f21int);
    lemma_exact_by_fractions(-95, 0x1b16_dff5_3e36_1f15int, 0x1b16_dff5_3e36_1f21int, 0x113_97db_3263_02ffint, 0x16f_ea28_0b9e_49b1int, 0x14e_1ca7_7bbb_92f6int, 0x1be_0966_7e70_feebint);
    lemma_excess_down(-95, 0x1b16_dff5_3e36_1f15int, 0x1b16_dff5_3e36_1f21int, 2, 0x31dc_97f2_8dc3_a6daint, 0x31dc_97f2_8dc3_a6eaint);
    lemma_exact_by_fractions(-96, 0x31dc_97f2_8dc3_a6daint, 0x31dc_97f2_8dc3_a6eaint, 0x113_97db_3263_02ffint, 0x126_54ec_d618_3af4int, 0x22b_6fbe_f3db_f933int, 0x251_33dc_e97d_1c65int);
    lemma_excess_down(-96, 0x31dc_97f2_8dc3_a6daint, 0x31dc_97f2_8dc3_a6eaint, -6, 0x729_def7_989a_4848int, 0x729_def7_989a_4853int);
    lemma_exact_by_fractions(-97, 0x729_def7_989a_4848int, 0x729_def7_989a_4853int, 0x1c0_5ec5_43c3_a345int, 0x2fe_2b9b_9f4e_542dint, 0x19f_83cd_131f_7e19int, 0x2c6_0707_cc77_7914int);
    lemma_excess_down(-97, 0x729_def7_989a_4848int, 0x729_def7_989a_4853int, 2, 0x18f4_56b5_7ec0_da5aint, 0x18f4_56b5_7ec0_da68int);
    lemma_exact_by_fractions(-98, 0x18f4_56b5_7ec0_da5aint, 0x18f4_56b5_7ec0_da68int, 0x1c0_5ec5_43c3_a345int, 0x264_efaf_b2a5_1024int, 0x197_4d0f_06f6_74ceint, 0x22c_cb1b_dfce_350bint);
    lemma_excess_down(-98, 0x18f4_56b5_7ec0_da5aint, 0x18f4_56b5_7ec0_da68int, 0, 0x1f31_6c62_de71_10f0int, 0x1f31_6c62_de71_1102int);
    lemma_exact_by_fractions(-99, 0x1f31_6c62_de71_10f0int, 0x1f31_6c62_de71_1102int, 0x2b5_1703_040c_0c23int, 0x2f5_fb0d_f782_6b02int, 0x51_4a68_a357_05f8int, 0x58_e6ca_7206_7fc5int);
    lemma_excess_down(-99, 0x1f31_6c62_de71_10f0int, 0x1f31_6c62_de71_1102int, 4, 0x237e_e3bd_cb06_aa96int, 0x237e_e3bd_cb06_aaa2int);
    lemma_exact_by_fractions(-100, 0x237e_e3bd_cb06_aa96int, 0x237e_e3bd_cb06_aaa2int, 0x226_d4cb_e633_c1b1int, 0x3c3_d845_e658_1242int, 0x32_ce81_6616_63bbint, 0x58_e6ca_7206_7fc5int);
    lemma_excess_down(-100, 0x237e_e3bd_cb06_aa96int, 0x237e_e3bd_cb06_aaa2int, 2, 0x3c5e_9cad_3dc8_553bint, 0x3c5e_9cad_3dc8_554bint);
    lemma_exact_by_fractions(-101, 0x3c5e_9cad_3dc8_553bint, 0x3c5e_9cad_3dc8_554bint, 0x15d_9d77_2d0a_d49bint, 0x1e9_67c5_e4fb_24c9int, 0xc9_3754_b928_ed16int, 0x119_aba5_39b1_b69fint);
    lemma_excess_down(-101, 0x3c5e_9cad_3dc8_553bint, 0x3c5e_9cad_3dc8_554bint, -2, 0x3b76_43d8_8d3a_6a89int, 0x3b76_43d8_8d3a_6a9eint);
    lemma_exact_by_fractions(-102, 0x3b76_43d8_8d3a_6a89int, 0x3b76_43d8_8d3a_6a9eint, 0x1aa_53e5_7df8_92a9int, 0x1dd_6ec1_2ee2_f889int, 0x1f7_0a53_cee6_50b7int, 0x233_574a_7363_6d3eint);
    lemma_excess_down(-102, 0x3b76_43d8_8d3a_6a89int, 0x3b76_43d8_8d3a_6a9eint, 0, 0x2529_ea67_5844_8295int, 0x2529_ea67_5844_82a3int);
    lemma_exact_by_fractions(-103, 0x2529_ea67_5844_8295int, 0x2529_ea67_5844_82a3int, 0x136_281e_545c_b63dint, 0x22b_bccc_5dc3_794dint, 0x10e_b2c5_7bae_97dfint, 0x1e5_093f_4482_ec7aint);
    lemma_excess_down(-103, 0x2529_ea67_5844_8295int, 0x2529_ea67_5844_82a3int, -2, 0x1e74_6501_2e55_a33aint, 0x1e74_6501_2e55_a34cint);
    lemma_exact_by_fractions(-104, 0x1e74_6501_2e55_a33aint, 0x1e74_6501_2e55_a34cint, 0x13_baac_6c57_0f2fint, 0x1c_47d2_0a19_d1eeint, 0x210_c6e0_88a7_89cdint, 0x2f5_f7d7_3d44_327bint);
    lemma_excess_down(-104, 0x1e74_6501_2e55_a33aint, 0x1e74_6501_2e55_a34cint, 0, 0x2611_7e41_79eb_0c08int, 0x2611_7e41_79eb_0c1fint);
    lemma_exact_by_fractions(-105, 0x2611_7e41_79eb_0c08int, 0x2611_7e41_79eb_0c1fint, 0xb0_95bc_15ed_c49dint, 0xca_7fa5_1e6f_50c5int, 0x25f_b192_3a03_c689int, 0x2b8_df4c_5155_fb5cint);
    lemma_excess_down(-105, 0x2611_7e41_79eb_0c08int, 0x2611_7e41_79eb_0c1fint, 4, 0x27ca_eee8_ec32_e785int, 0x27ca_eee8_ec32_e794int);
    lemma_exact_by_fractions(-106, 0x27ca_eee8_ec32_e785int, 0x27ca_eee8_ec32_e794int, 0x1c8_61a1_ff37_ef6dint, 0x345_5e38_58b1_c45bint, 0x8e_2e58_cf79_a28cint, 0x104_dfa5_88ed_95efint);
    lemma_excess_down(-106, 0x27ca_eee8_ec32_e785int, 0x27ca_eee8_ec32_e794int, -2, 0x21bd_aaa3_273f_a166int, 0x21bd_aaa3_273f_a179int);
    lemma_exact_by_fractions(-107, 0x21bd_aaa3_273f_a166int, 0x21bd_aaa3_273f_a179int, 0x1eb_ed38_3316_5810int, 0x2d2_11b4_958a_87dfint, 0xb1_b9ef_0358_0b2fint, 0x104_dfa5_88ed_95efint);
    lemma_excess_down(-107, 0x21bd_aaa3_273f_a166int, 0x21bd_aaa3_273f_a179int, -4, 0xa2d_154b_f10f_89bfint, 0xa2d_154b_f10f_89d8int);
    lemma_exact_by_fractions(-108, 0xa2d_154b_f10f_89bfint, 0xa2d_154b_f10f_89d8int, 0x266_e886_3fdb_ee14int, 0x2d2_11b4_958a_87dfint, 0x12c_b53d_101d_a133int, 0x161_1cdb_bea6_931fint);
    lemma_excess_down(-108, 0xa2d_154b_f10f_89bfint, 0xa2d_154b_f10f_89d8int, 4, 0x165c_2d4f_76a9_b617int, 0x165c_2d4f_76a9_b627int);
    lemma_exact_by_fractions(-109, 0x165c_2d4f_76a9_b617int, 0x165c_2d4f_76a9_b627int, 0xe3_37af_500a_4e5cint, 0x1aa_e76d_833a_90dfint, 0x16f_73c4_c060_9e33int, 0x2b2_61ba_650f_c49dint);
    lemma_excess_down(-109, 0x165c_2d4f_76a9_b617int, 0x165c_2d4f_76a9_b627int, 4, 0x3bf3_38a3_5454_239cint, 0x3bf3_38a3_5454_23b1int);
    lemma_exact_by_fractions(-110, 0x3bf3_38a3_5454_239cint, 0x3bf3_38a3_5454_23b1int, 0x11c_059b_240c_e1f3int, 0x1aa_e76d_833a_90dfint, 0x1a8_41b0_9463_31caint, 0x27d_afab_04b1_ed77int);
    lemma_excess_down(-110, 0x3bf3_38a3_5454_239cint, 0x3bf3_38a3_5454_23b1int, -4, 0x2af0_06cc_2969_2c83int, 0x2af0_06cc_2969_2c9eint);
    lemma_exact_by_fractions(-111, 0x2af0_06cc_2969_2c83int, 0x2af0_06cc_2969_2c9eint, 0x25b_fd97_b507_686dint, 0x2d6_4552_6beb_2573int, 0xd4_20d8_4a31_98e5int, 0xff_1311_3513_f896int);
    lemma_excess_down(-111, 0x2af0_06cc_2969_2c83int, 0x2af0_06cc_2969_2c9eint, 2, 0x22d6_043f_99e1_bbd1int, 0x22d6_043f_99e1_bbe3int);
    lemma_exact_by_fractions(-112, 0x22d6_043f_99e1_bbd1int, 0x22d6_043f_99e1_bbe3int, 0x30_fb97_ed5a_b9f1int, 0x5e_3d40_3e2b_08f9int, 0x209_d4b2_4011_ff1eint, 0x3eb_f6c6_fcc6_61fdint);
    lemma_excess_down(-112, 0x22d6_043f_99e1_bbd1int, 0x22d6_043f_99e1_bbe3int, -2, 0x1b8b_854f_805a_2ac5int, 0x1b8b_854f_805a_2adcint);
    lemma_exact_by_fractions(-113, 0x1b8b_854f_805a_2ac5int, 0x1b8b_854f_805a_2adcint, 0xf4_e9f7_a2c5_a1b5int, 0x178_f500_f8ac_23e4int, 0x15e_e158_3c1c_c484int, 0x21c_0ddb_df29_00b3int);
    lemma_excess_down(-113, 0x1b8b_854f_805a_2ac5int, 0x1b8b_854f_805a_2adcint, -2, 0x126e_66a3_6070_b576int, 0x126e_66a3_6070_b593int);
    lemma_exact_by_fractions(-114, 0x126e_66a3_6070_b576int, 0x126e_66a3_6070_b593int, 0x262_877b_c4a9_d0a2int, 0x2ef_c09c_dd77_282fint, 0x57_b856_0f07_3121int, 0x6c_02c5_9308_3357int);
    lemma_excess_down(-114, 0x126e_66a3_6070_b576int, 0x126e_66a3_6070_b593int, 8, 0x2b85_0026_1c46_7169int, 0x2b85_0026_1c46_717cint);
    lemma_exact_by_fractions(-115, 0x2b85_0026_1c46_7169int, 0x2b85_0026_1c46_717cint, 0x1bf_5eed_e62f_873eint, 0x371_5d89_f44d_cc31int, 0x57_b856_0f07_3121int, 0xac_d13c_1e73_8558int);
    lemma_excess_down(-115, 0x2b85_0026_1c46_7169int, 0x2b85_0026_1c46_717cint, -6, 0x666_402f_a358_0dc3int, 0x666_402f_a358_0ddbint);
    lemma_exact_by_fractions(-116, 0x666_402f_a358_0dc3int, 0x666_402f_a358_0ddbint, 0x14b_2492_9f1d_dca2int, 0x209_e860_a0f6_99edint, 0x1b6_99ae_4b23_f5a5int, 0x2b3_44f0_79ce_1560int);
    lemma_excess_down(-116, 0x666_402f_a358_0dc3int, 0x666_402f_a358_0ddbint, 4, 0x27ff_d03b_8c2e_1133int, 0x27ff_d03b_8c2e_1152int);
    lemma_exact_by_fractions(-117, 0x27ff_d03b_8c2e_1133int, 0x27ff_d03b_8c2e_1152int, 0xa5_9249_4f8e_ee51int, 0xd0_c359_d9fc_3d92int, 0x205_0033_2565_a401int, 0x28b_de26_78a9_5341int);
    lemma_excess_down(-117, 0x27ff_d03b_8c2e_1133int, 0x27ff_d03b_8c2e_1152int, -4, 0x11ff_c44a_6f39_957fint, 0x11ff_c44a_6f39_95a7int);
    lemma_exact_by_fractions(-118, 0x11ff_c44a_6f39_957fint, 0x11ff_c44a_6f39_95a7int, 0x2e3_fff4_1854_fa29int, 0x2ea_6e71_ae9b_2525int, 0x57_db7a_7575_ad6cint, 0x58_9ef5_b955_d123int);
    lemma_excess_down(-118, 0x11ff_c44a_6f39_957fint, 0x11ff_c44a_6f39_95a7int, 10, 0x333f_daae_8583_fd6fint, 0x333f_daae_8583_fd89int);
    lemma_exact_by_fractions(-119, 0x333f_daae_8583_fd6fint, 0x333f_daae_8583_fd89int, 0x276_fa9f_1f13_ab2cint, 0x3fa_5744_74c8_3e8bint, 0x15_f6de_9d5d_6b5bint, 0x23_72c8_b088_ba0eint);
    lemma_excess_down(-119, 0x333f_daae_8583_fd6fint, 0x333f_daae_8583_fd89int, -6, 0x100f_d15a_26e4_fccaint, 0x100f_d15a_26e4_fcecint);
    lemma_exact_by_fractions(-120, 0x100f_d15a_26e4_fccaint, 0x100f_d15a_26e4_fcecint, 0x1e7_35b3_003e_3520int, 0x275_0c75_f75d_91f7int, 0x6d_d259_12d3_18c7int, 0x8d_cb22_c222_e838int);
}

/// The entries for the decimal exponents from -160 to -121.
proof fn lemma_exact_down_3()
    ensures
        excess_within(-160, 0x371f_8c1e_9b99_9884int, 0x371f_8c1e_9b99_98c6int),
        forall|f: int| -160 <= f <= -121 ==> exact_everywhere(f) && is_ceiling(f),
{
    reveal(multiplier);
    lemma_exact_down_2();
    lemma_excess_down(-120, 0x100f_d15a_26e4_fccaint, 0x100f_d15a_26e4_fcecint, -2, 0x413_c5b0_b09e_3bfcint, 0x413_c5b0_b09e_3c27int);
    lemma_exact_by_fractions(-121, 0x413_c5b0_b09e_3bfcint, 0x413_c5b0_b09e_3c27int, 0x79_cd6c_c00f_8d48int, 0x7d_cf4a_cb12_b6cbint, 0x29e_e92a_1e2f_092bint, 0x2b4_fbd5_d39e_57abint);
    lemma_excess_down(-121, 0x413_c5b0_b09e_3bfcint, 0x413_c5b0_b09e_3c27int, 10, 0x2a8c_5b8e_6e62_e57dint, 0x2a8c_5b8e_6e62_e599int);
    lemma_exact_by_fractions(-122, 0x2a8c_5b8e_6e62_e57dint, 0x2a8c_5b8e_6e62_e599int, 0x4c_2063_f809_b84dint, 0x7d_cf4a_cb12_b6cbint, 0x234_556a_f621_6d8cint, 0x3a4_a3ed_697c_bf8fint);
    lemma_excess_down(-122, 0x2a8c_5b8e_6e62_e57dint, 0x2a8c_5b8e_6e62_e599int, -2, 0x252f_7272_09fb_9edcint, 0x252f_7272_09fb_9f00int);
    lemma_exact_by_fractions(-123, 0x252f_7272_09fb_9edcint, 0x252f_7272_09fb_9f00int, 0x17c_a1f3_d830_9981int, 0x1f7_3d2b_2c4a_db2cint, 0x209_b74e_95b8_f4e4int, 0x2b1_c45a_a7ca_34afint);
    lemma_excess_down(-123, 0x252f_7272_09fb_9edcint, 0x252f_7272_09fb_9f00int, 2, 0x3e7b_4f0e_8c7a_8693int, 0x3e7b_4f0e_8c7a_86c0int);
    lemma_exact_by_fractions(-124, 0x3e7b_4f0e_8c7a_8693int, 0x3e7b_4f0e_8c7a_86c0int, 0x77_c64c_8d54_1f0fint, 0x7e_af31_79eb_00aaint, 0x28c_2522_3b27_321dint, 0x2b1_c45a_a7ca_34afint);
    lemma_excess_down(-124, 0x3e7b_4f0e_8c7a_8693int, 0x3e7b_4f0e_8c7a_86c0int, 2, 0x2f0d_1169_17cc_941bint, 0x2f0d_1169_17cc_9438int);
    lemma_exact_by_fractions(-125, 0x2f0d_1169_17cc_941bint, 0x2f0d_1169_17cc_9438int, 0x15d_5b6f_d1d8_4df8int, 0x24f_37e2_0f5b_ed57int, 0x10a_2f6a_d6e9_8987int, 0x1c2_7754_24b2_9004int);
    lemma_excess_down(-125, 0x2f0d_1169_17cc_941bint, 0x2f0d_1169_17cc_9438int, -2, 0x2ad0_55c3_5dbf_b921int, 0x2ad0_55c3_5dbf_b946int);
    lemma_exact_by_fractions(-126, 0x2ad0_55c3_5dbf_b921int, 0x2ad0_55c3_5dbf_b946int, 0x1b4_b24b_c64e_6176int, 0x24f_37e2_0f5b_ed57int, 0x10a_2f6a_d6e9_8987int, 0x168_5f76_83c2_0cd0int);
    lemma_excess_down(-126, 0x2ad0_55c3_5dbf_b921int, 0x2ad0_55c3_5dbf_b946int, -2, 0x2584_6b34_352f_a769int, 0x2584_6b34_352f_a798int);
    lemma_exact_by_fractions(-127, 0x2584_6b34_352f_a769int, 0x2584_6b34_352f_a798int, 0x2be_e1b6_9d37_eafdint, 0x2f9_45e0_75b1_94ecint, 0x1fc_73b3_33f1_e6a8int, 0x226_b0ee_a12e_720bint);
    lemma_excess_down(-127, 0x2584_6b34_352f_a769int, 0x2584_6b34_352f_a798int, 10, 0x3f72_c300_a13d_c8a1int, 0x3f72_c300_a13d_c8bfint);
    lemma_exact_by_fractions(-128, 0x3f72_c300_a13d_c8a1int, 0x3f72_c300_a13d_c8bfint, 0x141_8af0_3642_7dffint, 0x22d_3515_947d_ff06int, 0x13d_c850_0077_3029int, 0x226_b0ee_a12e_720bint);
    lemma_excess_down(-128, 0x3f72_c300_a13d_c8a1int, 0x3f72_c300_a13d_c8bfint, -8, 0xf4f_73c0_c98d_3ac9int, 0xf4f_73c0_c98d_3aefint);
    lemma_exact_by_fractions(-129, 0xf4f_73c0_c98d_3ac9int, 0xf4f_73c0_c98d_3aefint, 0x141_8af0_3642_7dffint, 0x1bd_c411_4397_ff38int, 0x1dd_9d20_0e25_9bb3int, 0x296_21f2_f214_71d9int);
    lemma_excess_down(-129, 0xf4f_73c0_c98d_3ac9int, 0xf4f_73c0_c98d_3aefint, -2, 0x323_50b0_fbf0_897bint, 0x323_50b0_fbf0_89abint);
    lemma_exact_by_fractions(-130, 0x323_50b0_fbf0_897bint, 0x323_50b0_fbf0_89abint, 0x168_8f7c_2c3b_456cint, 0x18f_e2d4_8c2c_164dint, 0x22b_a637_fa17_2a8dint, 0x268_40b6_3aa8_88eeint);
    lemma_excess_down(-130, 0x323_50b0_fbf0_897bint, 0x323_50b0_fbf0_89abint, 4, 0x11f6_126e_9d76_55ecint, 0x11f6_126e_9d76_560bint);
    lemma_exact_by_fractions(-131, 0x11f6_126e_9d76_55ecint, 0x11f6_126e_9d76_560bint, 0x5a_23df_0b0e_d15bint, 0x9f_f455_04de_6f52int, 0x214_cac5_082d_2580int, 0x3b1_71b1_3c61_022dint);
    lemma_excess_down(-131, 0x11f6_126e_9d76_55ecint, 0x11f6_126e_9d76_560bint, 0, 0x1673_970a_44d3_eb67int, 0x1673_970a_44d3_eb8eint);
    lemma_exact_by_fractions(-132, 0x1673_970a_44d3_eb67int, 0x1673_970a_44d3_eb8eint, 0x1c2_b35b_374a_16c7int, 0x27f_d154_1379_bd48int, 0x139_7a6f_5828_ec16int, 0x1bd_0411_e0aa_7f59int);
    lemma_excess_down(-132, 0x1673_970a_44d3_eb67int, 0x1673_970a_44d3_eb8eint, 0, 0x1c10_7ccc_d608_e640int, 0x1c10_7ccc_d608_e672int);
    lemma_exact_by_fractions(-133, 0x1c10_7ccc_d608_e640int, 0x1c10_7ccc_d608_e672int, 0x92_fb11_c59a_d05eint, 0xa6_ec84_7474_ff0bint, 0x27c_b704_96cb_7dd9int, 0x2d3_1b9f_4cdf_ffa7int);
    lemma_excess_down(-133, 0x1c10_7ccc_d608_e640int, 0x1c10_7ccc_d608_e672int, 2, 0x198a_4e00_05c5_8fe8int, 0x198a_4e00_05c5_9008int);
    lemma_exact_by_fractions(-134, 0x198a_4e00_05c5_8fe8int, 0x198a_4e00_05c5_9008int, 0x16f_73ac_6e03_08ebint, 0x29b_b211_d1d3_fc2cint, 0xfb_0aac_4133_a1b1int, 0x1c8_2ac4_2cce_9881int);
    lemma_excess_down(-134, 0x198a_4e00_05c5_8fe8int, 0x198a_4e00_05c5_9008int, -2, 0xfec_e180_0736_f3e2int, 0xfec_e180_0736_f40aint);
    lemma_exact_by_fractions(-135, 0xfec_e180_0736_f3e2int, 0xfec_e180_0736_f40aint, 0x20a_1342_99d0_b392int, 0x2f6_edd2_a796_e779int, 0xfb_0aac_4133_a1b1int, 0x16c_ef03_570b_ad34int);
    lemma_excess_down(-135, 0xfec_e180_0736_f3e2int, 0xfec_e180_0736_f40aint, 0, 0x13e8_19e0_0904_b0daint, 0x13e8_19e0_0904_b10dint);
    lemma_exact_by_fractions(-136, 0x13e8_19e0_0904_b0daint, 0x13e8_19e0_0904_b10dint, 0x205_13c8_13f6_5786int, 0x259_54b2_edc5_9cf7int, 0xf6_0b31_bb59_45a5int, 0x11e_2273_7a23_07f3int);
    lemma_excess_down(-136, 0x13e8_19e0_0904_b0daint, 0x13e8_19e0_0904_b10dint, 8, 0x2c71_102c_05a2_ee88int, 0x2c71_102c_05a2_eea9int);
    lemma_exact_by_fractions(-137, 0x2c71_102c_05a2_ee88int, 0x2c71_102c_05a2_eea9int, 0x102_89e4_09fb_2bc3int, 0x1e1_108f_249e_172cint, 0x174_3077_2cae_61ffint, 0x2b4_890a_bd6d_95b1int);
    lemma_excess_down(-137, 0x2c71_102c_05a2_ee88int, 0x2c71_102c_05a2_eea9int, -2, 0x278d_5437_070b_aa2aint, 0x278d_5437_070b_aa54int);
    lemma_exact_by_fractions(-138, 0x278d_5437_070b_aa2aint, 0x278d_5437_070b_aa54int, 0xc9_b69a_78a1_90a5int, 0x12c_4374_4691_dfeeint, 0x157_c6d2_6401_9470int, 0x1ff_bbef_df61_5e73int);
    lemma_excess_down(-138, 0x278d_5437_070b_aa2aint, 0x278d_5437_070b_aa54int, -6, 0x170_a944_c8ce_94b4int, 0x170_a944_c8ce_94e9int);
    lemma_exact_by_fractions(-139, 0x170_a944_c8ce_94b4int, 0x170_a944_c8ce_94e9int, 0x221_7d6c_dca3_2515int, 0x289_991c_eb28_feb4int, 0x1ad_b886_fd01_f98cint, 0x1ff_bbef_df61_5e73int);
    lemma_excess_down(-139, 0x170_a944_c8ce_94b4int, 0x170_a944_c8ce_94e9int, 10, 0x28e6_69ca_fd81_1cf0int, 0x28e6_69ca_fd81_1d12int);
    lemma_exact_by_fractions(-140, 0x28e6_69ca_fd81_1cf0int, 0x28e6_69ca_fd81_1d12int, 0xdb_07a5_8eb1_5359int, 0x1a1_54e7_290d_5279int, 0x219_26a8_bc42_77efint, 0x3ff_77df_bec2_bce6int);
    lemma_excess_down(-140, 0x28e6_69ca_fd81_1cf0int, 0x28e6_69ca_fd81_1d12int, -6, 0x320_043d_bce1_642cint, 0x320_043d_bce1_6457int);
    lemma_exact_by_fractions(-141, 0x320_043d_bce1_642cint, 0x320_043d_bce1_6457int, 0x1d_fc11_fbf4_6087int, 0x2d_b491_25ad_d881int, 0x1ef_74d4_1a5f_1631int, 0x2f3_3845_b2a0_5fd0int);
    lemma_excess_down(-141, 0x320_043d_bce1_642cint, 0x320_043d_bce1_6457int, 2, 0x13e8_054d_2c19_bd37int, 0x13e8_054d_2c19_bd6dint);
    lemma_exact_by_fractions(-142, 0x13e8_054d_2c19_bd37int, 0x13e8_054d_2c19_bd6dint, 0x1d_fc11_fbf4_6087int, 0x24_9074_1e24_ad34int, 0x272_d10d_9ff3_f3dfint, 0x2fc_5c62_ba29_8b1dint);
    lemma_excess_down(-142, 0x13e8_054d_2c19_bd37int, 0x13e8_054d_2c19_bd6dint, 10, 0x3471_0350_3b90_1642int, 0x3471_0350_3b90_1665int);
    lemma_exact_by_fractions(-143, 0x3471_0350_3b90_1642int, 0x3471_0350_3b90_1665int, 0xa4_8ed5_685d_1400int, 0x141_115d_164a_9ef5int, 0x1fc_4efb_b5ae_6d5dint, 0x3df_c1d3_6805_1234int);
    lemma_excess_down(-143, 0x3471_0350_3b90_1642int, 0x3471_0350_3b90_1665int, -2, 0x318d_4424_4a74_1bd2int, 0x318d_4424_4a74_1bffint);
    lemma_exact_by_fractions(-144, 0x318d_4424_4a74_1bd2int, 0x318d_4424_4a74_1bffint, 0x29_23b5_5a17_4500int, 0x40_36ac_37a8_8631int, 0x1e4_917e_f3dc_a8d1int, 0x2f4_59aa_c12a_133eint);
    lemma_excess_down(-144, 0x318d_4424_4a74_1bd2int, 0x318d_4424_4a74_1bffint, -6, 0xdf0_952d_5d11_22c6int, 0xdf0_952d_5d11_22ffint);
    lemma_exact_by_fractions(-145, 0xdf0_952d_5d11_22c6int, 0xdf0_952d_5d11_22ffint, 0x33_6ca2_b09d_1640int, 0x40_36ac_37a8_8631int, 0x255_b3b1_ab9c_a691int, 0x2ea_599d_14fa_d037int);
    lemma_excess_down(-145, 0xdf0_952d_5d11_22c6int, 0xdf0_952d_5d11_22ffint, 0, 0x8b6_5d3c_5a2a_b5bbint, 0x8b6_5d3c_5a2a_b5e0int);
    lemma_exact_by_fractions(-146, 0x8b6_5d3c_5a2a_b5bbint, 0x8b6_5d3c_5a2a_b5e0int, 0x20_23e5_ae62_2de8int, 0x40_36ac_37a8_8631int, 0x1f5_4800_a076_1cd9int, 0x3e9_84f6_adca_edc5int);
    lemma_excess_down(-146, 0x8b6_5d3c_5a2a_b5bbint, 0x8b6_5d3c_5a2a_b5e0int, 4, 0x2ae3_f48b_70b5_6329int, 0x2ae3_f48b_70b5_6358int);
    lemma_exact_by_fractions(-147, 0x2ae3_f48b_70b5_6329int, 0x2ae3_f48b_70b5_6358int, 0x28_2cdf_19fa_b962int, 0x40_36ac_37a8_8631int, 0x1bd_092e_af4a_4c83int, 0x2c7_5107_7050_0259int);
    lemma_excess_down(-147, 0x2ae3_f48b_70b5_6329int, 0x2ae3_f48b_70b5_6358int, -2, 0x259c_f1ae_4ce2_bbf3int, 0x259c_f1ae_4ce2_bc2eint);
    lemma_exact_by_fractions(-148, 0x259c_f1ae_4ce2_bbf3int, 0x259c_f1ae_4ce2_bc2eint, 0x64_702d_c0f2_cf75int, 0x80_6d58_6f51_0c62int, 0x215_e058_60fc_42f9int, 0x2aa_a695_1f9b_40edint);
    lemma_excess_down(-148, 0x259c_f1ae_4ce2_bbf3int, 0x259c_f1ae_4ce2_bc2eint, 0, 0x2f04_2e19_e01b_6aefint, 0x2f04_2e19_e01b_6b3aint);
    lemma_exact_by_fractions(-149, 0x2f04_2e19_e01b_6aefint, 0x2f04_2e19_e01b_6b3aint, 0x1f6_30e4_c4be_0d49int, 0x201_b561_bd44_3188int, 0x2c6_fd1d_2db3_399fint, 0x2d7_4b81_6cc7_12bfint);
    lemma_excess_down(-149, 0x2f04_2e19_e01b_6aefint, 0x2f04_2e19_e01b_6b3aint, -4, 0xd62_9cd0_2c11_22d5int, 0xd62_9cd0_2c11_2305int);
    lemma_exact_by_fractions(-150, 0xd62_9cd0_2c11_22d5int, 0xd62_9cd0_2c11_2305int, 0x21b_89b4_adbe_2f34int, 0x373_0f25_b004_4121int, 0x97_a5c0_3e4e_28ddint, 0xf8_3360_a202_40dbint);
    lemma_excess_down(-150, 0xd62_9cd0_2c11_22d5int, 0xd62_9cd0_2c11_2305int, 0, 0x10bb_4404_3715_6b8aint, 0x10bb_4404_3715_6bc7int);
    lemma_exact_by_fractions(-151, 0x10bb_4404_3715_6b8aint, 0x10bb_4404_3715_6bc7int, 0x23d_d82f_67f6_0ca1int, 0x2ef_5de9_7998_24c7int, 0x10_c353_12de_9d10int, 0x15_f2df_5e67_5a0fint);
    lemma_excess_down(-151, 0x10bb_4404_3715_6b8aint, 0x10bb_4404_3715_6bc7int, 2, 0x24ea_1505_44da_c66cint, 0x24ea_1505_44da_c6b9int);
    lemma_exact_by_fractions(-152, 0x24ea_1505_44da_c66cint, 0x24ea_1505_44da_c6b9int, 0x2d0_8546_4d11_eaedint, 0x2f2_bc09_8fb3_93d5int, 0x14_f427_d796_4454int, 0x15_f2df_5e67_5a0fint);
    lemma_excess_down(-152, 0x24ea_1505_44da_c66cint, 0x24ea_1505_44da_c6b9int, -4, 0x712_4d23_4b08_bc03int, 0x712_4d23_4b08_bc34int);
    lemma_exact_by_fractions(-153, 0x712_4d23_4b08_bc03int, 0x712_4d23_4b08_bc34int, 0x16a_e128_217b_be01int, 0x260_2d67_85d7_8847int, 0x185_1259_eef7_936aint, 0x28c_1326_42a6_3c65int);
    lemma_excess_down(-153, 0x712_4d23_4b08_bc03int, 0x712_4d23_4b08_bc34int, 4, 0x28d6_e06c_1dca_eb03int, 0x28d6_e06c_1dca_eb41int);
    lemma_exact_by_fractions(-154, 0x28d6_e06c_1dca_eb03int, 0x28d6_e06c_1dca_eb41int, 0x54_2bfd_94ff_fa26int, 0x70_db21_c1ce_90d5int, 0x227_d1ec_ec6b_0dcbint, 0x2e3_dea3_bc43_a4a1int);
    lemma_excess_down(-154, 0x28d6_e06c_1dca_eb03int, 0x28d6_e06c_1dca_eb41int, -6, 0x30c_9887_253d_a5c3int, 0x30c_9887_253d_a612int);
    lemma_exact_by_fractions(-155, 0x30c_9887_253d_a5c3int, 0x30c_9887_253d_a612int, 0x2a_15fe_ca7f_fd13int, 0x2d_2473_e71f_6d22int, 0x2ad_21e4_41cb_d2c2int, 0x2de_e3cf_1300_c091int);
    lemma_excess_down(-155, 0x30c_9887_253d_a5c3int, 0x30c_9887_253d_a612int, 6, 0x19e7_df54_7746_8799int, 0x19e7_df54_7746_87ccint);
    lemma_exact_by_fractions(-156, 0x19e7_df54_7746_8799int, 0x19e7_df54_7746_87ccint, 0x1b0_d9b2_8ed9_6235int, 0x2e6_db89_bb6b_c711int, 0xde_6bb8_9a59_70d6int, 0x17d_b7ea_8270_5e01int);
    lemma_excess_down(-156, 0x19e7_df54_7746_8799int, 0x19e7_df54_7746_87ccint, 0, 0x2061_d729_9518_297fint, 0x2061_d729_9518_29bfint);
    lemma_exact_by_fractions(-157, 0x2061_d729_9518_297fint, 0x2061_d729_9518_29bfint, 0x1d6_7802_bca9_7f38int, 0x285_ef42_be46_bf53int, 0x6f_35dc_4d2c_b86bint, 0x98_aff7_6760_259aint);
    lemma_excess_down(-157, 0x2061_d729_9518_297fint, 0x2061_d729_9518_29bfint, -2, 0x187a_4cf3_fa5e_33deint, 0x187a_4cf3_fa5e_342fint);
    lemma_exact_by_fractions(-158, 0x187a_4cf3_fa5e_33deint, 0x187a_4cf3_fa5e_342fint, 0xe4_d3dc_fc57_1839int, 0xfb_5639_abf4_aabfint, 0x22c_0d4d_81df_9a17int, 0x262_bfdd_9d80_9668int);
    lemma_excess_down(-158, 0x187a_4cf3_fa5e_33deint, 0x187a_4cf3_fa5e_342fint, 4, 0x1f4c_7018_7c7a_e06aint, 0x1f4c_7018_7c7a_e09eint);
    lemma_exact_by_fractions(-159, 0x1f4c_7018_7c7a_e06aint, 0x1f4c_7018_7c7a_e09eint, 0xe4_d3dc_fc57_1839int, 0x192_238f_7987_7798int, 0x1ea_8cba_8ee2_2f72int, 0x35e_1617_4975_4127int);
    lemma_excess_down(-159, 0x1f4c_7018_7c7a_e06aint, 0x1f4c_7018_7c7a_e09eint, 2, 0x371f_8c1e_9b99_9884int, 0x371f_8c1e_9b99_98c6int);
    lemma_exact_by_fractions(-160, 0x371f_8c1e_9b99_9884int, 0x371f_8c1e_9b99_98c6int, 0x1b0_fbf9_8807_3132int, 0x260_bcb6_f501_c15fint, 0xed_0d1d_21e4_17f9int, 0x14d_45d7_a5b4_09abint);
}

/// The entries for the decimal exponents from -200 to -161.
proof fn lemma_exact_down_4()
    ensures
        excess_within(-200, 0x2fd7_c22c_c977_7aeaint, 0x2fd7_c22c_c977_7b45int),
        forall|f: int| -200 <= f <= -161 ==> exact_everywhere(f) && is_ceiling(f),
{
    reveal(multiplier);
    lemma_exact_down_3();
    lemma_excess_down(-160, 0x371f_8c1e_9b99_9884int, 0x371f_8c1e_9b99_98c6int, -4, 0x24e7_6f26_427f_fea5int, 0x24e7_6f26_427f_fef8int);
    lemma_exact_by_fractions(-161, 0x24e7_6f26_427f_fea5int, 0x24e7_6f26_427f_fef8int, 0x1bb_4389_b6f7_70e2int, 0x1f2_8d2a_6ee2_ab17int, 0xf7_54ad_50d4_57a9int, 0x116_2e11_62a4_7e87int);
    lemma_excess_down(-161, 0x24e7_6f26_427f_fea5int, 0x24e7_6f26_427f_fef8int, 8, 0x3710_a577_e98f_ff27int, 0x3710_a577_e98f_ff5bint);
    lemma_exact_by_fractions(-162, 0x3710_a577_e98f_ff27int, 0x3710_a577_e98f_ff5bint, 0x1c1_b043_d44d_98b0int, 0x329_3e75_8f7f_2223int, 0xf0_e7f3_337e_2fdbint, 0x1b1_86b6_f2f2_ba0dint);
    lemma_excess_down(-162, 0x3710_a577_e98f_ff27int, 0x3710_a577_e98f_ff5bint, -8, 0x4d4_ced5_e3f3_fef0int, 0x4d4_ced5_e3f3_ff32int);
    lemma_exact_by_fractions(-163, 0x4d4_ced5_e3f3_fef0int, 0x4d4_ced5_e3f3_ff32int, 0xd0_c850_a0cf_68d5int, 0x12c_92fe_e3a3_8678int, 0x161_5404_2891_9607int, 0x1fc_ab76_abdb_9babint);
    lemma_excess_down(-163, 0x4d4_ced5_e3f3_fef0int, 0x4d4_ced5_e3f3_ff32int, 6, 0x360a_028b_5cf0_feacint, 0x360a_028b_5cf0_feffint);
    lemma_exact_by_fractions(-164, 0x360a_028b_5cf0_feacint, 0x360a_028b_5cf0_feffint, 0x1e9_d67b_057f_e843int, 0x234_282e_22b5_ac6eint, 0xd4_ccee_f639_5650int, 0xf5_1647_6cc9_75b5int);
    lemma_excess_down(-164, 0x360a_028b_5cf0_feacint, 0x360a_028b_5cf0_feffint, -8, 0x1c6_4197_1a16_9f2bint, 0x1c6_4197_1a16_9f60int);
    lemma_exact_by_fractions(-165, 0x1c6_4197_1a16_9f2bint, 0x1c6_4197_1a16_9f60int, 0x215_fc00_737b_807fint, 0x3d8_009f_c3f1_f7a8int, 0x1a_999d_dec7_2acaint, 0x31_0474_af5b_7df1int);
    lemma_excess_down(-165, 0x1c6_4197_1a16_9f2bint, 0x1c6_4197_1a16_9f60int, 6, 0x3237_d1fc_e09c_46f5int, 0x3237_d1fc_e09c_4738int);
    lemma_exact_by_fractions(-166, 0x3237_d1fc_e09c_46f5int, 0x3237_d1fc_e09c_4738int, 0x201_0af4_8670_0c0cint, 0x2f4_546c_2cd2_a0a1int, 0x42_800a_acf1_eaf9int, 0x62_08e9_5eb6_fbe2int);
    lemma_excess_down(-166, 0x3237_d1fc_e09c_46f5int, 0x3237_d1fc_e09c_4738int, -6, 0xec5_c67c_18c3_58b2int, 0xec5_c67c_18c3_5906int);
    lemma_exact_by_fractions(-167, 0xec5_c67c_18c3_58b2int, 0xec5_c67c_18c3_5906int, 0x18a_42e7_d563_aee7int, 0x1d0_fa33_9e73_ac8dint, 0x14c_8035_60b9_96ddint, 0x188_23a5_7adb_ef88int);
    lemma_excess_down(-167, 0xec5_c67c_18c3_58b2int, 0xec5_c67c_18c3_5906int, -2, 0x13b_9c0d_8f7a_176fint, 0x13b_9c0d_8f7a_17a4int);
    lemma_exact_by_fractions(-168, 0x13b_9c0d_8f7a_176fint, 0x13b_9c0d_8f7a_17a4int, 0x6a_4910_43ee_2ebbint, 0xc8_8efd_e019_6ad3int, 0x1e3_4fa3_73eb_dc49int, 0x38f_ffba_b239_8cdeint);
    lemma_excess_down(-168, 0x13b_9c0d_8f7a_176fint, 0x13b_9c0d_8f7a_17a4int, 2, 0x118a_8310_f358_9d4aint, 0x118a_8310_f358_9d8dint);
    lemma_exact_by_fractions(-169, 0x118a_8310_f358_9d4aint, 0x118a_8310_f358_9d8dint, 0x180_0724_65b0_66e6int, 0x243_b905_c988_468fint, 0x93_662c_edf6_82c1int, 0xde_82f1_b6dd_64bdint);
    lemma_excess_down(-169, 0x118a_8310_f358_9d4aint, 0x118a_8310_f358_9d8dint, 0, 0x15ed_23d5_302e_c49cint, 0x15ed_23d5_302e_c4f1int);
    lemma_exact_by_fractions(-170, 0x15ed_23d5_302e_c49cint, 0x15ed_23d5_302e_c4f1int, 0x229_bc03_f617_c200int, 0x29c_ba33_45e0_d541int, 0x93_662c_edf6_82c1int, 0xb2_025a_f8b1_1d64int);
    lemma_excess_down(-170, 0x15ed_23d5_302e_c49cint, 0x15ed_23d5_302e_c4f1int, 6, 0x25b4_3665_3e1d_3ae1int, 0x25b4_3665_3e1d_3b17int);
    lemma_exact_by_fractions(-171, 0x25b4_3665_3e1d_3ae1int, 0x25b4_3665_3e1d_3b17int, 0x163_0cae_6a3f_6b81int, 0x2ae_0d16_b7d5_7bc7int, 0x16c_03da_5aaf_fdc2int, 0x2bf_5ffa_29ca_224dint);
    lemma_excess_down(-171, 0x25b4_3665_3e1d_3ae1int, 0x25b4_3665_3e1d_3b17int, -4, 0xf21_43fe_8da4_8999int, 0xf21_43fe_8da4_89ddint);
    lemma_exact_by_fractions(-172, 0xf21_43fe_8da4_8999int, 0xf21_43fe_8da4_89ddint, 0x10c_874d_cbcb_b531int, 0x19f_186e_51e4_385fint, 0x174_fb06_4b20_9003int, 0x240_8f17_afcb_d3dcint);
    lemma_excess_down(-172, 0xf21_43fe_8da4_8999int, 0xf21_43fe_8da4_89ddint, 4, 0x32e9_94fe_310d_abffint, 0x32e9_94fe_310d_ac55int);
    lemma_exact_by_fractions(-173, 0x32e9_94fe_310d_abffint, 0x32e9_94fe_310d_ac55int, 0x21c_c19b_de53_3374int, 0x29c_ba33_45e0_d541int, 0xa0_6095_05bb_114dint, 0xc6_54b4_66bc_cf3fint);
    lemma_excess_down(-173, 0x32e9_94fe_310d_abffint, 0x32e9_94fe_310d_ac55int, 8, 0x3fd1_fd1e_dea8_8b7fint, 0x3fd1_fd1e_dea8_8bb6int);
    lemma_exact_by_fractions(-174, 0x3fd1_fd1e_dea8_8b7fint, 0x3fd1_fd1e_dea8_8bb6int, 0x134_2913_0463_0062int, 0x261_bd54_d158_8271int, 0x1ed_b9d6_1844_561fint, 0x3d0_e84e_648d_f787int);
    lemma_excess_down(-174, 0x3fd1_fd1e_dea8_8b7fint, 0x3fd1_fd1e_dea8_8bb6int, -4, 0x2fc6_7c66_9652_ae5eint, 0x2fc6_7c66_9652_aea4int);
    lemma_exact_by_fractions(-175, 0x2fc6_7c66_9652_ae5eint, 0x2fc6_7c66_9652_aea4int, 0x1be_7f7f_bdbc_95cdint, 0x2c2_c4ac_83cc_ee2fint, 0x143_e72f_cd3a_eb28int, 0x200_b5fd_1ee4_16b3int);
    lemma_excess_down(-175, 0x2fc6_7c66_9652_ae5eint, 0x2fc6_7c66_9652_aea4int, -6, 0xbb8_1b80_3be7_59f5int, 0xbb8_1b80_3be7_5a4dint);
    lemma_exact_by_fractions(-176, 0xbb8_1b80_3be7_59f5int, 0xbb8_1b80_3be7_5a4dint, 0x213_ffc3_bf39_9a6fint, 0x2a1_aff1_5a42_8c99int, 0x50_f9cb_f34e_bacaint, 0x66_8acc_3960_d157int);
    lemma_excess_down(-176, 0xbb8_1b80_3be7_59f5int, 0xbb8_1b80_3be7_5a4dint, 2, 0x1ea6_2260_4ae1_3072int, 0x1ea6_2260_4ae1_30e1int);
    lemma_exact_by_fractions(-177, 0x1ea6_2260_4ae1_3072int, 0x1ea6_2260_4ae1_30e1int, 0x2db_9c36_96a1_7f41int, 0x2e5_2b3f_2c0b_2e67int, 0xca_707d_e044_d2f9int, 0xcd_1598_72c1_a2aeint);
    lemma_excess_down(-177, 0x1ea6_2260_4ae1_3072int, 0x1ea6_2260_4ae1_30e1int, 10, 0x3b27_d57c_2ecc_be47int, 0x3b27_d57c_2ecc_be8dint);
    lemma_exact_by_fractions(-178, 0x3b27_d57c_2ecc_be47int, 0x3b27_d57c_2ecc_be8dint, 0x42_2577_16cb_9589int, 0x6b_3787_bea8_4f25int, 0x267_51aa_d892_9da7int, 0x3e5_5f95_1e1b_3a92int);
    lemma_excess_down(-178, 0x3b27_d57c_2ecc_be47int, 0x3b27_d57c_2ecc_be8dint, -8, 0x9f1_cadb_3a7f_edd8int, 0x9f1_cadb_3a7f_ee31int);
    lemma_exact_by_fractions(-179, 0x9f1_cadb_3a7f_edd8int, 0x9f1_cadb_3a7f_ee31int, 0x170_ce2d_c03a_4d67int, 0x1de_3d18_5c21_7317int, 0x196_e108_0e7a_af21int, 0x20f_9c11_bda1_a99aint);
    lemma_excess_down(-179, 0x9f1_cadb_3a7f_edd8int, 0x9f1_cadb_3a7f_ee31int, 6, 0x3c6e_3d92_091f_e94eint, 0x3c6e_3d92_091f_e9beint);
    lemma_exact_by_fractions(-180, 0x3c6e_3d92_091f_e94eint, 0x3c6e_3d92_091f_e9beint, 0xae_e260_4c8d_0e45int, 0xb5_6bd7_de26_efefint, 0x26b_d642_a948_1f20int, 0x283_017a_5d75_3cd3int);
    lemma_excess_down(-180, 0x3c6e_3d92_091f_e94eint, 0x3c6e_3d92_091f_e9beint, 4, 0x35c4_e67b_45b3_f1d0int, 0x35c4_e67b_45b3_f217int);
    lemma_exact_by_fractions(-181, 0x35c4_e67b_45b3_f1d0int, 0x35c4_e67b_45b3_f217int, 0xfc_5d28_a1b6_1229int, 0x1a2_e00b_7622_8c0fint, 0x183_65e9_a9cd_1374int, 0x283_017a_5d75_3cd3int);
    lemma_excess_down(-181, 0x35c4_e67b_45b3_f1d0int, 0x35c4_e67b_45b3_f217int, -8, 0x336_201a_1720_ee44int, 0x336_201a_1720_ee9dint);
    lemma_exact_by_fractions(-182, 0x336_201a_1720_ee44int, 0x336_201a_1720_ee9dint, 0xfc_5d28_a1b6_1229int, 0x14f_19a2_c4e8_700cint, 0x1e4_3f64_1440_5851int, 0x283_017a_5d75_3cd3int);
    lemma_excess_down(-182, 0x336_201a_1720_ee44int, 0x336_201a_1720_ee9dint, 4, 0x2403_a820_9ce9_29d5int, 0x2403_a820_9ce9_2a45int);
    lemma_exact_by_fractions(-183, 0x2403_a820_9ce9_29d5int, 0x2403_a820_9ce9_2a45int, 0x232_b2e0_200e_b5dcint, 0x255_bdc9_265c_dc3bint, 0x1aa_46d5_379d_c6c7int, 0x1c4_d2d0_5f74_d481int);
    lemma_excess_down(-183, 0x2403_a820_9ce9_29d5int, 0x2403_a820_9ce9_2a45int, 4, 0x2682_4914_6211_ba25int, 0x2682_4914_6211_ba6cint);
    lemma_exact_by_fractions(-184, 0x2682_4914_6211_ba25int, 0x2682_4914_6211_ba6cint, 0x259_4f5d_3250_8a23int, 0x3fe_02f1_e5a5_d226int, 0x2_2056_8fc9_5f31int, 0x3_9d2e_0225_bf77int);
    lemma_excess_down(-184, 0x2682_4914_6211_ba25int, 0x2682_4914_6211_ba6cint, -4, 0x1022_db59_7a96_28aeint, 0x1022_db59_7a96_2907int);
    lemma_exact_by_fractions(-185, 0x1022_db59_7a96_28aeint, 0x1022_db59_7a96_2907int, 0x232_ed32_25d4_ec6fint, 0x2fd_6b2f_4d2d_b825int, 0x2_2056_8fc9_5f31int, 0x2_e424_ce84_992cint);
    lemma_excess_down(-185, 0x1022_db59_7a96_28aeint, 0x1022_db59_7a96_2907int, 2, 0x242b_922f_d93b_b2d9int, 0x242b_922f_d93b_b349int);
    lemma_exact_by_fractions(-186, 0x242b_922f_d93b_b2d9int, 0x242b_922f_d93b_b349int, 0x28f_8f01_c0f4_4095int, 0x2c9_18ef_35c8_c3c7int, 0xde_103b_854b_b42eint, 0xf1_8dd6_2549_0d7dint);
    lemma_excess_down(-186, 0x242b_922f_d93b_b2d9int, 0x242b_922f_d93b_b349int, 2, 0x1e9b_3b5d_e7c5_4fc7int, 0x1e9b_3b5d_e7c5_500eint);
    lemma_exact_by_fractions(-187, 0x1e9b_3b5d_e7c5_4fc7int, 0x1e9b_3b5d_e7c5_500eint, 0xbf_a5c7_e0e6_86abint, 0x14d_8cbd_b692_1dcfint, 0x22b_2894_cd3d_4273int, 0x3c6_3758_9524_35f4int);
    lemma_excess_down(-187, 0x1e9b_3b5d_e7c5_4fc7int, 0x1e9b_3b5d_e7c5_500eint, 2, 0x3642_0a35_61b6_a3b8int, 0x3642_0a35_61b6_a412int);
    lemma_exact_by_fractions(-188, 0x3642_0a35_61b6_a3b8int, 0x3642_0a35_61b6_a412int, 0x1f7_d967_3d14_369dint, 0x2bd_885b_fbb6_5f17int, 0x5a_e0b3_3b15_aef2int, 0x7e_8885_5fb6_d1a1int);
    lemma_excess_down(-188, 0x3642_0a35_61b6_a3b8int, 0x3642_0a35_61b6_a412int, -8, 0x3d2_8cc2_ba24_4ca6int, 0x3d2_8cc2_ba24_4d17int);
    lemma_exact_by_fractions(-189, 0x3d2_8cc2_ba24_4ca6int, 0x3d2_8cc2_ba24_4d17int, 0x1f5_d6a0_8105_bc68int, 0x22e_fc7d_6a74_c005int, 0xe3_31c0_13b6_355dint, 0xfd_110a_bf6d_a342int);
    lemma_excess_down(-189, 0x3d2_8cc2_ba24_4ca6int, 0x3d2_8cc2_ba24_4d17int, 2, 0xa63_97f9_b456_afe7int, 0xa63_97f9_b456_b02fint);
    lemma_exact_by_fractions(-190, 0xa63_97f9_b456_afe7int, 0xa63_97f9_b456_b02fint, 0x139_a624_50a3_95c1int, 0x22e_fc7d_6a74_c005int, 0x160_a768_33f7_a477int, 0x274_8043_5cde_1ed2int);
    lemma_excess_down(-190, 0xa63_97f9_b456_afe7int, 0xa63_97f9_b456_b02fint, 6, 0x3cfc_7df8_216c_5be0int, 0x3cfc_7df8_216c_5c3bint);
    lemma_exact_by_fractions(-191, 0x3cfc_7df8_216c_5be0int, 0x3cfc_7df8_216c_5c3bint, 0x93_12c1_2f7c_c733int, 0xd1_b10a_93b3_39d9int, 0x187_a8ac_174b_b32dint, 0x22e_69a1_0c39_314cint);
    lemma_excess_down(-191, 0x3cfc_7df8_216c_5be0int, 0x3cfc_7df8_216c_5c3bint, -2, 0x3c3b_9d76_29c7_72d8int, 0x3c3b_9d76_29c7_734aint);
    lemma_exact_by_fractions(-192, 0x3c3b_9d76_29c7_72d8int, 0x3c3b_9d76_29c7_734aint, 0xc_63e5_ddca_a89bint, 0xe_21e6_22f9_b273int, 0x295_0662_baaf_f05dint, 0x2f1_f8c5_7cf2_b8b2int);
    lemma_excess_down(-192, 0x3c3b_9d76_29c7_72d8int, 0x3c3b_9d76_29c7_734aint, 0, 0x25a5_4269_da1c_a7c7int, 0x25a5_4269_da1c_a80fint);
    lemma_exact_by_fractions(-193, 0x25a5_4269_da1c_a7c7int, 0x25a5_4269_da1c_a80fint, 0x115_4fa6_f4c3_4a93int, 0x1fa_1614_3646_7b53int, 0x15d_190a_2a07_f517int, 0x27d_185f_eb19_733cint);
    lemma_excess_down(-193, 0x25a5_4269_da1c_a7c7int, 0x25a5_4269_da1c_a80fint, 2, 0x3f0e_9304_50a3_d1b8int, 0x3f0e_9304_50a3_d213int);
    lemma_exact_by_fractions(-194, 0x3f0e_9304_50a3_d1b8int, 0x3f0e_9304_50a3_d213int, 0x127_41ff_c214_7534int, 0x1af_121f_4f95_c771int, 0x180_fdbb_c4aa_4a59int, 0x232_146b_0468_bf5aint);
    lemma_excess_down(-194, 0x3f0e_9304_50a3_d1b8int, 0x3f0e_9304_50a3_d213int, -6, 0x1ed2_37c5_64cc_c626int, 0x1ed2_37c5_64cc_c698int);
    lemma_exact_by_fractions(-195, 0x1ed2_37c5_64cc_c626int, 0x1ed2_37c5_64cc_c698int, 0x49_d07f_f085_1d4dint, 0x56_36d3_0fea_c17dint, 0x254_4bab_edf7_6453int, 0x2b8_76d4_f321_629eint);
    lemma_excess_down(-195, 0x1ed2_37c5_64cc_c626int, 0x1ed2_37c5_64cc_c698int, 10, 0x3b43_62db_5eff_fbd7int, 0x3b43_62db_5eff_fc1fint);
    lemma_exact_by_fractions(-196, 0x3b43_62db_5eff_fbd7int, 0x3b43_62db_5eff_fc1fint, 0x20e_a685_1eee_4002int, 0x3d8_310b_cc9c_e24fint, 0x9d_9405_6c54_ad81int, 0x126_7a73_4d46_d667int);
    lemma_excess_down(-196, 0x3b43_62db_5eff_fbd7int, 0x3b43_62db_5eff_fc1fint, -8, 0xa14_3b92_36bf_faccint, 0xa14_3b92_36bf_fb27int);
    lemma_exact_by_fractions(-197, 0xa14_3b92_36bf_faccint, 0xa14_3b92_36bf_fb27int, 0x1a5_f21e_442a_cbc1int, 0x276_d14e_3cae_476dint, 0x9d_9405_6c54_ad81int, 0xeb_9529_0a9f_11ecint);
    lemma_excess_down(-197, 0xa14_3b92_36bf_faccint, 0xa14_3b92_36bf_fb27int, 0, 0xc99_4a76_c46f_f97fint, 0xc99_4a76_c46f_f9f1int);
    lemma_exact_by_fractions(-198, 0xc99_4a76_c46f_f97fint, 0xc99_4a76_c46f_f9f1int, 0x163_da98_0e35_4431int, 0x1a9_9b6a_59bb_94d7int, 0x17d_3f91_0e9e_e292int, 0x1c7_faaf_8167_f42dint);
    lemma_excess_down(-198, 0xc99_4a76_c46f_f97fint, 0xc99_4a76_c46f_f9f1int, 14, 0x3fdf_ce8a_3ac5_fbefint, 0x3fdf_ce8a_3ac5_fc37int);
    lemma_exact_by_fractions(-199, 0x3fdf_ce8a_3ac5_fbefint, 0x3fdf_ce8a_3ac5_fc37int, 0x163_da98_0e35_4431int, 0x2a8_f8aa_292c_2158int, 0x1f9_2bac_b3cb_40c0int, 0x3c6_b52f_2049_0d2fint);
    lemma_excess_down(-199, 0x3fdf_ce8a_3ac5_fbefint, 0x3fdf_ce8a_3ac5_fc37int, -4, 0x2fd7_c22c_c977_7aeaint, 0x2fd7_c22c_c977_7b45int);
    lemma_exact_by_fractions(-200, 0x2fd7_c22c_c977_7aeaint, 0x2fd7_c22c_c977_7b45int, 0x1e2_2583_3b28_1461int, 0x2e2_1e5e_5a98_5083int, 0x95_5114_a595_fc8fint, 0xe4_96d0_c5b0_bcacint);
}

/// The entries for the decimal exponents from -240 to -201.
proof fn lemma_exact_down_5()
    ensures
        excess_within(-240, 0x3f24_46eb_98a9_95b8int, 0x3f24_46eb_98a9_9628int),
        forall|f: int| -240 <= f <= -201 ==> exact_everywhere(f) && is_ceiling(f),
{
    reveal(multiplier);
    lemma_exact_down_4();
    lemma_excess_down(-200, 0x2fd7_c22c_c977_7aeaint, 0x2fd7_c22c_c977_7b45int, 0, 0x3bcd_b2b7_fbd5_59a4int, 0x3bcd_b2b7_fbd5_5a17int);
    lemma_exact_by_fractions(-201, 0x3bcd_b2b7_fbd5_59a4int, 0x3bcd_b2b7_fbd5_5a17int, 0x1e2_2583_3b28_1461int, 0x24e_7eb1_e213_739cint, 0x133_2eba_9dc5_80cbint, 0x178_367d_3e35_9993int);
    lemma_excess_down(-201, 0x3bcd_b2b7_fbd5_59a4int, 0x3bcd_b2b7_fbd5_5a17int, 2, 0x2d60_8fb2_fd65_5806int, 0x2d60_8fb2_fd65_584fint);
    lemma_exact_by_fractions(-202, 0x2d60_8fb2_fd65_5806int, 0x2d60_8fb2_fd65_584fint, 0x153_bd49_58b1_bcd6int, 0x299_bcca_ee84_9253int, 0x133_2eba_9dc5_80cbint, 0x259_f0c8_6388_f5b8int);
    lemma_excess_down(-202, 0x2d60_8fb2_fd65_5806int, 0x2d60_8fb2_fd65_584fint, 0, 0x38b8_b39f_bcbe_ae07int, 0x38b8_b39f_bcbe_ae63int);
    lemma_exact_by_fractions(-203, 0x38b8_b39f_bcbe_ae07int, 0x38b8_b39f_bcbe_ae63int, 0x10f_153e_5ffb_6ba6int, 0x1a8_f614_604d_c9a3int, 0x133_2eba_9dc5_80cbint, 0x1e1_8d6d_1c6d_9160int);
    lemma_excess_down(-203, 0x38b8_b39f_bcbe_ae07int, 0x38b8_b39f_bcbe_ae63int, -2, 0x36e6_e087_abee_5988int, 0x36e6_e087_abee_59fcint);
    lemma_exact_by_fractions(-204, 0x36e6_e087_abee_5988int, 0x36e6_e087_abee_59fcint, 0x1c8_586f_0912_f1d0int, 0x23c_4f2c_3b93_63ffint, 0xdd_5cac_e6e1_9b4fint, 0x115_9cfc_8508_2f47int);
    lemma_excess_down(-204, 0x36e6_e087_abee_5988int, 0x36e6_e087_abee_59fcint, -2, 0x34a0_98a9_96e9_efeaint, 0x34a0_98a9_96e9_f07bint);
    lemma_exact_by_fractions(-205, 0x34a0_98a9_96e9_efeaint, 0x34a0_98a9_96e9_f07bint, 0x72_161b_c244_bc74int, 0x72_763c_0bea_4733int, 0x2fc_8d0d_3b99_d32fint, 0x2ff_113d_f061_e783int);
    lemma_excess_down(-205, 0x34a0_98a9_96e9_efeaint, 0x34a0_98a9_96e9_f07bint, -4, 0x10e4_5f69_fe52_35f2int, 0x10e4_5f69_fe52_364dint);
    lemma_exact_by_fractions(-206, 0x10e4_5f69_fe52_35f2int, 0x10e4_5f69_fe52_364dint, 0x8e_9ba2_b2d5_eb91int, 0xe4_ec78_17d4_8e66int, 0x21b_24ec_c8eb_6cb7int, 0x361_784f_40eb_55d9int);
    lemma_excess_down(-206, 0x10e4_5f69_fe52_35f2int, 0x10e4_5f69_fe52_364dint, 2, 0x251d_7744_7de6_c36eint, 0x251d_7744_7de6_c3e1int);
    lemma_exact_by_fractions(-207, 0x251d_7744_7de6_c36eint, 0x251d_7744_7de6_c3e1int, 0x139_0bc6_91c6_41a3int, 0x192_0487_f19d_392bint, 0x21b_24ec_c8eb_6cb7int, 0x2b4_603f_6722_ab14int);
    lemma_excess_down(-207, 0x251d_7744_7de6_c36eint, 0x251d_7744_7de6_c3e1int, -2, 0x1e64_d515_9d60_7449int, 0x1e64_d515_9d60_74daint);
    lemma_exact_by_fractions(-208, 0x1e64_d515_9d60_7449int, 0x1e64_d515_9d60_74daint, 0x2cd_5c91_8a13_e6a4int, 0x2e0_fef9_65e4_8ef1int, 0x38_8649_8dc9_4ac5int, 0x3a_1257_e44d_e395int);
    lemma_excess_down(-208, 0x1e64_d515_9d60_7449int, 0x1e64_d515_9d60_74daint, 2, 0x1aff_052d_825c_48adint, 0x1aff_052d_825c_4909int);
    lemma_exact_by_fractions(-209, 0x1aff_052d_825c_48adint, 0x1aff_052d_825c_4909int, 0x195_704a_99aa_24bdint, 0x29a_74fc_aab4_501aint, 0x158_07dd_2f4c_4d4bint, 0x235_83dd_e691_b661int);
    lemma_excess_down(-209, 0x1aff_052d_825c_48adint, 0x1aff_052d_825c_4909int, -4, 0x1be_c678_e2f3_5ad8int, 0x1be_c678_e2f3_5b4cint);
    lemma_exact_by_fractions(-210, 0x1be_c678_e2f3_5ad8int, 0x1be_c678_e2f3_5b4cint, 0x195_704a_99aa_24bdint, 0x215_2a63_bbc3_7348int, 0x213_65e7_2189_e9cdint, 0x2ba_ce76_d582_9333int);
    lemma_excess_down(-210, 0x1be_c678_e2f3_5ad8int, 0x1be_c678_e2f3_5b4cint, 4, 0x222e_7817_1bb0_318eint, 0x222e_7817_1bb0_321fint);
    lemma_exact_by_fractions(-211, 0x222e_7817_1bb0_318eint, 0x222e_7817_1bb0_321fint, 0x2c0_9e89_6da5_2289int, 0x2e5_4754_e395_276aint, 0x1f_7d67_21f7_f144int, 0x21_20d0_9ebf_d32fint);
    lemma_excess_down(-211, 0x222e_7817_1bb0_318eint, 0x222e_7817_1bb0_321fint, 8, 0x355d_0b0e_714e_1ef8int, 0x355d_0b0e_714e_1f54int);
    lemma_exact_by_fractions(-212, 0x355d_0b0e_714e_1ef8int, 0x355d_0b0e_714e_1f54int, 0x260_3b76_5603_f1fcint, 0x3ff_cd92_6ad2_1319int, 0x7_df59_c87d_fc51int, 0xd_4053_72b3_2146int);
    lemma_excess_down(-212, 0x355d_0b0e_714e_1ef8int, 0x355d_0b0e_714e_1f54int, -6, 0x12b4_4dd2_0da1_a6b6int, 0x12b4_4dd2_0da1_a729int);
    lemma_exact_by_fractions(-213, 0x12b4_4dd2_0da1_a6b6int, 0x12b4_4dd2_0da1_a729int, 0x219_cf0c_f59e_4800int, 0x2d4_35e4_7264_b5bdint, 0x27_5cc0_ea75_ed95int, 0x35_014d_cacc_8518int);
    lemma_excess_down(-213, 0x12b4_4dd2_0da1_a6b6int, 0x12b4_4dd2_0da1_a729int, -2, 0x761_6146_910a_1063int, 0x761_6146_910a_10f4int);
    lemma_exact_by_fractions(-214, 0x761_6146_910a_1063int, 0x761_6146_910a_10f4int, 0x172_a048_bc2b_237eint, 0x18f_443c_b11d_0999int, 0x237_700d_5078_c767int, 0x263_4973_dc4f_1df9int);
    lemma_excess_down(-214, 0x761_6146_910a_1063int, 0x761_6146_910a_10f4int, 8, 0x249c_dccc_1aa6_4a3dint, 0x249c_dccc_1aa6_4a99int);
    lemma_exact_by_fractions(-215, 0x249c_dccc_1aa6_4a3dint, 0x249c_dccc_1aa6_4a99int, 0xb9_5024_5e15_91bfint, 0x13f_69ca_274a_6e14int, 0x1dd_a7e3_2efc_0312int, 0x337_4eab_0781_3259int);
    lemma_excess_down(-215, 0x249c_dccc_1aa6_4a3dint, 0x249c_dccc_1aa6_4a99int, -2, 0x1dc4_13ff_214f_dcccint, 0x1dc4_13ff_214f_dd40int);
    lemma_exact_by_fractions(-216, 0x1dc4_13ff_214f_dcccint, 0x1dc4_13ff_214f_dd40int, 0x1f6_6c9f_e0d8_4573int, 0x2b4_cca8_e120_e5b6int, 0xd4_120a_fac9_c9a4int, 0x124_6d3f_de04_694dint);
    lemma_excess_down(-216, 0x1dc4_13ff_214f_dcccint, 0x1dc4_13ff_214f_dd40int, 2, 0x3535_18fe_e9a3_d3ffint, 0x3535_18fe_e9a3_d490int);
    lemma_exact_by_fractions(-217, 0x3535_18fe_e9a3_d3ffint, 0x3535_18fe_e9a3_d490int, 0x22b_7122_9f8a_b7dcint, 0x264_b993_e081_99a1int, 0x109_168d_b97c_3c0dint, 0x124_6d3f_de04_694dint);
    lemma_excess_down(-217, 0x3535_18fe_e9a3_d3ffint, 0x3535_18fe_e9a3_d490int, 0, 0x2141_2f9f_5206_647fint, 0x2141_2f9f_5206_64daint);
    lemma_exact_by_fractions(-218, 0x2141_2f9f_5206_647fint, 0x2141_2f9f_5206_64daint, 0x21e_cf1f_0941_97fbint, 0x3be_100f_b06e_bcfcint, 0x1d3_0ff8_ea2b_b10fint, 0x338_5e83_a824_81d9int);
    lemma_excess_down(-218, 0x2141_2f9f_5206_647fint, 0x2141_2f9f_5206_64daint, 2, 0x3991_7b87_2687_fd9eint, 0x3991_7b87_2687_fe11int);
    lemma_exact_by_fractions(-219, 0x3991_7b87_2687_fd9eint, 0x3991_7b87_2687_fe11int, 0x21e_cf1f_0941_97fbint, 0x2fe_733f_c058_9730int, 0x1c0_202f_6266_3754int, 0x278_c1b3_b80e_5c0dint);
    lemma_excess_down(-219, 0x3991_7b87_2687_fd9eint, 0x3991_7b87_2687_fe11int, -8, 0x7f5_da68_f029_fd05int, 0x7f5_da68_f029_fd96int);
    lemma_exact_by_fractions(-220, 0x7f5_da68_f029_fd05int, 0x7f5_da68_f029_fd96int, 0x1ae_c713_30a8_0a26int, 0x1e6_9bdb_db77_3357int, 0x230_283b_3aff_c529int, 0x278_c1b3_b80e_5c0dint);
    lemma_excess_down(-220, 0x7f5_da68_f029_fd05int, 0x7f5_da68_f029_fd96int, 4, 0x14f9_a881_961a_3e23int, 0x14f9_a881_961a_3e7eint);
    lemma_exact_by_fractions(-221, 0x14f9_a881_961a_3e23int, 0x14f9_a881_961a_3e7eint, 0x1ef_48dc_5b25_41b2int, 0x37f_297a_4084_0ce5int, 0xc1_e2f1_34d4_f28fint, 0x15e_6ca7_0f1d_957dint);
    lemma_excess_down(-221, 0x14f9_a881_961a_3e23int, 0x14f9_a881_961a_3e7eint, 2, 0x2a38_12a1_fba0_cdabint, 0x2a38_12a1_fba0_ce1eint);
    lemma_exact_by_fractions(-222, 0x2a38_12a1_fba0_cdabint, 0x2a38_12a1_fba0_ce1eint, 0xf7_a46e_2d92_a0d9int, 0x166_1097_4d01_9ec2int, 0x168_e523_ed4b_0df9int, 0x209_d102_77ba_5b99int);
    lemma_excess_down(-222, 0x2a38_12a1_fba0_cdabint, 0x2a38_12a1_fba0_ce1eint, 0, 0x34c6_174a_7a89_0115int, 0x34c6_174a_7a89_01a6int);
    lemma_exact_by_fractions(-223, 0x34c6_174a_7a89_0115int, 0x34c6_174a_7a89_01a6int, 0xf7_a46e_2d92_a0d9int, 0x11e_73ac_3d9a_e568int, 0x27c_d9bf_8acb_ca1aint, 0x2e0_a7c3_a5ee_87a7int);
    lemma_excess_down(-223, 0x34c6_174a_7a89_0115int, 0x34c6_174a_7a89_01a6int, -4, 0x10fb_ce8e_8c95_a0adint, 0x10fb_ce8e_8c95_a108int);
    lemma_exact_by_fractions(-224, 0x10fb_ce8e_8c95_a0adint, 0x10fb_ce8e_8c95_a108int, 0x11b_08a6_f97c_42f3int, 0x20b_d2d8_0d41_ba96int, 0x173_8334_f744_5834int, 0x2af_9343_37fa_776dint);
    lemma_excess_down(-224, 0x10fb_ce8e_8c95_a0adint, 0x10fb_ce8e_8c95_a108int, 0, 0x153a_c232_2fbb_08d8int, 0x153a_c232_2fbb_094aint);
    lemma_exact_by_fractions(-225, 0x153a_c232_2fbb_08d8int, 0x153a_c232_2fbb_094aint, 0x1d9_3080_b527_6fd9int, 0x2bc_9a4c_3d37_12a7int, 0x1d4_ca41_751e_6f0dint, 0x2b6_16c7_ba98_c50aint);
    lemma_excess_down(-225, 0x153a_c232_2fbb_08d8int, 0x153a_c232_2fbb_094aint, 0, 0x1a89_72be_bba9_cb0eint, 0x1a89_72be_bba9_cb9dint);
    lemma_exact_by_fractions(-226, 0x1a89_72be_bba9_cb0eint, 0x1a89_72be_bba9_cb9dint, 0x1da_4a10_8529_b00cint, 0x231_c8f1_17e5_51a5int, 0x1d4_ca41_751e_6f0dint, 0x22b_456c_9547_0408int);
    lemma_excess_down(-226, 0x1a89_72be_bba9_cb0eint, 0x1a89_72be_bba9_cb9dint, 10, 0x3895_e7b7_354a_1ee8int, 0x3895_e7b7_354a_1f43int);
    lemma_exact_by_fractions(-227, 0x3895_e7b7_354a_1ee8int, 0x3895_e7b7_354a_1f43int, 0x76_9284_214a_6c03int, 0xe0_b6c6_d65b_ba42int, 0x207_d3cc_edb2_c390int, 0x3d9_286c_ba23_8fb5int);
    lemma_excess_down(-227, 0x3895_e7b7_354a_1ee8int, 0x3895_e7b7_354a_1f43int, -4, 0x26bb_61a5_029c_a6a2int, 0x26bb_61a5_029c_a714int);
    lemma_exact_by_fractions(-228, 0x26bb_61a5_029c_a6a2int, 0x26bb_61a5_029c_a714int, 0x1e5_ac7f_9f4b_f4edint, 0x2e0_5859_5ae3_4229int, 0x17a_7c6a_9823_cdcbint, 0x23d_d597_5c57_9b4aint);
    lemma_excess_down(-228, 0x26bb_61a5_029c_a6a2int, 0x26bb_61a5_029c_a714int, -4, 0x106a_3a0e_4343_d04aint, 0x106a_3a0e_4343_d0d9int);
    lemma_exact_by_fractions(-229, 0x106a_3a0e_4343_d04aint, 0x106a_3a0e_4343_d0d9int, 0x143_3a4f_9504_17d0int, 0x188_0b64_f048_4b63int, 0x17a_7c6a_9823_cdcbint, 0x1cb_1145_e379_4908int);
    lemma_excess_down(-229, 0x106a_3a0e_4343_d04aint, 0x106a_3a0e_4343_d0d9int, 6, 0x2242_6448_ea0a_622eint, 0x2242_6448_ea0a_6288int);
    lemma_exact_by_fractions(-230, 0x2242_6448_ea0a_622eint, 0x2242_6448_ea0a_6288int, 0xca_0471_bd22_8ee2int, 0x188_0b64_f048_4b63int, 0x1cb_4afe_7d64_d3bfint, 0x37b_5364_ff45_5fceint);
    lemma_excess_down(-230, 0x2242_6448_ea0a_622eint, 0x2242_6448_ea0a_6288int, 2, 0x3ad2_fd5b_248c_fab9int, 0x3ad2_fd5b_248c_fb2aint);
    lemma_exact_by_fractions(-231, 0x3ad2_fd5b_248c_fab9int, 0x3ad2_fd5b_248c_fb2aint, 0x17d_28d4_8c8c_5509int, 0x24f_c1cb_5cad_86c1int, 0x101_468c_c042_44ddint, 0x18f_6ccc_d8ca_76bcint);
    lemma_excess_down(-231, 0x3ad2_fd5b_248c_fab9int, 0x3ad2_fd5b_248c_fb2aint, -8, 0x987_bcb1_edb0_3967int, 0x987_bcb1_edb0_39f5int);
    lemma_exact_by_fractions(-232, 0x987_bcb1_edb0_3967int, 0x987_bcb1_edb0_39f5int, 0x19c_2166_7f9e_d914int, 0x1ff_df3b_fe1e_a235int, 0x101_468c_c042_44ddint, 0x13f_8a3d_7a3b_9230int);
    lemma_excess_down(-232, 0x987_bcb1_edb0_3967int, 0x987_bcb1_edb0_39f5int, 10, 0x2df4_d5ef_348e_23e0int, 0x2df4_d5ef_348e_243aint);
    lemma_exact_by_fractions(-233, 0x2df4_d5ef_348e_23e0int, 0x2df4_d5ef_348e_243aint, 0x203_29c0_1f86_8f59int, 0x3ff_be77_fc3d_446aint, 0x4d_1f19_902d_474cint, 0x99_41f1_fbc3_214fint);
    lemma_excess_down(-233, 0x2df4_d5ef_348e_23e0int, 0x2df4_d5ef_348e_243aint, -4, 0x1972_0b6b_01b1_acd8int, 0x1972_0b6b_01b1_ad49int);
    lemma_exact_by_fractions(-234, 0x1972_0b6b_01b1_acd8int, 0x1972_0b6b_01b1_ad49int, 0x1c9_526c_f364_99e0int, 0x2d7_0a68_65ef_22bfint, 0x60_66df_f438_991fint, 0x99_41f1_fbc3_214fint);
    lemma_excess_down(-234, 0x1972_0b6b_01b1_acd8int, 0x1972_0b6b_01b1_ad49int, 0, 0x1fce_8e45_c21e_180eint, 0x1fce_8e45_c21e_189cint);
    lemma_exact_by_fractions(-235, 0x1fce_8e45_c21e_180eint, 0x1fce_8e45_c21e_189cint, 0x23b_a708_303d_c058int, 0x2d7_0a68_65ef_22bfint, 0x145_1016_6dea_e60fint, 0x19d_6c1e_8bc8_8ef2int);
    lemma_excess_down(-235, 0x1fce_8e45_c21e_180eint, 0x1fce_8e45_c21e_189cint, 0, 0x27c2_31d7_32a5_9e11int, 0x27c2_31d7_32a5_9ec3int);
    lemma_exact_by_fractions(-236, 0x27c2_31d7_32a5_9e11int, 0x27c2_31d7_32a5_9ec3int, 0x2ca_90ca_3c4d_306eint, 0x2d7_0a68_65ef_22bfint, 0xb6_2654_61db_75f9int, 0xb9_5469_f50a_3835int);
    lemma_excess_down(-236, 0x27c2_31d7_32a5_9e11int, 0x27c2_31d7_32a5_9ec3int, -4, 0x8d9_5f26_7fa7_82caint, 0x8d9_5f26_7fa7_833aint);
    lemma_exact_by_fractions(-237, 0x8d9_5f26_7fa7_82caint, 0x8d9_5f26_7fa7_833aint, 0x57_9108_5e25_911fint, 0x8e_8d6e_97f1_1422int, 0x24a_b95f_81dd_009dint, 0x3bb_25cd_b812_7f07int);
    lemma_excess_down(-237, 0x8d9_5f26_7fa7_82caint, 0x8d9_5f26_7fa7_833aint, 2, 0x1b0f_b6f0_1f91_637cint, 0x1b0f_b6f0_1f91_6409int);
    lemma_exact_by_fractions(-238, 0x1b0f_b6f0_1f91_637cint, 0x1b0f_b6f0_1f91_6409int, 0x1a8_b63c_4e26_d9fdint, 0x229_1f3d_665b_e492int, 0x1a2_26c5_89dc_5c2eint, 0x220_93fe_e9a7_ae97int);
    lemma_excess_down(-238, 0x1b0f_b6f0_1f91_637cint, 0x1b0f_b6f0_1f91_6409int, 2, 0x31d3_a4ac_2775_bc5bint, 0x31d3_a4ac_2775_bd0cint);
    lemma_exact_by_fractions(-239, 0x31d3_a4ac_2775_bc5bint, 0x31d3_a4ac_2775_bd0cint, 0x21b_171f_d70d_adbfint, 0x231_aa7b_e310_1a8dint, 0xd1_1362_c4ee_2e17int, 0xd9_d4cc_5d76_45d6int);
    lemma_excess_down(-239, 0x31d3_a4ac_2775_bc5bint, 0x31d3_a4ac_2775_bd0cint, 8, 0x3f24_46eb_98a9_95b8int, 0x3f24_46eb_98a9_9628int);
    lemma_exact_by_fractions(-240, 0x3f24_46eb_98a9_95b8int, 0x3f24_46eb_98a9_9628int, 0x123_9452_0976_0e01int, 0x1e6_1059_fe2d_f806int, 0x178_e64d_e798_6c39int, 0x274_4b04_76c2_1b55int);
}

/// The entries for the decimal exponents from -280 to -241.
proof fn lemma_exact_down_6()
    ensures
        excess_within(-280, 0x204e_7233_c2bf_d2beint, 0x204e_7233_c2bf_d33dint),
        forall|f: int| -280 <= f <= -241 ==> exact_everywhere(f) && is_ceiling(f),
{
    reveal(multiplier);
    lemma_exact_down_5();
    lemma_excess_down(-240, 0x3f24_46eb_98a9_95b8int, 0x3f24_46eb_98a9_9628int, -4, 0x2eed_58a6_7ed3_fb26int, 0x2eed_58a6_7ed3_fbb2int);
    lemma_exact_by_fractions(-241, 0x2eed_58a6_7ed3_fb26int, 0x2eed_58a6_7ed3_fbb2int, 0x231_d425_1b63_8474int, 0x2ed_41a1_182b_ec2dint, 0x14e_3d4f_f887_3d1dint, 0x1bd_be25_c860_07beint);
    lemma_excess_down(-241, 0x2eed_58a6_7ed3_fb26int, 0x2eed_58a6_7ed3_fbb2int, 0, 0x3aa8_aed0_1e88_f9efint, 0x3aa8_aed0_1e88_fa9fint);
    lemma_exact_by_fractions(-242, 0x3aa8_aed0_1e88_f9efint, 0x3aa8_aed0_1e88_fa9fint, 0x2be_492e_623c_6591int, 0x2ed_41a1_182b_ec2dint, 0x14e_3d4f_f887_3d1dint, 0x164_981e_39e6_6c98int);
    lemma_excess_down(-242, 0x3aa8_aed0_1e88_f9efint, 0x3aa8_aed0_1e88_fa9fint, 6, 0x3ca9_6d42_1315_9c35int, 0x3ca9_6d42_1315_9ca4int);
    lemma_exact_by_fractions(-243, 0x3ca9_6d42_1315_9c35int, 0x3ca9_6d42_1315_9ca4int, 0x18d_2612_fe54_d7d7int, 0x2a5_f001_72fd_d675int, 0x14e_3d4f_f887_3d1dint, 0x23a_8cfd_2970_adc0int);
    lemma_excess_down(-243, 0x3ca9_6d42_1315_9c35int, 0x3ca9_6d42_1315_9ca4int, -6, 0x1bd3_c892_97db_0342int, 0x1bd3_c892_97db_03cdint);
    lemma_exact_by_fractions(-244, 0x1bd3_c892_97db_0342int, 0x1bd3_c892_97db_03cdint, 0x1f_7461_82e6_cd5dint, 0x2a_f468_1d6b_a9e2int, 0x218_c7a9_91c1_79d5int, 0x2dd_081d_3b62_8d9dint);
    lemma_excess_down(-244, 0x1bd3_c892_97db_0342int, 0x1bd3_c892_97db_03cdint, -4, 0x2c8_bab7_3dd1_c412int, 0x2c8_bab7_3dd1_c4c1int);
    lemma_exact_by_fractions(-245, 0x2c8_bab7_3dd1_c412int, 0x2c8_bab7_3dd1_c4c1int, 0xfc_2658_0f51_e092int, 0x113_7871_6423_805fint, 0x257_2d20_9f73_9ee5int, 0x28e_97b3_b6bb_d995int);
    lemma_excess_down(-245, 0x2c8_bab7_3dd1_c412int, 0x2c8_bab7_3dd1_c4c1int, 4, 0x11bd_74b2_86a3_1a8bint, 0x11bd_74b2_86a3_1af9int);
    lemma_exact_by_fractions(-246, 0x11bd_74b2_86a3_1a8bint, 0x11bd_74b2_86a3_1af9int, 0x172_6cd5_3544_8c39int, 0x287_7ee6_a216_7127int, 0x1e0_e6a3_7980_f33eint, 0x348_9aee_55b5_51f9int);
    lemma_excess_down(-246, 0x11bd_74b2_86a3_1a8bint, 0x11bd_74b2_86a3_1af9int, -2, 0x62c_d1df_284b_e12dint, 0x62c_d1df_284b_e1b8int);
    lemma_exact_by_fractions(-247, 0x62c_d1df_284b_e12dint, 0x62c_d1df_284b_e1b8int, 0x40_fcc1_bc42_094dint, 0x5a_e092_fc7e_5011int, 0x1e7_6445_98eb_f9ccint, 0x2a9_8f8b_d1fd_3337int);
    lemma_excess_down(-247, 0x62c_d1df_284b_e12dint, 0x62c_d1df_284b_e1b8int, 4, 0x27b8_0656_f25e_d978int, 0x27b8_0656_f25e_da26int);
    lemma_exact_by_fractions(-248, 0x27b8_0656_f25e_d978int, 0x27b8_0656_f25e_da26int, 0x40_fcc1_bc42_094dint, 0x48_b3a8_c9fe_a674int, 0x2a2_3a18_bb69_018cint, 0x2f2_4334_9bfb_d9abint);
    lemma_excess_down(-248, 0x27b8_0656_f25e_d978int, 0x27b8_0656_f25e_da26int, 2, 0x20d3_03f6_577b_47ebint, 0x20d3_03f6_577b_4858int);
    lemma_exact_by_fractions(-249, 0x20d3_03f6_577b_47ebint, 0x20d3_03f6_577b_4858int, 0x137_bbe9_2a54_40bfint, 0x22d_fb88_8a5e_02dfint, 0x12a_8809_a75e_52fdint, 0x216_59ca_c4c6_d21eint);
    lemma_excess_down(-249, 0x20d3_03f6_577b_47ebint, 0x20d3_03f6_577b_4858int, 2, 0x3907_c4f3_ed5a_19e5int, 0x3907_c4f3_ed5a_1a6eint);
    lemma_exact_by_fractions(-250, 0x3907_c4f3_ed5a_19e5int, 0x3907_c4f3_ed5a_1a6eint, 0x1ea_b4a4_e4ac_c132int, 0x2be_a9e0_baaa_e14dint, 0x98_90fc_b46c_a4efint, 0xda_7777_0fd4_2a99int);
    lemma_excess_down(-250, 0x3907_c4f3_ed5a_19e5int, 0x3907_c4f3_ed5a_1a6eint, -6, 0x1749_b630_e8b0_a05eint, 0x1749_b630_e8b0_a10aint);
    lemma_exact_by_fractions(-251, 0x1749_b630_e8b0_a05eint, 0x1749_b630_e8b0_a10aint, 0x290_a89d_b0a7_7191int, 0x2f0_3d47_1e74_3defint, 0x6a_2c51_d577_c71aint, 0x79_a095_20dc_6c75int);
    lemma_excess_down(-251, 0x1749_b630_e8b0_a05eint, 0x1749_b630_e8b0_a10aint, 10, 0x368e_11de_916e_643aint, 0x368e_11de_916e_64a7int);
    lemma_exact_by_fractions(-252, 0x368e_11de_916e_643aint, 0x368e_11de_916e_64a7int, 0x61_ce74_46be_fff4int, 0xb3_44ba_84eb_ac51int, 0x1cd_0bb5_2329_71a9int, 0x34d_0bc9_8d49_0a76int);
    lemma_excess_down(-252, 0x368e_11de_916e_643aint, 0x368e_11de_916e_64a7int, -6, 0x1431_9656_35c9_fd48int, 0x1431_9656_35c9_fdd1int);
    lemma_exact_by_fractions(-253, 0x1431_9656_35c9_fd48int, 0x1431_9656_35c9_fdd1int, 0x7a_4211_586e_bff1int, 0xb3_44ba_84eb_ac51int, 0x19c_247a_ffc9_f1afint, 0x25c_5456_a242_903eint);
    lemma_excess_down(-253, 0x1431_9656_35c9_fd48int, 0x1431_9656_35c9_fdd1int, 4, 0x393d_fbeb_c33c_7c9aint, 0x393d_fbeb_c33c_7d46int);
    lemma_exact_by_fractions(-254, 0x393d_fbeb_c33c_7c9aint, 0x393d_fbeb_c33c_7d46int, 0x20b_0efa_9a99_4529int, 0x265_92d2_b50b_7afdint, 0x90_f134_d3ad_98dfint, 0xaa_063e_7222_c192int);
    lemma_excess_down(-254, 0x393d_fbeb_c33c_7c9aint, 0x393d_fbeb_c33c_7d46int, -6, 0xbc6_bd73_5a05_cde0int, 0xbc6_bd73_5a05_ce4cint);
    lemma_exact_by_fractions(-255, 0xbc6_bd73_5a05_cde0int, 0xbc6_bd73_5a05_ce4cint, 0x110_8ee8_d13e_b1e6int, 0x1ff_8f13_a3c3_6d3fint, 0x1a1_801d_a4ec_4ac5int, 0x30f_9911_272e_3c8fint);
    lemma_excess_down(-255, 0xbc6_bd73_5a05_cde0int, 0xbc6_bd73_5a05_ce4cint, 2, 0x1eb8_6cd0_3087_4158int, 0x1eb8_6cd0_3087_41dfint);
    lemma_exact_by_fractions(-256, 0x1eb8_6cd0_3087_4158int, 0x1eb8_6cd0_3087_41dfint, 0x194_817d_0456_eae3int, 0x25f_5de9_4a4d_4605int, 0x114_e3c9_06c5_d1dcint, 0x19f_c03d_fd39_9479int);
    lemma_excess_down(-256, 0x1eb8_6cd0_3087_4158int, 0x1eb8_6cd0_3087_41dfint, 0, 0x2666_8804_3ca9_11aeint, 0x2666_8804_3ca9_1257int);
    lemma_exact_by_fractions(-257, 0x2666_8804_3ca9_11aeint, 0x2666_8804_3ca9_1257int, 0x21e_f361_87b9_d3d1int, 0x28c_31a0_3a54_d9ceint, 0x15a_1cbb_4877_4653int, 0x19f_c03d_fd39_9479int);
    lemma_excess_down(-257, 0x2666_8804_3ca9_11aeint, 0x2666_8804_3ca9_1257int, 4, 0x2800_1502_a5e9_ab0cint, 0x2800_1502_a5e9_ab77int);
    lemma_exact_by_fractions(-258, 0x2800_1502_a5e9_ab0cint, 0x2800_1502_a5e9_ab77int, 0x1ec_189f_9e26_61bbint, 0x3b1_c588_f46d_1554int, 0x3d_ec5a_0a35_7fe5int, 0x77_0305_25de_60b9int);
    lemma_excess_down(-258, 0x2800_1502_a5e9_ab0cint, 0x2800_1502_a5e9_ab77int, 0, 0x3200_1a43_4f64_15cfint, 0x3200_1a43_4f64_1655int);
    lemma_exact_by_fractions(-259, 0x3200_1a43_4f64_15cfint, 0x3200_1a43_4f64_1655int, 0x182_32a6_92ec_f7fcint, 0x251_cb60_1809_e6b9int, 0x135_9dc2_330b_7f79int, 0x1dc_0c14_9779_82e4int);
    lemma_excess_down(-259, 0x3200_1a43_4f64_15cfint, 0x3200_1a43_4f64_1655int, 0, 0x3e80_20d4_233d_1b42int, 0x3e80_20d4_233d_1bebint);
    lemma_exact_by_fractions(-260, 0x3e80_20d4_233d_1b42int, 0x3e80_20d4_233d_1bebint, 0x60_8ca9_a4bb_3dffint, 0x76_c246_6b35_2e25int, 0x246_962a_8fe9_1167int, 0x2cc_9992_2dd2_3e1eint);
    lemma_excess_down(-260, 0x3e80_20d4_233d_1b42int, 0x3e80_20d4_233d_1bebint, 4, 0x3710_1484_9606_3109int, 0x3710_1484_9606_3173int);
    lemma_exact_by_fractions(-261, 0x3710_1484_9606_3109int, 0x3710_1484_9606_3173int, 0x60_8ca9_a4bb_3dffint, 0xbe_03a3_debb_7d08int, 0x1f0_df43_dc73_201fint, 0x3d1_de93_8014_0a09int);
    lemma_excess_down(-261, 0x3710_1484_9606_3109int, 0x3710_1484_9606_3173int, -8, 0x4d4_19a5_bb87_bd4bint, 0x4d4_19a5_bb87_bdd0int);
    lemma_exact_by_fractions(-262, 0x4d4_19a5_bb87_bd4bint, 0x4d4_19a5_bb87_bdd0int, 0x1e2_bf50_37a8_35fbint, 0x2f8_0e8f_7aed_f420int, 0x64_14a6_8ded_f888int, 0x9d_922f_ed11_b5cdint);
    lemma_excess_down(-262, 0x4d4_19a5_bb87_bd4bint, 0x4d4_19a5_bb87_bdd0int, 0, 0x609_200f_2a69_ac9dint, 0x609_200f_2a69_ad44int);
    lemma_exact_by_fractions(-263, 0x609_200f_2a69_ac9dint, 0x609_200f_2a69_ad44int, 0x24b_43b1_7812_1635int, 0x2e3_b0b5_6682_0bcfint, 0x19_0529_a37b_7e22int, 0x1f_83a3_2f69_f129int);
    lemma_excess_down(-263, 0x609_200f_2a69_ac9dint, 0x609_200f_2a69_ad44int, 0, 0x78b_6812_f504_17c4int, 0x78b_6812_f504_1895int);
    lemma_exact_by_fractions(-264, 0x78b_6812_f504_17c4int, 0x78b_6812_f504_1895int, 0x2c8_b852_2e5d_8bd4int, 0x2ce_2aa0_0abf_a445int, 0x3e_8ce8_18b4_bb55int, 0x3f_0746_5ed3_e252int);
    lemma_excess_down(-264, 0x78b_6812_f504_17c4int, 0x78b_6812_f504_1895int, 6, 0x1cb7_210b_d922_8edaint, 0x1cb7_210b_d922_8f5eint);
    lemma_exact_by_fractions(-265, 0x1cb7_210b_d922_8edaint, 0x1cb7_210b_d922_8f5eint, 0x259_d377_9abe_4bb9int, 0x3ca_47b9_860f_2d8dint, 0xb6_ea66_6ada_ca7aint, 0x126_e6c8_e5bc_7339int);
    lemma_excess_down(-265, 0x1cb7_210b_d922_8edaint, 0x1cb7_210b_d922_8f5eint, 2, 0x33e4_e94e_cf6b_3290int, 0x33e4_e94e_cf6b_3336int);
    lemma_exact_by_fractions(-266, 0x33e4_e94e_cf6b_3290int, 0x33e4_e94e_cf6b_3336int, 0x15a_a455_6815_d87bint, 0x1bf_17a5_96c5_5c77int, 0x1c9_4a00_0b22_fa31int, 0x24d_cd91_cb78_e672int);
    lemma_excess_down(-266, 0x33e4_e94e_cf6b_3290int, 0x33e4_e94e_cf6b_3336int, -4, 0x20de_23a2_8345_ff34int, 0x20de_23a2_8346_0004int);
    lemma_exact_by_fractions(-267, 0x20de_23a2_8345_ff34int, 0x20de_23a2_8346_0004int, 0x1ec_4d15_735d_7c4bint, 0x1fb_f7fd_dd95_b9c3int, 0x100_4e6a_ae54_c586int, 0x108_769c_c254_4493int);
    lemma_excess_down(-267, 0x20de_23a2_8345_ff34int, 0x20de_23a2_8346_0004int, 2, 0x1c8a_d645_920b_bf80int, 0x1c8a_d645_920b_c003int);
    lemma_exact_by_fractions(-268, 0x1c8a_d645_920b_bf80int, 0x1c8a_d645_920b_c003int, 0x136_3a25_6543_ef87int, 0x200_2909_cbcc_b00aint, 0x1db_7f18_0c8b_eeabint, 0x311_01be_6a8e_e12bint);
    lemma_excess_down(-268, 0x1c8a_d645_920b_bf80int, 0x1c8a_d645_920b_c003int, 2, 0x33ad_8bd6_f68e_af60int, 0x33ad_8bd6_f68e_b004int);
    lemma_exact_by_fractions(-269, 0x33ad_8bd6_f68e_af60int, 0x33ad_8bd6_f68e_b004int, 0x136_3a25_6543_ef87int, 0x199_ba6e_3ca3_c008int, 0x204_d054_b65d_ee74int, 0x2aa_9322_db65_f129int);
    lemma_excess_down(-269, 0x33ad_8bd6_f68e_af60int, 0x33ad_8bd6_f68e_b004int, -2, 0x3098_eecc_b432_5b38int, 0x3098_eecc_b432_5c05int);
    lemma_exact_by_fractions(-270, 0x3098_eecc_b432_5b38int, 0x3098_eecc_b432_5c05int, 0x286_b626_bb2f_4c58int, 0x2ab_4eee_8c33_7b4dint, 0x81_3415_2d97_7b9dint, 0x88_83d3_c57a_c9d5int);
    lemma_excess_down(-270, 0x3098_eecc_b432_5b38int, 0x3098_eecc_b432_5c05int, -2, 0x165f_953f_f09f_7903int, 0x165f_953f_f09f_7984int);
    lemma_exact_by_fractions(-271, 0x165f_953f_f09f_7903int, 0x165f_953f_f09f_7984int, 0x50_d6c4_d765_e98bint, 0x88_a962_e8d7_18a9int, 0x235_2da5_0c8f_8086int, 0x3bb_753b_42ff_35ffint);
    lemma_excess_down(-271, 0x165f_953f_f09f_7903int, 0x165f_953f_f09f_7984int, 0, 0x1bf7_7a8f_ecc7_5743int, 0x1bf7_7a8f_ecc7_57e5int);
    lemma_exact_by_fractions(-272, 0x1bf7_7a8f_ecc7_5743int, 0x1bf7_7a8f_ecc7_57e5int, 0x157_6455_5da2_a7fdint, 0x1d0_6a38_1247_a285int, 0x11a_96d2_8647_c043int, 0x17e_2ee4_8132_e266int);
    lemma_excess_down(-272, 0x1bf7_7a8f_ecc7_5743int, 0x1bf7_7a8f_ecc7_57e5int, -2, 0x12f5_5933_e7f9_2d13int, 0x12f5_5933_e7f9_2ddfint);
    lemma_exact_by_fractions(-273, 0x12f5_5933_e7f9_2d13int, 0x12f5_5933_e7f9_2ddfint, 0x157_6455_5da2_a7fdint, 0x173_882c_db6c_8204int, 0x1b7_159c_7f42_5a53int, 0x1db_10ef_b80e_02e7int);
    lemma_excess_down(-273, 0x12f5_5933_e7f9_2d13int, 0x12f5_5933_e7f9_2ddfint, 10, 0x33d9_57c0_70fb_bc2bint, 0x33d9_57c0_70fb_bcacint);
    lemma_exact_by_fractions(-274, 0x33d9_57c0_70fb_bc2bint, 0x33d9_57c0_70fb_bcacint, 0x1e9_0c37_2a0f_2172int, 0x34e_991c_937a_84ebint, 0x155_465e_43a5_ba09int, 0x24e_c946_a297_83a9int);
    lemma_excess_down(-274, 0x33d9_57c0_70fb_bc2bint, 0x33d9_57c0_70fb_bcacint, -8, 0xcf_adb0_8d3a_ab35int, 0xcf_adb0_8d3a_abd7int);
    lemma_exact_by_fractions(-275, 0xcf_adb0_8d3a_ab35int, 0xcf_adb0_8d3a_abd7int, 0x221_5cb7_22d2_b26dint, 0x2f3_4497_3562_031cint, 0x30_6021_574f_14a8int, 0x42_feb0_238a_807bint);
    lemma_excess_down(-275, 0xcf_adb0_8d3a_ab35int, 0xcf_adb0_8d3a_abd7int, 0, 0x103_991c_b089_5602int, 0x103_991c_b089_56cdint);
    lemma_exact_by_fractions(-276, 0x103_991c_b089_5602int, 0x103_991c_b089_56cdint, 0x2aa_f213_0550_5367int, 0x2f4_a51b_5771_e299int, 0xc_1808_55d3_c52aint, 0xd_6623_3a4e_e67fint);
    lemma_excess_down(-276, 0x103_991c_b089_5602int, 0x103_991c_b089_56cdint, 14, 0x38a2_3fb1_ee55_d5c1int, 0x38a2_3fb1_ee55_d641int);
    lemma_exact_by_fractions(-277, 0x38a2_3fb1_ee55_d5c1int, 0x38a2_3fb1_ee55_d641int, 0x22f_4090_8687_32bfint, 0x3df_5d84_0b38_3bbdint, 0x1e_3c14_d691_6ce9int, 0x35_988c_e93b_99fcint);
    lemma_excess_down(-277, 0x38a2_3fb1_ee55_d5c1int, 0x38a2_3fb1_ee55_d641int, -4, 0x26ca_cf9e_69eb_4b31int, 0x26ca_cf9e_69eb_4bd2int);
    lemma_exact_by_fractions(-278, 0x26ca_cf9e_69eb_4b31int, 0x26ca_cf9e_69eb_4bd2int, 0x10c_4f7c_b18b_db8eint, 0x17c_7fc6_4e6f_7de5int, 0x1a3_7be4_e262_fc1bint, 0x252_e1f9_f35d_e5d5int);
    lemma_excess_down(-278, 0x26ca_cf9e_69eb_4b31int, 0x26ca_cf9e_69eb_4bd2int, -6, 0x7d_8386_0466_1dfdint, 0x7d_8386_0466_1ec7int);
    lemma_exact_by_fractions(-279, 0x7d_8386_0466_1dfdint, 0x7d_8386_0466_1ec7int, 0x114_d1d1_9d94_74f1int, 0x13a_0d8b_a43b_db83int, 0x1b4_808e_ba74_2ee1int, 0x1ef_36a1_f410_7242int);
    lemma_excess_down(-279, 0x7d_8386_0466_1dfdint, 0x7d_8386_0466_1ec7int, 8, 0x204e_7233_c2bf_d2beint, 0x204e_7233_c2bf_d33dint);
    lemma_exact_by_fractions(-280, 0x204e_7233_c2bf_d2beint, 0x204e_7233_c2bf_d33dint, 0xec_e622_565c_8675int, 0x1ae_053c_e6d7_8952int, 0x150_b358_8868_5aabint, 0x263_2e53_36ac_2011int);
}

/// The entries for the decimal exponents from -320 to -281.
proof fn lemma_exact_down_7()
    ensures
        excess_within(-320, 0x378c_5184_e11c_e6ffint, 0x378c_5184_e11c_e789int),
        forall|f: int| -320 <= f <= -281 ==> exact_everywhere(f) && is_ceiling(f),
{
    reveal(multiplier);
    lemma_exact_down_6();
    lemma_excess_down(-280, 0x204e_7233_c2bf_d2beint, 0x204e_7233_c2bf_d33dint, -2, 0x1862_0ec0_b36f_c76dint, 0x1862_0ec0_b36f_c80dint);
    lemma_exact_by_fractions(-281, 0x1862_0ec0_b36f_c76dint, 0x1862_0ec0_b36f_c80dint, 0x17c_4c81_0e0d_bebdint, 0x228_41b3_f1c6_c2efint, 0x150_b358_8868_5aabint, 0x1e8_f1dc_2bbc_e674int);
    lemma_excess_down(-281, 0x1862_0ec0_b36f_c76dint, 0x1862_0ec0_b36f_c80dint, 2, 0x2e7a_9270_e04b_b948int, 0x2e7a_9270_e04b_ba11int);
    lemma_exact_by_fractions(-282, 0x2e7a_9270_e04b_b948int, 0x2e7a_9270_e04b_ba11int, 0x245_590b_b67d_f720int, 0x2a3_5ecf_e356_e2d1int, 0x9d_7362_22ca_d451int, 0xb6_ea60_1d16_6349int);
    lemma_excess_down(-282, 0x2e7a_9270_e04b_b948int, 0x2e7a_9270_e04b_ba11int, 8, 0x3d0c_9b86_8c2f_53cdint, 0x3d0c_9b86_8c2f_544bint);
    lemma_exact_by_fractions(-283, 0x3d0c_9b86_8c2f_53cdint, 0x3d0c_9b86_8c2f_544bint, 0x208_cb09_74d9_8ec5int, 0x3c8_0903_4514_4e79int, 0x9d_7362_22ca_d451int, 0x124_aa33_61bd_6ba8int);
    lemma_excess_down(-283, 0x3d0c_9b86_8c2f_53cdint, 0x3d0c_9b86_8c2f_544bint, -4, 0x2c4f_c268_2f3b_28c0int, 0x2c4f_c268_2f3b_295eint);
    lemma_exact_by_fractions(-284, 0x2c4f_c268_2f3b_28c0int, 0x2c4f_c268_2f3b_295eint, 0x1c6_2d91_2692_6911int, 0x2a3_5ecf_e356_e2d1int, 0xf8_494b_f74e_82eeint, 0x171_34b9_1542_837dint);
    lemma_excess_down(-284, 0x2c4f_c268_2f3b_28c0int, 0x2c4f_c268_2f3b_295eint, -2, 0x2763_b302_3b09_f2f0int, 0x2763_b302_3b09_f3b6int);
    lemma_exact_by_fractions(-285, 0x2763_b302_3b09_f2f0int, 0x2763_b302_3b09_f3b6int, 0x19d_4dc1_8cc4_16bbint, 0x1eb_abf5_67b1_1005int, 0x26c_b73d_ea44_4753int, 0x2e2_6972_2a85_06faint);
    lemma_excess_down(-285, 0x2763_b302_3b09_f2f0int, 0x2763_b302_3b09_f3b6int, 4, 0x289e_4fe1_64e6_37d6int, 0x289e_4fe1_64e6_3852int);
    lemma_exact_by_fractions(-286, 0x289e_4fe1_64e6_37d6int, 0x289e_4fe1_64e6_3852int, 0x218_dad2_8e43_0b46int, 0x3fd_d6eb_0f5c_eaddint, 0x19_ed2f_8bb0_0613int, 0x31_5918_f3c3_fe31int);
    lemma_excess_down(-286, 0x289e_4fe1_64e6_37d6int, 0x289e_4fe1_64e6_3852int, -4, 0x12c5_e3d9_be1f_c5cbint, 0x12c5_e3d9_be1f_c667int);
    lemma_exact_by_fractions(-287, 0x12c5_e3d9_be1f_c5cbint, 0x12c5_e3d9_be1f_c667int, 0x1b0_5e57_69f9_08acint, 0x292_5eae_2c1d_b7efint, 0x81_a1ed_ba70_1e5fint, 0xc5_6463_cf0f_f8c4int);
    lemma_excess_down(-287, 0x12c5_e3d9_be1f_c5cbint, 0x12c5_e3d9_be1f_c667int, -2, 0x777_5cd0_2da7_b73dint, 0x777_5cd0_2da7_b801int);
    lemma_exact_by_fractions(-288, 0x777_5cd0_2da7_b73dint, 0x777_5cd0_2da7_b801int, 0x21c_75ed_4477_4ad7int, 0x292_5eae_2c1d_b7efint, 0x159_d119_6f6c_a2b5int, 0x1a5_42fb_ea7f_1096int);
    lemma_excess_down(-288, 0x777_5cd0_2da7_b73dint, 0x777_5cd0_2da7_b801int, 12, 0x34aa_9a02_1c88_d286int, 0x34aa_9a02_1c88_d301int);
    lemma_exact_by_fractions(-289, 0x34aa_9a02_1c88_d286int, 0x34aa_9a02_1c88_d301int, 0x17d_03d7_78b8_231dint, 0x2e6_9f46_f49d_880dint, 0x159_d119_6f6c_a2b5int, 0x2a2_04c6_43fe_80f0int);
    lemma_excess_down(-289, 0x34aa_9a02_1c88_d286int, 0x34aa_9a02_1c88_d301int, -8, 0x1d5_4082_a3ab_0727int, 0x1d5_4082_a3ab_07c2int);
    lemma_exact_by_fractions(-290, 0x1d5_4082_a3ab_0727int, 0x1d5_4082_a3ab_07c2int, 0x185_d086_fb0b_0337int, 0x25f_d185_b3d1_07ddint, 0x159_d119_6f6c_a2b5int, 0x21b_3705_0332_00c0int);
    lemma_excess_down(-290, 0x1d5_4082_a3ab_0727int, 0x1d5_4082_a3ab_07c2int, 4, 0x224a_90a3_4c95_c8f0int, 0x224a_90a3_4c95_c9b3int);
    lemma_exact_by_fractions(-291, 0x224a_90a3_4c95_c8f0int, 0x224a_90a3_4c95_c9b3int, 0x185_d086_fb0b_0337int, 0x1e6_4137_c30d_9fe4int, 0x211_b981_8a0a_8c30int, 0x294_c752_f3f5_68b9int);
    lemma_excess_down(-291, 0x224a_90a3_4c95_c8f0int, 0x224a_90a3_4c95_c9b3int, 8, 0x356e_9a66_0fdd_9d96int, 0x356e_9a66_0fdd_9e10int);
    lemma_exact_by_fractions(-292, 0x356e_9a66_0fdd_9d96int, 0x356e_9a66_0fdd_9e10int, 0x143_9956_c9c9_b1b1int, 0x285_da15_6db1_847bint, 0x14b_13f0_f646_979eint, 0x294_c752_f3f5_68b9int);
    lemma_excess_down(-292, 0x356e_9a66_0fdd_9d96int, 0x356e_9a66_0fdd_9e10int, -8, 0x2ca_40ff_93d5_04fbint, 0x2ca_40ff_93d5_0594int);
    lemma_exact_by_fractions(-293, 0x2ca_40ff_93d5_04fbint, 0x2ca_40ff_93d5_0594int, 0x143_9956_c9c9_b1b1int, 0x204_ae77_8af4_69fcint, 0xfc_0c41_cef3_64adint, 0x192_7017_2e7b_33bbint);
    lemma_excess_down(-293, 0x2ca_40ff_93d5_04fbint, 0x2ca_40ff_93d5_0594int, 0, 0x37c_d13f_78ca_4639int, 0x37c_d13f_78ca_46f9int);
    lemma_exact_by_fractions(-294, 0x37c_d13f_78ca_4639int, 0x37c_d13f_78ca_46f9int, 0x167_5fe1_4734_d833int, 0x1cb_0aec_9427_374aint, 0x10d_ef87_0da8_f7eeint, 0x158_cc8c_37ae_0109int);
    lemma_excess_down(-294, 0x37c_d13f_78ca_4639int, 0x37c_d13f_78ca_46f9int, 0, 0x45c_058f_56fc_d7c7int, 0x45c_058f_56fc_d8b8int);
    lemma_exact_by_fractions(-295, 0x45c_058f_56fc_d7c7int, 0x45c_058f_56fc_d8b8int, 0x70_340e_e030_2e1eint, 0x72_a842_9686_7c4fint, 0x2a2_d6d1_a226_6bd3int, 0x2b1_9918_6f5c_0212int);
    lemma_excess_down(-295, 0x45c_058f_56fc_d7c7int, 0x45c_058f_56fc_d8b8int, 12, 0x32b9_8379_965e_06dcint, 0x32b9_8379_965e_0773int);
    lemma_exact_by_fractions(-296, 0x32b9_8379_965e_06dcint, 0x32b9_8379_965e_0773int, 0x38_1a07_7018_170fint, 0x5b_b9ce_ded1_fd0cint, 0x25d_1de6_6e49_a4c8int, 0x3dd_5c81_abbb_90b1int);
    lemma_excess_down(-296, 0x32b9_8379_965e_06dcint, 0x32b9_8379_965e_0773int, 0, 0x3f67_e457_fbf5_8893int, 0x3f67_e457_fbf5_8950int);
    lemma_exact_by_fractions(-297, 0x3f67_e457_fbf5_8893int, 0x3f67_e457_fbf5_8950int, 0x13f_958f_ebda_ae5fint, 0x1a2_03a4_05ea_490dint, 0x166_a8fa_a73c_e973int, 0x1d5_200c_908c_9deaint);
    lemma_excess_down(-297, 0x3f67_e457_fbf5_8893int, 0x3f67_e457_fbf5_8950int, -2, 0x3f41_dd6d_faf2_eab7int, 0x3f41_dd6d_faf2_eba4int);
    lemma_exact_by_fractions(-298, 0x3f41_dd6d_faf2_eab7int, 0x3f41_dd6d_faf2_eba4int, 0x13f_958f_ebda_ae5fint, 0x14e_6950_04bb_6da4int, 0x2b0_0365_41f0_2697int, 0x2cf_ef08_9419_3025int);
    lemma_excess_down(-298, 0x3f41_dd6d_faf2_eab7int, 0x3f41_dd6d_faf2_eba4int, 2, 0x2f89_2a64_bcd7_d2b2int, 0x2f89_2a64_bcd7_d347int);
    lemma_exact_by_fractions(-299, 0x2f89_2a64_bcd7_d2b2int, 0x2f89_2a64_bcd7_d347int, 0x16d_a34a_969d_5d66int, 0x264_29a4_f10b_6fedint, 0x253_e7ef_ec6a_c889int, 0x3e5_af5d_8069_326eint);
    lemma_excess_down(-299, 0x2f89_2a64_bcd7_d2b2int, 0x2f89_2a64_bcd7_d347int, -2, 0x2b6b_74fd_ec0d_c75eint, 0x2b6b_74fd_ec0d_c819int);
    lemma_exact_by_fractions(-300, 0x2b6b_74fd_ec0d_c75eint, 0x2b6b_74fd_ec0d_c819int, 0x22e_39ba_29d2_e437int, 0x2eb_ade5_5906_a09bint, 0x17_b980_053f_5e38int, 0x1f_c6c2_6f89_9dd1int);
    lemma_excess_down(-300, 0x2b6b_74fd_ec0d_c75eint, 0x2b6b_74fd_ec0d_c819int, 0, 0x3646_523d_6711_3935int, 0x3646_523d_6711_3a20int);
    lemma_exact_by_fractions(-301, 0x3646_523d_6711_3935int, 0x3646_523d_6711_3a20int, 0x2b0_b5fa_46af_6a6bint, 0x2e1_f5a8_9862_d07aint, 0x1d_a7e0_068f_35c6int, 0x1f_c6c2_6f89_9dd1int);
    lemma_excess_down(-301, 0x3646_523d_6711_3935int, 0x3646_523d_6711_3a20int, -2, 0x19eb_f366_606a_c3c1int, 0x19eb_f366_606a_c454int);
    lemma_exact_by_fractions(-302, 0x19eb_f366_606a_c3c1int, 0x19eb_f366_606a_c454int, 0xe3_c842_9df8_5f6eint, 0x186_8357_8b91_2cd7int, 0x211_b435_4c56_c54bint, 0x38c_21b8_d548_d0f2int);
    lemma_excess_down(-302, 0x19eb_f366_606a_c3c1int, 0x19eb_f366_606a_c454int, -2, 0x1066_f03f_f885_74b1int, 0x1066_f03f_f885_7569int);
    lemma_exact_by_fractions(-303, 0x1066_f03f_f885_74b1int, 0x1066_f03f_f885_7569int, 0x13_e038_9f4b_14a4int, 0x1b_42a7_3640_d943int, 0x225_946d_eba1_d9efint, 0x2f1_c407_e0e1_806bint);
    lemma_excess_down(-303, 0x1066_f03f_f885_74b1int, 0x1066_f03f_f885_7569int, 2, 0x2480_ac4f_f6a6_d1ddint, 0x2480_ac4f_f6a6_d2c4int);
    lemma_exact_by_fractions(-304, 0x2480_ac4f_f6a6_d1ddint, 0x2480_ac4f_f6a6_d2c4int, 0x23e_6cb4_b2bf_b3bcint, 0x276_45e0_b6f5_3fffint, 0x225_946d_eba1_d9efint, 0x25b_0339_80b4_66bcint);
    lemma_excess_down(-304, 0x2480_ac4f_f6a6_d1ddint, 0x2480_ac4f_f6a6_d2c4int, -4, 0x6d0_6bb1_fa28_432aint, 0x6d0_6bb1_fa28_43bbint);
    lemma_exact_by_fractions(-305, 0x6d0_6bb1_fa28_432aint, 0x6d0_6bb1_fa28_43bbint, 0x21b_e388_4714_83f8int, 0x3b3_ce98_b58c_9639int, 0x3b_6173_32c9_0991int, 0x68_3f0d_92c9_f897int);
    lemma_excess_down(-305, 0x6d0_6bb1_fa28_432aint, 0x6d0_6bb1_fa28_43bbint, 4, 0x2884_869e_78b2_53f4int, 0x2884_869e_78b2_54aaint);
    lemma_exact_by_fractions(-306, 0x2884_869e_78b2_53f4int, 0x2884_869e_78b2_54aaint, 0x149_5337_5653_4b8dint, 0x1ce_8514_be0d_02f6int, 0x139_1d3b_aa20_3db1int, 0x1b7_c0a5_849a_72a9int);
    lemma_excess_down(-306, 0x2884_869e_78b2_53f4int, 0x2884_869e_78b2_54aaint, -6, 0x2a5_a846_16de_e8f1int, 0x2a5_a846_16de_e9d5int);
    lemma_exact_by_fractions(-307, 0x2a5_a846_16de_e8f1int, 0x2a5_a846_16de_e9d5int, 0x286_7df1_eb80_4cb5int, 0x2d6_5f11_a736_7af5int, 0x139_1d3b_aa20_3db1int, 0x15f_cd51_36e1_f554int);
    lemma_excess_down(-307, 0x2a5_a846_16de_e8f1int, 0x2a5_a846_16de_e9d5int, 10, 0x29a7_892b_ce4b_5196int, 0x29a7_892b_ce4b_5226int);
    lemma_exact_by_fractions(-308, 0x29a7_892b_ce4b_5196int, 0x29a7_892b_ce4b_5226int, 0x16c_eb0f_bdec_283bint, 0x290_02ce_35d6_16b1int, 0x139_1d3b_aa20_3db1int, 0x232_e21b_8b03_2220int);
    lemma_excess_down(-308, 0x29a7_892b_ce4b_5196int, 0x29a7_892b_ce4b_5226int, -2, 0x2411_6b76_c1de_25fbint, 0x2411_6b76_c1de_26b0int);
    lemma_exact_by_fractions(-309, 0x2411_6b76_c1de_25fbint, 0x2411_6b76_c1de_26b0int, 0x16c_eb0f_bdec_283bint, 0x20c_cf0b_5e44_def4int, 0x1e2_9f4e_8423_572cint, 0x2b6_15de_6294_59ddint);
    lemma_excess_down(-309, 0x2411_6b76_c1de_25fbint, 0x2411_6b76_c1de_26b0int, 2, 0x3d15_c654_7255_af79int, 0x3d15_c654_7255_b05cint);
    lemma_exact_by_fractions(-310, 0x3d15_c654_7255_af79int, 0x3d15_c654_7255_b05cint, 0x16c_eb0f_bdec_283bint, 0x1a3_d8d5_e503_e590int, 0x25b_4722_252c_2cf7int, 0x2b6_15de_6294_59ddint);
    lemma_excess_down(-310, 0x3d15_c654_7255_af79int, 0x3d15_c654_7255_b05cint, -4, 0x162d_9bf4_c775_8dabint, 0x162d_9bf4_c775_8e3aint);
    lemma_exact_by_fractions(-311, 0x162d_9bf4_c775_8dabint, 0x162d_9bf4_c775_8e3aint, 0x20c_f609_7306_5ce2int, 0x3c6_5e41_80cb_34abint, 0x3b_9704_99d0_012fint, 0x6d_b203_656c_fb52int);
    lemma_excess_down(-311, 0x162d_9bf4_c775_8dabint, 0x162d_9bf4_c775_8e3aint, 2, 0x2bb9_02f1_f952_f115int, 0x2bb9_02f1_f952_f1c9int);
    lemma_exact_by_fractions(-312, 0x2bb9_02f1_f952_f115int, 0x2bb9_02f1_f952_f1c9int, 0x1f4_d717_20c3_332dint, 0x2e1_928b_7814_6c7eint, 0x18f_6517_10e9_9c8cint, 0x24c_2d4c_86e4_2ce3int);
    lemma_excess_down(-312, 0x2bb9_02f1_f952_f115int, 0x2bb9_02f1_f952_f1c9int, 0, 0x36a7_43ae_77a7_ad5aint, 0x36a7_43ae_77a7_ae3cint);
    lemma_exact_by_fractions(-313, 0x36a7_43ae_77a7_ad5aint, 0x36a7_43ae_77a7_ae3cint, 0x12d_248b_984e_64e7int, 0x162_c984_2a1b_780aint, 0x1f3_3e5c_d524_03afint, 0x24c_2d4c_86e4_2ce3int);
    lemma_excess_down(-313, 0x36a7_43ae_77a7_ad5aint, 0x36a7_43ae_77a7_ae3cint, -2, 0x1a28_8a4d_0ac8_cc58int, 0x1a28_8a4d_0ac8_cce6int);
    lemma_exact_by_fractions(-314, 0x1a28_8a4d_0ac8_cc58int, 0x1a28_8a4d_0ac8_cce6int, 0x15e_aaff_e783_cc99int, 0x295_03f0_687c_3b9aint, 0x1da_7b22_ad89_4fd6int, 0x37e_67b8_c544_f073int);
    lemma_excess_down(-314, 0x1a28_8a4d_0ac8_cc58int, 0x1a28_8a4d_0ac8_cce6int, -4, 0xb2_ace0_4d7a_ff6eint, 0xb2_ace0_4d7b_0020int);
    lemma_exact_by_fractions(-315, 0xb2_ace0_4d7a_ff6eint, 0xb2_ace0_4d7b_0020int, 0x15e_aaff_e783_cc99int, 0x210_cff3_86c9_c948int, 0x1a1_c46b_6529_bd7fint, 0x275_ffbf_01e0_0bcfint);
    lemma_excess_down(-315, 0xb2_ace0_4d7a_ff6eint, 0xb2_ace0_4d7b_0020int, 2, 0x10df_5818_60d9_bf49int, 0x10df_5818_60d9_c028int);
    lemma_exact_by_fractions(-316, 0x10df_5818_60d9_bf49int, 0x10df_5818_60d9_c028int, 0x9e_8f25_1458_6a13int, 0xbf_499f_1d4c_4335int, 0x1e4_ddd6_e2cf_ae65int, 0x248_f2d5_30c5_0b78int);
    lemma_excess_down(-316, 0x10df_5818_60d9_bf49int, 0x10df_5818_60d9_c028int, 8, 0x2a8b_970f_3c88_178dint, 0x2a8b_970f_3c88_1819int);
    lemma_exact_by_fractions(-317, 0x2a8b_970f_3c88_178dint, 0x2a8b_970f_3c88_1819int, 0xec_b0aa_a9cb_d117int, 0x1c8_df7f_8156_fa87int, 0x13f_6a64_1222_7031int, 0x268_8df9_e7b4_249aint);
    lemma_excess_down(-317, 0x2a8b_970f_3c88_178dint, 0x2a8b_970f_3c88_1819int, 0, 0x352e_7cd3_0baa_1d70int, 0x352e_7cd3_0baa_1e20int);
    lemma_exact_by_fractions(-318, 0x352e_7cd3_0baa_1d70int, 0x352e_7cd3_0baa_1e20int, 0x14e_5a91_a49c_11dcint, 0x204_4fb3_b9ef_576bint, 0xb4_63a0_6326_dfdfint, 0x116_8ee2_d78d_e3dbint);
    lemma_excess_down(-318, 0x352e_7cd3_0baa_1d70int, 0x352e_7cd3_0baa_1e20int, -2, 0x327a_1c07_ce94_a4ccint, 0x327a_1c07_ce94_a5a8int);
    lemma_exact_by_fractions(-319, 0x327a_1c07_ce94_a4ccint, 0x327a_1c07_ce94_a5a8int, 0x263_8b2e_01c2_cd23int, 0x2f3_7ad6_c872_a105int, 0x60_ccfb_f9ff_db68int, 0x77_9591_8741_a4cdint);
    lemma_excess_down(-319, 0x327a_1c07_ce94_a4ccint, 0x327a_1c07_ce94_a5a8int, 6, 0x378c_5184_e11c_e6ffint, 0x378c_5184_e11c_e789int);
    lemma_exact_by_fractions(-320, 0x378c_5184_e11c_e6ffint, 0x378c_5184_e11c_e789int, 0x1f6_a492_8882_f64eint, 0x3e1_841e_8074_7297int, 0x3c_801d_7c3f_e921int, 0x77_9591_8741_a4cdint);
}

/// The entries for the decimal exponents from -324 to -321.
proof fn lemma_exact_down_8()
    ensures
        excess_within(-324, 0x2dae_c982_b4cb_c7f9int, 0x2dae_c982_b4cb_c8a4int),
        forall|f: int| -324 <= f <= -321 ==> exact_everywhere(f) && is_ceiling(f),
{
    reveal(multiplier);
    lemma_exact_down_7();
    lemma_excess_down(-320, 0x378c_5184_e11c_e6ffint, 0x378c_5184_e11c_e789int, -2, 0x356f_65e6_1964_20beint, 0x356f_65e6_1964_216cint);
    lemma_exact_by_fractions(-321, 0x356f_65e6_1964_20beint, 0x356f_65e6_1964_216cint, 0x5f_6915_e400_c903int, 0x96_de98_b063_6e99int, 0x18d_e9a9_5140_56a8int, 0x275_34de_cd6a_01cdint);
    lemma_excess_down(-321, 0x356f_65e6_1964_20beint, 0x356f_65e6_1964_216cint, -2, 0x32cb_3f5f_9fbd_28edint, 0x32cb_3f5f_9fbd_29c7int);
    lemma_exact_by_fractions(-322, 0x32cb_3f5f_9fbd_28edint, 0x32cb_3f5f_9fbd_29c7int, 0x240_87d7_c854_02b9int, 0x2d9_51c2_843c_878dint, 0x63_7a6a_5450_15aaint, 0x7d_d75f_c2ae_cd29int);
    lemma_excess_down(-322, 0x32cb_3f5f_9fbd_28edint, 0x32cb_3f5f_9fbd_29c7int, -2, 0x2f7e_0f37_87ac_7328int, 0x2f7e_0f37_87ac_7439int);
    lemma_exact_by_fractions(-323, 0x2f7e_0f37_87ac_7328int, 0x2f7e_0f37_87ac_7439int, 0x200_175b_21de_321bint, 0x206_3dfa_2cec_744fint, 0xf8_b209_d2c8_3629int, 0xfb_aebf_855d_9a52int);
    lemma_excess_down(-323, 0x2f7e_0f37_87ac_7328int, 0x2f7e_0f37_87ac_7439int, 4, 0x2dae_c982_b4cb_c7f9int, 0x2dae_c982_b4cb_c8a4int);
    lemma_exact_by_fractions(-324, 0x2dae_c982_b4cb_c7f9int, 0x2dae_c982_b4cb_c8a4int, 0x275_3d72_fae7_a7d1int, 0x3fa_e076_8a65_bc39int, 0x1d_3fd8_4acf_4e0cint, 0x2f_5c74_13d5_abbbint);
}

/// Every multiplier of the table is the number that it stands for, rounded
/// up, and scales every argument below the limit exactly.
pub proof fn lemma_exact_everywhere(f: int)
    requires
        MIN_EXP_FLOOR <= f <= MAX_EXP_FLOOR,
    ensures
        exact_everywhere(f),
        is_ceiling(f),
{
    if 0 <= f <= 40 {
        lemma_exact_up_0();
    } else if 41 <= f <= 80 {
        lemma_exact_up_1();
    } else if 81 <= f <= 120 {
        lemma_exact_up_2();
    } else if 121 <= f <= 160 {
        lemma_exact_up_3();
    } else if 161 <= f <= 200 {
        lemma_exact_up_4();
    } else if 201 <= f <= 240 {
        lemma_exact_up_5();
    } else if 241 <= f <= 280 {
        lemma_exact_up_6();
    } else if 281 <= f <= 292 {
        lemma_exact_up_7();
    } else if -40 <= f <= -1 {
        lemma_exact_down_0();
    } else if -80 <= f <= -41 {
        lemma_exact_down_1();
    } else if -120 <= f <= -81 {
        lemma_exact_down_2();
    } else if -160 <= f <= -121 {
        lemma_exact_down_3();
    } else if -200 <= f <= -161 {
        lemma_exact_down_4();
    } else if -240 <= f <= -201 {
        lemma_exact_down_5();
    } else if -280 <= f <= -241 {
        lemma_exact_down_6();
    } else if -320 <= f <= -281 {
        lemma_exact_down_7();
    } else if -324 <= f <= -321 {
        lemma_exact_down_8();
    }
}

/// Whether `mult` is `2^127 * numerator(f) / denominator(f)`, rounded up to
/// an integer: the number that the multiplier for the decimal exponent `f`
/// stands for.
pub open spec fn is_rounded_up(f: int, mult: Multiplier<u64>) -> bool {
    0 <= (mult.hi as int * 0x1_0000_0000_0000_0000 + mult.lo as int) * denominator(f)
        - 0x8000_0000_0000_0000_0000_0000_0000_0000int * numerator(f) < denominator(f)
}

/// The table holds `2^(127 + exp_base) / 10^f`, rounded up, for every decimal
/// exponent `f`.
pub proof fn law_multiplier_is_ceiling(f: int)
    requires
        MIN_EXP_FLOOR <= f <= MAX_EXP_FLOOR,
    ensures
        1 <= denominator(f),
        0 <= multiplier_value(f) * denominator(f) - 0x8000_0000_0000_0000_0000_0000_0000_0000int
            * numerator(f) < denominator(f),
        is_rounded_up(f, multiplier(f)),
{
    lemma_exact_everywhere(f);
    lemma_denominator_positive(f);
    reveal(is_ceiling);
}

/// The scaled value of an argument that stays below the limit when it is
/// shifted by the residual is the quotient that it stands for, rounded down.
pub proof fn lemma_scaled_exact_below(b: BinaryView, x: int)
    requires
        MIN_EXP <= b.exp <= MAX_EXP,
        1 <= x,
        x * pow2(b.residual()) < argument_limit(b.exp_floor()),
    ensures
        b.scaled(x) == (x * b.ulp_numerator()) / (2 * b.ulp_denominator()),
{
    let f = b.exp_floor();
    let r = b.residual();
    lemma_multiplier_residual_bound(b.exp);
    lemma_exact_everywhere(f);
    lemma_small_shift(x, r);
    lemma2_to64();
    let n = x * pow2(r);
    assert(scaled_at(f, n) == quotient_at(f, n)) by {
        reveal(exact_everywhere);
    }
    assert(x * (pow2(r) * numerator(f)) == n * numerator(f)) by (nonlinear_arith)
        requires
            n == x * pow2(r),
    ;
}

/// The same of every argument below `2^55`: such are the ends of the
/// rounding interval of a float, and four times its mantissa.
pub proof fn lemma_scaled_exact_centered(b: BinaryView, x: int)
    requires
        MIN_EXP <= b.exp <= MAX_EXP,
        1 <= x < 0x80_0000_0000_0000,
    ensures
        b.scaled(x) == (x * b.ulp_numerator()) / (2 * b.ulp_denominator()),
{
    lemma_multiplier_residual_bound(b.exp);
    lemma_small_shift(x, b.residual());
    lemma_scaled_exact_below(b, x);
}

} // verus!

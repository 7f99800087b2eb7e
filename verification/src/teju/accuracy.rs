//! How near the decimal of the reduction lies to the value that was
//! reduced.

use vstd::prelude::*;
use vstd::arithmetic::div_mod::lemma_fundamental_div_mod;
use vstd::arithmetic::power2::{lemma2_to64, lemma_pow2_pos, pow2};
use crate::teju::ieee64::{
    lemma_remove_trailing_zeros, lemma_scaled_monotonic, lemma_scaled_range, lemma_small_shift,
    nearest_half, BinaryView, DecimalView,
};
use crate::teju::logarithm::{
    denominator, lemma_approximates, lemma_run_bounds, multiplier_error, multiplier_unit,
    multiplier_value, numerator,
};
use crate::teju::lut::{lemma_multiplier_residual_bound, MAX_EXP, MIN_EXP};
use crate::teju::power::{lemma_pow10_adds, lemma_pow10_step, lemma_pow10_values, pow10};

verus! {

impl BinaryView {
    /// The unit in the last place over the unit of the decimal exponent,
    /// `2^exp / 10^exp_floor`, is `ulp_numerator / ulp_denominator`.
    pub open spec fn ulp_numerator(self) -> int {
        (pow2(self.residual()) * numerator(self.exp_floor())) as int
    }

    /// See `ulp_numerator`.
    pub open spec fn ulp_denominator(self) -> int {
        denominator(self.exp_floor()) as int
    }
}

/// The scaled value of `x` lies less than two from `x * 2^(exp - 1) / 10^f`:
/// it is that quotient rounded down, or one more or less.
pub proof fn lemma_scaled_near(b: BinaryView, x: int)
    requires
        MIN_EXP <= b.exp <= MAX_EXP,
        1 <= x <= 0x400_0000_0000_0000,
    ensures
        b.ulp_denominator() >= 1,
        b.ulp_numerator() >= 1,
        (b.scaled(x) - 1) * (2 * b.ulp_denominator()) < x * b.ulp_numerator(),
        x * b.ulp_numerator() < (b.scaled(x) + 2) * (2 * b.ulp_denominator()),
{
    let f = b.exp_floor();
    let r = b.residual();
    let k = 0x8000_0000_0000_0000_0000_0000_0000_0000int;
    let n = 0x1_0000_0000_0000_0000_0000_0000_0000_0000int;
    let m = multiplier_value(f);
    let w = multiplier_error(f);
    let l = denominator(f) as int;
    let big = numerator(f) as int;
    let shift = pow2(r) as int;
    let a0 = x * shift;
    let s = b.scaled(x);
    lemma_multiplier_residual_bound(b.exp);
    lemma_approximates(f);
    lemma_small_shift(x, r);
    lemma2_to64();
    assert(l >= 1 && big >= 1) by {
        lemma_pow10_step(if f >= 0 { f as nat } else { (-f) as nat });
        lemma_pow2_pos(if f >= 0 { crate::teju::lut::exp_base(f) as nat } else { (-crate::teju::lut::exp_base(f)) as nat });
    }
    assert(1 <= a0 <= 0x2000_0000_0000_0000);
    assert(0 <= w < 0x100_0000_0000_0000) by (nonlinear_arith)
        requires
            w == vstd::math::abs(f) * multiplier_unit(f),
            0 <= vstd::math::abs(f) <= 324,
            0 <= multiplier_unit(f) <= 0x1000_0000,
    ;
    assert(s == (a0 * m) / n);
    lemma_fundamental_div_mod(a0 * m, n);
    let rest = (a0 * m) % n;
    assert(a0 * w < n) by (nonlinear_arith)
        requires
            1 <= a0 <= 0x2000_0000_0000_0000,
            0 <= w < 0x100_0000_0000_0000,
            n == 0x1_0000_0000_0000_0000_0000_0000_0000_0000int,
    ;
    // above: k * (a0 * big) <= a0 * (m + w) * l < (s + 2) * n * l
    assert(k * (a0 * big) < (s + 2) * (n * l)) by (nonlinear_arith)
        requires
            k * big <= (m + w) * l,
            a0 * m == n * s + rest,
            0 <= rest < n,
            0 <= a0 * w < n,
            a0 >= 1,
            l >= 1,
    ;
    // below: k * (a0 * big) >= a0 * (m - w) * l > (s - 1) * n * l
    assert(k * (a0 * big) > (s - 1) * (n * l)) by (nonlinear_arith)
        requires
            (m - w) * l <= k * big,
            a0 * m == n * s + rest,
            0 <= rest < n,
            0 <= a0 * w < n,
            a0 >= 1,
            l >= 1,
    ;
    assert(a0 * big < (s + 2) * (2 * l) && a0 * big > (s - 1) * (2 * l)) by (nonlinear_arith)
        requires
            k * (a0 * big) < (s + 2) * (n * l),
            k * (a0 * big) > (s - 1) * (n * l),
            n == 2 * k,
            k > 0,
    ;
    assert(x * (shift * big) == a0 * big) by (nonlinear_arith)
        requires
            a0 == x * shift,
    ;
    assert(shift * big >= 1) by (nonlinear_arith)
        requires
            shift >= 1,
            big >= 1,
    ;
}

/// The decimal `d` in units of `10^(f - 1)`, where its exponent is at least
/// `f - 1`.
pub open spec fn in_units(d: DecimalView, f: int) -> int {
    d.mant * pow10((d.exp - f + 1) as nat)
}

/// Whether the decimal `d` lies less than three units in the last place
/// from the magnitude `b`: with `x = mant * 2^exp`, `|d - x| < 3 * 2^exp`.
/// Both sides are taken in units of `10^(f - 1)` and multiplied by the
/// denominator of `2^exp / 10^f`.
pub open spec fn within_three_ulps(b: BinaryView, d: DecimalView) -> bool {
    let f = b.exp_floor();
    &&& d.exp >= f - 1
    &&& (10 * b.mant - 30) * b.ulp_numerator() < in_units(d, f) * b.ulp_denominator()
    &&& in_units(d, f) * b.ulp_denominator() < (10 * b.mant + 30) * b.ulp_numerator()
}

/// Removing trailing zeros keeps the decimal in its units.
pub proof fn lemma_in_units_shorter(d: DecimalView, f: int)
    requires
        d.mant >= 1,
        d.exp >= f - 1,
    ensures
        d.remove_trailing_zeros().exp >= d.exp,
        in_units(d.remove_trailing_zeros(), f) == in_units(d, f),
{
    let r = d.remove_trailing_zeros();
    lemma_remove_trailing_zeros(d);
    let gained = (r.exp - d.exp) as nat;
    let kept = (d.exp - f + 1) as nat;
    lemma_pow10_adds(gained, kept);
    assert(r.mant * (pow10(gained) * pow10(kept)) == (r.mant * pow10(gained)) * pow10(kept))
        by (nonlinear_arith);
}

/// A decimal between the scaled ends of the rounding interval, with the
/// exponent `f`, lies less than three units in the last place from the value.
proof fn lemma_between(m: int, h: int, l: int, low: int, high: int, d: int)
    requires
        1 <= l <= h,
        m >= 1,
        // the scaled lower end is no more than two below the lower end
        (2 * low + 4) * (2 * l) > (4 * m - 2) * h,
        // the scaled upper end is no more than one above the upper end
        (high - 1) * (2 * l) < (2 * m + 1) * h,
        low <= d <= high + 1,
    ensures
        (10 * m - 30) * h < (10 * d) * l,
        (10 * d) * l < (10 * m + 30) * h,
{
    assert((10 * m - 30) * h < (10 * d) * l) by (nonlinear_arith)
        requires
            (2 * low + 4) * (2 * l) > (4 * m - 2) * h,
            low <= d,
            1 <= l <= h,
    ;
    assert((10 * d) * l < (10 * m + 30) * h) by (nonlinear_arith)
        requires
            (high - 1) * (2 * l) < (2 * m + 1) * h,
            d <= high + 1,
            1 <= l <= h,
    ;
}

/// Half of the scaled double of the value, rounded either way, lies less
/// than three units in the last place from the value.
proof fn lemma_nearest(m: int, h: int, l: int, c2: int, d: int)
    requires
        1 <= l <= h,
        m >= 1,
        (c2 - 1) * (2 * l) < (4 * m) * h,
        (4 * m) * h < (c2 + 2) * (2 * l),
        c2 / 2 <= d <= c2 / 2 + 1,
    ensures
        (10 * m - 30) * h < (10 * d) * l,
        (10 * d) * l < (10 * m + 30) * h,
{
    assert(2 * d + 1 >= c2 && 2 * d <= c2 + 2);
    assert((10 * m - 30) * h < (10 * d) * l) by (nonlinear_arith)
        requires
            (4 * m) * h < (c2 + 2) * (2 * l),
            2 * d + 1 >= c2,
            1 <= l <= h,
    ;
    assert((10 * d) * l < (10 * m + 30) * h) by (nonlinear_arith)
        requires
            (c2 - 1) * (2 * l) < (4 * m) * h,
            2 * d <= c2 + 2,
            1 <= l <= h,
    ;
}

/// The decimal with the exponent `f` and the mantissa `d`, in units.
proof fn lemma_in_units_plain(d: DecimalView, f: int)
    requires
        d.exp == f || d.exp == f + 1 || d.exp == f - 1,
    ensures
        d.exp == f ==> in_units(d, f) == 10 * d.mant,
        d.exp == f + 1 ==> in_units(d, f) == 100 * d.mant,
        d.exp == f - 1 ==> in_units(d, f) == d.mant,
{
    lemma_pow10_values();
    let p = pow10((d.exp - f + 1) as nat) as int;
    assert(d.mant * p == d.mant * pow10((d.exp - f + 1) as nat));
    if d.exp == f {
        assert(d.mant * p == 10 * d.mant) by (nonlinear_arith)
            requires
                p == 10,
        ;
    } else if d.exp == f + 1 {
        assert(d.mant * p == 100 * d.mant) by (nonlinear_arith)
            requires
                p == 100,
        ;
    } else {
        assert(d.mant * p == d.mant) by (nonlinear_arith)
            requires
                p == 1,
        ;
    }
}

/// Accuracy, where the neighbours lie at the same distance: the decimal of
/// the reduction lies less than three units in the last place from the
/// value.
pub proof fn lemma_centered_accuracy(b: BinaryView)
    requires
        b.wf(),
        b.is_centered(),
    ensures
        within_three_ulps(b, b.teju_jagua_centered()),
{
    let f = b.exp_floor();
    let m = b.mant;
    let h = b.ulp_numerator();
    let l = b.ulp_denominator();
    lemma_run_bounds(b.exp);
    lemma_scaled_near(b, 2 * m - 1);
    lemma_scaled_near(b, 2 * m + 1);
    lemma_scaled_near(b, 4 * m);
    lemma_scaled_range(b, 2 * m - 1);
    lemma_scaled_range(b, 2 * m + 1);
    lemma_scaled_range(b, 4 * m);
    lemma_scaled_monotonic(b, 2 * m - 1, 2 * m + 1);
    lemma_small_shift(2 * m - 1, b.residual());
    lemma_small_shift(4 * m, b.residual());
    lemma_pow2_pos(b.residual());
    assert(l <= h) by (nonlinear_arith)
        requires
            l <= numerator(f),
            h == pow2(b.residual()) * numerator(f),
            pow2(b.residual()) >= 1,
            numerator(f) >= 0,
    ;
    let low = b.scaled(2 * m - 1);
    let high = b.scaled(2 * m + 1);
    let q = high / 10;
    let c2 = b.scaled(4 * m);
    let d = b.teju_jagua_centered();
    let tie_low = (DecimalView { exp: f, mant: (2 * m - 1) * pow2(b.residual()) }).is_tie();
    assert((2 * low + 4) * (2 * l) > (4 * m - 2) * h) by (nonlinear_arith)
        requires
            (low + 2) * (2 * l) > (2 * m - 1) * h,
    ;
    assert(low >= 1);
    let takes_shorter = if low < 10 * q {
        10 * q < high || m % 2 == 0 || !tie_low
    } else {
        10 * q == low && m % 2 == 0 && tie_low
    };
    if takes_shorter {
        assert(q >= 1 && low <= 10 * q <= high);
        lemma_in_units_shorter(DecimalView { exp: f + 1, mant: q }, f);
        lemma_in_units_plain(DecimalView { exp: f + 1, mant: q }, f);
        lemma_between(m, h, l, low, high, 10 * q);
        assert(in_units(d, f) == 10 * (10 * q));
    } else if low >= 10 * q && (low + high) % 2 == 1 {
        lemma_in_units_plain(d, f);
        lemma_between(m, h, l, low, high, (low + high) / 2 + 1);
    } else {
        lemma_in_units_plain(d, f);
        lemma_nearest(m, h, l, c2, nearest_half(f, c2));
    }
}

/// Accuracy, at a power of two: the decimal of the reduction lies less than
/// three units in the last place from the value.
pub proof fn lemma_uncentered_accuracy(b: BinaryView)
    requires
        b.wf(),
        !b.is_centered(),
    ensures
        within_three_ulps(b, b.teju_jagua_uncentered()),
{
    let f = b.exp_floor();
    let m = b.mant;
    let h = b.ulp_numerator();
    let l = b.ulp_denominator();
    lemma_run_bounds(b.exp);
    lemma_scaled_near(b, 4 * m - 1);
    lemma_scaled_near(b, 2 * m + 1);
    lemma_scaled_near(b, 4 * m);
    lemma_scaled_near(b, 40 * m);
    lemma_scaled_range(b, 4 * m - 1);
    lemma_scaled_range(b, 2 * m + 1);
    lemma_scaled_range(b, 4 * m);
    lemma_scaled_range(b, 40 * m);
    lemma_small_shift(4 * m - 1, b.residual());
    lemma_small_shift(4 * m, b.residual());
    lemma_small_shift(40 * m, b.residual());
    lemma_pow2_pos(b.residual());
    assert(l <= h) by (nonlinear_arith)
        requires
            l <= numerator(f),
            h == pow2(b.residual()) * numerator(f),
            pow2(b.residual()) >= 1,
            numerator(f) >= 0,
    ;
    let below = b.scaled(4 * m - 1);
    let low = below / 2;
    let high = b.scaled(2 * m + 1);
    let q = high / 10;
    let c2 = b.scaled(4 * m);
    let d = b.teju_jagua_uncentered();
    let tie_low = (DecimalView {
        exp: f,
        mant: (4 * m - 1) * pow2(b.residual()),
    }).is_tie_uncentered();
    let tie_high = (DecimalView {
        exp: f,
        mant: (2 * m + 1) * pow2(b.residual()),
    }).is_tie_uncentered();
    assert(low >= 1);
    assert((2 * low + 4) * (2 * l) > (4 * m - 2) * h) by (nonlinear_arith)
        requires
            (below + 2) * (2 * l) > (4 * m - 1) * h,
            2 * low + 1 >= below,
            l >= 1,
            h >= 1,
    ;
    if low < high {
        let takes_shorter = if low < 10 * q {
            10 * q < high || m % 2 == 0 || !tie_high
        } else {
            10 * q == low && m % 2 == 0 && tie_low
        };
        if takes_shorter {
            assert(q >= 1 && low <= 10 * q <= high);
            lemma_in_units_shorter(DecimalView { exp: f + 1, mant: q }, f);
            lemma_in_units_plain(DecimalView { exp: f + 1, mant: q }, f);
            lemma_between(m, h, l, low, high, 10 * q);
            assert(in_units(d, f) == 10 * (10 * q));
        } else if low >= 10 * q && (low + high) % 2 == 1 {
            lemma_in_units_plain(d, f);
            lemma_between(m, h, l, low, high, (low + high) / 2 + 1);
        } else {
            assert(d.exp == f && c2 / 2 <= d.mant <= c2 / 2 + 1);
            lemma_in_units_plain(d, f);
            lemma_nearest(m, h, l, c2, d.mant);
        }
    } else if tie_low {
        lemma_in_units_shorter(DecimalView { exp: f, mant: low }, f);
        lemma_in_units_plain(DecimalView { exp: f, mant: low }, f);
        assert((low - 1) * (2 * l) < (2 * m + 1) * h) by (nonlinear_arith)
            requires
                (below - 1) * (2 * l) < (4 * m - 1) * h,
                2 * low <= below,
                1 <= l <= h,
                m >= 1,
        ;
        lemma_between(m, h, l, low, low, low);
    } else {
        let far2 = b.scaled(40 * m);
        assert(d == DecimalView { exp: f - 1, mant: nearest_half(f, far2) });
        lemma_in_units_plain(d, f);
        let mant = nearest_half(f, far2);
        assert(2 * mant + 1 >= far2 && 2 * mant <= far2 + 2);
        assert((10 * m - 30) * h < mant * l && mant * l < (10 * m + 30) * h) by (nonlinear_arith)
            requires
                (far2 - 1) * (2 * l) < (40 * m) * h,
                (40 * m) * h < (far2 + 2) * (2 * l),
                2 * mant + 1 >= far2,
                2 * mant <= far2 + 2,
                1 <= l <= h,
        ;
    }
}

/// Accuracy: the decimal of the reduction of a value that is no small
/// integer lies less than three units in the last place from the value.
pub proof fn law_accuracy(b: BinaryView)
    requires
        b.wf(),
    ensures
        within_three_ulps(b, b.teju_jagua_inner()),
{
    if b.is_centered() {
        lemma_centered_accuracy(b);
    } else {
        lemma_uncentered_accuracy(b);
    }
}

} // verus!

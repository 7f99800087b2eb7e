//! That no decimal with fewer digits than the decimal of the reduction
//! reads back as the float.

use vstd::prelude::*;
use vstd::arithmetic::div_mod::{lemma_fundamental_div_mod, lemma_mod_multiples_basic};
use vstd::arithmetic::power2::{lemma2_to64, lemma_pow2_adds, lemma_pow2_pos, pow2};
use crate::teju::exactness::lemma_scaled_exact_centered;
use crate::teju::fmt::{digit_count, lemma_digit_count_bounds};
use crate::teju::ieee64::{
    lemma_remove_trailing_zeros, lemma_small_shift, BinaryView, DecimalView,
};
use crate::teju::logarithm::lemma_run_bounds;
use crate::teju::lut::{exp_base, lemma_exp_base};
use crate::teju::power::{lemma_pow10_step, lemma_pow5_monotonic, lemma_pow5_step, lemma_pow5_values, pow10, pow5};
use crate::teju::roundtrip::{lemma_pow10_factors, lemma_scaled_ends, lemma_wide};

verus! {

/// A larger number has no fewer digits.
pub proof fn lemma_digit_count_monotonic(x: nat, y: nat)
    requires
        x <= y,
    ensures
        digit_count(x) <= digit_count(y),
    decreases y,
{
    if y >= 10 && x >= 10 {
        lemma_digit_count_monotonic(x / 10, y / 10);
    }
}

/// Between a number and one with more digits lies a power of ten.
pub proof fn lemma_power_between(x: nat, y: nat)
    requires
        digit_count(x) < digit_count(y),
    ensures
        x < pow10(digit_count(x)) <= y,
{
    lemma_digit_count_bounds(x, digit_count(x));
    lemma_digit_count_bounds(y, digit_count(y));
    crate::teju::power::lemma_pow10_monotonic(digit_count(x), (digit_count(y) - 1) as nat);
}

/// A number that ends in `j` zeros has, without them, no fewer digits than
/// it has without all of its trailing zeros.
pub proof fn lemma_shortest_mantissa(d: DecimalView, other: int, j: nat)
    requires
        d.mant >= 1,
        other >= 1,
        d.mant == other * pow10(j),
    ensures
        digit_count(d.remove_trailing_zeros().mant as nat) <= digit_count(other as nat),
    decreases j,
{
    lemma_pow10_step(0);
    lemma_remove_trailing_zeros(d);
    if j == 0 {
        assert(other * pow10(0) == other) by (nonlinear_arith)
            requires
                pow10(0) == 1,
        ;
        lemma_digit_count_monotonic(d.remove_trailing_zeros().mant as nat, other as nat);
    } else {
        let lower = (j - 1) as nat;
        lemma_pow10_step(lower);
        assert(d.mant == 10 * (other * pow10(lower))) by (nonlinear_arith)
            requires
                d.mant == other * pow10(j),
                pow10(j) == 10 * pow10(lower),
        ;
        assert(other * pow10(lower) >= 1) by (nonlinear_arith)
            requires
                other >= 1,
                pow10(lower) >= 1,
        ;
        let next = DecimalView { exp: d.exp + 1, mant: d.mant / 10 };
        assert(d.remove_trailing_zeros() == next.remove_trailing_zeros());
        lemma_shortest_mantissa(next, other, lower);
    }
}

/// An odd number that divides twice a number divides the number.
pub proof fn lemma_odd_divides_half(y: int, p: int)
    requires
        y >= 0,
        p >= 1,
        p % 2 == 1,
        (2 * y) % p == 0,
    ensures
        y % p == 0,
{
    let t = (2 * y) / p;
    lemma_fundamental_div_mod(2 * y, p);
    assert(t >= 0) by (nonlinear_arith)
        requires
            2 * y == p * t,
            p >= 1,
            y >= 0,
    ;
    let half = t / 2;
    let a = p / 2;
    assert(p * t == 2 * (a * t) + t) by (nonlinear_arith)
        requires
            p == 2 * a + 1,
    ;
    assert(t == 2 * (y - a * t));
    assert(y == half * p) by (nonlinear_arith)
        requires
            2 * y == p * t,
            t == 2 * half,
    ;
    lemma_mod_multiples_basic(half, p);
}

/// A power of five is odd.
pub proof fn lemma_pow5_odd(k: nat)
    ensures
        pow5(k) % 2 == 1,
    decreases k,
{
    lemma_pow5_step(0);
    if k > 0 {
        lemma_pow5_odd((k - 1) as nat);
        lemma_pow5_step((k - 1) as nat);
    }
}

/// A power of five that divides a number times a power of two divides the
/// number.
pub proof fn lemma_pow5_divides(x: int, k: nat, a: nat)
    requires
        x >= 0,
        (x * pow2(a)) % (pow5(k) as int) == 0,
    ensures
        x % (pow5(k) as int) == 0,
    decreases a,
{
    lemma2_to64();
    lemma_pow5_step(k);
    lemma_pow5_odd(k);
    if a == 0 {
        assert(x * pow2(0) == x) by (nonlinear_arith)
            requires
                pow2(0) == 1,
        ;
    } else {
        let lower = (a - 1) as nat;
        lemma_pow2_adds(lower, 1);
        lemma_pow2_pos(lower);
        let y = x * pow2(lower);
        assert(x * pow2(a) == 2 * y) by (nonlinear_arith)
            requires
                pow2(a) == pow2(lower) * 2,
                y == x * pow2(lower),
        ;
        assert(y >= 0) by (nonlinear_arith)
            requires
                y == x * pow2(lower),
                x >= 0,
                pow2(lower) >= 0,
        ;
        lemma_odd_divides_half(y, pow5(k) as int);
        lemma_pow5_divides(x, k, lower);
    }
}

/// An odd number times a power of two is no multiple of a larger power of
/// two.
pub proof fn lemma_odd_times_pow2(y: int, a: nat, b: nat)
    requires
        y >= 1,
        y % 2 == 1,
        a > b,
    ensures
        (y * pow2(b)) % (pow2(a) as int) != 0,
{
    let low = pow2(b) as int;
    let spare = pow2((a - b) as nat) as int;
    lemma2_to64();
    lemma_pow2_adds(b, (a - b) as nat);
    lemma_pow2_adds(1, (a - b - 1) as nat);
    lemma_pow2_pos(b);
    lemma_pow2_pos(a);
    lemma_pow2_pos((a - b - 1) as nat);
    let whole = y * low;
    if whole % (pow2(a) as int) == 0 {
        let t = whole / (pow2(a) as int);
        lemma_fundamental_div_mod(whole, pow2(a) as int);
        // y * low == low * spare * t, so y == spare * t, which is even
        assert(y == spare * t) by (nonlinear_arith)
            requires
                whole == y * low,
                whole == (low * spare) * t,
                low >= 1,
        ;
        let rest = pow2((a - b - 1) as nat) as int;
        assert(y == 2 * (rest * t)) by (nonlinear_arith)
            requires
                y == spare * t,
                spare == 2 * rest,
        ;
    }
}

/// The product of two odd numbers is odd.
pub proof fn lemma_odd_product(x: int, y: int)
    requires
        x % 2 == 1,
        y % 2 == 1,
    ensures
        (x * y) % 2 == 1,
{
    let a = x / 2;
    let b = y / 2;
    assert(x * y == 2 * (2 * (a * b) + a + b) + 1) by (nonlinear_arith)
        requires
            x == 2 * a + 1,
            y == 2 * b + 1,
    ;
}

/// Where the lower end of the rounding interval is a whole number of units
/// of the decimal exponent, its mantissa is a multiple of `5^exp_floor`.
pub proof fn lemma_whole_lower_end(b: BinaryView)
    requires
        b.wf(),
        !b.is_small_integer(),
        b.lower_end() % (2 * b.ulp_denominator()) == 0,
    ensures
        b.tie_low(),
{
    let f = b.exp_floor();
    let r = b.residual();
    let m = b.mant;
    let unit = 2 * b.ulp_denominator();
    let odd = 2 * m - 1;
    lemma_wide(b);
    lemma_exp_base(b.exp);
    lemma_run_bounds(b.exp);
    lemma2_to64();
    lemma_pow5_step(0);
    lemma_pow10_step(0);
    lemma_pow2_pos(r);
    let e0 = exp_base(f);
    let t = b.lower_end() / unit;
    lemma_fundamental_div_mod(b.lower_end(), unit);
    if f >= 0 {
        let five = pow5(f as nat) as int;
        let shifted = odd * pow2(r);
        lemma_pow5_step(f as nat);
        lemma_pow10_factors(f as nat);
        lemma_pow2_pos(f as nat);
        assert(shifted >= 0) by (nonlinear_arith)
            requires
                shifted == odd * pow2(r),
                odd >= 0,
                pow2(r) >= 0,
        ;
        assert(shifted * pow2(e0 as nat) == ((2 * pow2(f as nat)) * t) * five) by (nonlinear_arith)
            requires
                b.lower_end() == odd * (pow2(r) * pow2(e0 as nat)),
                shifted == odd * pow2(r),
                b.lower_end() == unit * t,
                unit == 2 * (pow2(f as nat) * five),
        ;
        lemma_mod_multiples_basic((2 * pow2(f as nat)) * t, five);
        lemma_pow5_divides(shifted, f as nat, e0 as nat);
        if f >= 27 {
            // so large a power of five divides no mantissa
            lemma_pow5_values();
            lemma_pow5_monotonic(27, f as nat);
            lemma_small_shift(odd, r);
            lemma_fundamental_div_mod(shifted, five);
            let times = shifted / five;
            assert(false) by (nonlinear_arith)
                requires
                    shifted == five * times,
                    1 <= shifted < 0x200_0000_0000_0000,
                    five >= 7_450_580_596_923_828_125,
            ;
        }
    } else {
        // the lower end is an odd number times 2^(residual - f), and the unit
        // a larger power of two
        let k = (-f) as nat;
        let five = pow5(k) as int;
        lemma_pow5_step(k);
        lemma_pow5_odd(k);
        lemma_pow10_factors(k);
        lemma_pow2_adds(r, k);
        lemma_pow2_adds((-e0) as nat, 1);
        lemma_odd_product(odd, five);
        assert(odd * five >= 1) by (nonlinear_arith)
            requires
                odd >= 1,
                five >= 1,
        ;
        assert(b.lower_end() == (odd * five) * pow2(r + k)) by (nonlinear_arith)
            requires
                b.lower_end() == odd * (pow2(r) * (pow2(k) * five)),
                pow2(r + k) == pow2(r) * pow2(k),
        ;
        assert(1 - e0 > r + k);
        lemma_odd_times_pow2(odd * five, (1 - e0) as nat, r + k);
    }
}

impl BinaryView {
    /// Whether `place` lies in the rounding interval between `lower` and
    /// `upper`, whose ends belong to it where the mantissa is even.
    pub open spec fn holds(self, lower: int, place: int, upper: int) -> bool {
        if self.mant % 2 == 0 {
            lower <= place <= upper
        } else {
            lower < place < upper
        }
    }

    /// Whether the decimal `c`, of any exponent, reads back as the float of
    /// the magnitude `self`, whose neighbours lie at the same distance.
    pub open spec fn reads_back_any(self, c: DecimalView) -> bool {
        let f = self.exp_floor();
        let unit = 2 * self.ulp_denominator();
        if c.exp >= f {
            self.holds(
                self.lower_end(),
                c.mant * pow10((c.exp - f) as nat) * unit,
                self.upper_end(),
            )
        } else {
            self.holds(
                self.lower_end() * pow10((f - c.exp) as nat),
                c.mant * unit,
                self.upper_end() * pow10((f - c.exp) as nat),
            )
        }
    }

    /// Whether the largest multiple of ten units below the upper end of the
    /// rounding interval of an odd mantissa lies inside the interval, at no
    /// whole number of units from the upper end, while the lower end is a
    /// whole number of units. The reduction then keeps all of its digits,
    /// though the multiple of ten reads back with one digit less.
    pub open spec fn keeps_long(self) -> bool {
        let unit = 2 * self.ulp_denominator();
        &&& self.mant % 2 == 1
        &&& self.tie_low()
        &&& (self.upper_end() / unit) % 10 == 0
        &&& self.lower_end() / unit < self.upper_end() / unit
        &&& self.upper_end() % unit != 0
    }
}

/// What the decimal of the reduction and the multiples of ten units have to
/// do with one another, on the way to the law below.
proof fn lemma_multiple_of_ten(b: BinaryView, t: int)
    requires
        b.wf(),
        b.is_centered(),
        !b.is_small_integer(),
        !b.takes_upper_end(),
        !b.keeps_long(),
        t >= 1,
        b.holds(b.lower_end(), (10 * t) * (2 * b.ulp_denominator()), b.upper_end()),
    ensures
        t == b.scaled(2 * b.mant + 1) / 10,
        b.teju_jagua() == (DecimalView {
            exp: b.exp_floor() + 1,
            mant: t,
        }).remove_trailing_zeros(),
{
    let f = b.exp_floor();
    let m = b.mant;
    let h = b.ulp_numerator();
    let l = b.ulp_denominator();
    let unit = 2 * l;
    lemma_wide(b);
    lemma_run_bounds(b.exp);
    lemma_scaled_ends(b);
    let low = b.scaled(2 * m - 1);
    let high = b.scaled(2 * m + 1);
    let q = high / 10;
    let place = (10 * t) * unit;
    lemma_fundamental_div_mod(b.lower_end(), unit);
    lemma_fundamental_div_mod(b.upper_end(), unit);
    // the multiple of ten is the largest below the upper end
    assert(10 * t <= high && 10 * t > high - 10 && low <= 10 * t) by (nonlinear_arith)
        requires
            place == (10 * t) * unit,
            b.lower_end() <= place <= b.upper_end(),
            b.upper_end() < (high + 1) * unit,
            high * unit <= b.upper_end(),
            low * unit <= b.lower_end(),
            b.upper_end() - b.lower_end() == 2 * h,
            h < 10 * l,
            unit == 2 * l,
            l >= 1,
    ;
    assert(t == q);
    // and the reduction takes it
    if low < 10 * q {
        if !(10 * q < high || m % 2 == 0 || !b.tie_low()) {
            // an odd mantissa: the multiple of ten lies below the upper end
            assert(high * unit < b.upper_end());
            assert(b.upper_end() % unit != 0);
            assert(b.keeps_long());
        }
    } else {
        // the multiple of ten is the lower end, which belongs to the interval
        assert(place == b.lower_end() && m % 2 == 0) by (nonlinear_arith)
            requires
                place == (10 * t) * unit,
                10 * t <= low,
                low * unit <= b.lower_end(),
                b.lower_end() <= place,
                b.lower_end() < place || m % 2 == 0,
                unit >= 1,
        ;
        assert(10 * q == low) by (nonlinear_arith)
            requires
                place == (10 * q) * unit,
                place == b.lower_end(),
                low * unit <= b.lower_end() < (low + 1) * unit,
                unit >= 1,
        ;
        assert(b.lower_end() % unit == 0) by {
            lemma_mod_multiples_basic(10 * q, unit);
        }
        lemma_whole_lower_end(b);
    }
}

/// Fewest digits: where the neighbours of a value lie at the same distance,
/// no decimal that reads back as the value has fewer digits than the decimal
/// of the reduction; unless the reduction keeps its digits beside a multiple
/// of ten inside the interval.
pub proof fn law_fewest_digits(b: BinaryView, c: DecimalView)
    requires
        b.wf(),
        b.is_centered(),
        !b.is_small_integer(),
        !b.keeps_long(),
        c.mant >= 1,
        b.reads_back_any(c),
    ensures
        digit_count(b.teju_jagua().mant as nat) <= digit_count(c.mant as nat),
{
    if b.takes_upper_end() {
        crate::teju::fewest::lemma_fewest_digits_at_upper_end(b, c);
    } else {
        lemma_fewest_digits_inside(b, c);
    }
}

/// The same where the decimal of the reduction lies in the rounding
/// interval.
proof fn lemma_fewest_digits_inside(b: BinaryView, c: DecimalView)
    requires
        b.wf(),
        b.is_centered(),
        !b.is_small_integer(),
        !b.takes_upper_end(),
        !b.keeps_long(),
        c.mant >= 1,
        b.reads_back_any(c),
    ensures
        digit_count(b.teju_jagua().mant as nat) <= digit_count(c.mant as nat),
{
    let f = b.exp_floor();
    let m = b.mant;
    let h = b.ulp_numerator();
    let l = b.ulp_denominator();
    let unit = 2 * l;
    lemma_wide(b);
    lemma_run_bounds(b.exp);
    lemma_scaled_ends(b);
    crate::teju::roundtrip::law_reads_back(b);
    lemma_pow10_step(0);
    let low = b.scaled(2 * m - 1);
    let high = b.scaled(2 * m + 1);
    let q = high / 10;
    let d = b.teju_jagua();
    lemma_fundamental_div_mod(b.lower_end(), unit);
    lemma_fundamental_div_mod(b.upper_end(), unit);
    let takes_shorter = if low < 10 * q {
        10 * q < high || m % 2 == 0 || !b.tie_low()
    } else {
        10 * q == low && m % 2 == 0 && b.tie_low()
    };
    let long = DecimalView { exp: f + 1, mant: q };
    // the decimal of the reduction has no more digits than the scaled lower
    // end, and where it is not shortened it lies in the interval at the
    // exponent of the value
    assert(digit_count(d.mant as nat) <= digit_count(high as nat) && (!takes_shorter ==> d.exp == f
        && low <= d.mant <= high && b.holds(b.lower_end(), d.mant * unit, b.upper_end()))) by {
        if takes_shorter {
            assert(q >= 1);
            lemma_remove_trailing_zeros(long);
            lemma_digit_count_monotonic(d.mant as nat, q as nat);
            lemma_digit_count_monotonic(q as nat, high as nat);
        } else {
            assert(d.exp == f);
            assert(d.mant * pow10(0) * unit == d.mant * unit) by (nonlinear_arith)
                requires
                    pow10(0) == 1,
            ;
            assert(low <= d.mant <= high) by (nonlinear_arith)
                requires
                    b.lower_end() <= d.mant * unit <= b.upper_end(),
                    low * unit <= b.lower_end(),
                    b.lower_end() < (low + 1) * unit,
                    b.upper_end() < (high + 1) * unit,
                    unit >= 1,
            ;
            lemma_digit_count_monotonic(d.mant as nat, high as nat);
        }
    }
    if c.exp > f {
        // a multiple of ten units: the reduction takes it, and shortens it
        let t = c.mant * pow10((c.exp - f - 1) as nat);
        lemma_pow10_step((c.exp - f - 1) as nat);
        assert(t >= 1) by (nonlinear_arith)
            requires
                t == c.mant * pow10((c.exp - f - 1) as nat),
                c.mant >= 1,
                pow10((c.exp - f - 1) as nat) >= 1,
        ;
        assert(c.mant * pow10((c.exp - f) as nat) * unit == (10 * t) * unit) by (nonlinear_arith)
            requires
                t == c.mant * pow10((c.exp - f - 1) as nat),
                pow10((c.exp - f) as nat) == 10 * pow10((c.exp - f - 1) as nat),
        ;
        lemma_multiple_of_ten(b, t);
        lemma_shortest_mantissa(long, c.mant, (c.exp - f - 1) as nat);
    } else {
        // the decimal has at least the digits of the scaled lower end
        let scale = pow10((f - c.exp) as nat) as int;
        lemma_pow10_step(0);
        if c.exp < f {
            lemma_pow10_step((f - c.exp - 1) as nat);
        }
        assert(scale >= 1 && (c.exp < f ==> scale >= 10));
        let bound = c.mant * unit;
        if c.exp == f {
            assert(c.mant * pow10(0) * unit == bound) by (nonlinear_arith)
                requires
                    pow10(0) == 1,
                    bound == c.mant * unit,
            ;
            assert(b.lower_end() * scale == b.lower_end()) by (nonlinear_arith)
                requires
                    scale == 1,
            ;
        }
        assert(b.lower_end() * scale <= bound);
        assert((low * scale) * unit <= b.lower_end() * scale) by (nonlinear_arith)
            requires
                low * unit <= b.lower_end(),
                scale >= 1,
        ;
        assert(c.mant >= low * scale) by (nonlinear_arith)
            requires
                (low * scale) * unit <= bound,
                bound == c.mant * unit,
                unit >= 1,
        ;
        if c.exp < f || takes_shorter {
            // ten times the scaled lower end, or the scaled lower end beside
            // a tenth of the scaled upper end
            if c.exp < f {
                assert(c.mant >= high) by (nonlinear_arith)
                    requires
                        c.mant >= low * scale,
                        scale >= 10,
                        high <= low + 10,
                        low >= 2,
                ;
                lemma_digit_count_monotonic(high as nat, c.mant as nat);
            } else {
                assert(c.mant >= q) by (nonlinear_arith)
                    requires
                        c.mant >= low * scale,
                        scale >= 1,
                        10 * q <= high,
                        high <= low + 10,
                        low >= 2,
                ;
                lemma_remove_trailing_zeros(long);
                lemma_digit_count_monotonic(d.mant as nat, q as nat);
                lemma_digit_count_monotonic(q as nat, c.mant as nat);
            }
        } else {
            // both at the exponent of the value: a power of ten between them
            // would be a multiple of ten units inside the interval
            assert(c.mant * pow10(0) * unit == c.mant * unit) by (nonlinear_arith)
                requires
                    pow10(0) == 1,
            ;
            if digit_count(c.mant as nat) < digit_count(d.mant as nat) {
                lemma_power_between(c.mant as nat, d.mant as nat);
                let power = pow10(digit_count(c.mant as nat)) as int;
                lemma_pow10_step((digit_count(c.mant as nat) - 1) as nat);
                let t = pow10((digit_count(c.mant as nat) - 1) as nat) as int;
                assert(b.holds(b.lower_end(), (10 * t) * unit, b.upper_end())) by (nonlinear_arith)
                    requires
                        b.holds(b.lower_end(), c.mant * unit, b.upper_end()),
                        b.holds(b.lower_end(), d.mant * unit, b.upper_end()),
                        c.mant < 10 * t <= d.mant,
                        unit >= 1,
                ;
                lemma_multiple_of_ten(b, t);
                lemma_remove_trailing_zeros(long);
            }
        }
    }
}

/// Where the reduction takes the upper end of the rounding interval of an
/// odd mantissa, its decimal is a tenth of that end, without its trailing
/// zeros.
pub proof fn lemma_upper_end_taken(b: BinaryView)
    requires
        b.wf(),
        b.is_centered(),
        !b.is_small_integer(),
        b.takes_upper_end(),
    ensures
        b.scaled(2 * b.mant + 1) >= 10,
        b.teju_jagua() == (DecimalView {
            exp: b.exp_floor() + 1,
            mant: b.scaled(2 * b.mant + 1) / 10,
        }).remove_trailing_zeros(),
{
    let m = b.mant;
    let h = b.ulp_numerator();
    let unit = 2 * b.ulp_denominator();
    lemma_wide(b);
    lemma_scaled_ends(b);
    let low = b.scaled(2 * m - 1);
    let high = b.scaled(2 * m + 1);
    lemma_fundamental_div_mod(b.lower_end(), unit);
    lemma_fundamental_div_mod(b.upper_end(), unit);
    assert(low < high) by (nonlinear_arith)
        requires
            b.lower_end() == unit * low + b.lower_end() % unit,
            0 <= b.lower_end() % unit,
            b.upper_end() == unit * high,
            b.upper_end() - b.lower_end() == 2 * h,
            h >= 1,
            unit >= 1,
    ;
    assert(b.teju_jagua() == b.teju_jagua_centered());
}

/// Where the reduction keeps its digits beside a multiple of ten inside the
/// interval, its mantissa lies between the multiple of ten below the lower
/// end and the one at the upper end: the lower end is an even number of
/// units, so that the value is not rounded up to the upper end.
proof fn lemma_kept_long(b: BinaryView)
    requires
        b.wf(),
        b.is_centered(),
        !b.is_small_integer(),
        b.keeps_long(),
    ensures
        b.teju_jagua().mant % 10 != 0,
{
    let f = b.exp_floor();
    let r = b.residual();
    let m = b.mant;
    let h = b.ulp_numerator();
    let l = b.ulp_denominator();
    let unit = 2 * l;
    let e0 = exp_base(f);
    lemma_wide(b);
    lemma_run_bounds(b.exp);
    lemma_exp_base(b.exp);
    crate::teju::roundtrip::lemma_tie_low(b);
    lemma_scaled_ends(b);
    lemma_scaled_exact_centered(b, 4 * m);
    let low = b.scaled(2 * m - 1);
    let high = b.scaled(2 * m + 1);
    let c2 = b.scaled(4 * m);
    lemma_fundamental_div_mod(b.lower_end(), unit);
    lemma_fundamental_div_mod(b.upper_end(), unit);
    let rest = b.upper_end() % unit;
    assert((4 * m) * h == unit * (low + high) + rest) by (nonlinear_arith)
        requires
            (4 * m) * h == b.lower_end() + b.upper_end(),
            b.lower_end() == unit * low,
            b.upper_end() == unit * high + rest,
    ;
    vstd::arithmetic::div_mod::lemma_fundamental_div_mod_converse(
        (4 * m) * h,
        unit,
        low + high,
        rest,
    );
    assert(c2 == low + high);
    assert(high <= low + 9) by (nonlinear_arith)
        requires
            b.lower_end() == unit * low,
            b.upper_end() == unit * high + rest,
            rest >= 0,
            b.upper_end() - b.lower_end() == 2 * h,
            h < 10 * l,
            unit == 2 * l,
            l >= 1,
    ;
    // the lower end is an even number of units
    assert(0 <= f);
    if f == 0 {
        lemma2_to64();
        lemma_pow10_step(0);
        lemma_small_shift(2 * m + 1, r);
        assert(b.upper_end() == ((2 * m + 1) * pow2((r - 1) as nat)) * unit) by {
            lemma_pow2_adds(1, (r - 1) as nat);
            assert(b.upper_end() == ((2 * m + 1) * pow2((r - 1) as nat)) * 2) by (nonlinear_arith)
                requires
                    b.upper_end() == (2 * m + 1) * (pow2(r) * 1),
                    pow2(r) == 2 * pow2((r - 1) as nat),
            ;
        }
        lemma_mod_multiples_basic((2 * m + 1) * pow2((r - 1) as nat), unit);
        assert(false);
    }
    if low % 2 == 1 {
        let five = pow5(f as nat) as int;
        lemma_pow5_step(f as nat);
        lemma_pow5_odd(f as nat);
        lemma_pow10_factors(f as nat);
        lemma_pow2_adds(f as nat, 1);
        lemma_pow2_adds(r, e0 as nat);
        lemma_odd_product(low, five);
        assert(low >= 1 && low * five >= 1) by (nonlinear_arith)
            requires
                low % 2 == 1,
                low >= 0,
                five >= 1,
        ;
        let top = pow2(r + (e0 as nat)) as int;
        lemma2_to64();
        assert(b.lower_end() == (2 * low) * (pow2(f as nat) * five)) by (nonlinear_arith)
            requires
                b.lower_end() == unit * low,
                unit == 2 * (pow2(f as nat) * five),
        ;
        assert((low * five) * pow2((f + 1) as nat) == (2 * m - 1) * top) by (nonlinear_arith)
            requires
                b.lower_end() == (2 * low) * (pow2(f as nat) * five),
                b.lower_end() == (2 * m - 1) * (pow2(r) * pow2(e0 as nat)),
                pow2((f + 1) as nat) == pow2(f as nat) * 2,
                top == pow2(r) * pow2(e0 as nat),
        ;
        assert(r + e0 > f + 1);
        lemma_odd_times_pow2(low * five, r + (e0 as nat), (f + 1) as nat);
        lemma_mod_multiples_basic(2 * m - 1, top);
        assert(false);
    }
    assert(b.teju_jagua() == b.teju_jagua_centered());
}

/// No zero left behind: where the neighbours of a value lie at the same
/// distance, the mantissa of the reduction does not end in a zero. A tenth
/// of it with the next exponent would read back with one digit less.
pub proof fn law_no_trailing_zero(b: BinaryView)
    requires
        b.wf(),
        b.is_centered(),
        !b.is_small_integer(),
    ensures
        b.teju_jagua().mant % 10 != 0,
{
    let f = b.exp_floor();
    let d = b.teju_jagua();
    let unit = 2 * b.ulp_denominator();
    crate::teju::ieee64::lemma_teju_jagua_wf(b);
    if b.keeps_long() {
        lemma_kept_long(b);
    } else if b.takes_upper_end() {
        lemma_upper_end_taken(b);
        lemma_remove_trailing_zeros(
            DecimalView { exp: f + 1, mant: b.scaled(2 * b.mant + 1) / 10 },
        );
    } else if d.mant % 10 == 0 {
        crate::teju::roundtrip::law_reads_back(b);
        let tenth = DecimalView { exp: d.exp + 1, mant: d.mant / 10 };
        lemma_pow10_step((d.exp - f) as nat);
        assert(tenth.mant * pow10((tenth.exp - f) as nat) * unit == d.mant * pow10(
            (d.exp - f) as nat,
        ) * unit) by (nonlinear_arith)
            requires
                d.mant == 10 * tenth.mant,
                pow10((tenth.exp - f) as nat) == 10 * pow10((d.exp - f) as nat),
        ;
        assert(b.reads_back_any(tenth));
        law_fewest_digits(b, tenth);
    }
}

} // verus!

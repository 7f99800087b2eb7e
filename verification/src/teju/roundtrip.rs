//! That the decimal of the reduction reads back as the float.

use vstd::prelude::*;
use vstd::arithmetic::div_mod::{
    lemma_div_multiples_vanish_quotient, lemma_fundamental_div_mod, lemma_mod_multiples_basic,
};
use vstd::arithmetic::power2::{
    lemma2_to64, lemma_pow2_adds, lemma_pow2_pos, lemma_pow2_strictly_increases, pow2,
};
use crate::teju::exactness::{lemma_scaled_exact_below, lemma_scaled_exact_centered};
use crate::teju::ieee64::{
    lemma_remove_trailing_zeros, lemma_scaled_range, lemma_small_shift, nearest_half, BinaryView,
    DecimalView,
};
use crate::teju::logarithm::{denominator, lemma_run_bounds, numerator};
use crate::teju::lut::{exp_base, lemma_exp_base};
use crate::teju::power::{
    lemma_pow10_adds, lemma_pow10_step, lemma_pow10_values, lemma_pow5_step, pow10, pow5,
};

verus! {

impl BinaryView {
    /// The lower end of the rounding interval, half a unit in the last place
    /// below the value, in half units of the decimal exponent: as twice the
    /// denominator of the unit in the last place.
    pub open spec fn lower_end(self) -> int {
        (2 * self.mant - 1) * self.ulp_numerator()
    }

    /// The upper end of the rounding interval, taken as the lower.
    pub open spec fn upper_end(self) -> int {
        (2 * self.mant + 1) * self.ulp_numerator()
    }

    /// Whether the mantissa of the lower end is a multiple of `5^exp_floor`.
    pub open spec fn tie_low(self) -> bool {
        (DecimalView {
            exp: self.exp_floor(),
            mant: (2 * self.mant - 1) * pow2(self.residual()),
        }).is_tie()
    }

    /// Whether the upper end of the rounding interval of an odd mantissa is a
    /// multiple of ten units of the decimal exponent, while the lower end is
    /// no multiple of a unit. The reduction then takes the upper end, which
    /// reads back as the next float.
    pub open spec fn takes_upper_end(self) -> bool {
        &&& self.mant % 2 == 1
        &&& self.upper_end() % (2 * self.ulp_denominator()) == 0
        &&& (self.upper_end() / (2 * self.ulp_denominator())) % 10 == 0
        &&& !self.tie_low()
    }

    /// Whether the decimal `d` reads back as the float of the magnitude
    /// `self`, whose neighbours lie at the same distance: `d` lies in the
    /// rounding interval, whose ends belong to it where the mantissa is even.
    pub open spec fn reads_back(self, d: DecimalView) -> bool {
        let place = self.place(d);
        &&& d.exp >= self.exp_floor()
        &&& if self.mant % 2 == 0 {
            self.lower_end() <= place <= self.upper_end()
        } else {
            self.lower_end() < place < self.upper_end()
        }
    }

    /// The decimal `d`, taken as the ends of the rounding interval.
    pub open spec fn place(self, d: DecimalView) -> int {
        d.mant * pow10((d.exp - self.exp_floor()) as nat) * (2 * self.ulp_denominator())
    }
}

/// `10^k = 2^k * 5^k`.
pub proof fn lemma_pow10_factors(k: nat)
    ensures
        pow10(k) == pow2(k) * pow5(k),
    decreases k,
{
    lemma2_to64();
    lemma_pow10_step(0);
    lemma_pow5_step(0);
    if k == 0 {
        assert(pow2(0) * pow5(0) == 1) by (nonlinear_arith)
            requires
                pow2(0) == 1,
                pow5(0) == 1,
        ;
    } else {
        let lower = (k - 1) as nat;
        lemma_pow10_factors(lower);
        lemma_pow10_step(lower);
        lemma_pow5_step(lower);
        lemma_pow2_adds(lower, 1);
        assert(pow2(k) * pow5(k) == 10 * (pow2(lower) * pow5(lower))) by (nonlinear_arith)
            requires
                pow2(k) == pow2(lower) * 2,
                pow5(k) == 5 * pow5(lower),
        ;
    }
}

/// A value that is no small integer has no exponent of zero, and the unit in
/// its last place is more than the unit of its decimal exponent.
pub proof fn lemma_wide(b: BinaryView)
    requires
        b.wf(),
        !b.is_small_integer(),
    ensures
        b.exp != 0,
        1 <= b.ulp_denominator() < b.ulp_numerator(),
{
    lemma2_to64();
    lemma_run_bounds(b.exp);
    lemma_exp_base(b.exp);
    let f = b.exp_floor();
    let r = b.residual();
    lemma_pow2_pos(r);
    if b.exp == 0 {
        assert(b.mant % 1 == 0);
    }
    if r >= 1 {
        lemma_pow2_strictly_increases(0, r);
    }
    assert(b.ulp_denominator() < b.ulp_numerator()) by (nonlinear_arith)
        requires
            b.ulp_numerator() == pow2(r) * numerator(f),
            b.ulp_denominator() == denominator(f),
            1 <= denominator(f) <= numerator(f),
            pow2(r) >= 1,
            r >= 1 ==> pow2(r) >= 2,
            r == 0 ==> denominator(f) < numerator(f),
    ;
}

/// The scaled ends of the rounding interval are its ends, rounded down to
/// units of the decimal exponent. The interval is twice the unit in the last
/// place wide: more than one unit of the decimal exponent, and less than ten.
pub proof fn lemma_scaled_ends(b: BinaryView)
    requires
        b.wf(),
        !b.is_small_integer(),
    ensures
        1 <= b.ulp_denominator() < b.ulp_numerator() < 10 * b.ulp_denominator(),
        b.upper_end() - b.lower_end() == 2 * b.ulp_numerator(),
        4 * b.mant * b.ulp_numerator() == b.lower_end() + b.upper_end(),
        b.scaled(2 * b.mant - 1) == b.lower_end() / (2 * b.ulp_denominator()),
        b.scaled(2 * b.mant + 1) == b.upper_end() / (2 * b.ulp_denominator()),
        b.scaled(2 * b.mant - 1) * (2 * b.ulp_denominator()) <= b.lower_end() < (b.scaled(
            2 * b.mant - 1,
        ) + 1) * (2 * b.ulp_denominator()),
        b.scaled(2 * b.mant + 1) * (2 * b.ulp_denominator()) <= b.upper_end() < (b.scaled(
            2 * b.mant + 1,
        ) + 1) * (2 * b.ulp_denominator()),
        2 <= b.scaled(2 * b.mant - 1) <= b.scaled(2 * b.mant + 1) <= b.scaled(2 * b.mant - 1)
            + 10,
{
    let f = b.exp_floor();
    let m = b.mant;
    let h = b.ulp_numerator();
    let l = b.ulp_denominator();
    let unit = 2 * l;
    lemma_wide(b);
    lemma_run_bounds(b.exp);
    lemma_scaled_exact_centered(b, 2 * m - 1);
    lemma_scaled_exact_centered(b, 2 * m + 1);
    lemma_scaled_range(b, 2 * m - 1);
    lemma_small_shift(2 * m - 1, b.residual());
    let low = b.scaled(2 * m - 1);
    let high = b.scaled(2 * m + 1);
    lemma_fundamental_div_mod(b.lower_end(), unit);
    lemma_fundamental_div_mod(b.upper_end(), unit);
    assert(b.upper_end() - b.lower_end() == 2 * h && 4 * m * h == b.lower_end() + b.upper_end())
        by (nonlinear_arith)
        requires
            b.upper_end() == (2 * m + 1) * h,
            b.lower_end() == (2 * m - 1) * h,
    ;
    assert(h < 10 * l) by (nonlinear_arith)
        requires
            h == pow2(b.residual()) * numerator(f),
            numerator(f) * pow2(b.residual()) < 10 * l,
    ;
    assert(low * unit <= b.lower_end() < (low + 1) * unit) by (nonlinear_arith)
        requires
            b.lower_end() == unit * low + b.lower_end() % unit,
            0 <= b.lower_end() % unit < unit,
    ;
    assert(high * unit <= b.upper_end() < (high + 1) * unit) by (nonlinear_arith)
        requires
            b.upper_end() == unit * high + b.upper_end() % unit,
            0 <= b.upper_end() % unit < unit,
    ;
    assert(low >= 2) by {
        if m < 0x10_0000_0000_0000 {
            assert(b.residual() == 2);
        }
    }
    assert(low <= high <= low + 10) by (nonlinear_arith)
        requires
            low * unit <= b.lower_end() < (low + 1) * unit,
            high * unit <= b.upper_end() < (high + 1) * unit,
            b.upper_end() - b.lower_end() == 2 * h,
            0 < h < 10 * l,
            unit == 2 * l,
            l >= 1,
    ;
}

/// Where the mantissa of the lower end is a multiple of `5^exp_floor`, the
/// lower end is a whole number of units of the decimal exponent.
pub proof fn lemma_tie_low(b: BinaryView)
    requires
        b.wf(),
        !b.is_small_integer(),
        b.tie_low(),
    ensures
        b.lower_end() % (2 * b.ulp_denominator()) == 0,
{
    let f = b.exp_floor();
    let r = b.residual();
    let m = b.mant;
    lemma_wide(b);
    lemma_exp_base(b.exp);
    lemma2_to64();
    lemma_pow5_step(0);
    lemma_pow10_step(0);
    let shifted = (2 * m - 1) * pow2(r);
    assert(0 <= f);
    if f == 0 {
        // the unit is one, and the residual is the exponent, which is not zero
        assert(r >= 1);
        lemma_pow2_adds(1, (r - 1) as nat);
        assert(b.lower_end() == 2 * ((2 * m - 1) * pow2((r - 1) as nat))) by (nonlinear_arith)
            requires
                b.lower_end() == (2 * m - 1) * (pow2(r) * 1),
                pow2(r) == 2 * pow2((r - 1) as nat),
        ;
        lemma_mod_multiples_basic((2 * m - 1) * pow2((r - 1) as nat), 2);
        assert(2 * ((2 * m - 1) * pow2((r - 1) as nat)) == ((2 * m - 1) * pow2((r - 1) as nat)) * 2);
    } else {
        let e0 = exp_base(f);
        assert(e0 >= f + 1);
        let five = pow5(f as nat) as int;
        let two = pow2(f as nat) as int;
        let spare = pow2((e0 - f - 1) as nat) as int;
        lemma_pow5_step(f as nat);
        lemma_pow10_factors(f as nat);
        lemma_pow2_adds((e0 - f - 1) as nat, (f + 1) as nat);
        lemma_pow2_adds(f as nat, 1);
        let t = shifted / five;
        lemma_fundamental_div_mod(shifted, five);
        assert(shifted == five * t);
        let unit = 2 * b.ulp_denominator();
        assert(unit == 2 * (two * five));
        assert(pow2(e0 as nat) == spare * (two * 2));
        assert(b.lower_end() == (t * spare) * unit) by (nonlinear_arith)
            requires
                b.lower_end() == (2 * m - 1) * (pow2(r) * pow2(e0 as nat)),
                shifted == (2 * m - 1) * pow2(r),
                shifted == five * t,
                pow2(e0 as nat) == spare * (two * 2),
                unit == 2 * (two * five),
        ;
        lemma_mod_multiples_basic(t * spare, unit);
    }
}

/// Where twice the scaled value is odd and a multiple of `5^-exp_floor`, the
/// value lies exactly in the middle of two units of the decimal exponent.
pub proof fn lemma_tie_middle(b: BinaryView, c2: int)
    requires
        b.wf(),
        !b.is_small_integer(),
        c2 == (4 * b.mant * b.ulp_numerator()) / (2 * b.ulp_denominator()),
        c2 % 2 == 1,
        (DecimalView { exp: -b.exp_floor(), mant: c2 }).is_tie(),
    ensures
        4 * b.mant * b.ulp_numerator() == c2 * (2 * b.ulp_denominator()),
{
    let f = b.exp_floor();
    let r = b.residual();
    let m = b.mant;
    let whole = 4 * m * b.ulp_numerator();
    let unit = 2 * b.ulp_denominator();
    lemma_wide(b);
    lemma_exp_base(b.exp);
    lemma_run_bounds(b.exp);
    lemma2_to64();
    lemma_pow5_step(0);
    lemma_pow10_step(0);
    lemma_pow2_pos(r);
    lemma_fundamental_div_mod(whole, unit);
    assert(f <= 0);
    if f == 0 {
        let half = m * pow2(r);
        assert(whole == (half * 2) * 2) by (nonlinear_arith)
            requires
                whole == 4 * m * (pow2(r) * 1),
                half == m * pow2(r),
        ;
        vstd::arithmetic::div_mod::lemma_div_multiples_vanish(half * 2, 2);
        assert(c2 == half * 2);
        lemma_mod_multiples_basic(half, 2);
    } else {
        let k = (-f) as nat;
        let e0 = exp_base(f);
        let five = pow5(k) as int;
        lemma_pow5_step(k);
        lemma_pow10_factors(k);
        // whole == 2^a * (m * 5^k), with a = k + r + 2
        let a = k + r + 2;
        lemma_pow2_adds(k, r);
        lemma_pow2_adds(k + r, 2);
        let y = m * five;
        assert(whole == pow2(a) * y) by (nonlinear_arith)
            requires
                whole == 4 * m * (pow2(r) * (pow2(k) * five)),
                pow2(a) == pow2(k) * pow2(r) * 4,
                y == m * five,
        ;
        lemma_pow2_pos(a);
        if 1 - e0 <= a {
            // the unit divides the whole
            let spare = pow2((a - (1 - e0)) as nat) as int;
            lemma_pow2_adds((1 - e0) as nat, (a - (1 - e0)) as nat);
            lemma_pow2_adds((-e0) as nat, 1);
            assert(whole == (spare * y) * unit) by (nonlinear_arith)
                requires
                    whole == pow2(a) * y,
                    pow2(a) == unit * spare,
            ;
            lemma_mod_multiples_basic(spare * y, unit);
            assert(whole == c2 * unit) by (nonlinear_arith)
                requires
                    whole == unit * c2 + whole % unit,
                    whole % unit == 0,
            ;
        } else {
            let j = ((1 - e0) - a) as nat;
            let z = pow2(j) as int;
            lemma_pow2_adds(a, j);
            lemma_pow2_adds((-e0) as nat, 1);
            lemma_pow2_pos(j);
            assert(unit == pow2(a) * z);
            // c2 == y / z
            lemma_div_multiples_vanish_quotient(pow2(a) as int, y, z);
            assert(c2 == y / z);
            lemma_fundamental_div_mod(y, z);
            let rest = y % z;
            // the rest is a multiple of 5^k, and below it
            let u = c2 / five;
            lemma_fundamental_div_mod(c2, five);
            assert(c2 == five * u);
            assert(rest == five * (m - z * u)) by (nonlinear_arith)
                requires
                    y == m * five,
                    y == z * c2 + rest,
                    c2 == five * u,
            ;
            // 2^j < 5^k, as the unit of the exponent is at most its power of two
            let slack = pow2((-e0 - k) as nat) as int;
            lemma_pow2_adds(k, (-e0 - k) as nat);
            lemma_pow2_adds(j, r + 1);
            lemma_pow2_pos((-e0 - k) as nat);
            lemma_pow2_strictly_increases(0, r + 1);
            assert(slack <= five) by (nonlinear_arith)
                requires
                    pow2(k) * slack <= pow2(k) * five,
                    pow2(k) >= 1,
            ;
            assert(z < five) by (nonlinear_arith)
                requires
                    slack == z * pow2(r + 1),
                    pow2(r + 1) >= 2,
                    slack <= five,
                    z >= 1,
            ;
            assert(rest == 0) by (nonlinear_arith)
                requires
                    rest == five * (m - z * u),
                    0 <= rest < z,
                    z < five,
            ;
            assert(whole == c2 * unit) by (nonlinear_arith)
                requires
                    whole == pow2(a) * y,
                    y == z * c2,
                    unit == pow2(a) * z,
            ;
        }
    }
}

/// The decimal with the exponent of the decimal exponent and the mantissa
/// `d`, and the decimal of ten times `q` without its trailing zeros, as ends
/// of the rounding interval.
proof fn lemma_places(b: BinaryView, d: int, q: int)
    requires
        q >= 1,
    ensures
        b.place(DecimalView { exp: b.exp_floor(), mant: d }) == d * (2 * b.ulp_denominator()),
        (DecimalView { exp: b.exp_floor() + 1, mant: q }).remove_trailing_zeros().exp
            > b.exp_floor(),
        b.place((DecimalView { exp: b.exp_floor() + 1, mant: q }).remove_trailing_zeros()) == (10
            * q) * (2 * b.ulp_denominator()),
{
    let f = b.exp_floor();
    let unit = 2 * b.ulp_denominator();
    lemma_pow10_values();
    assert(d * pow10(0) * unit == d * unit) by (nonlinear_arith)
        requires
            pow10(0) == 1,
    ;
    let long = DecimalView { exp: f + 1, mant: q };
    let short = long.remove_trailing_zeros();
    lemma_remove_trailing_zeros(long);
    let gained = (short.exp - long.exp) as nat;
    lemma_pow10_adds(gained, 1);
    assert(short.mant * pow10(gained + 1) * unit == (10 * q) * unit) by (nonlinear_arith)
        requires
            short.mant * pow10(gained) == q,
            pow10(gained + 1) == pow10(gained) * 10,
    ;
}

/// Roundtrip: where the neighbours of a value lie at the same distance, the
/// decimal of the reduction lies in the rounding interval of the value, and
/// so reads back as the value; unless the reduction takes the upper end of
/// the interval of an odd mantissa.
pub proof fn law_reads_back(b: BinaryView)
    requires
        b.wf(),
        b.is_centered(),
        !b.is_small_integer(),
        !b.takes_upper_end(),
    ensures
        b.reads_back(b.teju_jagua()),
{
    let f = b.exp_floor();
    let m = b.mant;
    let h = b.ulp_numerator();
    let unit = 2 * b.ulp_denominator();
    lemma_scaled_ends(b);
    lemma_scaled_exact_centered(b, 4 * m);
    let low = b.scaled(2 * m - 1);
    let high = b.scaled(2 * m + 1);
    let c2 = b.scaled(4 * m);
    let q = high / 10;
    let d = b.teju_jagua_centered();
    assert(b.teju_jagua() == d);
    lemma_fundamental_div_mod(b.lower_end(), unit);
    lemma_fundamental_div_mod(b.upper_end(), unit);
    lemma_fundamental_div_mod(4 * m * h, unit);
    assert(c2 * unit <= 4 * m * h < (c2 + 1) * unit) by (nonlinear_arith)
        requires
            4 * m * h == unit * c2 + (4 * m * h) % unit,
            0 <= (4 * m * h) % unit < unit,
    ;
    let takes_shorter = if low < 10 * q {
        10 * q < high || m % 2 == 0 || !b.tie_low()
    } else {
        10 * q == low && m % 2 == 0 && b.tie_low()
    };
    if takes_shorter {
        assert(q >= 1);
        lemma_places(b, 0, q);
        let place = (10 * q) * unit;
        assert(b.place(d) == place);
        if low < 10 * q {
            assert(b.lower_end() < place) by (nonlinear_arith)
                requires
                    b.lower_end() < (low + 1) * unit,
                    low + 1 <= 10 * q,
                    place == (10 * q) * unit,
                    unit >= 1,
            ;
            if 10 * q < high {
                assert(place < b.upper_end()) by (nonlinear_arith)
                    requires
                        high * unit <= b.upper_end(),
                        10 * q + 1 <= high,
                        place == (10 * q) * unit,
                        unit >= 1,
                ;
            } else {
                assert(10 * q == high);
                assert(place <= b.upper_end());
                if m % 2 == 1 {
                    // the upper end is no multiple of the unit, as it is not taken
                    assert(b.upper_end() % unit != 0);
                }
            }
        } else {
            lemma_tie_low(b);
            assert(place == b.lower_end());
        }
    } else if low >= 10 * q && (low + high) % 2 == 1 {
        let middle = (low + high) / 2 + 1;
        lemma_places(b, middle, 1);
        let place = middle * unit;
        assert(low + 1 <= middle <= high);
        assert(b.lower_end() < place) by (nonlinear_arith)
            requires
                b.lower_end() < (low + 1) * unit,
                low + 1 <= middle,
                place == middle * unit,
                unit >= 1,
        ;
        assert(place < b.upper_end()) by (nonlinear_arith)
            requires
                high * unit <= b.upper_end(),
                low * unit <= b.lower_end(),
                b.upper_end() - b.lower_end() == 2 * h,
                unit < 2 * h,
                middle <= high,
                middle == high ==> low == high - 1,
                place == middle * unit,
                unit >= 1,
        ;
    } else {
        let near = nearest_half(f, c2);
        lemma_places(b, near, 1);
        let place = near * unit;
        if c2 % 2 == 1 && near == c2 / 2 {
            lemma_tie_middle(b, c2);
        }
        // twice the place lies less than two units in the last place, as
        // ends, from twice the value
        assert(2 * b.lower_end() < 2 * place && 2 * place < 2 * b.upper_end()) by (nonlinear_arith)
            requires
                place == near * unit,
                c2 * unit <= 4 * m * h < (c2 + 1) * unit,
                c2 % 2 == 0 ==> 2 * near == c2,
                c2 % 2 == 1 ==> 2 * near == c2 + 1 || (2 * near == c2 - 1 && 4 * m * h == c2
                    * unit),
                2 * (4 * m * h) == 2 * b.lower_end() + 2 * b.upper_end(),
                b.upper_end() - b.lower_end() == 2 * h,
                unit < 2 * h,
                unit >= 1,
        ;
    }
}

impl BinaryView {
    /// Whether the decimal `d` reads back as the float of the magnitude
    /// `self`, a power of two whose neighbour below lies at half the distance
    /// of the neighbour above: `d` lies between a quarter of a unit in the
    /// last place below the value and a half above it, the ends included.
    /// Both are taken in units of `10^(exp_floor - 1)`, as four times the
    /// denominator of the unit in the last place.
    pub open spec fn reads_back_uncentered(self, d: DecimalView) -> bool {
        let place = d.mant * pow10((d.exp - self.exp_floor() + 1) as nat) * (4
            * self.ulp_denominator());
        &&& d.exp >= self.exp_floor() - 1
        &&& 10 * ((4 * self.mant - 1) * self.ulp_numerator()) <= place
        &&& place <= 10 * ((4 * self.mant + 2) * self.ulp_numerator())
    }
}

/// At a power of two of binary64 neither end of the rounding interval has a
/// mantissa that is a multiple of five.
pub proof fn lemma_no_uncentered_tie(b: BinaryView)
    requires
        b.wf(),
        !b.is_centered(),
    ensures
        !(DecimalView {
            exp: b.exp_floor(),
            mant: (4 * b.mant - 1) * pow2(b.residual()),
        }).is_tie_uncentered(),
        !(DecimalView {
            exp: b.exp_floor(),
            mant: (2 * b.mant + 1) * pow2(b.residual()),
        }).is_tie_uncentered(),
{
    lemma_run_bounds(b.exp);
    lemma_small_shift(4 * b.mant - 1, b.residual());
    lemma_small_shift(2 * b.mant + 1, b.residual());
}

/// Roundtrip at a power of two: the decimal of the reduction lies in the
/// rounding interval of the value, and so reads back as the value.
pub proof fn law_reads_back_uncentered(b: BinaryView)
    requires
        b.wf(),
        !b.is_centered(),
        !b.is_small_integer(),
    ensures
        b.reads_back_uncentered(b.teju_jagua()),
{
    let f = b.exp_floor();
    let m = b.mant;
    let h = b.ulp_numerator();
    let l = b.ulp_denominator();
    let unit = 2 * l;
    lemma_wide(b);
    lemma_no_uncentered_tie(b);
    lemma_scaled_exact_centered(b, 4 * m - 1);
    lemma_scaled_exact_centered(b, 2 * m + 1);
    lemma_scaled_exact_centered(b, 4 * m);
    lemma_pow10_values();
    let below = b.scaled(4 * m - 1);
    let low = below / 2;
    let high = b.scaled(2 * m + 1);
    let c2 = b.scaled(4 * m);
    let far2 = b.scaled(40 * m);
    let q = high / 10;
    let d = b.teju_jagua_uncentered();
    assert(b.teju_jagua() == d);
    lemma_fundamental_div_mod((4 * m - 1) * h, unit);
    lemma_fundamental_div_mod((2 * m + 1) * h, unit);
    lemma_fundamental_div_mod((4 * m) * h, unit);
    assert(below * unit <= (4 * m - 1) * h < (below + 1) * unit) by (nonlinear_arith)
        requires
            (4 * m - 1) * h == unit * below + ((4 * m - 1) * h) % unit,
            0 <= ((4 * m - 1) * h) % unit < unit,
    ;
    assert(high * unit <= (2 * m + 1) * h < (high + 1) * unit) by (nonlinear_arith)
        requires
            (2 * m + 1) * h == unit * high + ((2 * m + 1) * h) % unit,
            0 <= ((2 * m + 1) * h) % unit < unit,
    ;
    assert(c2 * unit <= (4 * m) * h < (c2 + 1) * unit) by (nonlinear_arith)
        requires
            (4 * m) * h == unit * c2 + ((4 * m) * h) % unit,
            0 <= ((4 * m) * h) % unit < unit,
    ;
    // every mantissa from one above the scaled lower end to the scaled upper
    // end lies in the interval
    assert forall|x: int| low + 1 <= x <= high implies (4 * m - 1) * h <= #[trigger] (x * (4 * l))
        && x * (4 * l) <= (4 * m + 2) * h by {
        assert((4 * m - 1) * h <= x * (4 * l) && x * (4 * l) <= (4 * m + 2) * h)
            by (nonlinear_arith)
            requires
                (4 * m - 1) * h < (below + 1) * unit,
                below <= 2 * low + 1,
                high * unit <= (2 * m + 1) * h,
                low + 1 <= x <= high,
                unit == 2 * l,
                l >= 1,
        ;
    }
    assert(below <= c2) by (nonlinear_arith)
        requires
            below * unit <= (4 * m - 1) * h,
            (4 * m) * h < (c2 + 1) * unit,
            h >= 1,
            unit >= 1,
    ;
    if low < high {
        let takes_shorter = low < 10 * q;
        assert(m % 2 == 0);
        if takes_shorter {
            assert(q >= 1);
            let long = DecimalView { exp: f + 1, mant: q };
            lemma_remove_trailing_zeros(long);
            let gained = (d.exp - long.exp) as nat;
            lemma_pow10_adds(gained, 2);
            assert(d.mant * pow10(gained + 2) * (4 * l) == 10 * ((10 * q) * (4 * l)))
                by (nonlinear_arith)
                requires
                    d.mant * pow10(gained) == q,
                    pow10(gained + 2) == pow10(gained) * 100,
            ;
            assert(((10 * q) * (4 * l)) == (10 * q) * (4 * l));
        } else if (low + high) % 2 == 1 {
            let middle = (low + high) / 2 + 1;
            assert(d == DecimalView { exp: f, mant: middle });
            assert(d.mant * pow10(1) * (4 * l) == 10 * (middle * (4 * l))) by (nonlinear_arith)
                requires
                    d.mant == middle,
                    pow10(1) == 10,
            ;
        } else {
            let c = c2 / 2;
            assert(d.exp == f);
            assert(low <= c);
            assert(high >= low + 2);
            assert(d.mant * pow10(1) * (4 * l) == 10 * (d.mant * (4 * l))) by (nonlinear_arith)
                requires
                    pow10(1) == 10,
            ;
            if d.mant == c {
                assert(c != low);
                assert((4 * m - 1) * h <= c * (4 * l) && c * (4 * l) <= (4 * m + 2) * h)
                    by (nonlinear_arith)
                    requires
                        (4 * m - 1) * h < (below + 1) * unit,
                        below <= 2 * low + 1,
                        low + 1 <= c,
                        2 * c <= c2,
                        c2 * unit <= (4 * m) * h,
                        unit == 2 * l,
                        l >= 1,
                        h >= 1,
                ;
            } else {
                assert(d.mant == c + 1);
                assert(c == low || c2 == 2 * c + 1);
                assert((low + 2) * unit <= (2 * m + 1) * h) by (nonlinear_arith)
                    requires
                        high * unit <= (2 * m + 1) * h,
                        high >= low + 2,
                        unit >= 1,
                ;
                assert((4 * m - 1) * h <= (c + 1) * (4 * l) && (c + 1) * (4 * l) <= (4 * m + 2)
                    * h) by (nonlinear_arith)
                    requires
                        (4 * m) * h < (c2 + 1) * unit,
                        c2 <= 2 * c + 1,
                        // rounded up behind an odd double, or pushed up from
                        // the scaled lower end
                        (c2 == 2 * c + 1 && c2 * unit <= (4 * m) * h) || (c == low && (low + 2)
                            * unit <= (2 * m + 1) * h),
                        unit == 2 * l,
                        1 <= l < h,
                ;
            }
        }
    } else {
        // so narrow an interval has no residual, and forty times the mantissa
        // stays below the limit of the arguments
        lemma_run_bounds(b.exp);
        assert(3 * h < 4 * l) by (nonlinear_arith)
            requires
                below * unit <= (4 * m - 1) * h,
                (2 * m + 1) * h < (high + 1) * unit,
                below >= 2 * high,
                unit == 2 * l,
                l >= 1,
        ;
        if b.residual() >= 1 {
            lemma_pow2_strictly_increases(0, b.residual());
            lemma2_to64();
            assert(h >= 2 * l) by (nonlinear_arith)
                requires
                    h == pow2(b.residual()) * numerator(f),
                    pow2(b.residual()) >= 2,
                    numerator(f) >= l,
                    l >= 1,
            ;
        }
        assert(b.residual() == 0);
        lemma_small_shift(40 * m, b.residual());
        lemma_scaled_exact_below(b, 40 * m);
        lemma_fundamental_div_mod((40 * m) * h, unit);
        assert(far2 * unit <= (40 * m) * h < (far2 + 1) * unit) by (nonlinear_arith)
            requires
                (40 * m) * h == unit * far2 + ((40 * m) * h) % unit,
                0 <= ((40 * m) * h) % unit < unit,
        ;
        let near = nearest_half(f, far2);
        assert(d == DecimalView { exp: f - 1, mant: near });
        assert(near * pow10(0) * (4 * l) == near * (4 * l)) by (nonlinear_arith)
            requires
                pow10(0) == 1,
        ;
        assert(10 * ((4 * m - 1) * h) <= near * (4 * l) && near * (4 * l) <= 10 * ((4 * m + 2)
            * h)) by (nonlinear_arith)
            requires
                far2 * unit <= (40 * m) * h,
                (40 * m) * h < (far2 + 1) * unit,
                2 * near + 1 >= far2,
                2 * near <= far2 + 2,
                unit == 2 * l,
                1 <= l < h,
        ;
    }
}

} // verus!

//! That no decimal with fewer digits than the decimal of the reduction
//! reads back as the float: at a power of two, at a small integer, and where
//! the reduction takes the upper end of the rounding interval.
//!
//! Where a decimal of an interval has fewer digits than another one, a power
//! of ten lies between the two: a multiple of the power of ten above the
//! exponent of the other. In these three cases the interval holds no such
//! multiple beside the decimal of the reduction.

use vstd::prelude::*;
use vstd::arithmetic::div_mod::{lemma_fundamental_div_mod, lemma_mod_multiples_basic};
use vstd::arithmetic::power2::{lemma2_to64, lemma_pow2_adds, lemma_pow2_pos, pow2};
use crate::teju::exactness::lemma_scaled_exact_centered;
use crate::teju::fmt::digit_count;
use crate::teju::ieee64::{
    lemma_remove_trailing_zeros, lemma_small_shift, lemma_teju_jagua_wf, BinaryView, DecimalView,
};
use crate::teju::logarithm::{denominator, lemma_run_bounds, numerator};
use crate::teju::lut::{exp_base, lemma_exp_base};
use crate::teju::power::{
    lemma_pow10_adds, lemma_pow10_monotonic, lemma_pow10_step, lemma_pow5_step, pow10, pow5,
};
use crate::teju::roundtrip::{
    law_reads_back, law_reads_back_uncentered, lemma_no_uncentered_tie, lemma_pow10_factors,
    lemma_scaled_ends, lemma_wide,
};
use crate::teju::shortness::{
    law_fewest_digits, law_no_trailing_zero, lemma_odd_product, lemma_odd_times_pow2,
    lemma_pow5_divides, lemma_pow5_odd, lemma_power_between, lemma_upper_end_taken,
};

verus! {

/// Whether `place` lies between `lower` and `upper`, whose ends count where
/// the interval is closed.
pub open spec fn between(lower: int, place: int, upper: int, closed: bool) -> bool {
    if closed {
        lower <= place <= upper
    } else {
        lower < place < upper
    }
}

/// Whether the decimal `c` lies in the interval from `lower` to `upper`,
/// which are given in units of `10^f / unit`.
pub open spec fn lies_in(
    c: DecimalView,
    f: int,
    unit: int,
    lower: int,
    upper: int,
    closed: bool,
) -> bool {
    if c.exp >= f {
        between(lower, c.mant * pow10((c.exp - f) as nat) * unit, upper, closed)
    } else {
        between(
            lower * pow10((f - c.exp) as nat),
            c.mant * unit,
            upper * pow10((f - c.exp) as nat),
            closed,
        )
    }
}

impl BinaryView {
    /// Whether the decimal `c`, of any exponent, reads back as the float of
    /// the magnitude `self`, a power of two whose neighbour below lies at
    /// half the distance of the neighbour above.
    pub open spec fn reads_back_any_uncentered(self, c: DecimalView) -> bool {
        lies_in(
            c,
            self.exp_floor() - 1,
            4 * self.ulp_denominator(),
            10 * ((4 * self.mant - 1) * self.ulp_numerator()),
            10 * ((4 * self.mant + 2) * self.ulp_numerator()),
            true,
        )
    }

    /// Whether the decimal `c`, of any exponent, reads back as the float of
    /// the magnitude `self`.
    pub open spec fn reads_back_as(self, c: DecimalView) -> bool {
        if self.is_centered() {
            self.reads_back_any(c)
        } else {
            self.reads_back_any_uncentered(c)
        }
    }

    /// The integer that a small integer is.
    pub open spec fn whole(self) -> int {
        self.mant / (pow2((-self.exp) as nat) as int)
    }
}

/// Where a decimal `c` of an interval has fewer digits than a decimal `d` of
/// it, a multiple of the power of ten above the exponent of `d` lies in the
/// interval too: the mantissa of that multiple is the result.
pub proof fn lemma_shorter_gives_multiple(
    c: DecimalView,
    d: DecimalView,
    f: int,
    unit: int,
    lower: int,
    upper: int,
    closed: bool,
) -> (t: int)
    requires
        unit >= 1,
        lower >= 0,
        c.mant >= 1,
        d.mant >= 1,
        d.exp >= f,
        lies_in(c, f, unit, lower, upper, closed),
        lies_in(d, f, unit, lower, upper, closed),
        digit_count(c.mant as nat) < digit_count(d.mant as nat),
    ensures
        t >= 1,
        lies_in(DecimalView { exp: d.exp + 1, mant: t }, f, unit, lower, upper, closed),
{
    let j = digit_count(c.mant as nat);
    lemma_power_between(c.mant as nat, d.mant as nat);
    let p = pow10(j) as int;
    let above = (d.exp + 1 - f) as nat;
    let dd = pow10((d.exp - f) as nat) as int;
    lemma_pow10_step((d.exp - f) as nat);
    lemma_pow10_step(0);
    let place_d = d.mant * dd * unit;
    if c.exp > d.exp {
        let gap = (c.exp - d.exp - 1) as nat;
        let t = c.mant * pow10(gap);
        lemma_pow10_adds(gap, above);
        lemma_pow10_step(gap);
        assert(t * pow10(above) * unit == c.mant * pow10((c.exp - f) as nat) * unit)
            by (nonlinear_arith)
            requires
                t == c.mant * pow10(gap),
                pow10((c.exp - f) as nat) == pow10(gap) * pow10(above),
        ;
        assert(t >= 1) by (nonlinear_arith)
            requires
                t == c.mant * pow10(gap),
                c.mant >= 1,
                pow10(gap) >= 1,
        ;
        t
    } else {
        let t = pow10((j - 1) as nat) as int;
        lemma_pow10_step((j - 1) as nat);
        let place_t = t * pow10(above) * unit;
        assert(place_t == p * dd * unit) by (nonlinear_arith)
            requires
                place_t == t * pow10(above) * unit,
                pow10(above) == 10 * dd,
                p == 10 * t,
        ;
        assert(place_t <= place_d) by (nonlinear_arith)
            requires
                place_t == p * dd * unit,
                place_d == d.mant * dd * unit,
                p <= d.mant,
                dd >= 1,
                unit >= 1,
        ;
        if c.exp >= f {
            let dc = pow10((c.exp - f) as nat) as int;
            lemma_pow10_monotonic((c.exp - f) as nat, (d.exp - f) as nat);
            lemma_pow10_step((c.exp - f) as nat);
            assert(c.mant * dc * unit < place_t) by (nonlinear_arith)
                requires
                    place_t == p * dd * unit,
                    c.mant < p,
                    1 <= dc <= dd,
                    unit >= 1,
                    c.mant >= 1,
            ;
        } else {
            let wc = pow10((f - c.exp) as nat) as int;
            lemma_pow10_step((f - c.exp) as nat);
            assert(lower < place_t) by (nonlinear_arith)
                requires
                    place_t == p * dd * unit,
                    lower * wc <= c.mant * unit,
                    c.mant < p,
                    wc >= 1,
                    dd >= 1,
                    unit >= 1,
                    lower >= 0,
            ;
        }
        t
    }
}

/// Fewest digits where the reduction takes the upper end of the rounding
/// interval of an odd mantissa: a tenth of that end, without its trailing
/// zeros, has no more digits than any decimal that reads back as the value.
pub proof fn lemma_fewest_digits_at_upper_end(b: BinaryView, c: DecimalView)
    requires
        b.wf(),
        b.is_centered(),
        !b.is_small_integer(),
        b.takes_upper_end(),
        c.mant >= 1,
        b.reads_back_any(c),
    ensures
        digit_count(b.teju_jagua().mant as nat) <= digit_count(c.mant as nat),
{
    let f = b.exp_floor();
    let m = b.mant;
    let h = b.ulp_numerator();
    let l = b.ulp_denominator();
    let unit = 2 * l;
    let d = b.teju_jagua();
    let high = b.scaled(2 * m + 1);
    let q = high / 10;
    let long = DecimalView { exp: f + 1, mant: q };
    let lower = b.lower_end();
    let upper = b.upper_end();
    lemma_upper_end_taken(b);
    lemma_remove_trailing_zeros(long);
    lemma_scaled_ends(b);
    lemma_fundamental_div_mod(upper, unit);
    let gained = (d.exp - long.exp) as nat;
    lemma_pow10_step(gained);
    lemma_pow10_step(gained + 1);
    assert(d.mant * pow10(gained + 1) * unit == upper) by (nonlinear_arith)
        requires
            d.mant * pow10(gained) == q,
            pow10(gained + 1) == 10 * pow10(gained),
            10 * q == high,
            upper == unit * high,
    ;
    if digit_count(c.mant as nat) < digit_count(d.mant as nat) {
        assert(lies_in(c, f, unit, lower, upper, true));
        assert(lies_in(d, f, unit, lower, upper, true));
        let t = lemma_shorter_gives_multiple(c, d, f, unit, lower, upper, true);
        let y = t * pow10(gained + 1);
        lemma_pow10_step(gained + 2);
        assert(lower <= (10 * y) * unit <= upper) by (nonlinear_arith)
            requires
                lower <= t * pow10(gained + 2) * unit <= upper,
                pow10(gained + 2) == 10 * pow10(gained + 1),
                y == t * pow10(gained + 1),
        ;
        assert(y == q) by (nonlinear_arith)
            requires
                lower <= (10 * y) * unit <= upper,
                upper == unit * high,
                upper - lower == 2 * h,
                h < 10 * l,
                unit == 2 * l,
                l >= 1,
                high == 10 * q,
        ;
        assert(d.mant == 10 * t) by (nonlinear_arith)
            requires
                d.mant * pow10(gained) == q,
                q == t * pow10(gained + 1),
                pow10(gained + 1) == 10 * pow10(gained),
                pow10(gained) >= 1,
        ;
        assert(false);
    }
}

/// At a power of two the lower end of the rounding interval is a whole number
/// of units of the decimal exponent only where that exponent is zero and the
/// residual at least two; and then it is no multiple of five.
proof fn lemma_uncentered_lower_end(b: BinaryView, y: int)
    requires
        b.wf(),
        !b.is_centered(),
        !b.is_small_integer(),
        (4 * b.mant - 1) * b.ulp_numerator() == y * (4 * b.ulp_denominator()),
    ensures
        b.exp_floor() == 0,
        b.residual() >= 2,
        y % 5 != 0,
{
    let f = b.exp_floor();
    let r = b.residual();
    let e0 = exp_base(f);
    let odd = 0x3f_ffff_ffff_ffffint;
    assert(odd == 4 * b.mant - 1);
    lemma_wide(b);
    lemma_exp_base(b.exp);
    lemma_run_bounds(b.exp);
    lemma2_to64();
    lemma_pow5_step(0);
    lemma_pow10_step(0);
    lemma_pow2_pos(r);
    if f > 0 {
        let rest = pow10((f - 1) as nat) as int;
        lemma_pow10_step((f - 1) as nat);
        lemma_pow2_adds(r, e0 as nat);
        let shift = pow2(r + (e0 as nat)) as int;
        assert(odd * shift == (8 * y * rest) * 5) by (nonlinear_arith)
            requires
                odd * (pow2(r) * pow2(e0 as nat)) == y * (4 * (10 * rest)),
                shift == pow2(r) * pow2(e0 as nat),
        ;
        lemma_mod_multiples_basic(8 * y * rest, 5);
        assert(pow5(1) == 5);
        lemma_pow5_divides(odd, 1, r + (e0 as nat));
        assert(false);
    } else if f == 0 {
        assert(e0 == 0 && b.exp == r);
        lemma_small_shift(odd, r);
        assert(odd * pow2(r) == 4 * y) by (nonlinear_arith)
            requires
                odd * (pow2(r) * numerator(f)) == y * (4 * denominator(f)),
                numerator(f) == 1,
                denominator(f) == 1,
        ;
    } else {
        let k = (-f) as nat;
        let five = pow5(k) as int;
        lemma_pow5_step(k);
        lemma_pow5_odd(k);
        lemma_pow10_factors(k);
        lemma_pow2_adds(r, k);
        lemma_pow2_adds((-e0) as nat, 2);
        lemma_odd_product(odd, five);
        assert(odd * five >= 1) by (nonlinear_arith)
            requires
                odd >= 1,
                five >= 1,
        ;
        let top = pow2((2 - e0) as nat) as int;
        assert((odd * five) * pow2(r + k) == y * top) by (nonlinear_arith)
            requires
                odd * (pow2(r) * (pow2(k) * five)) == y * (4 * pow2((-e0) as nat)),
                pow2(r + k) == pow2(r) * pow2(k),
                top == pow2((-e0) as nat) * 4,
        ;
        assert(2 - e0 > r + k);
        lemma_odd_times_pow2(odd * five, (2 - e0) as nat, r + k);
        lemma_mod_multiples_basic(y, top);
        assert(false);
    }
}

impl BinaryView {
    /// The lower end of the rounding interval of a power of two, rounded
    /// down to units of the decimal exponent.
    pub open spec fn low_uncentered(self) -> int {
        self.scaled(4 * self.mant - 1) / 2
    }

    /// The upper end of the rounding interval, rounded down to units of the
    /// decimal exponent.
    pub open spec fn high_scaled(self) -> int {
        self.scaled(2 * self.mant + 1)
    }
}

/// A whole number `y` of units of the decimal exponent in the rounding
/// interval of a power of two lies above the lower end, rounded down; and
/// where it is a multiple of ten, it is the largest one below the upper end.
proof fn lemma_uncentered_multiple(b: BinaryView, y: int)
    requires
        b.wf(),
        !b.is_centered(),
        !b.is_small_integer(),
        (4 * b.mant - 1) * b.ulp_numerator() <= y * (4 * b.ulp_denominator()),
        y * (4 * b.ulp_denominator()) <= (4 * b.mant + 2) * b.ulp_numerator(),
    ensures
        0 <= b.low_uncentered() < b.high_scaled(),
        y % 10 == 0 ==> b.low_uncentered() < y && y == 10 * (b.high_scaled() / 10),
{
    let f = b.exp_floor();
    let m = b.mant;
    let h = b.ulp_numerator();
    let l = b.ulp_denominator();
    let u = 4 * l;
    lemma_wide(b);
    lemma_run_bounds(b.exp);
    let lower = (4 * m - 1) * h;
    let upper = (4 * m + 2) * h;
    assert(lower >= 0 && upper == lower + 3 * h) by (nonlinear_arith)
        requires
            lower == (4 * m - 1) * h,
            upper == (4 * m + 2) * h,
            m >= 1,
            h >= 1,
    ;
    // the scaled ends are the ends, rounded down
    lemma_scaled_exact_centered(b, 4 * m - 1);
    lemma_scaled_exact_centered(b, 2 * m + 1);
    let below = b.scaled(4 * m - 1);
    let low = b.low_uncentered();
    let high = b.high_scaled();
    lemma_fundamental_div_mod(lower, 2 * l);
    lemma_fundamental_div_mod((2 * m + 1) * h, 2 * l);
    assert(low * u <= lower < (low + 1) * u) by (nonlinear_arith)
        requires
            lower == (2 * l) * below + lower % (2 * l),
            0 <= lower % (2 * l) < 2 * l,
            2 * low <= below <= 2 * low + 1,
            u == 4 * l,
            l >= 1,
    ;
    assert(high * u <= upper < (high + 1) * u) by (nonlinear_arith)
        requires
            (2 * m + 1) * h == (2 * l) * high + ((2 * m + 1) * h) % (2 * l),
            0 <= ((2 * m + 1) * h) % (2 * l) < 2 * l,
            upper == (4 * m + 2) * h,
            u == 4 * l,
    ;
    assert(h < 10 * l) by (nonlinear_arith)
        requires
            h == pow2(b.residual()) * numerator(f),
            numerator(f) * pow2(b.residual()) < 10 * l,
    ;
    assert(0 <= low <= y <= high && high <= low + 8) by (nonlinear_arith)
        requires
            low * u <= lower < (low + 1) * u,
            high * u <= upper < (high + 1) * u,
            lower <= y * u <= upper,
            upper == lower + 3 * h,
            lower >= 0,
            h < 10 * l,
            u == 4 * l,
            l >= 1,
    ;
    if y == low {
        // the lower end itself
        assert(lower == y * u) by (nonlinear_arith)
            requires
                low * u <= lower,
                lower <= y * u,
                y == low,
        ;
        lemma_uncentered_lower_end(b, y);
        lemma_pow2_adds(2, (b.residual() - 2) as nat);
        lemma_pow2_pos((b.residual() - 2) as nat);
        lemma2_to64();
        assert(3 * h >= 3 * u) by (nonlinear_arith)
            requires
                h == pow2(b.residual()) * numerator(f),
                pow2(b.residual()) >= 4,
                numerator(f) >= l,
                l >= 1,
                u == 4 * l,
        ;
        assert(high >= y + 2) by (nonlinear_arith)
            requires
                upper == lower + 3 * h,
                3 * h >= 3 * u,
                lower == y * u,
                upper < (high + 1) * u,
                u >= 1,
        ;
    }
}

/// The exponent of the decimal of the reduction at a power of two: above
/// the decimal exponent where a multiple of ten is taken, one below it where
/// the interval holds no unit, and the decimal exponent else.
proof fn lemma_uncentered_shape(b: BinaryView)
    requires
        b.wf(),
        !b.is_centered(),
        !b.is_small_integer(),
    ensures
        b.low_uncentered() < 10 * (b.high_scaled() / 10) ==> b.teju_jagua() == (DecimalView {
            exp: b.exp_floor() + 1,
            mant: b.high_scaled() / 10,
        }).remove_trailing_zeros(),
        10 * (b.high_scaled() / 10) <= b.low_uncentered() < b.high_scaled() ==> b.teju_jagua().exp
            == b.exp_floor(),
        b.low_uncentered() >= b.high_scaled() ==> b.teju_jagua().exp == b.exp_floor() - 1,
{
    lemma_no_uncentered_tie(b);
    assert(b.teju_jagua() == b.teju_jagua_uncentered());
}

/// Fewest digits at a power of two: no decimal that reads back as the value
/// has fewer digits than the decimal of the reduction.
pub proof fn law_fewest_digits_uncentered(b: BinaryView, c: DecimalView)
    requires
        b.wf(),
        !b.is_centered(),
        !b.is_small_integer(),
        c.mant >= 1,
        b.reads_back_any_uncentered(c),
    ensures
        digit_count(b.teju_jagua().mant as nat) <= digit_count(c.mant as nat),
{
    let f = b.exp_floor();
    let m = b.mant;
    let h = b.ulp_numerator();
    let u = 4 * b.ulp_denominator();
    let d = b.teju_jagua();
    law_reads_back_uncentered(b);
    lemma_teju_jagua_wf(b);
    lemma_wide(b);
    if digit_count(c.mant as nat) < digit_count(d.mant as nat) {
        let lower = (4 * m - 1) * h;
        let upper = (4 * m + 2) * h;
        assert(lower >= 0) by (nonlinear_arith)
            requires
                lower == (4 * m - 1) * h,
                m >= 1,
                h >= 1,
        ;
        let t = lemma_shorter_gives_multiple(c, d, f - 1, u, 10 * lower, 10 * upper, true);
        let above = (d.exp + 1 - f) as nat;
        let step = pow10(above) as int;
        lemma_pow10_step(above);
        let y = t * step;
        assert(lower <= y * u <= upper && y >= 1) by (nonlinear_arith)
            requires
                10 * lower <= t * pow10((d.exp + 2 - f) as nat) * u <= 10 * upper,
                pow10((d.exp + 2 - f) as nat) == 10 * step,
                y == t * step,
                t >= 1,
                step >= 1,
        ;
        lemma_uncentered_multiple(b, y);
        lemma_uncentered_shape(b);
        let q = b.high_scaled() / 10;
        let long = DecimalView { exp: f + 1, mant: q };
        if d.exp == f {
            // a multiple of ten in the interval is taken
            lemma_pow10_step(0);
            assert(y == 10 * t) by (nonlinear_arith)
                requires
                    y == t * step,
                    step == 10,
            ;
            assert(q >= 1);
            lemma_remove_trailing_zeros(long);
            assert(false);
        } else if d.exp > f {
            // the multiple of ten that the reduction takes is the only one
            assert(d == long.remove_trailing_zeros());
            lemma_remove_trailing_zeros(long);
            let gained = (d.exp - long.exp) as nat;
            lemma_pow10_step(gained);
            lemma_pow10_step(gained + 1);
            assert(y == 10 * (t * pow10(gained + 1))) by (nonlinear_arith)
                requires
                    y == t * step,
                    step == 10 * pow10(gained + 1),
            ;
            assert(y % 10 == 0);
            assert(d.mant == 10 * t) by (nonlinear_arith)
                requires
                    d.mant * pow10(gained) == q,
                    10 * q == 10 * (t * pow10(gained + 1)),
                    pow10(gained + 1) == 10 * pow10(gained),
                    pow10(gained) >= 1,
            ;
            assert(false);
        } else {
            // the interval holds a whole unit
            if b.low_uncentered() < 10 * q {
                lemma_remove_trailing_zeros(long);
            }
            assert(false);
        }
    }
}

/// No zero left behind at a power of two: the mantissa of the reduction does
/// not end in a zero. A tenth of it with the next exponent would read back
/// with one digit less.
pub proof fn law_no_trailing_zero_uncentered(b: BinaryView)
    requires
        b.wf(),
        !b.is_centered(),
        !b.is_small_integer(),
    ensures
        b.teju_jagua().mant % 10 != 0,
{
    let f = b.exp_floor();
    let d = b.teju_jagua();
    let u = 4 * b.ulp_denominator();
    law_reads_back_uncentered(b);
    lemma_teju_jagua_wf(b);
    if d.mant % 10 == 0 {
        let tenth = DecimalView { exp: d.exp + 1, mant: d.mant / 10 };
        let above = (d.exp - f + 1) as nat;
        lemma_pow10_step(above);
        assert(tenth.mant * pow10(above + 1) * u == d.mant * pow10(above) * u) by (nonlinear_arith)
            requires
                d.mant == 10 * tenth.mant,
                pow10(above + 1) == 10 * pow10(above),
        ;
        assert(b.reads_back_any_uncentered(tenth));
        law_fewest_digits_uncentered(b, tenth);
    }
}

/// An integer without its trailing zeros lies in an interval that holds the
/// integer and neither of its neighbours, and no decimal of the interval has
/// fewer digits.
proof fn lemma_fewest_digits_of_integer(
    n: int,
    c: DecimalView,
    f: int,
    unit: int,
    lower: int,
    upper: int,
    closed: bool,
)
    requires
        n >= 1,
        f <= 0,
        unit >= 1,
        lower >= 0,
        (n - 1) * (pow10((-f) as nat) * unit) < lower,
        lower < n * (pow10((-f) as nat) * unit) < upper,
        upper < (n + 1) * (pow10((-f) as nat) * unit),
    ensures
        lies_in(
            (DecimalView { exp: 0, mant: n }).remove_trailing_zeros(),
            f,
            unit,
            lower,
            upper,
            closed,
        ),
        c.mant >= 1 && lies_in(c, f, unit, lower, upper, closed) ==> digit_count(
            (DecimalView { exp: 0, mant: n }).remove_trailing_zeros().mant as nat,
        ) <= digit_count(c.mant as nat),
{
    let whole = pow10((-f) as nat) * unit;
    let d = (DecimalView { exp: 0, mant: n }).remove_trailing_zeros();
    lemma_remove_trailing_zeros(DecimalView { exp: 0, mant: n });
    let zeros = d.exp as nat;
    lemma_pow10_adds(zeros, (-f) as nat);
    lemma_pow10_step(zeros);
    lemma_pow10_step((-f) as nat);
    assert(d.mant * pow10((d.exp - f) as nat) * unit == n * whole) by (nonlinear_arith)
        requires
            d.mant * pow10(zeros) == n,
            pow10((d.exp - f) as nat) == pow10(zeros) * pow10((-f) as nat),
            whole == pow10((-f) as nat) * unit,
    ;
    assert(whole >= 1) by (nonlinear_arith)
        requires
            whole == pow10((-f) as nat) * unit,
            pow10((-f) as nat) >= 1,
            unit >= 1,
    ;
    if c.mant >= 1 && lies_in(c, f, unit, lower, upper, closed) && digit_count(c.mant as nat)
        < digit_count(d.mant as nat) {
        let t = lemma_shorter_gives_multiple(c, d, f, unit, lower, upper, closed);
        lemma_pow10_adds(zeros + 1, (-f) as nat);
        let other = t * pow10(zeros + 1);
        assert(t * pow10((d.exp + 1 - f) as nat) * unit == other * whole) by (nonlinear_arith)
            requires
                pow10((d.exp + 1 - f) as nat) == pow10(zeros + 1) * pow10((-f) as nat),
                other == t * pow10(zeros + 1),
                whole == pow10((-f) as nat) * unit,
        ;
        assert(other == n) by (nonlinear_arith)
            requires
                (n - 1) * whole < lower,
                upper < (n + 1) * whole,
                lower <= other * whole <= upper,
                whole >= 1,
        ;
        assert(d.mant == 10 * t) by (nonlinear_arith)
            requires
                d.mant * pow10(zeros) == n,
                n == t * pow10(zeros + 1),
                pow10(zeros + 1) == 10 * pow10(zeros),
                pow10(zeros) >= 1,
        ;
        assert(false);
    }
}

/// Fewest digits of a small integer: the integer without its trailing zeros
/// reads back as the value, and no decimal that reads back as the value has
/// fewer digits.
pub proof fn law_fewest_digits_small_integer(b: BinaryView, c: DecimalView)
    requires
        b.wf(),
        b.is_small_integer(),
    ensures
        b.reads_back_as(b.teju_jagua()),
        b.teju_jagua().mant % 10 != 0,
        c.mant >= 1 && b.reads_back_as(c) ==> digit_count(b.teju_jagua().mant as nat)
            <= digit_count(c.mant as nat),
{
    let f = b.exp_floor();
    let r = b.residual();
    let m = b.mant;
    let h = b.ulp_numerator();
    let l = b.ulp_denominator();
    let n = b.whole();
    let e0 = exp_base(f);
    let down = pow2((-b.exp) as nat) as int;
    lemma_exp_base(b.exp);
    lemma_run_bounds(b.exp);
    lemma2_to64();
    lemma_pow10_step(0);
    lemma_pow2_pos(r);
    lemma_pow2_pos((-b.exp) as nat);
    lemma_fundamental_div_mod(m, down);
    assert(m == down * n);
    assert(n >= 1) by (nonlinear_arith)
        requires
            m == down * n,
            m >= 1,
            down >= 1,
    ;
    assert(f <= 0);
    lemma_remove_trailing_zeros(DecimalView { exp: 0, mant: n });
    let whole = pow10((-f) as nat) * (2 * l);
    // the value is the integer, and half a unit in the last place is at most
    // half of one
    assert(2 * m * h == n * whole && 1 <= h && 2 * h <= whole) by {
        if f == 0 {
            assert(b.exp == 0 && e0 == 0 && r == 0);
            assert(l == 1 && down == 1);
            assert(2 * m * h == n * whole && 1 <= h && 2 * h <= whole) by (nonlinear_arith)
                requires
                    h == pow2(r) * numerator(f),
                    pow2(r) == 1,
                    numerator(f) == 1,
                    whole == pow10((-f) as nat) * (2 * l),
                    pow10((-f) as nat) == 1,
                    l == 1,
                    m == down * n,
                    down == 1,
            ;
        } else {
            let k = (-f) as nat;
            lemma_pow10_step(k);
            lemma_pow2_adds((-b.exp) as nat, r);
            lemma_pow2_pos((-e0) as nat);
            assert(2 * m * h == n * whole && 1 <= h && 2 * h <= whole) by (nonlinear_arith)
                requires
                    h == pow2(r) * pow10(k),
                    l == down * pow2(r),
                    whole == pow10(k) * (2 * l),
                    m == down * n,
                    down >= 1,
                    pow2(r) >= 1,
                    pow10(k) >= 1,
            ;
        }
    }
    if b.is_centered() {
        let lower = (2 * m - 1) * h;
        let upper = (2 * m + 1) * h;
        assert(lower == n * whole - h && upper == n * whole + h && lower >= 0 && (n - 1) * whole
            == n * whole - whole && (n + 1) * whole == n * whole + whole) by (nonlinear_arith)
            requires
                lower == (2 * m - 1) * h,
                upper == (2 * m + 1) * h,
                2 * m * h == n * whole,
                m >= 1,
                h >= 1,
        ;
        lemma_fewest_digits_of_integer(n, c, f, 2 * l, lower, upper, m % 2 == 0);
    } else {
        let lower = 10 * ((4 * m - 1) * h);
        let upper = 10 * ((4 * m + 2) * h);
        lemma_pow10_step((-f) as nat);
        let wide = pow10((1 - f) as nat) * (4 * l);
        assert(wide == 20 * whole) by (nonlinear_arith)
            requires
                wide == pow10((1 - f) as nat) * (4 * l),
                pow10((1 - f) as nat) == 10 * pow10((-f) as nat),
                whole == pow10((-f) as nat) * (2 * l),
        ;
        assert(lower == n * wide - 10 * h && upper == n * wide + 20 * h && lower >= 0 && (n - 1)
            * wide == n * wide - wide && (n + 1) * wide == n * wide + wide) by (nonlinear_arith)
            requires
                lower == 10 * ((4 * m - 1) * h),
                upper == 10 * ((4 * m + 2) * h),
                2 * m * h == n * whole,
                wide == 20 * whole,
                m >= 1,
                h >= 1,
        ;
        lemma_fewest_digits_of_integer(n, c, f - 1, 4 * l, lower, upper, true);
    }
}

/// Roundtrip: the decimal of the reduction reads back as the value, unless
/// the reduction takes the upper end of the rounding interval of an odd
/// mantissa.
pub proof fn law_decimal_reads_back(b: BinaryView)
    requires
        b.wf(),
        b.is_small_integer() || !b.is_centered() || !b.takes_upper_end(),
    ensures
        b.reads_back_as(b.teju_jagua()),
{
    if b.is_small_integer() {
        law_fewest_digits_small_integer(b, b.teju_jagua());
    } else if !b.is_centered() {
        law_reads_back_uncentered(b);
    } else {
        law_reads_back(b);
    }
}

/// Fewest digits: no decimal that reads back as the value has fewer digits
/// than the decimal of the reduction, unless the reduction keeps its digits
/// beside a multiple of ten inside the interval.
pub proof fn law_decimal_has_fewest_digits(b: BinaryView, c: DecimalView)
    requires
        b.wf(),
        b.is_small_integer() || !b.is_centered() || !b.keeps_long(),
        c.mant >= 1,
        b.reads_back_as(c),
    ensures
        digit_count(b.teju_jagua().mant as nat) <= digit_count(c.mant as nat),
{
    if b.is_small_integer() {
        law_fewest_digits_small_integer(b, c);
    } else if !b.is_centered() {
        law_fewest_digits_uncentered(b, c);
    } else {
        law_fewest_digits(b, c);
    }
}

/// No zero left behind: the mantissa of the decimal of the reduction never
/// ends in a zero.
pub proof fn law_decimal_has_no_trailing_zero(b: BinaryView)
    requires
        b.wf(),
    ensures
        b.teju_jagua().mant % 10 != 0,
{
    if b.is_small_integer() {
        law_fewest_digits_small_integer(b, b.teju_jagua());
    } else if !b.is_centered() {
        law_no_trailing_zero_uncentered(b);
    } else {
        law_no_trailing_zero(b);
    }
}

} // verus!

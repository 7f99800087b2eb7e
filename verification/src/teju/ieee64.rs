//! The binary64 format: decoding a bit pattern, reducing it to a short
//! decimal, and rendering the decimal as text.

use vstd::prelude::*;
use vstd::arithmetic::div_mod::{
    lemma_div_is_ordered, lemma_fundamental_div_mod, lemma_fundamental_div_mod_converse,
    lemma_mod_multiples_basic,
};
use vstd::arithmetic::power2::{lemma2_to64, lemma2_to64_rest, lemma_pow2_pos, pow2};
use vstd::bits::{
    lemma_u64_low_bits_mask_is_mod, lemma_u64_shl_is_mul, lemma_u64_shr_is_div, low_bits_mask,
};
use crate::teju::common::{
    exp_log10_pow2, exp_log10_pow2_residual, floor_log10_pow2, floor_log10_pow2_residual, Exp,
    Multiplier,
};
use crate::teju::fmt::{digit_count, lemma_digit_count_le, lemma_div_less};
use crate::teju::lut::{
    lemma_mult_inverse, lemma_multiplier_high_bit, lemma_multiplier_residual_bound, mult_inverses,
    multiplier, multipliers, MAX_EXP, MAX_EXP_FLOOR, MIN_EXP, MIN_EXP_FLOOR, MULT_INVERSES_LEN,
};
use crate::teju::accuracy::{law_accuracy, within_three_ulps};
use crate::teju::logarithm::is_log10_pow2;
use crate::teju::roundtrip::{law_reads_back, law_reads_back_uncentered};
use crate::teju::fewest::{
    law_decimal_has_fewest_digits, law_decimal_has_no_trailing_zero, law_decimal_reads_back,
};
use crate::teju::power::{lemma_pow10_monotonic, lemma_pow10_step, lemma_pow10_values, pow10, pow5};

verus! {

/// The mantissa is an unsigned integer as wide as the float.
pub type Mant = u64;

/// Number of bits of precision of the mantissa, the implicit leading bit
/// included.
pub const BITS_MANTISSA: u32 = 53;

/// Number of bits of the mantissa that are stored.
pub const BITS_MANTISSA_EXPLICIT: u32 = 52;

/// One more than the largest stored mantissa: the implicit leading bit.
pub const MAX_MANT: Mant = 0x10_0000_0000_0000;

/// The mask that clears the sign bit.
pub const ABS_MASK: u64 = 0x7fff_ffff_ffff_ffff;

/// Smallest decimal exponent that the reduction gives.
pub const MIN_DECIMAL_EXP: Exp = -325;

/// Largest sum of decimal exponent and number of digits that the reduction
/// gives: the place of the decimal point, counted from the first digit.
pub const MAX_DECIMAL_POINT: Exp = 309;

/// The magnitude `mant * 2^exp`.
pub struct BinaryView {
    pub exp: int,
    pub mant: int,
}

/// The magnitude `mant * 10^exp`.
pub struct DecimalView {
    pub exp: int,
    pub mant: int,
}

/// The absolute value of a float, decoded into exponent and mantissa.
#[derive(Clone, Copy, Debug, PartialEq, Eq)]
pub struct Binary {
    pub exp: Exp,
    pub mant: Mant,
}

/// A decimal representation of the absolute value of a float.
#[derive(Clone, Copy, Debug, PartialEq, Eq)]
pub struct Decimal {
    pub exp: Exp,
    pub mant: Mant,
}

impl View for Binary {
    type V = BinaryView;

    open spec fn view(&self) -> BinaryView {
        BinaryView { exp: self.exp as int, mant: self.mant as int }
    }
}

impl View for Decimal {
    type V = DecimalView;

    open spec fn view(&self) -> DecimalView {
        DecimalView { exp: self.exp as int, mant: self.mant as int }
    }
}

/// The magnitude that a bit pattern stands for: the low 52 bits are the
/// stored mantissa, the next 11 the biased exponent. A nonzero biased
/// exponent brings the implicit leading bit and counts from one.
pub open spec fn decode(bits: u64) -> BinaryView {
    let stored = (bits as int) % 0x10_0000_0000_0000;
    let biased = ((bits as int) / 0x10_0000_0000_0000) % 0x800;
    if biased == 0 {
        BinaryView { exp: MIN_EXP as int, mant: stored }
    } else {
        BinaryView { exp: biased - 1 + MIN_EXP, mant: stored + 0x10_0000_0000_0000 }
    }
}

/// The product `a * mult`, where `mult` is read as a fraction of `2^128`,
/// rounded down.
pub open spec fn mul_shift(a: int, mult: Multiplier<u64>) -> int {
    (a * (mult.hi as int * 0x1_0000_0000_0000_0000 + mult.lo as int))
        / 0x1_0000_0000_0000_0000_0000_0000_0000_0000int
}

/// Half of `c2`, rounded to the nearest integer: down where `c2` is even, and
/// to the even neighbour where `c2` is odd and a multiple of `5^-f`.
pub open spec fn nearest_half(f: int, c2: int) -> int {
    let c = c2 / 2;
    if c2 % 2 == 0 || (c % 2 == 0 && (DecimalView { exp: -f, mant: c2 }).is_tie()) {
        c
    } else {
        c + 1
    }
}

/// Calculates `a * mult / 2^128` without overflow, from the two partial
/// products with the halves of `mult`.
pub fn multiword_multiply_shift(a: Mant, mult: &Multiplier<Mant>) -> (r: Mant)
    ensures
        r == mul_shift(a as int, *mult),
{
    proof {
        assert(mult.hi * a <= 0xffff_ffff_ffff_ffff * 0xffff_ffff_ffff_ffff) by (nonlinear_arith)
            requires
                mult.hi <= 0xffff_ffff_ffff_ffff,
                a <= 0xffff_ffff_ffff_ffff,
        ;
        assert(mult.lo * a <= 0xffff_ffff_ffff_ffff * 0xffff_ffff_ffff_ffff) by (nonlinear_arith)
            requires
                mult.lo <= 0xffff_ffff_ffff_ffff,
                a <= 0xffff_ffff_ffff_ffff,
        ;
    }
    let result_hi: u128 = mult.hi as u128 * a as u128;
    let result_lo: u128 = mult.lo as u128 * a as u128;
    let carry: u128 = result_lo >> 64;
    proof {
        assert(carry == result_lo / 0x1_0000_0000_0000_0000) by (bit_vector)
            requires
                carry == result_lo >> 64,
        ;
    }
    let sum: u128 = result_hi + carry;
    let result: u128 = sum >> 64;
    proof {
        assert(result == sum / 0x1_0000_0000_0000_0000) by (bit_vector)
            requires
                result == sum >> 64,
        ;
        let w = 0x1_0000_0000_0000_0000int;
        let low = result_lo as int % w;
        assert((a as int) * (mult.hi as int * w + mult.lo as int) == (sum as int) * w + low)
            by (nonlinear_arith)
            requires
                sum as int == (mult.hi as int) * (a as int) + carry as int,
                (mult.lo as int) * (a as int) == w * (carry as int) + low,
        ;
        let quot = sum as int / w;
        let rem = sum as int % w;
        assert((sum as int) * w + low == (w * w) * quot + (rem * w + low)) by (nonlinear_arith)
            requires
                sum as int == w * quot + rem,
        ;
        lemma_fundamental_div_mod_converse(
            (sum as int) * w + low,
            0x1_0000_0000_0000_0000_0000_0000_0000_0000int,
            quot,
            rem * w + low,
        );
    }
    result as Mant
}

/// Calculates `multiword_multiply_shift(2^k, mult)` from shifts of the halves
/// of `mult`. Above 64 the result keeps its low 64 bits.
pub fn multiword_multiply_shift_pow2(k: u32, mult: &Multiplier<Mant>) -> (r: Mant)
    requires
        k < 128,
    ensures
        k <= 64 ==> r == mul_shift(pow2(k as nat) as int, *mult),
        r == ((pow2(k as nat) * (mult.hi as int * 0x1_0000_0000_0000_0000 + mult.lo as int))
            / 0x1_0000_0000_0000_0000_0000_0000_0000_0000int) % 0x1_0000_0000_0000_0000,
{
    let s: Exp = k as Exp - 64;
    if s <= 0 {
        let shift: u32 = (-s) as u32;
        proof {
            lemma_shift_pow2_low(k as nat, mult.hi, mult.lo);
        }
        if shift == 64 {
            0
        } else {
            mult.hi >> shift
        }
    } else {
        let up: u32 = s as u32;
        let down: u32 = 128 - k;
        proof {
            lemma_shift_pow2_high(k as nat, mult.hi, mult.lo);
        }
        (mult.hi << up) | (mult.lo >> down)
    }
}

/// For `k` up to 64, `2^k` times the multiplier, over `2^128`, is the high
/// half of the multiplier shifted right by `64 - k`.
pub proof fn lemma_shift_pow2_low(k: nat, hi: u64, lo: u64)
    requires
        k <= 64,
    ensures
        (pow2(k) * (hi as int * 0x1_0000_0000_0000_0000 + lo as int))
            / 0x1_0000_0000_0000_0000_0000_0000_0000_0000int == (if k == 0 {
            0
        } else {
            (hi >> ((64 - k) as u32)) as int
        }),
        (pow2(k) * (hi as int * 0x1_0000_0000_0000_0000 + lo as int))
            / 0x1_0000_0000_0000_0000_0000_0000_0000_0000int < 0x1_0000_0000_0000_0000,
{
    let w = 0x1_0000_0000_0000_0000int;
    let m = hi as int * w + lo as int;
    let p = pow2(k) as int;
    let rest = pow2((64 - k) as nat) as int;
    lemma2_to64();
    lemma2_to64_rest();
    vstd::arithmetic::power2::lemma_pow2_adds(k, (64 - k) as nat);
    lemma_pow2_pos(k);
    lemma_pow2_pos((64 - k) as nat);
    assert(p * rest == w);
    // m == rest * (m / rest) + m % rest, so p * m == w * (m / rest) + p * (m % rest)
    let q = m / rest;
    let r = m % rest;
    lemma_fundamental_div_mod(m, rest);
    assert(p * m == w * q + p * r) by (nonlinear_arith)
        requires
            m == rest * q + r,
            p * rest == w,
    ;
    assert(0 <= p * r < w) by (nonlinear_arith)
        requires
            0 <= r < rest,
            p * rest == w,
            p > 0,
    ;
    // q == hi * p + lo / rest
    let lq = lo as int / rest;
    let lr = lo as int % rest;
    lemma_fundamental_div_mod(lo as int, rest);
    assert(m == rest * (hi as int * p + lq) + lr) by (nonlinear_arith)
        requires
            m == hi as int * w + lo as int,
            p * rest == w,
            lo as int == rest * lq + lr,
    ;
    lemma_fundamental_div_mod_converse(m, rest, hi as int * p + lq, lr);
    assert(q == hi as int * p + lq);
    // p * m / w^2 == (w * q + p * r) / w^2 == q / w
    let qq = q / w;
    let qr = q % w;
    lemma_fundamental_div_mod(q, w);
    assert(p * m == (w * w) * qq + (w * qr + p * r)) by (nonlinear_arith)
        requires
            p * m == w * q + p * r,
            q == w * qq + qr,
    ;
    lemma_fundamental_div_mod_converse(p * m, w * w, qq, w * qr + p * r);
    assert((p * m) / (w * w) == qq);
    // q / w == hi / rest: q == hi * p + lq with lq < p
    assert(0 <= lq < p) by {
        crate::teju::fmt::lemma_div_less(lo as int, rest, p);
    }
    let hq = hi as int / rest;
    let hr = hi as int % rest;
    lemma_fundamental_div_mod(hi as int, rest);
    assert(q == w * hq + (hr * p + lq)) by (nonlinear_arith)
        requires
            q == hi as int * p + lq,
            hi as int == rest * hq + hr,
            p * rest == w,
    ;
    assert(0 <= hr * p + lq < w) by (nonlinear_arith)
        requires
            0 <= hr < rest,
            0 <= lq < p,
            p * rest == w,
    ;
    lemma_fundamental_div_mod_converse(q, w, hq, hr * p + lq);
    assert(qq == hq);
    if k > 0 {
        lemma_u64_shr_is_div(hi, (64 - k) as u64);
    }
}

/// For `k` between 65 and 127, the low 64 bits of `2^k` times the
/// multiplier, over `2^128`, join the high half shifted left by `k - 64` and
/// the low half shifted right by `128 - k`.
pub proof fn lemma_shift_pow2_high(k: nat, hi: u64, lo: u64)
    requires
        64 < k < 128,
    ensures
        ((pow2(k) * (hi as int * 0x1_0000_0000_0000_0000 + lo as int))
            / 0x1_0000_0000_0000_0000_0000_0000_0000_0000int) % 0x1_0000_0000_0000_0000 == ((hi << (
        (k - 64) as u32)) | (lo >> ((128 - k) as u32))) as int,
{
    let w = 0x1_0000_0000_0000_0000int;
    let m = hi as int * w + lo as int;
    let up = (k - 64) as nat;
    let down = (128 - k) as nat;
    let pu = pow2(up) as int;
    let pd = pow2(down) as int;
    lemma2_to64();
    lemma2_to64_rest();
    vstd::arithmetic::power2::lemma_pow2_adds(up, down);
    vstd::arithmetic::power2::lemma_pow2_adds(64, up);
    lemma_pow2_pos(up);
    lemma_pow2_pos(down);
    assert(pu * pd == w);
    assert(pow2(k) == w * pu);
    // 2^k * m / w^2 == pu * m / w == hi * pu + lo / pd
    let lq = lo as int / pd;
    let lr = lo as int % pd;
    lemma_fundamental_div_mod(lo as int, pd);
    let top = hi as int * pu;
    let low_part = pu * lo as int;
    assert(low_part == w * lq + pu * lr) by (nonlinear_arith)
        requires
            low_part == pu * lo as int,
            lo as int == pd * lq + lr,
            pu * pd == w,
    ;
    let shifted = pu * m;
    assert(shifted == w * top + low_part) by (nonlinear_arith)
        requires
            shifted == pu * m,
            m == hi as int * w + lo as int,
            top == hi as int * pu,
            low_part == pu * lo as int,
    ;
    assert(pow2(k) * m == w * shifted) by (nonlinear_arith)
        requires
            pow2(k) == w * pu,
            shifted == pu * m,
    ;
    assert(w * shifted == (w * w) * (top + lq) + w * (pu * lr)) by (nonlinear_arith)
        requires
            shifted == w * top + (w * lq + pu * lr),
    ;
    assert(pow2(k) * m == (w * w) * (hi as int * pu + lq) + w * (pu * lr));
    assert(0 <= w * (pu * lr) < w * w) by (nonlinear_arith)
        requires
            0 <= lr < pd,
            pu * pd == w,
            pu > 0,
            w > 0,
    ;
    lemma_fundamental_div_mod_converse(pow2(k) * m, w * w, hi as int * pu + lq, w * (pu * lr));
    // the shifts
    let hs = hi << (up as u32);
    let ls = lo >> (down as u32);
    lemma_u64_shr_is_div(lo, down as u64);
    assert(ls == lq);
    assert(0 <= lq < pu) by {
        crate::teju::fmt::lemma_div_less(lo as int, pd, pu);
    }
    // hi << up keeps the low bits of hi * pu
    let keep = hi as int % pd;
    let drop = hi as int / pd;
    lemma_fundamental_div_mod(hi as int, pd);
    assert(0 <= keep * pu < w) by (nonlinear_arith)
        requires
            0 <= keep < pd,
            pu * pd == w,
            pu > 0,
    ;
    assert(hs == keep * pu) by {
        vstd::arithmetic::power2::lemma_pow2_strictly_increases(down, 64);
        lemma_u64_shl_is_mul(1, down as u64);
        lemma_shl_drops_high(hi, up as u32);
        lemma_u64_shl_is_mul(keep as u64, up as u64);
    }
    assert(hi as int * pu + lq == w * drop + (keep * pu + lq)) by (nonlinear_arith)
        requires
            hi as int == pd * drop + keep,
            pu * pd == w,
    ;
    assert(0 <= keep * pu + lq < w) by (nonlinear_arith)
        requires
            0 <= keep < pd,
            0 <= lq < pu,
            pu * pd == w,
    ;
    lemma_fundamental_div_mod_converse(hi as int * pu + lq, w, drop, keep * pu + lq);
    // the two parts do not overlap, so `|` adds them
    assert((hs | ls) == hs + ls) by {
        lemma_or_disjoint(hi, lo, up as u32);
    }
}

/// Shifting left by `up` forgets the bits above the low `64 - up`.
proof fn lemma_shl_drops_high(hi: u64, up: u32)
    requires
        0 < up < 64,
    ensures
        hi << up == ((hi as int % pow2((64 - up) as nat) as int) as u64) << up,
{
    let down = (64 - up) as nat;
    vstd::arithmetic::power2::lemma_pow2_strictly_increases(down, 64);
    lemma2_to64_rest();
    lemma_pow2_pos(down);
    lemma_u64_shl_is_mul(1, down as u64);
    let mask = ((1u64 << (down as u64)) - 1) as u64;
    assert(mask == low_bits_mask(down) as u64);
    lemma_u64_low_bits_mask_is_mod(hi, down);
    assert(hi << up == (hi & (((1u64 << ((64 - up) as u64)) - 1) as u64)) << up) by (bit_vector)
        requires
            0 < up < 64,
    ;
}

/// A word shifted left by `up` and another shifted right by `64 - up` share
/// no bit, so joining them adds them.
proof fn lemma_or_disjoint(hi: u64, lo: u64, up: u32)
    requires
        0 < up < 64,
    ensures
        (hi << up) | (lo >> ((64 - up) as u32)) == (hi << up) + (lo >> ((64 - up) as u32)),
{
    assert((hi << up) | (lo >> ((64 - up) as u32)) == (hi << up) + (lo >> ((64 - up) as u32)))
        by (bit_vector)
        requires
            0 < up < 64,
    ;
}

/// Returns the lowest `n` bits of `x`.
pub fn lsb(x: Mant, n: u32) -> (r: Mant)
    requires
        n < 64,
    ensures
        r == x as int % pow2(n as nat) as int,
{
    proof {
        lemma_pow2_pos(n as nat);
        vstd::arithmetic::power2::lemma_pow2_strictly_increases(n as nat, 64);
        lemma2_to64_rest();
        lemma_u64_shl_is_mul(1, n as u64);
    }
    x % (1u64 << n)
}

/// Checks if `n` is an even number, in which case a mantissa of `n` wins the
/// tiebreak against its neighbours.
pub fn is_even(n: Mant) -> (r: bool)
    ensures
        r == (n % 2 == 0),
{
    n % 2 == 0
}

impl BinaryView {
    /// What decoding a nonzero bit pattern gives: a nonzero mantissa below
    /// `2^53`, with its leading bit set unless the exponent is the smallest.
    pub open spec fn wf(self) -> bool {
        &&& 1 <= self.mant < 0x20_0000_0000_0000
        &&& MIN_EXP <= self.exp <= MAX_EXP
        &&& self.mant < 0x10_0000_0000_0000 ==> self.exp == MIN_EXP
    }

    /// Whether the magnitude is an integer below `2^53`: the exponent is
    /// within 53 below zero, and the mantissa is a multiple of `2^-exp`.
    pub open spec fn is_small_integer(self) -> bool {
        0 <= -self.exp < BITS_MANTISSA && self.mant % (pow2((-self.exp) as nat) as int) == 0
    }

    /// Whether the neighbours of the value lie at the same distance on both
    /// sides: not so at a power of two above the smallest exponent, where
    /// the spacing below is half the spacing above.
    pub open spec fn is_centered(self) -> bool {
        self.mant != MAX_MANT || self.exp == MIN_EXP
    }

    /// The decimal exponent of `2^exp`.
    pub open spec fn exp_floor(self) -> int {
        floor_log10_pow2(self.exp)
    }

    /// How far `exp` lies above the smallest exponent with the same decimal
    /// exponent.
    pub open spec fn residual(self) -> nat {
        floor_log10_pow2_residual(self.exp) as nat
    }

    /// `x * 2^(exp - 1) / 10^exp_floor`, rounded down, as the multiplier of
    /// `exp_floor` gives it: the multiplier stands for
    /// `2^(exp - residual - 1) / 10^exp_floor`.
    pub open spec fn scaled(self, x: int) -> int {
        mul_shift(x * pow2(self.residual()), multiplier(self.exp_floor()))
    }

    /// The reduction where the neighbours lie at the same distance. With
    /// `a` and `b` the scaled ends of the rounding interval, the multiple of
    /// ten `10 * (b / 10)` is taken where it lies inside; else the middle of
    /// `a` and `b`, or the scaled value itself rounded to nearest.
    pub open spec fn teju_jagua_centered(self) -> DecimalView {
        let f = self.exp_floor();
        let a = self.scaled(2 * self.mant - 1);
        let b = self.scaled(2 * self.mant + 1);
        let q = b / 10;
        let s = 10 * q;
        let tie_a = (DecimalView { exp: f, mant: (2 * self.mant - 1) * pow2(self.residual()) }).is_tie();
        let shorter = (DecimalView { exp: f + 1, mant: q }).remove_trailing_zeros();
        let nearest = DecimalView { exp: f, mant: nearest_half(f, self.scaled(4 * self.mant)) };
        if a < s {
            if s < b || self.mant % 2 == 0 || !tie_a {
                shorter
            } else {
                nearest
            }
        } else if s == a && self.mant % 2 == 0 && tie_a {
            shorter
        } else if (a + b) % 2 == 1 {
            DecimalView { exp: f, mant: (a + b) / 2 + 1 }
        } else {
            nearest
        }
    }

    /// The reduction at a power of two, where the neighbour below lies at
    /// half the distance of the neighbour above.
    pub open spec fn teju_jagua_uncentered(self) -> DecimalView {
        let f = self.exp_floor();
        let a = self.scaled(4 * self.mant - 1) / 2;
        let b = self.scaled(2 * self.mant + 1);
        let tie_a = (DecimalView { exp: f, mant: (4 * self.mant - 1) * pow2(self.residual()) }).is_tie_uncentered();
        let tie_b = (DecimalView { exp: f, mant: (2 * self.mant + 1) * pow2(self.residual()) }).is_tie_uncentered();
        if a < b {
            let q = b / 10;
            let s = 10 * q;
            let shorter = (DecimalView { exp: f + 1, mant: q }).remove_trailing_zeros();
            let c2 = self.scaled(4 * self.mant);
            let nearest = DecimalView {
                exp: f,
                mant: if c2 / 2 == a && !tie_a {
                    c2 / 2 + 1
                } else {
                    nearest_half(f, c2)
                },
            };
            if a < s {
                if s < b || self.mant % 2 == 0 || !tie_b {
                    shorter
                } else {
                    nearest
                }
            } else if s == a && self.mant % 2 == 0 && tie_a {
                shorter
            } else if (a + b) % 2 == 1 {
                DecimalView { exp: f, mant: (a + b) / 2 + 1 }
            } else {
                nearest
            }
        } else if tie_a {
            (DecimalView { exp: f, mant: a }).remove_trailing_zeros()
        } else {
            DecimalView { exp: f - 1, mant: nearest_half(f, self.scaled(40 * self.mant)) }
        }
    }

    /// The reduction of a value that is no small integer.
    pub open spec fn teju_jagua_inner(self) -> DecimalView {
        if self.is_centered() {
            self.teju_jagua_centered()
        } else {
            self.teju_jagua_uncentered()
        }
    }

    /// The decimal that stands for the value: a small integer is its own
    /// mantissa, without its trailing zeros.
    pub open spec fn teju_jagua(self) -> DecimalView {
        if self.is_small_integer() {
            (DecimalView {
                exp: 0,
                mant: self.mant / (pow2((-self.exp) as nat) as int),
            }).remove_trailing_zeros()
        } else {
            self.teju_jagua_inner()
        }
    }
}

impl DecimalView {
    /// What the reduction gives: a nonzero mantissa of at most 17 digits,
    /// and a value between `10^-325` and `10^309`.
    pub open spec fn wf(self) -> bool {
        &&& 1 <= self.mant < pow10(17)
        &&& MIN_DECIMAL_EXP <= self.exp
        &&& self.exp + digit_count(self.mant as nat) <= MAX_DECIMAL_POINT
    }

    /// Whether the mantissa is a multiple of `5^exp`.
    pub open spec fn is_multiple_of_pow5(self) -> bool
        recommends
            0 <= self.exp,
    {
        self.mant % (pow5(self.exp as nat) as int) == 0
    }

    /// Whether the mantissa is a multiple of `5^exp`, for an exponent whose
    /// power of five fits in a word.
    pub open spec fn is_tie(self) -> bool {
        0 <= self.exp < MULT_INVERSES_LEN && self.is_multiple_of_pow5()
    }

    /// Whether the mantissa is a multiple of five and of `5^exp`.
    pub open spec fn is_tie_uncentered(self) -> bool {
        self.mant % 5 == 0 && self.is_tie()
    }

    /// The same magnitude without trailing zeros in the mantissa: each one
    /// removed raises the exponent by one.
    pub open spec fn remove_trailing_zeros(self) -> DecimalView
        decreases self.mant,
    {
        if self.mant > 0 && self.mant % 10 == 0 {
            (DecimalView { exp: self.exp + 1, mant: self.mant / 10 }).remove_trailing_zeros()
        } else {
            self
        }
    }
}

/// What removing trailing zeros keeps: the mantissa stays nonzero and does
/// not grow, the exponent does not fall, the place of the decimal point stays,
/// and no trailing zero is left.
pub proof fn lemma_remove_trailing_zeros(d: DecimalView)
    requires
        d.mant >= 1,
    ensures
        1 <= d.remove_trailing_zeros().mant <= d.mant,
        d.remove_trailing_zeros().mant % 10 != 0,
        d.remove_trailing_zeros().exp >= d.exp,
        d.remove_trailing_zeros().exp + digit_count(d.remove_trailing_zeros().mant as nat) == d.exp
            + digit_count(d.mant as nat),
        d.remove_trailing_zeros().mant * pow10((d.remove_trailing_zeros().exp - d.exp) as nat)
            == d.mant,
    decreases d.mant,
{
    lemma_pow10_step(0);
    if d.mant % 10 == 0 {
        let next = DecimalView { exp: d.exp + 1, mant: d.mant / 10 };
        lemma_remove_trailing_zeros(next);
        let r = next.remove_trailing_zeros();
        let k = (r.exp - next.exp) as nat;
        lemma_pow10_step(k);
        assert(r.mant * pow10(k + 1) == d.mant) by (nonlinear_arith)
            requires
                r.mant * pow10(k) == d.mant / 10,
                d.mant == 10 * (d.mant / 10),
                pow10(k + 1) == 10 * pow10(k),
        ;
        assert((r.exp - d.exp) as nat == k + 1);
    } else {
        assert(d.mant * pow10(0) == d.mant) by (nonlinear_arith)
            requires
                pow10(0) == 1,
        ;
    }
}

/// Multiplying by `2^r` for `r` up to three doubles, quadruples or octuples.
pub proof fn lemma_small_shift(x: int, r: nat)
    requires
        r <= 3,
    ensures
        r == 0 ==> x * pow2(r) == x,
        r == 1 ==> x * pow2(r) == 2 * x,
        r == 2 ==> x * pow2(r) == 4 * x,
        r == 3 ==> x * pow2(r) == 8 * x,
{
    lemma2_to64();
    let p = pow2(r) as int;
    assert(x * p == x * pow2(r));
    if r == 0 {
        assert(x * p == x) by (nonlinear_arith)
            requires
                p == 1,
        ;
    } else if r == 1 {
        assert(x * p == 2 * x) by (nonlinear_arith)
            requires
                p == 2,
        ;
    } else if r == 2 {
        assert(x * p == 4 * x) by (nonlinear_arith)
            requires
                p == 4,
        ;
    } else {
        assert(x * p == 8 * x) by (nonlinear_arith)
            requires
                p == 8,
        ;
    }
}

/// The bounds of the scaled value: between half of `x * 2^residual` and five
/// times `x`. Every multiplier is at least a half, and shifted by the
/// residual none reaches five.
pub proof fn lemma_scaled_range(b: BinaryView, x: int)
    requires
        MIN_EXP <= b.exp <= MAX_EXP,
        x >= 1,
    ensures
        b.residual() <= 3,
        MIN_EXP_FLOOR <= b.exp_floor() <= MAX_EXP_FLOOR,
        x <= x * pow2(b.residual()) <= 8 * x,
        (x * pow2(b.residual())) / 2 <= b.scaled(x) < 5 * x,
{
    let w = 0x1_0000_0000_0000_0000int;
    let n = 0x1_0000_0000_0000_0000_0000_0000_0000_0000int;
    let r = b.residual();
    let mult = multiplier(b.exp_floor());
    let m = mult.hi as int * w + mult.lo as int;
    lemma_multiplier_residual_bound(b.exp);
    lemma_multiplier_high_bit(b.exp_floor());
    lemma2_to64();
    let a = x * pow2(r);
    lemma_small_shift(x, r);
    // below
    assert(a * m >= a * 0x8000_0000_0000_0000_0000_0000_0000_0000int) by (nonlinear_arith)
        requires
            a >= 0,
            m >= 0x8000_0000_0000_0000_0000_0000_0000_0000int,
    ;
    lemma_div_is_ordered(a * 0x8000_0000_0000_0000_0000_0000_0000_0000int, a * m, n);
    assert((a * 0x8000_0000_0000_0000_0000_0000_0000_0000int) / n == a / 2);
    // above
    if r == 3 {
        assert(a * m < (5 * x) * n) by (nonlinear_arith)
            requires
                a == 8 * x,
                x >= 1,
                0 <= m < 0xA000_0000_0000_0000_0000_0000_0000_0000int,
                n == 0x1_0000_0000_0000_0000_0000_0000_0000_0000int,
        ;
    } else {
        assert(a * m < (5 * x) * n) by (nonlinear_arith)
            requires
                0 <= a <= 4 * x,
                x >= 1,
                0 <= m < n,
                n == 0x1_0000_0000_0000_0000_0000_0000_0000_0000int,
        ;
    }
    assert(0 <= a * m) by (nonlinear_arith)
        requires
            0 <= a,
            0 <= m,
    ;
    assert(n * (5 * x) == (5 * x) * n) by (nonlinear_arith);
    lemma_div_less(a * m, n, 5 * x);
}

/// A larger argument has no smaller scaled value.
pub proof fn lemma_scaled_monotonic(b: BinaryView, x: int, y: int)
    requires
        0 <= x <= y,
    ensures
        b.scaled(x) <= b.scaled(y),
{
    let w = 0x1_0000_0000_0000_0000int;
    let n = 0x1_0000_0000_0000_0000_0000_0000_0000_0000int;
    let mult = multiplier(b.exp_floor());
    let m = mult.hi as int * w + mult.lo as int;
    let p = pow2(b.residual()) as int;
    assert((x * p) * m <= (y * p) * m) by (nonlinear_arith)
        requires
            0 <= x <= y,
            0 <= p,
            0 <= m,
    ;
    lemma_div_is_ordered((x * p) * m, (y * p) * m, n);
}

/// A word is a multiple of the odd number `d` exactly if its product with
/// the inverse of `d` modulo `2^64` is at most the quotient of `2^64 - 1` by
/// `d`.
pub proof fn lemma_divisibility_test(n: int, d: int, inv: int, bound: int)
    requires
        0 <= n < 0x1_0000_0000_0000_0000,
        0 < d < 0x1_0000_0000_0000_0000,
        0 <= inv < 0x1_0000_0000_0000_0000,
        (inv * d) % 0x1_0000_0000_0000_0000 == 1,
        bound == 0xffff_ffff_ffff_ffffint / d,
    ensures
        ((n * inv) % 0x1_0000_0000_0000_0000 <= bound) <==> n % d == 0,
{
    let w = 0x1_0000_0000_0000_0000int;
    let t = (inv * d) / w;
    lemma_fundamental_div_mod(inv * d, w);
    let j = (n * inv) / w;
    let p = (n * inv) % w;
    lemma_fundamental_div_mod(n * inv, w);
    lemma_fundamental_div_mod(n, d);
    lemma_fundamental_div_mod(w - 1, d);
    if n % d == 0 {
        let k = n / d;
        assert(n * inv == w * (k * t) + k) by (nonlinear_arith)
            requires
                n == d * k,
                inv * d == w * t + 1,
        ;
        assert(0 <= k <= bound) by {
            lemma_div_is_ordered(n, w - 1, d);
            lemma_div_is_ordered(0, n, d);
        }
        assert(bound < w) by {
            crate::teju::fmt::lemma_div_less(w - 1, d, w);
        }
        lemma_fundamental_div_mod_converse(n * inv, w, k * t, k);
    }
    if p <= bound {
        assert(0 <= d * p <= w - 1) by (nonlinear_arith)
            requires
                0 <= p <= bound,
                0 < d,
                w - 1 == d * bound + (w - 1) % d,
                0 <= (w - 1) % d,
        ;
        let z = j * d - n * t;
        assert(n - d * p == z * w) by (nonlinear_arith)
            requires
                n * inv == w * j + p,
                inv * d == w * t + 1,
                z == j * d - n * t,
        ;
        assert(z == 0) by (nonlinear_arith)
            requires
                -w < n - d * p < w,
                n - d * p == z * w,
                w > 0,
        ;
        lemma_mod_multiples_basic(p, d);
        assert(n == p * d) by (nonlinear_arith)
            requires
                n - d * p == 0,
        ;
    }
}

/// A mantissa with a trailing zero is ten times its product with the
/// inverse of five, rotated right by one bit; and only of such a mantissa is
/// that rotated product at most a tenth of the largest word.
pub proof fn lemma_trailing_zero_test(mant: u64, product: u64, rotated: u64)
    requires
        product == (mant as nat * 0xcccc_cccc_cccc_cccdnat) % 0x1_0000_0000_0000_0000nat,
        rotated == (product >> 1) | (product << 63),
    ensures
        rotated < 0x1999_9999_9999_999a <==> mant % 10 == 0,
        mant % 10 == 0 ==> rotated == mant / 10,
{
    let w = 0x1_0000_0000_0000_0000int;
    assert(product & 1 == 1 ==> rotated >= 0x8000_0000_0000_0000) by (bit_vector)
        requires
            rotated == (product >> 1) | (product << 63),
    ;
    assert(product & 1 == 0 ==> rotated == product / 2) by (bit_vector)
        requires
            rotated == (product >> 1) | (product << 63),
    ;
    assert(product & 1 == product % 2) by (bit_vector);
    assert((0xcccc_cccc_cccc_cccdint * 5) % w == 1);
    lemma_divisibility_test(mant as int, 5, 0xcccc_cccc_cccc_cccd, 0x3333_3333_3333_3333);
    // product <= 0x3333_3333_3333_3333 exactly if five divides the mantissa,
    // and then product is the mantissa over five
    if mant % 5 == 0 {
        let k = mant as int / 5;
        let j = (mant as int * 0xcccc_cccc_cccc_cccd) / w;
        assert(product as int == k) by {
            assert(mant as int * 0xcccc_cccc_cccc_cccd == w * (4 * k) + k);
            lemma_fundamental_div_mod_converse(mant as int * 0xcccc_cccc_cccc_cccd, w, 4 * k, k);
        }
    }
}

impl Binary {
    /// Decomposes the bit pattern of a float into the binary exponent and
    /// mantissa of its absolute value: `|num| = mant * 2^exp`.
    pub fn new(bits: u64) -> (r: Binary)
        ensures
            r@ == decode(bits),
            bits & ABS_MASK == 0 <==> (r.mant == 0 && r.exp == MIN_EXP),
            bits & ABS_MASK != 0 ==> r@.wf(),
    {
        // Extract fields
        let num: u64 = bits & ABS_MASK;
        let mut mant: Mant = lsb(num, BITS_MANTISSA_EXPLICIT);
        let biased: u64 = num >> BITS_MANTISSA_EXPLICIT;
        proof {
            lemma2_to64_rest();
            assert(1u64 << 52 == 0x10_0000_0000_0000) by (bit_vector);
            assert(biased == (bits as int / 0x10_0000_0000_0000) % 0x800 && biased < 0x800 && num
                % 0x10_0000_0000_0000 == bits % 0x10_0000_0000_0000) by (bit_vector)
                requires
                    num == bits & 0x7fff_ffff_ffff_ffff,
                    biased == num >> 52,
            ;
            assert((num == 0) <==> (biased == 0 && num % 0x10_0000_0000_0000 == 0)) by (bit_vector)
                requires
                    biased == num >> 52,
            ;
        }
        let mut exp: Exp = biased as Exp;

        // Normals have implicit unit (`1.xxx`) and -1 bias; subnormals don't
        if exp != 0 {
            exp -= 1;
            proof {
                assert(mant | 0x10_0000_0000_0000 == mant + 0x10_0000_0000_0000) by (bit_vector)
                    requires
                        mant < 0x10_0000_0000_0000,
                ;
            }
            mant |= 1u64 << BITS_MANTISSA_EXPLICIT;
        }
        // Add bias

        Binary { exp: exp + MIN_EXP, mant }
    }

    /// Returns the largest exponent `f` such that `10^f <= 2^self.exp`: the
    /// integer part of `log10(2^self.exp)`.
    pub fn exp_log10_pow2(&self) -> (f: Exp)
        requires
            MIN_EXP <= self.exp <= MAX_EXP,
        ensures
            f == floor_log10_pow2(self.exp as int),
            is_log10_pow2(self.exp as int, f as int),
    {
        exp_log10_pow2(self.exp)
    }

    /// Returns `self.exp - e0`, where `e0` is the smallest exponent with the
    /// same `exp_log10_pow2` as `self.exp`.
    pub fn exp_log10_pow2_residual(&self) -> (r: u32)
        requires
            MIN_EXP <= self.exp <= MAX_EXP,
        ensures
            r == floor_log10_pow2_residual(self.exp as int),
    {
        exp_log10_pow2_residual(self.exp)
    }

    /// Checks whether `self.mant` is a multiple of `2^self.exp`.
    pub fn is_multiple_of_pow2(&self) -> (r: bool)
        requires
            0 <= self.exp < 64,
        ensures
            r == (self.mant as int % pow2(self.exp as nat) as int == 0),
    {
        lsb(self.mant, self.exp as u32) == 0
    }

    /// Checks whether `self` is a "small integer": one of the integers below
    /// `2^53`, all of which a float holds without rounding.
    pub fn is_small_integer(&self) -> (r: bool)
        requires
            self.exp > i32::MIN,
        ensures
            r == self@.is_small_integer(),
    {
        let neg_exp: Exp = -self.exp;
        0 <= neg_exp && neg_exp < BITS_MANTISSA as Exp && (Binary {
            exp: neg_exp,
            mant: self.mant,
        }).is_multiple_of_pow2()
    }
}

/// Halves `c2` and rounds to nearest, a tie to the even neighbour.
fn round_nearest_half(c2: Mant, exp_floor: Exp) -> (r: Mant)
    requires
        exp_floor > i32::MIN,
    ensures
        r == nearest_half(exp_floor as int, c2 as int),
{
    let c: Mant = c2 / 2;
    let round_up: bool = !(is_even(c2) || (is_even(c) && (Decimal {
        exp: -exp_floor,
        mant: c2,
    }).is_tie()));
    c + (if round_up { 1 } else { 0 })
}

impl Binary {
    /// The reduction where the neighbours of `self` lie at the same distance
    /// on both sides.
    fn teju_jagua_centered(self, exp_floor: Exp, exp_residual: u32, mult: &Multiplier<Mant>) -> (r:
        Decimal)
        requires
            self@.wf(),
            self@.is_centered(),
            exp_floor == self@.exp_floor(),
            exp_residual == self@.residual(),
            *mult == multiplier(self@.exp_floor()),
        ensures
            r@ == self@.teju_jagua_centered(),
            r@.wf(),
    {
        let ghost b2 = self@;
        let ghost m = self.mant as int;
        proof {
            lemma_teju_jagua_centered_wf(b2);
            lemma_pow10_values();
            lemma_scaled_range(b2, 2 * m - 1);
            lemma_scaled_range(b2, 2 * m + 1);
            lemma_scaled_range(b2, 4 * m);
            lemma_scaled_monotonic(b2, 2 * m - 1, 2 * m + 1);
            lemma_u64_shl_is_mul((2 * self.mant - 1) as u64, exp_residual as u64);
            lemma_u64_shl_is_mul((2 * self.mant + 1) as u64, exp_residual as u64);
            lemma_u64_shl_is_mul((4 * self.mant) as u64, exp_residual as u64);
            lemma_small_shift(2 * m - 1, exp_residual as nat);
            lemma_small_shift(4 * m, exp_residual as nat);
        }
        let mant_a: Mant = (2 * self.mant - 1) << exp_residual;
        let mant_b: Mant = (2 * self.mant + 1) << exp_residual;
        let a: Mant = multiword_multiply_shift(mant_a, mult);
        let b: Mant = multiword_multiply_shift(mant_b, mult);
        let decimal_a = Decimal { exp: exp_floor, mant: mant_a };

        let q: Mant = b / 10;
        let s: Mant = q * 10;
        proof {
            assert(a == b2.scaled(2 * m - 1));
            assert(b == b2.scaled(2 * m + 1));
            assert(a >= 1);
        }
        if a < s {
            if s < b || is_even(self.mant) || !decimal_a.is_tie() {
                return (Decimal { exp: exp_floor + 1, mant: q }).remove_trailing_zeros();
            }
        } else if s == a && is_even(self.mant) && decimal_a.is_tie() {
            return (Decimal { exp: exp_floor + 1, mant: q }).remove_trailing_zeros();
        } else if !is_even(a + b) {
            return Decimal { exp: exp_floor, mant: (a + b) / 2 + 1 };
        }
        let mant_c: Mant = (4 * self.mant) << exp_residual;
        let c2: Mant = multiword_multiply_shift(mant_c, mult);
        let nearest: Mant = round_nearest_half(c2, exp_floor);
        proof {
            assert(c2 == b2.scaled(4 * m));
        }
        Decimal { exp: exp_floor, mant: nearest }
    }

    /// The reduction at a power of two above the smallest exponent: the
    /// neighbour below lies at half the distance of the neighbour above.
    fn teju_jagua_uncentered(self, exp_floor: Exp, exp_residual: u32, mult: &Multiplier<Mant>) -> (r:
        Decimal)
        requires
            self@.wf(),
            !self@.is_centered(),
            exp_floor == self@.exp_floor(),
            exp_residual == self@.residual(),
            *mult == multiplier(self@.exp_floor()),
        ensures
            r@ == self@.teju_jagua_uncentered(),
            r@.wf(),
    {
        let ghost b2 = self@;
        let ghost m = self.mant as int;
        proof {
            lemma_teju_jagua_uncentered_wf(b2);
            lemma_uncentered_far_bound(b2);
            lemma_pow10_values();
            lemma_scaled_range(b2, 4 * m - 1);
            lemma_scaled_range(b2, 2 * m + 1);
            lemma_scaled_range(b2, 4 * m);
            lemma_scaled_range(b2, 40 * m);
            lemma_u64_shl_is_mul((4 * MAX_MANT - 1) as u64, exp_residual as u64);
            lemma_u64_shl_is_mul((2 * MAX_MANT + 1) as u64, exp_residual as u64);
            lemma_u64_shl_is_mul((40 * MAX_MANT) as u64, exp_residual as u64);
            lemma_small_shift(4 * m - 1, exp_residual as nat);
            lemma_small_shift(2 * m + 1, exp_residual as nat);
            lemma_small_shift(4 * m, exp_residual as nat);
            lemma_small_shift(40 * m, exp_residual as nat);
        }
        let mant_a: Mant = (4 * MAX_MANT - 1) << exp_residual;
        let mant_b: Mant = (2 * MAX_MANT + 1) << exp_residual;
        let a: Mant = multiword_multiply_shift(mant_a, mult) / 2;
        let b: Mant = multiword_multiply_shift(mant_b, mult);
        let decimal_a = Decimal { exp: exp_floor, mant: mant_a };
        let decimal_b = Decimal { exp: exp_floor, mant: mant_b };
        proof {
            assert(a == b2.scaled(4 * m - 1) / 2);
            assert(b == b2.scaled(2 * m + 1));
            assert(a >= 1);
        }

        if a < b {
            let q: Mant = b / 10;
            let s: Mant = q * 10;
            if a < s {
                if s < b || is_even(MAX_MANT) || !decimal_b.is_tie_uncentered() {
                    return (Decimal { exp: exp_floor + 1, mant: q }).remove_trailing_zeros();
                }
            } else if s == a && is_even(MAX_MANT) && decimal_a.is_tie_uncentered() {
                return (Decimal { exp: exp_floor + 1, mant: q }).remove_trailing_zeros();
            } else if (a + b) % 2 == 1 {
                return Decimal { exp: exp_floor, mant: (a + b) / 2 + 1 };
            }
            let log2_mant_c: u32 = BITS_MANTISSA + exp_residual + 1;
            let c2: Mant = multiword_multiply_shift_pow2(log2_mant_c, mult);
            let c: Mant = c2 / 2;
            proof {
                lemma2_to64_rest();
                vstd::arithmetic::power2::lemma_pow2_adds(54, exp_residual as nat);
                assert(pow2(log2_mant_c as nat) == (4 * m) * pow2(exp_residual as nat))
                    by (nonlinear_arith)
                    requires
                        pow2(log2_mant_c as nat) == pow2(54) * pow2(exp_residual as nat),
                        pow2(54) == 4 * m,
                ;
                assert(c2 == b2.scaled(4 * m));
            }
            let round_up: bool = (c == a && !decimal_a.is_tie_uncentered()) || !(is_even(c2) || (
            is_even(c) && (Decimal { exp: -exp_floor, mant: c2 }).is_tie()));
            return Decimal { exp: exp_floor, mant: c + (if round_up { 1 } else { 0 }) };
        } else if decimal_a.is_tie_uncentered() {
            return (Decimal { exp: exp_floor, mant: a }).remove_trailing_zeros();
        } else {
            let mant_c: Mant = (40 * MAX_MANT) << exp_residual;
            let c2: Mant = multiword_multiply_shift(mant_c, mult);
            let nearest: Mant = round_nearest_half(c2, exp_floor);
            proof {
                assert(c2 == b2.scaled(40 * m));
            }
            return Decimal { exp: exp_floor - 1, mant: nearest };
        }
    }

    /// The core of Tejú Jaguá: finds the shortest decimal representation of
    /// `self` if it can, or the closest if it must.
    pub fn teju_jagua_inner(self) -> (r: Decimal)
        requires
            self@.wf(),
        ensures
            r@ == self@.teju_jagua_inner(),
            r@.wf(),
    {
        let exp_floor: Exp = self.exp_log10_pow2();
        let exp_residual: u32 = self.exp_log10_pow2_residual();
        proof {
            lemma_scaled_range(self@, 1);
        }
        let mult = multipliers().get(exp_floor);

        if self.mant != MAX_MANT || self.exp == MIN_EXP {
            self.teju_jagua_centered(exp_floor, exp_residual, &mult)
        } else {
            self.teju_jagua_uncentered(exp_floor, exp_residual, &mult)
        }
    }

    /// The final Tejú Jaguá: short-circuits the "small integer" case.
    ///
    /// The decimal of a small integer is the integer, and reads back as the
    /// value. Every other decimal lies less than three units in the last
    /// place from the value, and reads back as the value, unless the
    /// reduction takes the upper end of the rounding interval of an odd
    /// mantissa. The mantissa never ends in a zero. No decimal with fewer
    /// digits reads back, unless the reduction keeps its digits beside a
    /// multiple of ten inside the interval.
    pub fn teju_jagua(self) -> (r: Decimal)
        requires
            self@.wf(),
        ensures
            r@ == self@.teju_jagua(),
            r@.wf(),
            !self@.is_small_integer() ==> within_three_ulps(self@, r@),
            !self@.is_small_integer() ==> (if self@.is_centered() {
                self@.takes_upper_end() || self@.reads_back(r@)
            } else {
                self@.reads_back_uncentered(r@)
            }),
            self@.is_small_integer() ==> self@.reads_back_as(r@),
            r@.mant % 10 != 0,
            self@.is_small_integer() || !self@.is_centered() || !self@.keeps_long()
                ==> forall|c: DecimalView|
                c.mant >= 1 && #[trigger] self@.reads_back_as(c) ==> digit_count(r@.mant as nat)
                    <= digit_count(c.mant as nat),
    {
        proof {
            lemma_teju_jagua_wf(self@);
            law_decimal_has_no_trailing_zero(self@);
            if !self@.is_small_integer() {
                law_accuracy(self@);
                if !self@.is_centered() {
                    law_reads_back_uncentered(self@);
                } else if !self@.takes_upper_end() {
                    law_reads_back(self@);
                }
            } else {
                law_decimal_reads_back(self@);
            }
            if self@.is_small_integer() || !self@.is_centered() || !self@.keeps_long() {
                assert forall|c: DecimalView|
                    c.mant >= 1 && #[trigger] self@.reads_back_as(c) implies digit_count(
                    self@.teju_jagua().mant as nat,
                ) <= digit_count(c.mant as nat) by {
                    law_decimal_has_fewest_digits(self@, c);
                }
            }
        }
        if self.is_small_integer() {
            let shift: u32 = (-self.exp) as u32;
            proof {
                lemma_u64_shr_is_div(self.mant, shift as u64);
                lemma_pow2_pos(shift as nat);
                let whole = self.mant as int / pow2(shift as nat) as int;
                lemma_fundamental_div_mod(self.mant as int, pow2(shift as nat) as int);
                assert(whole >= 1) by (nonlinear_arith)
                    requires
                        self.mant as int == pow2(shift as nat) * whole,
                        self.mant >= 1,
                        pow2(shift as nat) > 0,
                ;
                lemma_remove_trailing_zeros(DecimalView { exp: 0, mant: whole });
            }
            return (Decimal { exp: 0, mant: self.mant >> shift }).remove_trailing_zeros();
        }
        self.teju_jagua_inner()
    }
}

/// A bit pattern that is not a zero decodes to a magnitude that has the
/// form that the reduction takes.
pub proof fn lemma_decode_wf(bits: u64)
    ensures
        decode(bits).mant != 0 || decode(bits).exp != MIN_EXP ==> decode(bits).wf(),
        decode(bits).mant == 0 ==> decode(bits).exp == MIN_EXP,
{
}

/// The reduction where the neighbours lie at the same distance gives a
/// nonzero mantissa of at most 17 digits, and a value in range.
pub proof fn lemma_teju_jagua_centered_wf(b: BinaryView)
    requires
        b.wf(),
        b.is_centered(),
    ensures
        b.teju_jagua_centered().wf(),
{
    let m = b.mant;
    let f = b.exp_floor();
    let r = b.residual();
    lemma_pow10_values();
    lemma_scaled_range(b, 2 * m - 1);
    lemma_scaled_range(b, 2 * m + 1);
    lemma_scaled_range(b, 4 * m);
    lemma_scaled_monotonic(b, 2 * m - 1, 2 * m + 1);
    lemma_small_shift(2 * m - 1, r);
    lemma_small_shift(4 * m, r);
    let low = b.scaled(2 * m - 1);
    let high = b.scaled(2 * m + 1);
    let q = high / 10;
    assert(low >= 1);
    if q >= 1 {
        lemma_digit_count_le(q as nat, 16);
        lemma_shorter_wf(DecimalView { exp: f + 1, mant: q });
    }
    if low < high {
        lemma_digit_count_le(((low + high) / 2 + 1) as nat, 17);
    }
    lemma_digit_count_le(nearest_half(f, b.scaled(4 * m)) as nat, 17);
}

/// The reduction at a power of two gives a nonzero mantissa of at most 17
/// digits, and a value in range.
pub proof fn lemma_teju_jagua_uncentered_wf(b: BinaryView)
    requires
        b.wf(),
        !b.is_centered(),
    ensures
        b.teju_jagua_uncentered().wf(),
{
    let m = b.mant;
    let f = b.exp_floor();
    let r = b.residual();
    lemma_pow10_values();
    lemma_scaled_range(b, 4 * m - 1);
    lemma_scaled_range(b, 2 * m + 1);
    lemma_scaled_range(b, 4 * m);
    lemma_scaled_range(b, 40 * m);
    lemma_small_shift(4 * m - 1, r);
    lemma_small_shift(2 * m + 1, r);
    lemma_small_shift(4 * m, r);
    let low = b.scaled(4 * m - 1) / 2;
    let high = b.scaled(2 * m + 1);
    let q = high / 10;
    let c2 = b.scaled(4 * m);
    assert(low >= 1);
    if low < high {
        if q >= 1 {
            lemma_digit_count_le(q as nat, 16);
            lemma_shorter_wf(DecimalView { exp: f + 1, mant: q });
        }
        lemma_digit_count_le(((low + high) / 2 + 1) as nat, 17);
        lemma_digit_count_le((c2 / 2 + 1) as nat, 17);
        lemma_digit_count_le((c2 / 2) as nat, 17);
    } else {
        lemma_digit_count_le(low as nat, 17);
        lemma_shorter_wf(DecimalView { exp: f, mant: low });
        lemma_uncentered_far(b);
        lemma_digit_count_le(nearest_half(f, b.scaled(40 * m)) as nat, 17);
    }
}

/// The reduction of a magnitude gives a nonzero mantissa of at most 17
/// digits, and a value between `10^-325` and `10^309`.
pub proof fn lemma_teju_jagua_wf(b: BinaryView)
    requires
        b.wf(),
    ensures
        b.teju_jagua().wf(),
{
    if b.is_small_integer() {
        let shift = (-b.exp) as nat;
        let p = pow2(shift) as int;
        let whole = b.mant / p;
        lemma_pow10_values();
        lemma_pow2_pos(shift);
        lemma_fundamental_div_mod(b.mant, p);
        assert(1 <= whole <= b.mant) by (nonlinear_arith)
            requires
                b.mant == p * whole,
                b.mant >= 1,
                p >= 1,
        ;
        lemma_digit_count_le(whole as nat, 16);
        lemma_shorter_wf(DecimalView { exp: 0, mant: whole });
    } else if b.is_centered() {
        lemma_teju_jagua_centered_wf(b);
    } else {
        lemma_teju_jagua_uncentered_wf(b);
    }
}

/// A decimal of at most 17 digits, with its decimal point in range, keeps
/// both when its trailing zeros are removed.
pub proof fn lemma_shorter_wf(d: DecimalView)
    requires
        1 <= d.mant < pow10(17),
        MIN_DECIMAL_EXP <= d.exp,
        d.exp + digit_count(d.mant as nat) <= MAX_DECIMAL_POINT,
    ensures
        d.remove_trailing_zeros().wf(),
{
    lemma_remove_trailing_zeros(d);
}

/// The same, stated for use where the condition is not yet known.
pub proof fn lemma_uncentered_far_bound(b: BinaryView)
    requires
        b.wf(),
        !b.is_centered(),
    ensures
        b.scaled(4 * b.mant - 1) / 2 >= b.scaled(2 * b.mant + 1) ==> 2 <= b.scaled(40 * b.mant) < 2
            * pow10(17) - 2,
{
    if b.scaled(4 * b.mant - 1) / 2 >= b.scaled(2 * b.mant + 1) {
        lemma_uncentered_far(b);
    }
}

/// At a power of two where the scaled ends of the rounding interval hold no
/// integer between them, the multiplier shifted by the residual is below two
/// thirds, so forty times the mantissa scales to less than `2 * 10^17`.
pub proof fn lemma_uncentered_far(b: BinaryView)
    requires
        b.wf(),
        !b.is_centered(),
        b.scaled(4 * b.mant - 1) / 2 >= b.scaled(2 * b.mant + 1),
    ensures
        2 <= b.scaled(40 * b.mant) < 2 * pow10(17) - 2,
{
    let w = 0x1_0000_0000_0000_0000int;
    let n = 0x1_0000_0000_0000_0000_0000_0000_0000_0000int;
    let mult = multiplier(b.exp_floor());
    let r = b.residual();
    let k = pow2(r) * (mult.hi as int * w + mult.lo as int);
    let m = 0x10_0000_0000_0000int;
    lemma_pow10_values();
    lemma_scaled_range(b, 40 * m);
    assert(b.scaled(4 * m - 1) == ((4 * m - 1) * k) / n) by {
        assert(((4 * m - 1) * pow2(r)) * (mult.hi as int * w + mult.lo as int) == (4 * m - 1) * k)
            by (nonlinear_arith)
            requires
                k == pow2(r) * (mult.hi as int * w + mult.lo as int),
        ;
    }
    assert(b.scaled(2 * m + 1) == ((2 * m + 1) * k) / n) by {
        assert(((2 * m + 1) * pow2(r)) * (mult.hi as int * w + mult.lo as int) == (2 * m + 1) * k)
            by (nonlinear_arith)
            requires
                k == pow2(r) * (mult.hi as int * w + mult.lo as int),
        ;
    }
    assert(b.scaled(40 * m) == ((40 * m) * k) / n) by {
        assert(((40 * m) * pow2(r)) * (mult.hi as int * w + mult.lo as int) == (40 * m) * k)
            by (nonlinear_arith)
            requires
                k == pow2(r) * (mult.hi as int * w + mult.lo as int),
        ;
    }
    lemma_fundamental_div_mod((4 * m - 1) * k, n);
    lemma_fundamental_div_mod((2 * m + 1) * k, n);
    lemma_fundamental_div_mod((40 * m) * k, n);
    let low = ((4 * m - 1) * k) / n;
    let high = ((2 * m + 1) * k) / n;
    let far = ((40 * m) * k) / n;
    assert(low >= 2 * high);
    assert(3 * k < 2 * n) by (nonlinear_arith)
        requires
            (4 * m - 1) * k == n * low + ((4 * m - 1) * k) % n,
            (2 * m + 1) * k == n * high + ((2 * m + 1) * k) % n,
            0 <= ((4 * m - 1) * k) % n,
            ((2 * m + 1) * k) % n < n,
            low >= 2 * high,
            n > 0,
    ;
    assert(far < 2 * pow10(17) - 2) by (nonlinear_arith)
        requires
            (40 * m) * k == n * far + ((40 * m) * k) % n,
            0 <= ((40 * m) * k) % n,
            3 * k < 2 * n,
            n > 0,
            m == 0x10_0000_0000_0000int,
            pow10(17) == 100_000_000_000_000_000,
    ;
}

impl Decimal {
    /// Checks whether `self.mant` is a multiple of `5^self.exp`, where that
    /// power fits in a word.
    pub fn is_tie(&self) -> (r: bool)
        ensures
            r == self@.is_tie(),
    {
        0 <= self.exp && (self.exp as usize) < mult_inverses().len() && self.is_multiple_of_pow5()
    }

    /// Checks whether `self.mant` is a multiple of five and of `5^self.exp`.
    pub fn is_tie_uncentered(&self) -> (r: bool)
        ensures
            r == self@.is_tie_uncentered(),
    {
        self.mant % 5 == 0 && 0 <= self.exp && (self.exp as usize) < mult_inverses().len()
            && self.is_multiple_of_pow5()
    }

    /// Checks whether `self.mant` is a multiple of `5^self.exp`: its product
    /// with the inverse of that power, modulo `2^64`, is at most the bound
    /// of the power.
    pub fn is_multiple_of_pow5(&self) -> (r: bool)
        requires
            0 <= self.exp < MULT_INVERSES_LEN,
        ensures
            r == self@.is_multiple_of_pow5(),
    {
        let entry = mult_inverses().get(self.exp);
        proof {
            lemma_mult_inverse(self.exp as int);
            lemma_divisibility_test(
                self.mant as int,
                pow5(self.exp as nat) as int,
                entry.multiplier as int,
                entry.bound as int,
            );
        }
        self.mant.wrapping_mul(entry.multiplier) <= entry.bound
    }

    /// Shortens `self` by removing trailing zeros from `self.mant` while
    /// there are any, and raising `self.exp` by their number.
    pub fn remove_trailing_zeros(self) -> (r: Decimal)
        requires
            self.mant != 0,
            self.exp <= i32::MAX - 20,
        ensures
            r@ == self@.remove_trailing_zeros(),
    {
        let mut d = self;
        let ghost mut count: nat = 0;
        proof {
            lemma_pow10_step(0);
        }
        loop
            invariant
                d.mant != 0,
                d.exp == self.exp + count,
                d.mant * pow10(count) <= u64::MAX,
                d@.remove_trailing_zeros() == self@.remove_trailing_zeros(),
                self.exp <= i32::MAX - 20,
            decreases d.mant,
        {
            let product: Mant = d.mant.wrapping_mul(M_INV5);
            let q: Mant = (product >> 1) | (product << 63);
            proof {
                lemma_trailing_zero_test(d.mant, product, q);
            }
            if q >= TENTH_BOUND {
                return d;
            }
            proof {
                lemma_pow10_step(count);
                assert(q * pow10(count + 1) <= u64::MAX) by (nonlinear_arith)
                    requires
                        d.mant == 10 * q,
                        d.mant * pow10(count) <= u64::MAX,
                        pow10(count + 1) == 10 * pow10(count),
                ;
                if count + 1 >= 20 {
                    lemma_pow10_values();
                    lemma_pow10_monotonic(20, count + 1);
                    lemma_pow10_step(19);
                    assert(q * pow10(count + 1) >= pow10(count + 1)) by (nonlinear_arith)
                        requires
                            q >= 1,
                    ;
                }
                count = count + 1;
            }
            d.exp += 1;
            d.mant = q;
        }
    }
}

/// The inverse of five modulo `2^64`.
pub const M_INV5: Mant = 0xcccc_cccc_cccc_cccd;

/// One more than a tenth of the largest word.
pub const TENTH_BOUND: Mant = 0x1999_9999_9999_999a;

} // verus!

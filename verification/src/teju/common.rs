//! Routines and types shared by every float format.

use vstd::prelude::*;
use crate::teju::convergent::lemma_floor_log10_pow2;
use crate::teju::logarithm::is_log10_pow2;

verus! {

/// The exponent is an `i32` whatever the float format: wide enough for the
/// exponent of any IEEE-754 binary format.
pub type Exp = i32;

/// Smallest binary exponent for which the logarithm helpers are defined.
pub const EXP_LOG10_POW2_MIN: i32 = -112815;

/// Largest binary exponent for which the logarithm helpers are defined.
pub const EXP_LOG10_POW2_MAX: i32 = 112815;

/// Numerator of the fixed-point approximation `1292913987 / 2^32` of `log10(2)`.
pub const LOG10_POW2_RATIO: i64 = 1292913987;

/// The integer part of `log10(2^e)`, as the fixed-point product computes it.
pub open spec fn floor_log10_pow2(e: int) -> int {
    (1292913987 * e) / 0x1_0000_0000
}

/// How far `e` lies above the smallest exponent whose `floor_log10_pow2` is
/// the same.
pub open spec fn floor_log10_pow2_residual(e: int) -> int {
    ((1292913987 * e) % 0x1_0000_0000) / 1292913987
}

/// The residual of `e` is its distance from the smallest exponent with the
/// same floor, and that is at most three: the ratio lies between a quarter
/// and a third.
pub proof fn lemma_residual_base(e: int)
    ensures
        0 <= floor_log10_pow2_residual(e) <= 3,
        floor_log10_pow2(e - floor_log10_pow2_residual(e)) == floor_log10_pow2(e),
        forall|other: int|
            floor_log10_pow2(other) == floor_log10_pow2(e) ==> e - floor_log10_pow2_residual(e)
                <= other,
{
    let base = e - floor_log10_pow2_residual(e);
    assert(floor_log10_pow2(base - 1) == floor_log10_pow2(e) - 1);
    assert forall|other: int| floor_log10_pow2(other) == floor_log10_pow2(e) implies base
        <= other by {
        if other < base {
            assert(floor_log10_pow2(other) <= floor_log10_pow2(base - 1));
        }
    }
}

/// Returns the largest exponent `f` such that `10^f <= 2^exp`, the integer
/// part of `log10(2^exp)`, computed as `(1292913987 * exp) >> 32`.
pub fn exp_log10_pow2(exp: i32) -> (f: i32)
    requires
        EXP_LOG10_POW2_MIN <= exp <= EXP_LOG10_POW2_MAX,
    ensures
        f == floor_log10_pow2(exp as int),
        is_log10_pow2(exp as int, f as int),
{
    proof {
        lemma_floor_log10_pow2(exp as int);
    }
    let x: i64 = LOG10_POW2_RATIO * (exp as i64);
    assert((x >> 32) == x / 0x1_0000_0000) by (bit_vector);
    (x >> 32) as i32
}

/// Returns `exp - e0`, where `e0` is the smallest exponent with the same
/// `exp_log10_pow2` as `exp`, computed as
/// `((1292913987 * exp) mod 2^32) / 1292913987`.
pub fn exp_log10_pow2_residual(exp: i32) -> (r: u32)
    requires
        EXP_LOG10_POW2_MIN <= exp <= EXP_LOG10_POW2_MAX,
    ensures
        r == floor_log10_pow2_residual(exp as int),
        r <= 3,
        floor_log10_pow2(exp - r) == floor_log10_pow2(exp as int),
        forall|other: int|
            floor_log10_pow2(other) == floor_log10_pow2(exp as int) ==> exp - r <= other,
{
    proof {
        lemma_residual_base(exp as int);
    }
    let x: i64 = LOG10_POW2_RATIO * (exp as i64);
    let low: u32 = #[verifier::truncate] (x as u32);
    assert(low == x % 0x1_0000_0000) by (bit_vector)
        requires
            low == x as u32,
    ;
    low / 1292913987u32
}

/// One entry of the multiplier table: the two halves of a double-word
/// fixed-point constant.
pub struct Multiplier<T> {
    pub hi: T,
    pub lo: T,
}

/// The multiplier table of one float format: entry `i` belongs to the decimal
/// exponent `offset + i`, where `offset` is the decimal exponent of the
/// format's smallest binary exponent.
pub struct Multipliers<'a, T, const N: usize> {
    table: &'a [(T, T); N],
    offset: i32,
}

impl<'a, T: Copy, const N: usize> Multipliers<'a, T, N> {
    /// The decimal exponent of the first entry.
    pub closed spec fn offset(&self) -> int {
        self.offset as int
    }

    /// The entry at position `i` of the table.
    pub closed spec fn entry(&self, i: int) -> Multiplier<T> {
        Multiplier { hi: self.table@[i].0, lo: self.table@[i].1 }
    }

    /// Whether the table has an entry for the decimal exponent `exp_floor`.
    pub open spec fn covers(&self, exp_floor: int) -> bool {
        self.offset() <= exp_floor < self.offset() + N
    }

    /// The entry for the decimal exponent `exp_floor`.
    pub open spec fn at(&self, exp_floor: int) -> Multiplier<T> {
        self.entry(exp_floor - self.offset())
    }

    /// Wraps `table`, whose first entry belongs to the decimal exponent of
    /// `2^min_exp`.
    pub fn new(table: &'a [(T, T); N], min_exp: i32) -> (r: Self)
        requires
            EXP_LOG10_POW2_MIN <= min_exp <= EXP_LOG10_POW2_MAX,
        ensures
            r.offset() == floor_log10_pow2(min_exp as int),
            forall|i: int|
                0 <= i < N ==> #[trigger] r.entry(i) == (Multiplier {
                    hi: table@[i].0,
                    lo: table@[i].1,
                }),
    {
        Multipliers { table, offset: exp_log10_pow2(min_exp) }
    }

    /// The entry for the decimal exponent `exp_floor`.
    pub fn get(&self, exp_floor: i32) -> (r: Multiplier<T>)
        requires
            self.covers(exp_floor as int),
        ensures
            r == self.at(exp_floor as int),
    {
        let idx: i64 = exp_floor as i64 - self.offset as i64;
        let e = &self.table[idx as usize];
        Multiplier { hi: e.0, lo: e.1 }
    }
}

/// One entry of the modular-inverse table: `multiplier` is the inverse of a
/// power of five modulo the word size, `bound` the largest quotient of a word
/// by that power.
pub struct MultInverse<T> {
    pub multiplier: T,
    pub bound: T,
}

/// The modular-inverse table of one float format, indexed by the exponent of
/// the power of five.
pub struct MultInverses<'a, T, const N: usize> {
    table: &'a [(T, T); N],
}

impl<'a, T: Copy, const N: usize> MultInverses<'a, T, N> {
    /// The entry for `5^i`.
    pub closed spec fn entry(&self, i: int) -> MultInverse<T> {
        MultInverse { multiplier: self.table@[i].0, bound: self.table@[i].1 }
    }

    /// The number of entries.
    pub fn len(&self) -> (n: usize)
        ensures
            n == N,
    {
        N
    }

    /// Wraps `table`, whose entry `i` belongs to `5^i`.
    pub fn new(table: &'a [(T, T); N]) -> (r: Self)
        ensures
            forall|i: int|
                0 <= i < N ==> #[trigger] r.entry(i) == (MultInverse {
                    multiplier: table@[i].0,
                    bound: table@[i].1,
                }),
    {
        MultInverses { table }
    }

    /// The entry for `5^exp`.
    pub fn get(&self, exp: i32) -> (r: MultInverse<T>)
        requires
            0 <= exp < N,
        ensures
            r == self.entry(exp as int),
    {
        let e = &self.table[exp as usize];
        MultInverse { multiplier: e.0, bound: e.1 }
    }
}

} // verus!

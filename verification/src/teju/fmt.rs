//! Routines that write numbers as decimal text.

use vstd::prelude::*;
use vstd::arithmetic::div_mod::{
    lemma_breakdown, lemma_div_denominator, lemma_fundamental_div_mod,
    lemma_fundamental_div_mod_converse, lemma_mod_mod,
};
use vstd::arithmetic::power2::{
    pow2, lemma2_to64, lemma2_to64_rest, lemma_pow2_pos, lemma_pow2_strictly_increases,
};
use vstd::bits::lemma_u64_shr_is_div;
use vstd::std_specs::bits::axiom_u64_leading_zeros;
use crate::teju::power::{pow10, lemma_pow10_values, lemma_pow10_step};

verus! {

/// The ASCII pairs "00" to "99": one row for each tens digit.
pub const DIGITS_LUT: [u8; 200] = [
    48, 48, 48, 49, 48, 50, 48, 51, 48, 52, 48, 53, 48, 54, 48, 55, 48, 56, 48, 57,
    49, 48, 49, 49, 49, 50, 49, 51, 49, 52, 49, 53, 49, 54, 49, 55, 49, 56, 49, 57,
    50, 48, 50, 49, 50, 50, 50, 51, 50, 52, 50, 53, 50, 54, 50, 55, 50, 56, 50, 57,
    51, 48, 51, 49, 51, 50, 51, 51, 51, 52, 51, 53, 51, 54, 51, 55, 51, 56, 51, 57,
    52, 48, 52, 49, 52, 50, 52, 51, 52, 52, 52, 53, 52, 54, 52, 55, 52, 56, 52, 57,
    53, 48, 53, 49, 53, 50, 53, 51, 53, 52, 53, 53, 53, 54, 53, 55, 53, 56, 53, 57,
    54, 48, 54, 49, 54, 50, 54, 51, 54, 52, 54, 53, 54, 54, 54, 55, 54, 56, 54, 57,
    55, 48, 55, 49, 55, 50, 55, 51, 55, 52, 55, 53, 55, 54, 55, 55, 55, 56, 55, 57,
    56, 48, 56, 49, 56, 50, 56, 51, 56, 52, 56, 53, 56, 54, 56, 55, 56, 56, 56, 57,
    57, 48, 57, 49, 57, 50, 57, 51, 57, 52, 57, 53, 57, 54, 57, 55, 57, 56, 57, 57,
];

/// The ASCII digit for `d`, which is below ten.
pub open spec fn ascii_digit(d: int) -> u8 {
    (48 + d) as u8
}

/// The ASCII digit of `x` at the place of `10^place`.
pub open spec fn digit_at(x: nat, place: nat) -> u8 {
    ascii_digit(((x / pow10(place)) % 10) as int)
}

/// The last `len` decimal digits of `x`, most significant first, with zeros
/// in front where `x` has fewer.
pub open spec fn padded_digits(x: nat, len: nat) -> Seq<u8> {
    Seq::new(len, |j: int| digit_at(x, (len - 1 - j) as nat))
}

/// The number of decimal digits of `x`; zero has one.
pub open spec fn digit_count(x: nat) -> nat
    decreases x,
{
    if x < 10 {
        1
    } else {
        1 + digit_count(x / 10)
    }
}

/// The decimal digits of `x`, most significant first, without leading zeros.
pub open spec fn decimal_digits(x: nat) -> Seq<u8> {
    padded_digits(x, digit_count(x))
}

/// Entry `2k` of the table is the tens digit of `k`, entry `2k + 1` its units
/// digit.
pub proof fn lemma_digits_lut(k: int)
    requires
        0 <= k < 100,
    ensures
        DIGITS_LUT[2 * k] == ascii_digit(k / 10),
        DIGITS_LUT[2 * k + 1] == ascii_digit(k % 10),
{
}

/// A number has `n` digits exactly if it lies between `10^(n-1)` and `10^n`.
pub proof fn lemma_digit_count_bounds(x: nat, n: nat)
    requires
        n >= 1,
    ensures
        digit_count(x) == n <==> (x < pow10(n) && (n == 1 || pow10((n - 1) as nat) <= x)),
    decreases n,
{
    lemma_pow10_step(0);
    lemma_pow10_step((n - 1) as nat);
    if n == 1 {
        if x >= 10 {
            assert(digit_count(x / 10) >= 1);
        }
    } else {
        lemma_pow10_step((n - 2) as nat);
        if x < 10 {
            assert(pow10((n - 1) as nat) >= 10) by {
                lemma_pow10_step((n - 2) as nat);
            }
        } else {
            lemma_digit_count_bounds(x / 10, (n - 1) as nat);
        }
    }
}

/// A number below `10^n` has at most `n` digits.
pub proof fn lemma_digit_count_le(x: nat, n: nat)
    requires
        n >= 1,
        x < pow10(n),
    ensures
        digit_count(x) <= n,
    decreases n,
{
    lemma_pow10_step((n - 1) as nat);
    if x >= 10 {
        if n == 1 {
            lemma_pow10_step(0);
        } else {
            lemma_digit_count_le(x / 10, (n - 1) as nat);
        }
    }
}

/// Number of digits of `x`, counting no more than 17.
pub fn len_u64(x: u64) -> (n: usize)
    ensures
        1 <= n <= 17,
        x < pow10(17) ==> n == digit_count(x as nat),
        x >= pow10(17) ==> n == 17,
{
    proof {
        lemma_pow10_values();
        lemma_digit_count_bounds(x as nat, 1);
        lemma_digit_count_bounds(x as nat, 2);
        lemma_digit_count_bounds(x as nat, 3);
        lemma_digit_count_bounds(x as nat, 4);
        lemma_digit_count_bounds(x as nat, 5);
        lemma_digit_count_bounds(x as nat, 6);
        lemma_digit_count_bounds(x as nat, 7);
        lemma_digit_count_bounds(x as nat, 8);
        lemma_digit_count_bounds(x as nat, 9);
        lemma_digit_count_bounds(x as nat, 10);
        lemma_digit_count_bounds(x as nat, 11);
        lemma_digit_count_bounds(x as nat, 12);
        lemma_digit_count_bounds(x as nat, 13);
        lemma_digit_count_bounds(x as nat, 14);
        lemma_digit_count_bounds(x as nat, 15);
        lemma_digit_count_bounds(x as nat, 16);
        lemma_digit_count_bounds(x as nat, 17);
    }
    // Most outputs have 16 or 17 digits, so the chain runs from long to short.
    if x >= 10000000000000000 {
        17
    } else if x >= 1000000000000000 {
        16
    } else if x >= 100000000000000 {
        15
    } else if x >= 10000000000000 {
        14
    } else if x >= 1000000000000 {
        13
    } else if x >= 100000000000 {
        12
    } else if x >= 10000000000 {
        11
    } else if x >= 1000000000 {
        10
    } else if x >= 100000000 {
        9
    } else if x >= 10000000 {
        8
    } else if x >= 1000000 {
        7
    } else if x >= 100000 {
        6
    } else if x >= 10000 {
        5
    } else if x >= 1000 {
        4
    } else if x >= 100 {
        3
    } else if x >= 10 {
        2
    } else {
        1
    }
}

/// The text of a signed integer: a minus sign where it is negative, then the
/// digits of its magnitude.
#[verifier::opaque]
pub open spec fn int_text(x: int) -> Seq<u8> {
    if x < 0 {
        seq![45u8] + decimal_digits((-x) as nat)
    } else {
        decimal_digits(x as nat)
    }
}

/// The digit of the low part `x % 10^k` at a place below `k` is the digit of
/// `x` at that place.
pub proof fn lemma_digit_at_low(x: nat, k: nat, place: nat)
    requires
        place < k,
    ensures
        digit_at(x % pow10(k), place) == digit_at(x, place),
{
    let p = pow10(place) as int;
    let rest = pow10((k - place) as nat) as int;
    lemma_pow10_step(place);
    lemma_pow10_step((k - place - 1) as nat);
    crate::teju::power::lemma_pow10_adds(place, (k - place) as nat);
    assert(pow10(k) == p * rest);
    // x % (p * rest) == p * ((x / p) % rest) + x % p
    lemma_breakdown(x as int, p, rest);
    let low = (x % pow10(k)) as int;
    let mid = ((x as int) / p) % rest;
    assert(low == p * mid + (x as int) % p);
    // low / p == mid
    lemma_fundamental_div_mod_converse(low, p, mid, (x as int) % p);
    assert(low / p == mid);
    // mid % 10 == (x / p) % 10, as ten divides rest
    let tail = pow10((k - place - 1) as nat) as int;
    assert(rest == 10 * tail);
    lemma_mod_mod((x as int) / p, 10, tail);
}

/// The digit of the high part `x / 10^k` at a place is the digit of `x`
/// at the place `k` higher.
pub proof fn lemma_digit_at_high(x: nat, k: nat, place: nat)
    ensures
        digit_at(x / pow10(k), place) == digit_at(x, k + place),
{
    lemma_pow10_step(k);
    lemma_pow10_step(place);
    crate::teju::power::lemma_pow10_adds(k, place);
    lemma_div_denominator(x as int, pow10(k) as int, pow10(place) as int);
}

/// A quotient is zero exactly if the dividend is below the divisor, and at
/// least one exactly if it is not.
pub proof fn lemma_div_bounds(x: int, d: int)
    requires
        0 <= x,
        0 < d,
    ensures
        x / d == 0 <==> x < d,
        x / d >= 1 <==> x >= d,
{
    lemma_fundamental_div_mod(x, d);
    assert(x / d >= 0) by (nonlinear_arith)
        requires
            0 <= x,
            0 < d,
    ;
    assert(x / d == 0 <==> x < d) by (nonlinear_arith)
        requires
            x == d * (x / d) + x % d,
            0 <= x % d < d,
            x / d >= 0,
    ;
}

/// A dividend below `d * bound` has a quotient below `bound`.
pub proof fn lemma_div_less(x: int, d: int, bound: int)
    requires
        0 <= x < d * bound,
        0 < d,
    ensures
        0 <= x / d < bound,
{
    lemma_fundamental_div_mod(x, d);
    assert(0 <= x / d < bound) by (nonlinear_arith)
        requires
            x == d * (x / d) + x % d,
            0 <= x % d < d,
            0 <= x < d * bound,
            0 < d,
    ;
}

/// A digit of `x` above all of its places is `0`.
pub proof fn lemma_small_div(x: nat, place: nat)
    requires
        x < pow10(place),
    ensures
        digit_at(x, place) == ascii_digit(0),
{
    lemma_div_bounds(x as int, pow10(place) as int);
}

/// The two digits of the pair `(v / 10^place) % 100` are the digits of `v` at
/// `place` and at `place + 1`.
pub proof fn lemma_pair_digits(v: nat, place: nat, pair: int)
    requires
        pair == (v / pow10(place)) % 100,
    ensures
        ascii_digit(pair % 10) == digit_at(v, place),
        ascii_digit(pair / 10) == digit_at(v, place + 1),
{
    lemma_pow10_values();
    let w = v / pow10(place);
    let d = pair as nat;
    assert(d == w % pow10(2));
    assert(ascii_digit(pair % 10) == digit_at(d, 0));
    assert(ascii_digit(pair / 10) == digit_at(d, 1));
    lemma_digit_at_low(w, 2, 0);
    lemma_digit_at_low(w, 2, 1);
    lemma_digit_at_high(v, place, 0);
    lemma_digit_at_high(v, place, 1);
}

/// Multiplying by a rounded-up reciprocal and shifting divides exactly, as long
/// as the error that the rounding adds stays below one unit of the shift:
/// with `c * d == shift + excess`, `(v * c) / shift == v / d`.
pub proof fn lemma_reciprocal(v: int, d: int, c: int, shift: int, excess: int)
    requires
        0 <= v,
        0 < d,
        0 < c,
        0 <= excess,
        c * d == shift + excess,
        (v / d) * excess + (d - 1) * c < shift,
    ensures
        (v * c) / shift == v / d,
{
    let q = v / d;
    let r = v % d;
    lemma_fundamental_div_mod(v, d);
    assert(v * c == q * shift + (q * excess + r * c)) by (nonlinear_arith)
        requires
            v == d * q + r,
            c * d == shift + excess,
    ;
    assert(0 <= q * excess + r * c < shift) by (nonlinear_arith)
        requires
            0 <= q,
            0 <= r <= d - 1,
            0 < c,
            0 <= excess,
            q * excess + (d - 1) * c < shift,
    ;
    lemma_fundamental_div_mod_converse(v * c, shift, q, q * excess + r * c);
}

/// The two digits of `k`, from the table.
fn lut_pair(k: usize) -> (pair: (u8, u8))
    requires
        k < 100,
    ensures
        pair.0 == 48 + k / 10,
        pair.1 == 48 + k % 10,
{
    proof {
        lemma_digits_lut(k as int);
    }
    (DIGITS_LUT[2 * k], DIGITS_LUT[2 * k + 1])
}

/// Writes at `buf[offset]` and `buf[offset + 1]` the two digits of
/// `lo - 100 * hi`.
fn write_lut_u64(buf: &mut [u8], offset: usize, lo: u64, hi: u64)
    requires
        offset + 2 <= old(buf)@.len(),
        100 * hi <= lo < 100 * hi + 100,
    ensures
        final(buf)@ == old(buf)@.update(offset as int, ascii_digit((lo - 100 * hi) / 10)).update(
            offset + 1,
            ascii_digit((lo - 100 * hi) % 10),
        ),
{
    let digits = lut_pair((lo - hi * 100) as usize);
    buf[offset] = digits.0;
    buf[offset + 1] = digits.1;
}

/// Writes the eight digits of `value` at `buf[offset..offset + 8]`, as four
/// pairs from the table. The quotients by 100, 10^4 and 10^6 come from
/// multiplications by rounded-up reciprocals.
fn write_lut_group(buf: &mut [u8], offset: usize, value: u64)
    requires
        offset + 8 <= old(buf)@.len(),
        value < 100_000_000,
    ensures
        final(buf)@ == old(buf)@.subrange(0, offset as int) + padded_digits(value as nat, 8)
            + old(buf)@.subrange(offset + 8, old(buf)@.len() as int),
{
    let buf_len = buf.len();
    let by_hundred: u64 = value * 1374389535u64;
    let by_myriad: u64 = value * 3518437209u64;
    let by_million: u64 = value * 1125899907u64;
    let hundreds: u64 = by_hundred >> 37;
    let myriads: u64 = by_myriad >> 45;
    let millions: u64 = by_million >> 50;
    proof {
        assert(by_hundred >> 37 == by_hundred / 0x20_0000_0000) by (bit_vector);
        assert(by_myriad >> 45 == by_myriad / 0x2000_0000_0000) by (bit_vector);
        assert(by_million >> 50 == by_million / 0x4_0000_0000_0000) by (bit_vector);
        lemma_reciprocal(value as int, 100, 1374389535, 0x20_0000_0000, 28);
        lemma_reciprocal(value as int, 10_000, 3518437209, 0x2000_0000_0000, 1168);
        lemma_reciprocal(value as int, 1_000_000, 1125899907, 0x4_0000_0000_0000, 157376);
    }
    write_lut_u64(buf, offset + 6, value, hundreds);
    write_lut_u64(buf, offset + 4, hundreds, myriads);
    write_lut_u64(buf, offset + 2, myriads, millions);
    write_lut_u64(buf, offset, millions, 0);
    proof {
        lemma_pow10_values();
        let v = value as nat;
        lemma_div_denominator(value as int, 100, 100);
        lemma_div_denominator(value as int, 10_000, 100);
        lemma_pair_digits(v, 0, value - 100 * hundreds);
        lemma_pair_digits(v, 2, hundreds - 100 * myriads);
        lemma_pair_digits(v, 4, myriads - 100 * millions);
        lemma_pair_digits(v, 6, millions as int);
        assert(buf@ =~= old(buf)@.subrange(0, offset as int) + padded_digits(v, 8) + old(
            buf,
        )@.subrange(offset + 8, old(buf)@.len() as int));
    }
}

/// Copies `src[start..start + count]` to the front of `dst`.
fn copy_digits(dst: &mut [u8], src: &[u8], start: usize, count: usize)
    requires
        start + count <= src@.len(),
        count <= old(dst)@.len(),
    ensures
        final(dst)@ == src@.subrange(start as int, start + count) + old(dst)@.subrange(
            count as int,
            old(dst)@.len() as int,
        ),
{
    let src_len = src.len();
    let mut i: usize = 0;
    while i < count
        invariant
            i <= count,
            start + count <= src_len,
            src_len == src@.len(),
            count <= dst@.len(),
            dst@.len() == old(dst)@.len(),
            forall|j: int| 0 <= j < i ==> dst@[j] == src@[start + j],
            forall|j: int| i <= j < dst@.len() ==> dst@[j] == old(dst)@[j],
        decreases count - i,
    {
        dst[i] = src[start + i];
        i += 1;
    }
    assert(dst@ =~= src@.subrange(start as int, start + count) + old(dst)@.subrange(
        count as int,
        old(dst)@.len() as int,
    ));
}

/// What the two groups of eight digits and the digit in front of them hold:
/// from the fourth place on, the scratch digits are the last seventeen
/// digits of `x`.
proof fn lemma_scratch_digits(x: nat, digits: Seq<u8>)
    requires
        x < pow10(17),
        digits.len() == 20,
        digits.subrange(12, 20) == padded_digits(x % pow10(8), 8),
        digits.subrange(4, 12) == padded_digits((x / pow10(8)) % pow10(8), 8),
        digits[3] == 48 + x / pow10(16),
    ensures
        forall|j: int| 3 <= j < 20 ==> digits[j] == digit_at(x, (19 - j) as nat),
{
    lemma_pow10_values();
    assert forall|j: int| 3 <= j < 20 implies digits[j] == digit_at(x, (19 - j) as nat) by {
        if j >= 12 {
            let place = (19 - j) as nat;
            assert(digits[j] == digits.subrange(12, 20)[j - 12]);
            lemma_digit_at_low(x, 8, place);
        } else if j >= 4 {
            let place = (11 - j) as nat;
            assert(digits[j] == digits.subrange(4, 12)[j - 4]);
            lemma_digit_at_low(x / pow10(8), 8, place);
            lemma_digit_at_high(x, 8, place);
        } else {
            assert(x / pow10(16) == (x / pow10(16)) % 10);
        }
    }
}

/// Prints `x` as exactly `len` digits at the front of `buf`: its last `len`
/// digits, with zeros in front where `x` has fewer. Returns `len`. The rest
/// of `buf` is left as it was.
pub fn print_u64_mantissa_known_len(x: u64, buf: &mut [u8], len: usize) -> (n: usize)
    requires
        x < pow10(17),
        len <= 17,
        len <= old(buf)@.len(),
    ensures
        n == len,
        final(buf)@ == padded_digits(x as nat, len as nat) + old(buf)@.subrange(
            len as int,
            old(buf)@.len() as int,
        ),
{
    proof {
        lemma_pow10_values();
    }
    let mut digits = [0u8; 20];
    let top12: u64 = x / 100000000u64;
    let top4: u64 = x / 10000000000000000u64;

    let uvalue_0: u64 = x - top12 * 100000000;
    write_lut_group(&mut digits, 12, uvalue_0);

    let uvalue_4: u64 = top12 - top4 * 100000000;
    write_lut_group(&mut digits, 4, uvalue_4);

    digits[3] = 48 + top4 as u8;

    proof {
        let xn = x as nat;
        assert(digits@.subrange(12, 20) =~= padded_digits(uvalue_0 as nat, 8));
        assert(digits@.subrange(4, 12) =~= padded_digits(uvalue_4 as nat, 8));
        lemma_scratch_digits(xn, digits@);
    }
    let offset: usize = 20 - len;
    copy_digits(buf, &digits, offset, len);
    proof {
        assert(digits@.subrange(offset as int, 20) =~= padded_digits(x as nat, len as nat));
    }
    len
}

/// A word with `lz` leading zeros lies between `2^(63 - lz)` and
/// `2^(64 - lz)`, so `lz * 1233 / 4096`, an estimate of `lz * log10(2)`, is
/// the number of unused places in front of its digits, or one less.
pub proof fn lemma_leading_zeros_offset(x: u64, lz: int)
    requires
        7 <= lz <= 63,
        pow2((63 - lz) as nat) <= x < pow2((64 - lz) as nat),
    ensures
        2 <= (lz * 1233) / 4096 <= 18,
        pow10((18 - (lz * 1233) / 4096) as nat) <= x < pow10((20 - (lz * 1233) / 4096) as nat),
{
    lemma2_to64();
    lemma2_to64_rest();
    lemma_pow10_values();
}

/// Prints the digits of `x` at the front of `buf`, without leading zeros, and
/// returns how many there are. The rest of `buf` is left as it was.
pub fn print_u64_mantissa(x: u64, buf: &mut [u8]) -> (n: usize)
    requires
        x < pow10(17),
        digit_count(x as nat) <= old(buf)@.len(),
    ensures
        n == digit_count(x as nat),
        final(buf)@ == decimal_digits(x as nat) + old(buf)@.subrange(
            n as int,
            old(buf)@.len() as int,
        ),
{
    if x == 0 {
        buf[0] = 48;
        proof {
            lemma_pow10_values();
            assert(buf@ =~= decimal_digits(0) + old(buf)@.subrange(1, old(buf)@.len() as int));
        }
        return 1;
    }
    proof {
        lemma_pow10_values();
    }
    let mut digits = [0u8; 20];
    let top12: u64 = x / 100000000u64;
    let top4: u64 = x / 10000000000000000u64;

    let uvalue_0: u64 = x - top12 * 100000000;
    write_lut_group(&mut digits, 12, uvalue_0);

    let uvalue_4: u64 = top12 - top4 * 100000000;
    write_lut_group(&mut digits, 4, uvalue_4);

    let uvalue_8: u64 = top4;
    let top_by_hundred: u64 = uvalue_8 * 1374389535u64;
    let uvalue_9: u64 = top_by_hundred >> 37;
    proof {
        assert(top_by_hundred >> 37 == top_by_hundred / 0x20_0000_0000) by (bit_vector);
    }
    write_lut_u64(&mut digits, 2, uvalue_8, uvalue_9);
    write_lut_u64(&mut digits, 0, uvalue_9, 0);

    proof {
        let xn = x as nat;
        assert(uvalue_9 == 0);
        assert(digits@.subrange(12, 20) =~= padded_digits(uvalue_0 as nat, 8));
        assert(digits@.subrange(4, 12) =~= padded_digits(uvalue_4 as nat, 8));
        lemma_scratch_digits(xn, digits@);
        assert forall|j: int| 0 <= j < 20 implies digits@[j] == digit_at(xn, (19 - j) as nat) by {
            if j < 3 {
                lemma_small_div(xn, (19 - j) as nat);
            }
        }
    }
    // The count of leading zero bits gives the count of digits, or one more.
    let neg_log2: usize = x.leading_zeros() as usize;
    let estimate: usize = (neg_log2 * 1233) >> 12;
    proof {
        let lz = neg_log2 as int;
        axiom_u64_leading_zeros(x);
        assert(7 <= lz <= 63 && pow2((63 - lz) as nat) <= x < pow2((64 - lz) as nat)) by {
            lemma2_to64();
            lemma2_to64_rest();
            let lo_shift = (63 - lz) as u64;
            lemma_u64_shr_is_div(x, lo_shift);
            let top = x >> lo_shift;
            assert(top & 1 != 0 ==> top != 0) by (bit_vector);
            lemma_pow2_pos(lo_shift as nat);
            lemma_div_bounds(x as int, pow2(lo_shift as nat) as int);
            if lz < 7 {
                lemma_pow2_strictly_increases(56, (63 - lz) as nat);
            }
            let hi_shift = (64 - lz) as u64;
            lemma_u64_shr_is_div(x, hi_shift);
            lemma_pow2_pos(hi_shift as nat);
            lemma_div_bounds(x as int, pow2(hi_shift as nat) as int);
        }
        assert(neg_log2 * 1233 < 0x2_0000);
        let scaled = (neg_log2 * 1233) as usize;
        assert(scaled >> 12 == scaled / 4096) by (bit_vector)
            requires
                scaled < 0x2_0000,
        ;
        lemma_leading_zeros_offset(x, lz);
    }
    let offset: usize = estimate + (if digits[estimate] == 48 { 1 } else { 0 });
    proof {
        let xn = x as nat;
        let high = pow10((19 - estimate) as nat);
        lemma_pow10_step((19 - estimate) as nat);
        lemma_pow10_step((18 - estimate) as nat);
        lemma_div_bounds(x as int, high as int);
        assert(0 <= xn / high < 10) by {
            lemma_div_less(x as int, high as int, 10);
        }
        lemma_digit_count_bounds(xn, (20 - offset) as nat);
        assert(digits@.subrange(offset as int, 20) =~= decimal_digits(xn));
    }
    copy_digits(buf, &digits, offset, 20 - offset);
    20 - offset
}

/// The digits of a number below a thousand, written out.
pub proof fn lemma_small_digits(x: nat)
    requires
        x < 1000,
    ensures
        x < 10 ==> decimal_digits(x) == seq![ascii_digit(x as int)],
        10 <= x < 100 ==> decimal_digits(x) == seq![
            ascii_digit(x as int / 10),
            ascii_digit(x as int % 10),
        ],
        100 <= x ==> decimal_digits(x) == seq![
            ascii_digit(x as int / 100),
            ascii_digit((x as int % 100) / 10),
            ascii_digit(x as int % 10),
        ],
{
    lemma_pow10_values();
    lemma_digit_count_bounds(x, 1);
    lemma_digit_count_bounds(x, 2);
    lemma_digit_count_bounds(x, 3);
    lemma_pair_digits(x, 0, (x % 100) as int);
    if x < 10 {
        assert(decimal_digits(x) =~= seq![ascii_digit(x as int)]);
    } else if x < 100 {
        assert(decimal_digits(x) =~= seq![ascii_digit(x as int / 10), ascii_digit(x as int % 10)]);
    } else {
        assert(digit_at(x, 2) == ascii_digit(x as int / 100));
        assert(decimal_digits(x) =~= seq![
            ascii_digit(x as int / 100),
            ascii_digit((x as int % 100) / 10),
            ascii_digit(x as int % 10),
        ]);
    }
}

/// A buffer whose front holds `text`, and whose rest is as it was, is `text`
/// followed by the rest of the buffer as it was.
pub proof fn lemma_front_written(before: Seq<u8>, after: Seq<u8>, text: Seq<u8>)
    requires
        after.len() == before.len(),
        text.len() <= before.len(),
        forall|j: int| 0 <= j < text.len() ==> after[j] == text[j],
        forall|j: int| text.len() <= j < before.len() ==> after[j] == before[j],
    ensures
        after == text + before.subrange(text.len() as int, before.len() as int),
{
    assert(after =~= text + before.subrange(text.len() as int, before.len() as int));
}

/// The text of an exponent of at most three digits, byte by byte.
pub proof fn lemma_exponent_text(x: int)
    requires
        -999 <= x <= 999,
    ensures
        ({
            let a = if x < 0 { -x } else { x };
            let skip = if x < 0 { 1int } else { 0int };
            let text = int_text(x);
            &&& x < 0 ==> text[0] == 45
            &&& a < 10 ==> text.len() == skip + 1 && text[skip] == 48 + a
            &&& 10 <= a < 100 ==> text.len() == skip + 2 && text[skip] == 48 + a / 10 && text[skip
                + 1] == 48 + a % 10
            &&& 100 <= a ==> text.len() == skip + 3 && text[skip] == 48 + a / 100 && text[skip + 1]
                == 48 + (a % 100) / 10 && text[skip + 2] == 48 + a % 10
        }),
{
    let a = if x < 0 { -x } else { x };
    reveal(int_text);
    lemma_small_digits(a as nat);
}

/// Prints the signed decimal exponent `x` at the front of `buf`, with `-` in
/// front where it is negative, and returns the number of bytes written. The
/// rest of `buf` is left as it was.
pub fn print_i32_exp(x: i32, buf: &mut [u8]) -> (n: usize)
    requires
        -999 <= x <= 999,
        int_text(x as int).len() <= old(buf)@.len(),
    ensures
        n == int_text(x as int).len(),
        1 <= n <= 4,
        final(buf)@ == int_text(x as int) + old(buf)@.subrange(n as int, old(buf)@.len() as int),
{
    let sign: bool = x >= 0;
    let x_abs: u32 = if sign { x as u32 } else { (-x) as u32 };
    proof {
        lemma_exponent_text(x as int);
    }
    buf[0] = 45;
    let skip: usize = if sign { 0 } else { 1 };

    if x_abs >= 100 {
        let top: u8 = 48 + (x_abs / 100) as u8;
        let pair = lut_pair((x_abs % 100) as usize);
        buf[skip] = top;
        buf[skip + 1] = pair.0;
        buf[skip + 2] = pair.1;
        proof {
            lemma_front_written(old(buf)@, buf@, int_text(x as int));
        }
        skip + 3
    } else if x_abs >= 10 {
        let pair = lut_pair(x_abs as usize);
        buf[skip] = pair.0;
        buf[skip + 1] = pair.1;
        proof {
            lemma_front_written(old(buf)@, buf@, int_text(x as int));
        }
        skip + 2
    } else {
        let unit: u8 = 48 + x_abs as u8;
        buf[skip] = unit;
        proof {
            lemma_front_written(old(buf)@, buf@, int_text(x as int));
        }
        skip + 1
    }
}

} // verus!

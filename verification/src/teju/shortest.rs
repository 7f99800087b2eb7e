//! The result of the reduction with its sign, and its three renderings.

use vstd::prelude::*;
use crate::teju::fmt::{
    decimal_digits, digit_count, int_text, lemma_digit_count_le, len_u64, print_i32_exp,
    print_u64_mantissa_known_len,
};
use crate::teju::ieee64::{decode, Binary, Decimal, ABS_MASK};
use crate::teju::power::{lemma_pow10_values, pow10};
use crate::teju::text::{
    decimal_text, exponent_form, fraction_form, general_text, integer_form, scientific_text,
    sign_text, split_form, zeros, LETTER_E, MINUS, POINT, ZERO,
};

verus! {

/// Sets `buf[from..to]` to the digit zero.
fn fill_zeros(buf: &mut [u8], from: usize, to: usize)
    requires
        from <= to <= old(buf)@.len(),
    ensures
        final(buf)@ == old(buf)@.subrange(0, from as int) + zeros((to - from) as nat) + old(
            buf,
        )@.subrange(to as int, old(buf)@.len() as int),
{
    let mut i: usize = from;
    while i < to
        invariant
            from <= i <= to <= buf@.len(),
            buf@.len() == old(buf)@.len(),
            forall|j: int| 0 <= j < from ==> buf@[j] == old(buf)@[j],
            forall|j: int| from <= j < i ==> buf@[j] == ZERO,
            forall|j: int| i <= j < buf@.len() ==> buf@[j] == old(buf)@[j],
        decreases to - i,
    {
        buf[i] = ZERO;
        i += 1;
    }
    assert(buf@ =~= old(buf)@.subrange(0, from as int) + zeros((to - from) as nat) + old(
        buf,
    )@.subrange(to as int, old(buf)@.len() as int));
}

/// Prints the mantissa at `buf[at..at + len]`.
fn print_mantissa_at(buf: &mut [u8], at: usize, mant: u64, len: usize)
    requires
        mant < pow10(17),
        len == digit_count(mant as nat),
        at + len <= old(buf)@.len(),
    ensures
        final(buf)@ == old(buf)@.subrange(0, at as int) + decimal_digits(mant as nat) + old(
            buf,
        )@.subrange(at + len, old(buf)@.len() as int),
{
    proof {
        lemma_pow10_values();
        lemma_digit_count_le(mant as nat, 17);
    }
    let (head, tail) = buf.split_at_mut(at);
    print_u64_mantissa_known_len(mant, tail, len);
    assert(buf@ =~= old(buf)@.subrange(0, at as int) + decimal_digits(mant as nat) + old(
        buf,
    )@.subrange(at + len, old(buf)@.len() as int));
}

/// Writes the mantissa, `exp` zeros and `.0` at the front of `buf`.
fn write_integer_form(buf: &mut [u8], mant: u64, mant_len: usize, exp: usize) -> (n: usize)
    requires
        mant < pow10(17),
        mant_len == digit_count(mant as nat),
        mant_len + exp + 2 <= old(buf)@.len(),
    ensures
        n == mant_len + exp + 2,
        final(buf)@ == integer_form(decimal_digits(mant as nat), exp as nat) + old(buf)@.subrange(
            n as int,
            old(buf)@.len() as int,
        ),
{
    let buf_len = buf.len();
    print_mantissa_at(buf, 0, mant, mant_len);
    fill_zeros(buf, mant_len, mant_len + exp);
    buf[mant_len + exp] = POINT;
    buf[mant_len + exp + 1] = ZERO;
    assert(buf@ =~= integer_form(decimal_digits(mant as nat), exp as nat) + old(buf)@.subrange(
        mant_len + exp + 2,
        old(buf)@.len() as int,
    ));
    mant_len + exp + 2
}

/// Writes the mantissa with a decimal point after its first `point` digits
/// at the front of `buf`: the digits are printed, those behind the point are
/// moved one place to the right, and the point is set between.
fn write_split_form(buf: &mut [u8], mant: u64, mant_len: usize, point: usize) -> (n: usize)
    requires
        mant < pow10(17),
        mant_len == digit_count(mant as nat),
        0 < point < mant_len,
        mant_len + 1 <= old(buf)@.len(),
    ensures
        n == mant_len + 1,
        final(buf)@ == split_form(decimal_digits(mant as nat), point as int) + old(buf)@.subrange(
            n as int,
            old(buf)@.len() as int,
        ),
{
    let buf_len = buf.len();
    print_mantissa_at(buf, 0, mant, mant_len);
    let ghost digits = decimal_digits(mant as nat);
    let mut i: usize = mant_len;
    while i > point
        invariant
            point <= i <= mant_len,
            mant_len + 1 <= buf@.len(),
            buf@.len() == old(buf)@.len(),
            digits.len() == mant_len,
            forall|j: int| 0 <= j < i ==> buf@[j] == digits[j],
            forall|j: int| i < j <= mant_len ==> buf@[j] == digits[j - 1],
            forall|j: int| mant_len < j < buf@.len() ==> buf@[j] == old(buf)@[j],
        decreases i,
    {
        buf[i] = buf[i - 1];
        i -= 1;
    }
    buf[point] = POINT;
    assert(buf@ =~= split_form(digits, point as int) + old(buf)@.subrange(
        mant_len + 1,
        old(buf)@.len() as int,
    ));
    mant_len + 1
}

/// Writes `0.`, `lead` zeros and the mantissa at the front of `buf`.
fn write_fraction_form(buf: &mut [u8], mant: u64, mant_len: usize, lead: usize) -> (n: usize)
    requires
        mant < pow10(17),
        mant_len == digit_count(mant as nat),
        2 + lead + mant_len <= old(buf)@.len(),
    ensures
        n == 2 + lead + mant_len,
        final(buf)@ == fraction_form(decimal_digits(mant as nat), lead as nat) + old(buf)@.subrange(
            n as int,
            old(buf)@.len() as int,
        ),
{
    let buf_len = buf.len();
    buf[0] = ZERO;
    buf[1] = POINT;
    fill_zeros(buf, 2, 2 + lead);
    print_mantissa_at(buf, 2 + lead, mant, mant_len);
    assert(buf@ =~= fraction_form(decimal_digits(mant as nat), lead as nat) + old(buf)@.subrange(
        2 + lead + mant_len,
        old(buf)@.len() as int,
    ));
    2 + lead + mant_len
}

/// Writes the mantissa with a decimal point after its first digit, `e` and
/// the exponent at the front of `buf`. A slot is kept for the leading digit:
/// the mantissa is printed one place to the right, its first digit is moved
/// into the slot, and the point takes the place of the first digit. Behind a
/// mantissa of one digit `e` takes the place of the point.
fn write_exponent_form(buf: &mut [u8], mant: u64, mant_len: usize, exponent: i32) -> (n: usize)
    requires
        mant < pow10(17),
        mant_len == digit_count(mant as nat),
        -999 <= exponent <= 999,
        exponent_form(decimal_digits(mant as nat), exponent as int).len() <= old(buf)@.len(),
    ensures
        n == exponent_form(decimal_digits(mant as nat), exponent as int).len(),
        final(buf)@ == exponent_form(decimal_digits(mant as nat), exponent as int) + old(
            buf,
        )@.subrange(n as int, old(buf)@.len() as int),
{
    let buf_len = buf.len();
    let ghost digits = decimal_digits(mant as nat);
    proof {
        lemma_int_text_len(exponent as int);
    }
    print_mantissa_at(buf, 1, mant, mant_len);

    buf[0] = buf[1];
    buf[1] = POINT;
    let mant_len_after_point: usize = mant_len - 1;
    let at: usize = mant_len + (if mant_len_after_point > 0 { 1 } else { 0 });

    buf[at] = LETTER_E;
    let ghost marked = buf@;
    let (head, tail) = buf.split_at_mut(at + 1);
    let exp_len = print_i32_exp(exponent, tail);
    assert(buf@ =~= exponent_form(digits, exponent as int) + old(buf)@.subrange(
        at + 1 + exp_len,
        old(buf)@.len() as int,
    ));
    at + 1 + exp_len
}

/// The text of an exponent of at most three digits has at most four bytes.
pub proof fn lemma_int_text_len(x: int)
    requires
        -999 <= x <= 999,
    ensures
        1 <= int_text(x).len() <= 4,
{
    lemma_pow10_values();
    reveal(int_text);
    if x < 0 {
        lemma_digit_count_le((-x) as nat, 3);
    } else {
        lemma_digit_count_le(x as nat, 3);
    }
}

/// The result of running Tejú Jaguá on a finite, nonzero float: its sign,
/// `true` for positive, and the decimal of its absolute value.
#[derive(Clone, Copy, Debug, PartialEq, Eq)]
pub struct Shortest {
    pub sign: bool,
    pub decimal: Decimal,
}

impl Shortest {
    /// Uses Tejú Jaguá to find a decimal representation for the float with
    /// the bit pattern `bits`, which is not zero.
    pub fn new(bits: u64) -> (r: Self)
        requires
            bits & ABS_MASK != 0,
        ensures
            r.sign == (bits < 0x8000_0000_0000_0000),
            r.decimal@ == decode(bits).teju_jagua(),
            r.decimal@.wf(),
    {
        assert((bits >> 63 == 0) == (bits < 0x8000_0000_0000_0000)) by (bit_vector);
        Shortest { sign: bits >> 63 == 0, decimal: Binary::new(bits).teju_jagua() }
    }

    /// Writes `-` at the front of `buf` and returns how many bytes of it
    /// stay: none behind a positive sign, which the digits then overwrite.
    fn write_sign(&self, buf: &mut [u8]) -> (skip: usize)
        requires
            1 <= old(buf)@.len(),
        ensures
            skip == sign_text(self.sign).len(),
            final(buf)@ == old(buf)@.update(0, MINUS),
    {
        buf[0] = MINUS;
        if self.sign {
            0
        } else {
            1
        }
    }

    /// Prints `self` in scientific notation at the front of `buf`, and
    /// returns the number of bytes written. The rest of `buf` is left as it
    /// was.
    pub fn format_exp(self, buf: &mut [u8]) -> (n: usize)
        requires
            self.decimal@.printable(),
            scientific_text(self.sign, self.decimal@).len() <= old(buf)@.len(),
        ensures
            n == scientific_text(self.sign, self.decimal@).len(),
            final(buf)@ == scientific_text(self.sign, self.decimal@) + old(buf)@.subrange(
                n as int,
                old(buf)@.len() as int,
            ),
    {
        let buf_len = buf.len();
        let skip = self.write_sign(buf);
        let mant_len: usize = len_u64(self.decimal.mant);
        let (head, body) = buf.split_at_mut(skip);
        let written = write_exponent_form(
            body,
            self.decimal.mant,
            mant_len,
            self.decimal.exp + (mant_len - 1) as i32,
        );
        assert(buf@ =~= scientific_text(self.sign, self.decimal@) + old(buf)@.subrange(
            skip + written,
            old(buf)@.len() as int,
        ));
        skip + written
    }

    /// Prints `self` at the front of `buf`, in decimal notation where the
    /// decimal point stands at most four places before the first digit and at
    /// most sixteen after it, in scientific notation elsewhere. Returns the
    /// number of bytes written. The rest of `buf` is left as it was.
    pub fn format_general(self, buf: &mut [u8]) -> (n: usize)
        requires
            self.decimal@.printable(),
            general_text(self.sign, self.decimal@).len() <= old(buf)@.len(),
        ensures
            n == general_text(self.sign, self.decimal@).len(),
            final(buf)@ == general_text(self.sign, self.decimal@) + old(buf)@.subrange(
                n as int,
                old(buf)@.len() as int,
            ),
    {
        let buf_len = buf.len();
        let skip = self.write_sign(buf);
        let mant_len: usize = len_u64(self.decimal.mant);
        let decimal_exp: i32 = mant_len as i32 + self.decimal.exp;
        let (head, body) = buf.split_at_mut(skip);

        let written = if self.decimal.exp >= 0 && decimal_exp <= 16 {
            // 1234e7 -> 12340000000.0
            write_integer_form(body, self.decimal.mant, mant_len, self.decimal.exp as usize)
        } else if 0 < decimal_exp && decimal_exp <= 16 {
            // 1234e-1 -> 123.4
            write_split_form(body, self.decimal.mant, mant_len, decimal_exp as usize)
        } else if -5 < decimal_exp && decimal_exp <= 0 {
            // 1234e-6 -> 0.001234
            write_fraction_form(body, self.decimal.mant, mant_len, (-decimal_exp) as usize)
        } else {
            // 1e30, 1234e30 -> 1.234e33
            write_exponent_form(body, self.decimal.mant, mant_len, decimal_exp - 1)
        };
        assert(buf@ =~= general_text(self.sign, self.decimal@) + old(buf)@.subrange(
            skip + written,
            old(buf)@.len() as int,
        ));
        skip + written
    }

    /// Prints `self` in decimal notation at the front of `buf`, and returns
    /// the number of bytes written. The rest of `buf` is left as it was.
    pub fn format_dec(self, buf: &mut [u8]) -> (n: usize)
        requires
            self.decimal@.printable(),
            decimal_text(self.sign, self.decimal@).len() <= old(buf)@.len(),
        ensures
            n == decimal_text(self.sign, self.decimal@).len(),
            final(buf)@ == decimal_text(self.sign, self.decimal@) + old(buf)@.subrange(
                n as int,
                old(buf)@.len() as int,
            ),
    {
        let buf_len = buf.len();
        let skip = self.write_sign(buf);
        let mant_len: usize = len_u64(self.decimal.mant);
        let decimal_exp: i32 = mant_len as i32 + self.decimal.exp;
        let (head, body) = buf.split_at_mut(skip);

        let written = if self.decimal.exp >= 0 {
            // 1234e7 -> 12340000000.0
            write_integer_form(body, self.decimal.mant, mant_len, self.decimal.exp as usize)
        } else if decimal_exp > 0 {
            // 1234e-1 -> 123.4
            write_split_form(body, self.decimal.mant, mant_len, decimal_exp as usize)
        } else {
            // 1234e-6 -> 0.001234
            write_fraction_form(body, self.decimal.mant, mant_len, (-decimal_exp) as usize)
        };
        assert(buf@ =~= decimal_text(self.sign, self.decimal@) + old(buf)@.subrange(
            skip + written,
            old(buf)@.len() as int,
        ));
        skip + written
    }
}

} // verus!

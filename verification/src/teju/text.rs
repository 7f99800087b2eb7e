//! What the renderers write, as sequences of ASCII bytes.

use vstd::prelude::*;
use vstd::arithmetic::div_mod::{lemma_breakdown, lemma_div_denominator};
use crate::teju::fmt::{
    decimal_digits, digit_at, digit_count, int_text, lemma_digit_count_bounds, lemma_digit_count_le,
    lemma_div_bounds, lemma_div_less, padded_digits,
};
use crate::teju::ieee64::DecimalView;
use crate::teju::power::{lemma_pow10_step, pow10};

verus! {

/// The byte `-`.
pub const MINUS: u8 = 45;

/// The byte `.`.
pub const POINT: u8 = 46;

/// The byte `0`.
pub const ZERO: u8 = 48;

/// The byte `e`.
pub const LETTER_E: u8 = 101;

/// Whether every byte is an ASCII character.
pub open spec fn is_ascii_bytes(s: Seq<u8>) -> bool {
    forall|i: int| 0 <= i < s.len() ==> #[trigger] s[i] < 128
}

/// The characters that ASCII bytes stand for.
pub open spec fn as_chars(s: Seq<u8>) -> Seq<char> {
    Seq::new(s.len(), |i: int| s[i] as char)
}

/// Nothing for a positive sign, `-` for a negative one.
pub open spec fn sign_text(sign: bool) -> Seq<u8> {
    if sign {
        Seq::<u8>::empty()
    } else {
        seq![MINUS]
    }
}

/// `n` zeros.
pub open spec fn zeros(n: nat) -> Seq<u8> {
    Seq::new(n, |i: int| ZERO)
}

/// An integer with `exp` zeros appended: the digits, the zeros, then `.0`.
pub open spec fn integer_form(digits: Seq<u8>, exp: nat) -> Seq<u8> {
    digits + zeros(exp) + seq![POINT, ZERO]
}

/// The digits with a decimal point after the first `point` of them.
pub open spec fn split_form(digits: Seq<u8>, point: int) -> Seq<u8> {
    digits.subrange(0, point) + seq![POINT] + digits.subrange(point, digits.len() as int)
}

/// A fraction below one: `0.`, then `lead` zeros, then the digits.
pub open spec fn fraction_form(digits: Seq<u8>, lead: nat) -> Seq<u8> {
    seq![ZERO, POINT] + zeros(lead) + digits
}

/// The digits with a decimal point after the first, where there are more
/// than one; then `e` and the exponent.
pub open spec fn exponent_form(digits: Seq<u8>, exponent: int) -> Seq<u8> {
    (if digits.len() == 1 {
        digits
    } else {
        split_form(digits, 1)
    }) + seq![LETTER_E] + int_text(exponent)
}

impl DecimalView {
    /// The place of the decimal point, counted from the first digit of the
    /// mantissa: the exponent of the first digit, plus one.
    pub open spec fn point(self) -> int {
        self.exp + digit_count(self.mant as nat)
    }

    /// What the renderers can print: a mantissa of at most 17 digits, and an
    /// exponent of the first digit of at most three digits.
    pub open spec fn printable(self) -> bool {
        &&& 0 <= self.mant < pow10(17)
        &&& -999 <= self.point() - 1 <= 999
    }

    /// The magnitude in scientific notation.
    pub open spec fn scientific(self) -> Seq<u8> {
        exponent_form(decimal_digits(self.mant as nat), self.point() - 1)
    }

    /// The magnitude in decimal notation.
    pub open spec fn decimal(self) -> Seq<u8> {
        let digits = decimal_digits(self.mant as nat);
        if self.exp >= 0 {
            integer_form(digits, self.exp as nat)
        } else if self.point() > 0 {
            split_form(digits, self.point())
        } else {
            fraction_form(digits, (-self.point()) as nat)
        }
    }

    /// The magnitude in decimal notation where the decimal point stands at
    /// most four places before the first digit and at most sixteen after it,
    /// in scientific notation elsewhere.
    pub open spec fn general(self) -> Seq<u8> {
        if -5 < self.point() <= 16 {
            self.decimal()
        } else {
            self.scientific()
        }
    }
}

/// The text of a signed decimal in scientific notation.
pub open spec fn scientific_text(sign: bool, d: DecimalView) -> Seq<u8> {
    sign_text(sign) + d.scientific()
}

/// The text of a signed decimal in decimal notation.
pub open spec fn decimal_text(sign: bool, d: DecimalView) -> Seq<u8> {
    sign_text(sign) + d.decimal()
}

/// The text of a signed decimal in general notation.
pub open spec fn general_text(sign: bool, d: DecimalView) -> Seq<u8> {
    sign_text(sign) + d.general()
}

/// Whether the byte is one of the digits `0` to `9`.
pub open spec fn is_digit(b: u8) -> bool {
    48 <= b <= 57
}

/// Whether every byte is a digit.
pub open spec fn all_digits(s: Seq<u8>) -> bool {
    forall|i: int| 0 <= i < s.len() ==> is_digit(#[trigger] s[i])
}

/// Whether the bytes spell an integer without a sign or needless zeros: `0`,
/// or digits that do not start with `0`.
pub open spec fn is_plain_integer(s: Seq<u8>) -> bool {
    &&& s.len() >= 1
    &&& all_digits(s)
    &&& s.len() == 1 || s[0] != ZERO
}

/// Whether the bytes are nothing or a minus sign.
pub open spec fn is_optional_minus(s: Seq<u8>) -> bool {
    s == Seq::<u8>::empty() || s == seq![MINUS]
}

/// A text in decimal notation, put together from its parts.
pub open spec fn decimal_parts(sign: Seq<u8>, whole: Seq<u8>, fraction: Seq<u8>) -> Seq<u8> {
    sign + whole + seq![POINT] + fraction
}

/// Whether the text has the form of decimal notation: an optional minus
/// sign, a plain integer, a decimal point, and at least one more digit.
pub open spec fn is_decimal_form(s: Seq<u8>) -> bool {
    exists|sign: Seq<u8>, whole: Seq<u8>, fraction: Seq<u8>|
        {
            &&& #[trigger] decimal_parts(sign, whole, fraction) == s
            &&& is_optional_minus(sign)
            &&& is_plain_integer(whole)
            &&& fraction.len() >= 1
            &&& all_digits(fraction)
        }
}

/// A text in scientific notation, put together from its parts. The decimal
/// point stands only in front of a fraction that is not empty.
pub open spec fn scientific_parts(
    sign: Seq<u8>,
    whole: Seq<u8>,
    fraction: Seq<u8>,
    exp_sign: Seq<u8>,
    exp_digits: Seq<u8>,
) -> Seq<u8> {
    sign + whole + (if fraction.len() == 0 {
        fraction
    } else {
        seq![POINT] + fraction
    }) + seq![LETTER_E] + exp_sign + exp_digits
}

/// Whether the text has the form of scientific notation: an optional minus
/// sign, a plain integer, optionally a decimal point with at least one more
/// digit, `e`, an optional minus sign, and at least one digit.
pub open spec fn is_scientific_form(s: Seq<u8>) -> bool {
    exists|sign: Seq<u8>, whole: Seq<u8>, fraction: Seq<u8>, exp_sign: Seq<u8>, exp_digits: Seq<u8>|
        {
            &&& #[trigger] scientific_parts(sign, whole, fraction, exp_sign, exp_digits) == s
            &&& is_optional_minus(sign)
            &&& is_plain_integer(whole)
            &&& all_digits(fraction)
            &&& is_optional_minus(exp_sign)
            &&& exp_digits.len() >= 1
            &&& all_digits(exp_digits)
        }
}

/// Whether the byte is one of the digits `1` to `9`.
pub open spec fn is_digit_not_zero(b: u8) -> bool {
    49 <= b <= 57
}

/// Whether the text is in scientific notation with one digit, not zero,
/// before the decimal point: a mantissa of at least one and below ten.
pub open spec fn is_normalized_scientific_form(s: Seq<u8>) -> bool {
    exists|sign: Seq<u8>, whole: Seq<u8>, fraction: Seq<u8>, exp_sign: Seq<u8>, exp_digits: Seq<u8>|
        {
            &&& #[trigger] scientific_parts(sign, whole, fraction, exp_sign, exp_digits) == s
            &&& is_optional_minus(sign)
            &&& whole.len() == 1
            &&& is_digit_not_zero(whole[0])
            &&& all_digits(fraction)
            &&& is_optional_minus(exp_sign)
            &&& exp_digits.len() >= 1
            &&& all_digits(exp_digits)
        }
}

/// The digits of a number are as many as its digit count, all of them are
/// digits, and the first is no zero unless the number is zero.
pub proof fn lemma_decimal_digits(x: nat)
    ensures
        decimal_digits(x).len() == digit_count(x),
        digit_count(x) >= 1,
        all_digits(decimal_digits(x)),
        is_plain_integer(decimal_digits(x)),
        x > 0 ==> decimal_digits(x)[0] != ZERO,
{
    let n = digit_count(x);
    lemma_digit_count_bounds(x, n);
    lemma_pow10_step((n - 1) as nat);
    let top = pow10((n - 1) as nat);
    assert(decimal_digits(x)[0] == digit_at(x, (n - 1) as nat));
    lemma_div_less(x as int, top as int, 10);
    lemma_div_bounds(x as int, top as int);
    if n == 1 {
        lemma_pow10_step(0);
    }
}

/// The text of an exponent of at most three digits: an optional minus sign
/// and one to three digits.
pub proof fn lemma_int_text(x: int)
    requires
        -999 <= x <= 999,
    ensures
        int_text(x) == (if x < 0 {
            seq![MINUS]
        } else {
            Seq::<u8>::empty()
        }) + decimal_digits(vstd::math::abs(x) as nat),
        1 <= decimal_digits(vstd::math::abs(x) as nat).len() <= 3,
        1 <= int_text(x).len() <= 4,
        is_ascii_bytes(int_text(x)),
{
    let magnitude = vstd::math::abs(x) as nat;
    reveal(int_text);
    crate::teju::power::lemma_pow10_values();
    lemma_digit_count_le(magnitude, 3);
    lemma_decimal_digits(magnitude);
    assert(Seq::<u8>::empty() + decimal_digits(magnitude) =~= decimal_digits(magnitude));
}

/// The length of each notation, and that each is made of ASCII bytes.
pub proof fn lemma_text_lengths(d: DecimalView)
    requires
        d.printable(),
    ensures
        d.scientific().len() == digit_count(d.mant as nat) + (if digit_count(d.mant as nat) == 1 {
            0int
        } else {
            1int
        }) + 1 + int_text(d.point() - 1).len(),
        d.scientific().len() <= 23,
        d.decimal().len() == (if d.exp >= 0 {
            d.point() + 2
        } else if d.point() > 0 {
            digit_count(d.mant as nat) as int + 1
        } else {
            2 - d.exp
        }),
        d.general().len() <= 23,
        is_ascii_bytes(d.scientific()),
        is_ascii_bytes(d.decimal()),
        is_ascii_bytes(d.general()),
{
    let digits = decimal_digits(d.mant as nat);
    lemma_decimal_digits(d.mant as nat);
    lemma_digit_count_le(d.mant as nat, 17);
    lemma_int_text(d.point() - 1);
    assert(is_ascii_bytes(digits));
    assert(is_ascii_bytes(d.scientific())) by {
        let e = int_text(d.point() - 1);
        let s = d.scientific();
        assert forall|i: int| 0 <= i < s.len() implies #[trigger] s[i] < 128 by {
            let head = if digits.len() == 1 {
                digits
            } else {
                split_form(digits, 1)
            };
            if i < head.len() {
                if digits.len() > 1 && i >= 2 {
                    assert(s[i] == digits[i - 1]);
                }
            } else if i > head.len() {
                assert(s[i] == e[i - head.len() - 1]);
            }
        }
    }
    assert(is_ascii_bytes(d.decimal())) by {
        let s = d.decimal();
        assert forall|i: int| 0 <= i < s.len() implies #[trigger] s[i] < 128 by {
            if d.exp >= 0 {
                if i < digits.len() {
                    assert(s[i] == digits[i]);
                }
            } else if d.point() > 0 {
                if i < d.point() {
                    assert(s[i] == digits[i]);
                } else if i > d.point() {
                    assert(s[i] == digits[i - 1]);
                }
            } else {
                if i >= 2 - d.point() {
                    assert(s[i] == digits[i - (2 - d.point())]);
                }
            }
        }
    }
}

/// A sign in front keeps a text ASCII and adds at most one byte.
pub proof fn lemma_signed_text(sign: bool, body: Seq<u8>)
    requires
        is_ascii_bytes(body),
    ensures
        is_ascii_bytes(sign_text(sign) + body),
        (sign_text(sign) + body).len() == body.len() + (if sign {
            0int
        } else {
            1int
        }),
{
    let s = sign_text(sign) + body;
    assert forall|i: int| 0 <= i < s.len() implies #[trigger] s[i] < 128 by {
        if i >= sign_text(sign).len() {
            assert(s[i] == body[i - sign_text(sign).len()]);
        }
    }
}

/// The number that digits spell.
pub open spec fn digits_value(s: Seq<u8>) -> int
    decreases s.len(),
{
    if s.len() == 0 {
        0
    } else {
        digits_value(s.drop_last()) * 10 + (s.last() - ZERO)
    }
}

/// Whether the text is decimal notation for the signed decimal
/// `mant * 10^exp`: the digits on both sides of the decimal point spell
/// `mant * 10^(exp + k)`, where `k` digits stand behind the point.
pub open spec fn decimal_denotes(s: Seq<u8>, sign: bool, mant: nat, exp: int) -> bool {
    exists|whole: Seq<u8>, fraction: Seq<u8>|
        {
            &&& #[trigger] decimal_parts(sign_text(sign), whole, fraction) == s
            &&& is_plain_integer(whole)
            &&& fraction.len() >= 1
            &&& all_digits(fraction)
            &&& exp + fraction.len() >= 0
            &&& digits_value(whole + fraction) == mant * pow10((exp + fraction.len()) as nat)
        }
}

/// Whether the text is scientific notation for the signed decimal
/// `mant * 10^exp`: one digit stands before the point, not a zero unless
/// `mant` is zero, the digits of the mantissa spell `mant`, and the exponent
/// is `exp + k`, where `k` digits stand behind the point.
pub open spec fn scientific_denotes(s: Seq<u8>, sign: bool, mant: nat, exp: int) -> bool {
    exists|whole: Seq<u8>, fraction: Seq<u8>, exp_sign: Seq<u8>, exp_digits: Seq<u8>|
        {
            &&& #[trigger] scientific_parts(sign_text(sign), whole, fraction, exp_sign, exp_digits)
                == s
            &&& whole.len() == 1
            &&& is_digit(whole[0])
            &&& mant >= 1 ==> whole[0] != ZERO
            &&& all_digits(fraction)
            &&& is_optional_minus(exp_sign)
            &&& exp_digits.len() >= 1
            &&& all_digits(exp_digits)
            &&& digits_value(whole + fraction) == mant
            &&& exp + fraction.len() == (if exp_sign.len() == 0 {
                digits_value(exp_digits)
            } else {
                -digits_value(exp_digits)
            })
        }
}

/// The digits that are put behind others count in full, the others ten times
/// for each of them.
pub proof fn lemma_digits_value_concat(a: Seq<u8>, b: Seq<u8>)
    ensures
        digits_value(a + b) == digits_value(a) * pow10(b.len()) + digits_value(b),
    decreases b.len(),
{
    lemma_pow10_step(0);
    if b.len() == 0 {
        assert(a + b =~= a);
        assert(digits_value(a) * pow10(0) == digits_value(a)) by (nonlinear_arith)
            requires
                pow10(0) == 1,
        ;
    } else {
        let shorter = b.drop_last();
        lemma_digits_value_concat(a, shorter);
        lemma_pow10_step(shorter.len());
        assert((a + b).drop_last() =~= a + shorter);
        assert((a + b).last() == b.last());
        assert((digits_value(a) * pow10(shorter.len()) + digits_value(shorter)) * 10
            == digits_value(a) * pow10(b.len()) + digits_value(shorter) * 10) by (nonlinear_arith)
            requires
                pow10(b.len()) == 10 * pow10(shorter.len()),
        ;
    }
}

/// Zeros spell zero.
pub proof fn lemma_digits_value_zeros(n: nat)
    ensures
        digits_value(zeros(n)) == 0,
    decreases n,
{
    if n > 0 {
        lemma_digits_value_zeros((n - 1) as nat);
        assert(zeros(n).drop_last() =~= zeros((n - 1) as nat));
    }
}

/// The last `k` digits of a number spell the number modulo `10^k`.
pub proof fn lemma_digits_value_padded(x: nat, k: nat)
    ensures
        digits_value(padded_digits(x, k)) == x % pow10(k),
    decreases k,
{
    lemma_pow10_step(0);
    if k > 0 {
        let lower = (k - 1) as nat;
        lemma_digits_value_padded(x / 10, lower);
        lemma_pow10_step(lower);
        let digits = padded_digits(x, k);
        assert(digits.drop_last() =~= padded_digits(x / 10, lower)) by {
            assert forall|j: int| 0 <= j < lower implies digits[j] == padded_digits(x / 10, lower)[j] by {
                let place = (lower - 1 - j) as nat;
                lemma_pow10_step(place);
                lemma_div_denominator(x as int, 10, pow10(place) as int);
            }
        }
        assert(digits.last() == ZERO + x % 10);
        lemma_breakdown(x as int, 10, pow10(lower) as int);
    }
}

/// The digits of a number spell the number.
pub proof fn lemma_digits_value(x: nat)
    ensures
        digits_value(decimal_digits(x)) == x,
{
    lemma_digits_value_padded(x, digit_count(x));
    lemma_digit_count_bounds(x, digit_count(x));
    vstd::arithmetic::div_mod::lemma_small_mod(x, pow10(digit_count(x)));
}

} // verus!

//! What holds of the texts, for every float.

use vstd::prelude::*;
use vstd::arithmetic::div_mod::{
    lemma_div_denominator, lemma_div_multiples_vanish, lemma_mod_multiples_basic,
};
use vstd::arithmetic::power2::{lemma2_to64_rest, lemma_pow2_pos, lemma_pow2_strictly_increases, pow2};
use crate::teju::double::{finite_float_type_of, float_type_of, is_sign_positive, Double};
use crate::teju::fewest::{
    law_decimal_has_fewest_digits, law_decimal_has_no_trailing_zero, law_decimal_reads_back,
};
use crate::teju::float::{FiniteFloatType, FloatType, Sealed};
use crate::teju::fmt::{decimal_digits, digit_at, digit_count, int_text, lemma_digit_count_le};
use crate::teju::ieee64::{
    decode, lemma_remove_trailing_zeros, BinaryView, DecimalView, lemma_decode_wf,
};
use crate::teju::power::{lemma_pow10_step, lemma_pow10_values, pow10};
use crate::teju::text::{
    all_digits, decimal_denotes, decimal_parts, decimal_text, digits_value, general_text,
    is_decimal_form,
    is_digit, is_digit_not_zero, is_normalized_scientific_form, is_optional_minus,
    is_plain_integer, is_scientific_form, lemma_decimal_digits, lemma_digits_value,
    lemma_digits_value_concat, lemma_digits_value_zeros, lemma_int_text, scientific_denotes,
    scientific_parts, scientific_text, sign_text, split_form, zeros, LETTER_E, MINUS, POINT, ZERO,
};
use crate::{
    decimal_finite_of, decimal_of, general_finite_of, general_of, scientific_finite_of,
    scientific_of,
};

verus! {

/// Scientific notation with a mantissa between one and ten is scientific
/// notation.
pub proof fn lemma_normalized_is_scientific(s: Seq<u8>)
    requires
        is_normalized_scientific_form(s),
    ensures
        is_scientific_form(s),
{
    let (sign, whole, fraction, exp_sign, exp_digits) = choose|
        sign: Seq<u8>,
        whole: Seq<u8>,
        fraction: Seq<u8>,
        exp_sign: Seq<u8>,
        exp_digits: Seq<u8>,
    |
        {
            &&& #[trigger] scientific_parts(sign, whole, fraction, exp_sign, exp_digits) == s
            &&& is_optional_minus(sign)
            &&& whole.len() == 1
            &&& is_digit_not_zero(whole[0])
            &&& all_digits(fraction)
            &&& is_optional_minus(exp_sign)
            &&& exp_digits.len() >= 1
            &&& all_digits(exp_digits)
        };
    assert(is_plain_integer(whole));
    assert(scientific_parts(sign, whole, fraction, exp_sign, exp_digits) == s);
}

/// A text that is scientific notation for a decimal that is not zero is in
/// scientific notation, with a mantissa of at least one and below ten.
pub proof fn lemma_scientific_denotes_form(s: Seq<u8>, sign: bool, mant: nat, exp: int)
    requires
        scientific_denotes(s, sign, mant, exp),
        mant >= 1,
    ensures
        is_normalized_scientific_form(s),
{
    let (whole, fraction, exp_sign, exp_digits) = choose|
        whole: Seq<u8>,
        fraction: Seq<u8>,
        exp_sign: Seq<u8>,
        exp_digits: Seq<u8>,
    |
        {
            &&& #[trigger] scientific_parts(sign_text(sign), whole, fraction, exp_sign, exp_digits)
                == s
            &&& whole.len() == 1
            &&& is_digit(whole[0])
            &&& mant >= 1 ==> whole[0] != ZERO
            &&& all_digits(fraction)
            &&& is_optional_minus(exp_sign)
            &&& exp_digits.len() >= 1
            &&& all_digits(exp_digits)
            &&& digits_value(whole + fraction) == mant
            &&& exp + fraction.len() == (if exp_sign.len() == 0 {
                digits_value(exp_digits)
            } else {
                -digits_value(exp_digits)
            })
        };
    assert(is_digit_not_zero(whole[0]));
    assert(scientific_parts(sign_text(sign), whole, fraction, exp_sign, exp_digits) == s);
}

/// A text that is decimal notation for a decimal is in decimal notation.
pub proof fn lemma_decimal_denotes_form(s: Seq<u8>, sign: bool, mant: nat, exp: int)
    requires
        decimal_denotes(s, sign, mant, exp),
    ensures
        is_decimal_form(s),
{
    let (whole, fraction) = choose|whole: Seq<u8>, fraction: Seq<u8>|
        {
            &&& #[trigger] decimal_parts(sign_text(sign), whole, fraction) == s
            &&& is_plain_integer(whole)
            &&& fraction.len() >= 1
            &&& all_digits(fraction)
            &&& exp + fraction.len() >= 0
            &&& digits_value(whole + fraction) == mant * pow10((exp + fraction.len()) as nat)
        };
    assert(decimal_parts(sign_text(sign), whole, fraction) == s);
}

/// The scientific text of a nonzero decimal is in scientific notation, with
/// a mantissa of at least one and below ten.
pub proof fn lemma_scientific_form(sign: bool, d: DecimalView)
    requires
        d.printable(),
        d.mant >= 1,
    ensures
        is_normalized_scientific_form(scientific_text(sign, d)),
        is_scientific_form(scientific_text(sign, d)),
{
    lemma_scientific_denotes(sign, d);
    lemma_scientific_denotes_form(scientific_text(sign, d), sign, d.mant as nat, d.exp);
    lemma_normalized_is_scientific(scientific_text(sign, d));
}

/// The decimal text of a nonzero decimal is in decimal notation: at least
/// one digit on each side of the decimal point, and no needless zero in
/// front.
pub proof fn lemma_decimal_form(sign: bool, d: DecimalView)
    requires
        d.printable(),
        d.mant >= 1,
    ensures
        is_decimal_form(decimal_text(sign, d)),
{
    lemma_decimal_denotes(sign, d);
    lemma_decimal_denotes_form(decimal_text(sign, d), sign, d.mant as nat, d.exp);
}

/// The decimal text of a nonzero decimal denotes the decimal.
pub proof fn lemma_decimal_denotes(sign: bool, d: DecimalView)
    requires
        d.printable(),
        d.mant >= 1,
    ensures
        decimal_denotes(decimal_text(sign, d), sign, d.mant as nat, d.exp),
{
    let digits = decimal_digits(d.mant as nat);
    lemma_decimal_digits(d.mant as nat);
    lemma_digits_value(d.mant as nat);
    lemma_pow10_step(0);
    let s = decimal_text(sign, d);
    if d.exp >= 0 {
        let whole = digits + zeros(d.exp as nat);
        let fraction = seq![ZERO];
        assert(decimal_parts(sign_text(sign), whole, fraction) =~= s);
        assert(is_plain_integer(whole)) by {
            assert forall|i: int| 0 <= i < whole.len() implies is_digit(#[trigger] whole[i]) by {
                if i < digits.len() {
                    assert(whole[i] == digits[i]);
                }
            }
            assert(whole[0] == digits[0]);
        }
        assert(all_digits(fraction));
        assert(whole + fraction =~= digits + zeros((d.exp + 1) as nat));
        lemma_digits_value_concat(digits, zeros((d.exp + 1) as nat));
        lemma_digits_value_zeros((d.exp + 1) as nat);
    } else if d.point() > 0 {
        let whole = digits.subrange(0, d.point());
        let fraction = digits.subrange(d.point(), digits.len() as int);
        assert(decimal_parts(sign_text(sign), whole, fraction) =~= s);
        assert(is_plain_integer(whole)) by {
            assert forall|i: int| 0 <= i < whole.len() implies is_digit(#[trigger] whole[i]) by {
                assert(whole[i] == digits[i]);
            }
            assert(whole[0] == digits[0]);
        }
        assert(all_digits(fraction)) by {
            assert forall|i: int| 0 <= i < fraction.len() implies is_digit(
                #[trigger] fraction[i],
            ) by {
                assert(fraction[i] == digits[i + d.point()]);
            }
        }
        assert(whole + fraction =~= digits);
        assert(d.mant * pow10(0) == d.mant) by (nonlinear_arith)
            requires
                pow10(0) == 1,
        ;
    } else {
        let whole = seq![ZERO];
        let lead = (-d.point()) as nat;
        let fraction = zeros(lead) + digits;
        assert(decimal_parts(sign_text(sign), whole, fraction) =~= s);
        assert(is_plain_integer(whole));
        assert(all_digits(fraction)) by {
            assert forall|i: int| 0 <= i < fraction.len() implies is_digit(
                #[trigger] fraction[i],
            ) by {
                if i >= lead {
                    assert(fraction[i] == digits[i - lead]);
                }
            }
        }
        assert(whole + fraction =~= zeros(lead + 1) + digits);
        lemma_digits_value_concat(zeros(lead + 1), digits);
        lemma_digits_value_zeros(lead + 1);
        assert(0 * pow10(digits.len()) == 0);
        assert(d.mant * pow10(0) == d.mant) by (nonlinear_arith)
            requires
                pow10(0) == 1,
        ;
    }
}

/// The scientific text of a nonzero decimal denotes the decimal.
pub proof fn lemma_scientific_denotes(sign: bool, d: DecimalView)
    requires
        d.printable(),
        d.mant >= 1,
    ensures
        scientific_denotes(scientific_text(sign, d), sign, d.mant as nat, d.exp),
{
    let digits = decimal_digits(d.mant as nat);
    let exponent = d.point() - 1;
    lemma_decimal_digits(d.mant as nat);
    lemma_digits_value(d.mant as nat);
    lemma_int_text(exponent);
    let whole = digits.subrange(0, 1);
    let fraction = digits.subrange(1, digits.len() as int);
    let exp_sign = if exponent < 0 {
        seq![MINUS]
    } else {
        Seq::<u8>::empty()
    };
    let exp_digits = decimal_digits(vstd::math::abs(exponent) as nat);
    lemma_decimal_digits(vstd::math::abs(exponent) as nat);
    lemma_digits_value(vstd::math::abs(exponent) as nat);
    let s = scientific_text(sign, d);
    assert(is_digit(whole[0]) && whole[0] != ZERO) by {
        assert(whole[0] == digits[0]);
        assert(all_digits(digits));
    }
    assert(all_digits(fraction)) by {
        assert forall|i: int| 0 <= i < fraction.len() implies is_digit(#[trigger] fraction[i]) by {
            assert(fraction[i] == digits[i + 1]);
        }
    }
    assert(scientific_parts(sign_text(sign), whole, fraction, exp_sign, exp_digits) == s) by {
        let middle = if fraction.len() == 0 {
            fraction
        } else {
            seq![POINT] + fraction
        };
        assert(whole + middle =~= (if digits.len() == 1 {
            digits
        } else {
            split_form(digits, 1)
        }));
        assert(int_text(exponent) == exp_sign + exp_digits);
        assert(scientific_parts(sign_text(sign), whole, fraction, exp_sign, exp_digits) =~= s);
    }
    assert(whole + fraction =~= digits);
}

/// What the text denotes: the decimal and the scientific text of every
/// finite float that is not zero denote the decimal of its reduction, with
/// its sign; the general text is one of the two.
pub proof fn law_text_denotes(num: Double)
    requires
        num.float_type() is Finite,
        num.finite_float_type() is Nonzero,
    ensures
        decimal_denotes(
            decimal_of(num),
            is_sign_positive(num@),
            decode(num@).teju_jagua().mant as nat,
            decode(num@).teju_jagua().exp,
        ),
        scientific_denotes(
            scientific_of(num),
            is_sign_positive(num@),
            decode(num@).teju_jagua().mant as nat,
            decode(num@).teju_jagua().exp,
        ),
        general_of(num) == decimal_of(num) || general_of(num) == scientific_of(num),
{
    lemma_decode_wf(num@);
    let d = decode(num@).teju_jagua();
    crate::teju::ieee64::lemma_teju_jagua_wf(decode(num@));
    lemma_wf_printable(d);
    lemma_decimal_denotes(is_sign_positive(num@), d);
    lemma_scientific_denotes(is_sign_positive(num@), d);
}

/// Roundtrip: the decimal that the texts of a finite float that is not zero
/// denote reads back as the float, unless the reduction takes the upper end
/// of the rounding interval of an odd mantissa.
pub proof fn law_text_reads_back(num: Double)
    requires
        num.float_type() is Finite,
        num.finite_float_type() is Nonzero,
        decode(num@).is_small_integer() || !decode(num@).is_centered() || !decode(
            num@,
        ).takes_upper_end(),
    ensures
        decimal_denotes(
            decimal_of(num),
            is_sign_positive(num@),
            decode(num@).teju_jagua().mant as nat,
            decode(num@).teju_jagua().exp,
        ),
        scientific_denotes(
            scientific_of(num),
            is_sign_positive(num@),
            decode(num@).teju_jagua().mant as nat,
            decode(num@).teju_jagua().exp,
        ),
        general_of(num) == decimal_of(num) || general_of(num) == scientific_of(num),
        decode(num@).reads_back_as(decode(num@).teju_jagua()),
{
    lemma_decode_wf(num@);
    law_text_denotes(num);
    law_decimal_reads_back(decode(num@));
}

/// Fewest digits: the decimal that the texts of a finite float that is not
/// zero denote has a mantissa that does not end in a zero, and no decimal
/// that reads back as the float has fewer digits, unless the reduction keeps
/// its digits beside a multiple of ten inside the rounding interval.
pub proof fn law_text_has_fewest_digits(num: Double, c: DecimalView)
    requires
        num.float_type() is Finite,
        num.finite_float_type() is Nonzero,
        c.mant >= 1,
        decode(num@).reads_back_as(c),
    ensures
        decode(num@).teju_jagua().mant % 10 != 0,
        decode(num@).is_small_integer() || !decode(num@).is_centered() || !decode(
            num@,
        ).keeps_long() ==> digit_count(decode(num@).teju_jagua().mant as nat) <= digit_count(
            c.mant as nat,
        ),
{
    let b = decode(num@);
    lemma_decode_wf(num@);
    law_decimal_has_no_trailing_zero(b);
    if b.is_small_integer() || !b.is_centered() || !b.keeps_long() {
        law_decimal_has_fewest_digits(b, c);
    }
}

/// The general text of a nonzero decimal is in decimal or in scientific
/// notation.
pub proof fn lemma_general_form(sign: bool, d: DecimalView)
    requires
        d.printable(),
        d.mant >= 1,
    ensures
        is_decimal_form(general_text(sign, d)) || is_normalized_scientific_form(
            general_text(sign, d),
        ),
{
    lemma_decimal_form(sign, d);
    lemma_scientific_form(sign, d);
}

/// Scientific form: the scientific text of every finite float is in
/// scientific notation, and that of a nonzero one has a mantissa of at least
/// one and below ten.
pub proof fn law_scientific_form(num: Double)
    requires
        num.float_type() is Finite,
    ensures
        is_scientific_form(scientific_of(num)),
        num.finite_float_type() is Nonzero ==> is_normalized_scientific_form(scientific_of(num)),
{
    let s = scientific_of(num);
    match num.finite_float_type() {
        FiniteFloatType::Nonzero => {
            lemma_decode_wf(num@);
            let d = decode(num@).teju_jagua();
            crate::teju::ieee64::lemma_teju_jagua_wf(decode(num@));
            lemma_wf_printable(d);
            lemma_scientific_form(is_sign_positive(num@), d);
        },
        FiniteFloatType::PosZero => {
            let empty = Seq::<u8>::empty();
            assert(scientific_parts(empty, seq![ZERO], empty, empty, seq![ZERO]) =~= s);
            assert(is_plain_integer(seq![ZERO]));
            assert(all_digits(empty));
            assert(all_digits(seq![ZERO]));
        },
        FiniteFloatType::NegZero => {
            let empty = Seq::<u8>::empty();
            assert(scientific_parts(seq![MINUS], seq![ZERO], empty, empty, seq![ZERO]) =~= s);
            assert(is_plain_integer(seq![ZERO]));
            assert(all_digits(empty));
            assert(all_digits(seq![ZERO]));
        },
    }
}

/// Decimal form: the decimal text of every finite float is in decimal
/// notation.
pub proof fn law_decimal_form(num: Double)
    requires
        num.float_type() is Finite,
    ensures
        is_decimal_form(decimal_of(num)),
{
    let s = decimal_of(num);
    match num.finite_float_type() {
        FiniteFloatType::Nonzero => {
            lemma_decode_wf(num@);
            let d = decode(num@).teju_jagua();
            crate::teju::ieee64::lemma_teju_jagua_wf(decode(num@));
            lemma_wf_printable(d);
            lemma_decimal_form(is_sign_positive(num@), d);
        },
        FiniteFloatType::PosZero => {
            let empty = Seq::<u8>::empty();
            assert(decimal_parts(empty, seq![ZERO], seq![ZERO]) =~= s);
            assert(is_plain_integer(seq![ZERO]));
            assert(all_digits(seq![ZERO]));
        },
        FiniteFloatType::NegZero => {
            assert(decimal_parts(seq![MINUS], seq![ZERO], seq![ZERO]) =~= s);
            assert(is_plain_integer(seq![ZERO]));
            assert(all_digits(seq![ZERO]));
        },
    }
}

/// The general text of every finite float is in decimal notation or in
/// scientific notation with a mantissa of at least one and below ten.
pub proof fn law_general_form(num: Double)
    requires
        num.float_type() is Finite,
    ensures
        is_decimal_form(general_of(num)) || is_normalized_scientific_form(general_of(num)),
{
    match num.finite_float_type() {
        FiniteFloatType::Nonzero => {
            lemma_decode_wf(num@);
            let d = decode(num@).teju_jagua();
            crate::teju::ieee64::lemma_teju_jagua_wf(decode(num@));
            lemma_wf_printable(d);
            lemma_general_form(is_sign_positive(num@), d);
        },
        _ => {
            law_decimal_form(num);
        },
    }
}

/// What the reduction gives can be printed.
pub proof fn lemma_wf_printable(d: DecimalView)
    requires
        d.wf(),
    ensures
        d.printable(),
        d.mant >= 1,
{
}

/// Sign flip: the text of a float with the sign bit set is `-` followed by
/// the text of the float with the sign bit clear, in every notation, unless
/// the float is a NaN.
pub proof fn law_sign_flip(negative: Double, positive: Double)
    requires
        is_sign_positive(positive@),
        negative@ == positive@ + 0x8000_0000_0000_0000,
        !(positive.float_type() is Nan),
    ensures
        general_of(negative) == seq![MINUS] + general_of(positive),
        scientific_of(negative) == seq![MINUS] + scientific_of(positive),
        decimal_of(negative) == seq![MINUS] + decimal_of(positive),
        general_finite_of(negative) == seq![MINUS] + general_finite_of(positive),
        scientific_finite_of(negative) == seq![MINUS] + scientific_finite_of(positive),
        decimal_finite_of(negative) == seq![MINUS] + decimal_finite_of(positive),
{
    let d = decode(positive@).teju_jagua();
    assert(decode(negative@) == decode(positive@));
    assert(float_type_of(negative@) == (match float_type_of(positive@) {
        FloatType::PosInf => FloatType::NegInf,
        class => class,
    }));
    assert(finite_float_type_of(negative@) == (match finite_float_type_of(positive@) {
        FiniteFloatType::PosZero => FiniteFloatType::NegZero,
        class => class,
    }));
    let empty = Seq::<u8>::empty();
    assert(general_text(false, d) =~= seq![MINUS] + general_text(true, d));
    assert(scientific_text(false, d) =~= seq![MINUS] + scientific_text(true, d));
    assert(decimal_text(false, d) =~= seq![MINUS] + decimal_text(true, d));
    assert(general_finite_of(negative) =~= seq![MINUS] + general_finite_of(positive));
    assert(scientific_finite_of(negative) =~= seq![MINUS] + scientific_finite_of(positive));
    assert(decimal_finite_of(negative) =~= seq![MINUS] + decimal_finite_of(positive));
    assert(general_of(negative) =~= seq![MINUS] + general_of(positive));
    assert(scientific_of(negative) =~= seq![MINUS] + scientific_of(positive));
    assert(decimal_of(negative) =~= seq![MINUS] + decimal_of(positive));
}

/// The digits of ten times a number are the digits of the number and a
/// zero.
pub proof fn lemma_digits_times_ten(x: nat)
    requires
        x >= 1,
    ensures
        decimal_digits(10 * x) == decimal_digits(x) + seq![ZERO],
{
    let n = digit_count(x);
    assert(digit_count(10 * x) == n + 1) by {
        assert((10 * x) / 10 == x);
    }
    let left = decimal_digits(10 * x);
    let right = decimal_digits(x) + seq![ZERO];
    assert forall|j: int| 0 <= j < n + 1 implies left[j] == right[j] by {
        let place = (n - j) as nat;
        if j < n {
            // the digit of 10 * x at place is the digit of x one place lower
            let lower = (place - 1) as nat;
            lemma_pow10_step(lower);
            lemma_pow10_step(0);
            lemma_div_denominator((10 * x) as int, 10, pow10(lower) as int);
            assert(10 * pow10(lower) == pow10(place));
            assert(digit_at(10 * x, place) == digit_at(x, lower));
        } else {
            lemma_pow10_step(0);
            assert(digit_at(10 * x, 0) == ZERO);
        }
    }
    assert(left =~= right);
}

/// The digits of a number times a power of ten are the digits of the number
/// and as many zeros as the power has.
pub proof fn lemma_digits_times_pow10(x: nat, k: nat)
    requires
        x >= 1,
    ensures
        decimal_digits(x * pow10(k)) == decimal_digits(x) + zeros(k),
    decreases k,
{
    lemma_pow10_step(0);
    if k == 0 {
        assert(x * pow10(0) == x) by (nonlinear_arith)
            requires
                pow10(0) == 1,
        ;
        assert(decimal_digits(x) + zeros(0) =~= decimal_digits(x));
    } else {
        let lower = (k - 1) as nat;
        lemma_pow10_step(lower);
        lemma_digits_times_pow10(x, lower);
        let y = x * pow10(lower);
        assert(y >= 1) by (nonlinear_arith)
            requires
                y == x * pow10(lower),
                x >= 1,
                pow10(lower) >= 1,
        ;
        assert(x * pow10(k) == 10 * y) by (nonlinear_arith)
            requires
                y == x * pow10(lower),
                pow10(k) == 10 * pow10(lower),
        ;
        lemma_digits_times_ten(y);
        assert(decimal_digits(x) + zeros(lower) + seq![ZERO] =~= decimal_digits(x) + zeros(k));
    }
}

/// Small integers: where the magnitude is the integer `n`, at least one and
/// below `2^53`, the general text is an optional minus sign, the digits of
/// `n`, and `.0`.
pub proof fn law_small_integer(sign: bool, b: BinaryView, n: int)
    requires
        b.wf(),
        n >= 1,
        b.exp <= 0,
        b.mant == n * pow2((-b.exp) as nat),
    ensures
        n < 0x20_0000_0000_0000,
        b.is_small_integer(),
        general_text(sign, b.teju_jagua()) == sign_text(sign) + decimal_digits(n as nat) + seq![
            POINT,
            ZERO,
        ],
{
    let shift = (-b.exp) as nat;
    let p = pow2(shift) as int;
    lemma_pow2_pos(shift);
    lemma2_to64_rest();
    assert(b.mant >= p && n <= b.mant) by (nonlinear_arith)
        requires
            b.mant == n * p,
            n >= 1,
            p >= 1,
    ;
    if shift >= 53 {
        if shift > 53 {
            lemma_pow2_strictly_increases(53, shift);
        }
    }
    assert(p * n == n * p) by (nonlinear_arith);
    lemma_mod_multiples_basic(n, p);
    lemma_div_multiples_vanish(n, p);
    assert(b.mant / p == n);
    let d = DecimalView { exp: 0, mant: n };
    let r = d.remove_trailing_zeros();
    lemma_remove_trailing_zeros(d);
    lemma_pow10_values();
    lemma_digit_count_le(n as nat, 16);
    lemma_digits_times_pow10(r.mant as nat, r.exp as nat);
    assert(decimal_digits(n as nat) == decimal_digits(r.mant as nat) + zeros(r.exp as nat));
    assert(general_text(sign, r) =~= sign_text(sign) + decimal_digits(n as nat) + seq![
        POINT,
        ZERO,
    ]);
}

/// Small integers, of a float: where the bits of `num` decode to the
/// integer `n`, at least one, the general text of `num` is an optional minus
/// sign, the digits of `n`, and `.0`.
pub proof fn law_small_integer_text(num: Double, n: int)
    requires
        n >= 1,
        decode(num@).exp <= 0,
        decode(num@).mant == n * pow2((-decode(num@).exp) as nat),
    ensures
        general_of(num) == sign_text(is_sign_positive(num@)) + decimal_digits(n as nat) + seq![
            POINT,
            ZERO,
        ],
{
    let b = decode(num@);
    lemma_pow2_pos((-b.exp) as nat);
    assert(b.mant >= 1) by (nonlinear_arith)
        requires
            b.mant == n * pow2((-b.exp) as nat),
            n >= 1,
            pow2((-b.exp) as nat) >= 1,
    ;
    lemma_decode_wf(num@);
    law_small_integer(is_sign_positive(num@), b, n);
}

} // verus!

//! Tejú Jaguá, a fast algorithm for converting a floating point number to a
//! (decimal) string.
//!
//! A float enters as its bit pattern. It is decoded into a binary mantissa
//! and exponent, reduced to a short decimal mantissa and exponent, and
//! rendered into a byte buffer. Numbers whose decimal representation is short
//! are written as decimals; numbers with lots of zeroes are written in
//! scientific notation. To force either way, use `format_dec` or
//! `format_exp`, respectively.

use core::marker::PhantomData;
use vstd::prelude::*;
use vstd::slice::slice_subrange;
use vstd::string::StringSliceAdditionalSpecFns;
use vstd::utf8::{
    encode_utf8, encode_utf8_decode_utf8, encode_utf8_valid_utf8, is_ascii_chars,
    is_ascii_chars_encode_utf8, valid_utf8,
};

pub mod teju;

pub use teju::double::Double;
pub use teju::float::Float;
pub use teju::format::{Decimal, Format, General, Scientific};

use teju::format::blank;

use teju::float::{special_text, zero_exp_text, zero_text, FiniteFloatType, FloatType, Sealed};
use teju::text::{as_chars, is_ascii_bytes};

verus! {

/// The error of `core::str::from_utf8`.
#[verifier::external_type_specification]
#[verifier::external_body]
pub struct ExUtf8Error(core::str::Utf8Error);

/// `core::str::from_utf8`: succeeds exactly on valid UTF-8, and then gives
/// the string slice that has these bytes.
#[verifier::external_body]
fn str_from_utf8(bytes: &[u8]) -> (r: Result<&str, core::str::Utf8Error>)
    ensures
        r is Ok <==> valid_utf8(bytes@),
        r is Ok ==> r->Ok_0.spec_bytes() == bytes@,
{
    core::str::from_utf8(bytes)
}

/// ASCII bytes are valid UTF-8, and a string with these bytes has one
/// character for each of them.
pub proof fn lemma_ascii_is_utf8(bytes: Seq<u8>)
    requires
        is_ascii_bytes(bytes),
    ensures
        valid_utf8(bytes),
        encode_utf8(as_chars(bytes)) == bytes,
        forall|chars: Seq<char>| encode_utf8(chars) == bytes ==> chars == as_chars(bytes),
{
    let chars = as_chars(bytes);
    assert(is_ascii_chars(chars)) by {
        assert forall|i: int| 0 <= i < chars.len() implies '\0' <= #[trigger] chars[i]
            <= '\u{7f}' by {
            assert(bytes[i] < 128);
        }
    }
    is_ascii_chars_encode_utf8(chars);
    assert(encode_utf8(chars) =~= bytes);
    encode_utf8_valid_utf8(chars);
    assert forall|other: Seq<char>| encode_utf8(other) == bytes implies other == chars by {
        encode_utf8_decode_utf8(other);
        encode_utf8_decode_utf8(chars);
    }
}

/// The string that ASCII bytes spell.
fn ascii_str(bytes: &[u8]) -> (r: &str)
    requires
        is_ascii_bytes(bytes@),
    ensures
        r@ == as_chars(bytes@),
{
    proof {
        lemma_ascii_is_utf8(bytes@);
    }
    match str_from_utf8(bytes) {
        Ok(text) => text,
        Err(_) => "",
    }
}

/// The text of any float in general notation.
pub open spec fn general_of<F: Float>(num: F) -> Seq<u8> {
    match num.float_type() {
        FloatType::Finite => general_finite_of(num),
        class => special_text(class),
    }
}

/// The text of a zero or of a nonzero float in general notation.
pub open spec fn general_finite_of<F: Float>(num: F) -> Seq<u8> {
    match num.finite_float_type() {
        FiniteFloatType::Nonzero => num.general(),
        class => zero_text(class),
    }
}

/// The text of any float in scientific notation.
pub open spec fn scientific_of<F: Float>(num: F) -> Seq<u8> {
    match num.float_type() {
        FloatType::Finite => scientific_finite_of(num),
        class => special_text(class),
    }
}

/// The text of a zero or of a nonzero float in scientific notation.
pub open spec fn scientific_finite_of<F: Float>(num: F) -> Seq<u8> {
    match num.finite_float_type() {
        FiniteFloatType::Nonzero => num.scientific(),
        class => zero_exp_text(class),
    }
}

/// The text of any float in decimal notation.
pub open spec fn decimal_of<F: Float>(num: F) -> Seq<u8> {
    match num.float_type() {
        FloatType::Finite => decimal_finite_of(num),
        class => special_text(class),
    }
}

/// The text of a zero or of a nonzero float in decimal notation.
pub open spec fn decimal_finite_of<F: Float>(num: F) -> Seq<u8> {
    match num.finite_float_type() {
        FiniteFloatType::Nonzero => num.decimal(),
        class => zero_text(class),
    }
}

/// Safe API for formatting floating point numbers to text.
pub struct Buffer<F: Float, Fmt: Format> {
    float: PhantomData<F>,
    bytes: Fmt::Buffer,
}

const POS_INF: &'static str = "inf";

const NEG_INF: &'static str = "-inf";

const NAN: &'static str = "NaN";

const POS_ZERO: &'static str = "0.0";

const NEG_ZERO: &'static str = "-0.0";

const POS_ZERO_EXP: &'static str = "0e0";

const NEG_ZERO_EXP: &'static str = "-0e0";

/// The fixed string of a float that is not finite.
fn special_str(class: FloatType) -> (r: &'static str)
    requires
        !(class is Finite),
    ensures
        r@ == as_chars(special_text(class)),
{
    proof {
        reveal_strlit("inf");
        reveal_strlit("-inf");
        reveal_strlit("NaN");
    }
    match class {
        FloatType::NegInf => {
            assert(NEG_INF@ =~= as_chars(special_text(class)));
            NEG_INF
        },
        FloatType::Nan => {
            assert(NAN@ =~= as_chars(special_text(class)));
            NAN
        },
        _ => {
            assert(POS_INF@ =~= as_chars(special_text(class)));
            POS_INF
        },
    }
}

/// The fixed string of a zero in decimal and in general notation.
fn zero_str(class: FiniteFloatType) -> (r: &'static str)
    requires
        !(class is Nonzero),
    ensures
        r@ == as_chars(zero_text(class)),
{
    proof {
        reveal_strlit("0.0");
        reveal_strlit("-0.0");
    }
    match class {
        FiniteFloatType::NegZero => {
            assert(NEG_ZERO@ =~= as_chars(zero_text(class)));
            NEG_ZERO
        },
        _ => {
            assert(POS_ZERO@ =~= as_chars(zero_text(class)));
            POS_ZERO
        },
    }
}

/// The fixed string of a zero in scientific notation.
fn zero_exp_str(class: FiniteFloatType) -> (r: &'static str)
    requires
        !(class is Nonzero),
    ensures
        r@ == as_chars(zero_exp_text(class)),
{
    proof {
        reveal_strlit("0e0");
        reveal_strlit("-0e0");
    }
    match class {
        FiniteFloatType::NegZero => {
            assert(NEG_ZERO_EXP@ =~= as_chars(zero_exp_text(class)));
            NEG_ZERO_EXP
        },
        _ => {
            assert(POS_ZERO_EXP@ =~= as_chars(zero_exp_text(class)));
            POS_ZERO_EXP
        },
    }
}

impl<F: Float, Fmt: Format> Buffer<F, Fmt> {
    /// The bytes of the buffer.
    pub closed spec fn bytes(&self) -> Seq<u8> {
        <Fmt as teju::format::Sealed>::bytes(&self.bytes)
    }

    /// A buffer that holds no text yet: as many bytes as the notation needs,
    /// each of them zero.
    ///
    /// This is a cheap operation; you don't need to worry about reusing
    /// buffers for efficiency.
    pub fn new() -> (r: Self)
        ensures
            r.bytes() == blank(<Fmt as teju::format::Sealed>::capacity()),
    {
        Buffer { float: PhantomData, bytes: Fmt::new_buffer() }
    }
}

impl<F: Float, Fmt: Format> Default for Buffer<F, Fmt> {
    /// A buffer that holds no text yet, as `new` gives it.
    fn default() -> (r: Self)
        ensures
            r.bytes() == blank(<Fmt as teju::format::Sealed>::capacity()),
    {
        Self::new()
    }
}

impl<F: Float> Buffer<F, General> {
    /// Print a floating point `num` into this buffer, and return a reference
    /// to its string representation.
    ///
    /// The number is formatted as a decimal if it fits in a "small" number
    /// of characters, or in scientific notation otherwise. NaN is formatted
    /// as `"NaN"`, positive infinity as `"inf"`, and negative infinity as
    /// `"-inf"`.
    pub fn format(&mut self, num: F) -> (r: &str)
        ensures
            r@ == as_chars(general_of(num)),
    {
        match num.classify() {
            FloatType::Finite => self.format_finite(num),
            class => special_str(class),
        }
    }

    /// Print a floating point `num` into this buffer, and return a reference
    /// to its string representation, without the check that `num` is
    /// finite: a `num` that is not is printed as the number that its bits
    /// would stand for with one more exponent.
    pub fn format_finite(&mut self, num: F) -> (r: &str)
        ensures
            r@ == as_chars(general_finite_of(num)),
    {
        match num.classify_finite() {
            FiniteFloatType::Nonzero => (),
            class => {
                return zero_str(class);
            },
        }
        let n = num.format_general_finite_nonzero(<General as teju::format::Sealed>::buffer_as_mut_slice(&mut self.bytes));
        let written = slice_subrange(<General as teju::format::Sealed>::buffer_as_slice(&self.bytes), 0, n);
        proof {
            assert(written@ =~= num.general());
        }
        ascii_str(written)
    }
}

impl<F: Float> Buffer<F, Scientific> {
    /// Print a floating point `num` into this buffer in scientific notation,
    /// and return a reference to its string representation.
    ///
    /// The number is always formatted in the form `[mantissa]e[exponent]`,
    /// where `mantissa` is a number between 1 (inclusive) and 10
    /// (exclusive), even if `exponent` is `0`. NaN is formatted as `"NaN"`,
    /// positive infinity as `"inf"`, and negative infinity as `"-inf"`.
    pub fn format_exp(&mut self, num: F) -> (r: &str)
        ensures
            r@ == as_chars(scientific_of(num)),
    {
        match num.classify() {
            FloatType::Finite => self.format_exp_finite(num),
            class => special_str(class),
        }
    }

    /// Print a floating point `num` into this buffer in scientific notation,
    /// and return a reference to its string representation, without the
    /// check that `num` is finite.
    pub fn format_exp_finite(&mut self, num: F) -> (r: &str)
        ensures
            r@ == as_chars(scientific_finite_of(num)),
    {
        match num.classify_finite() {
            FiniteFloatType::Nonzero => (),
            class => {
                return zero_exp_str(class);
            },
        }
        let n = num.format_exp_finite_nonzero(<Scientific as teju::format::Sealed>::buffer_as_mut_slice(&mut self.bytes));
        let written = slice_subrange(<Scientific as teju::format::Sealed>::buffer_as_slice(&self.bytes), 0, n);
        proof {
            assert(written@ =~= num.scientific());
        }
        ascii_str(written)
    }
}

impl<F: Float> Buffer<F, Decimal> {
    /// Print a floating point `num` into this buffer in decimal notation,
    /// and return a reference to its string representation.
    ///
    /// The number is always formatted as
    /// `[integral part].[fractional part]`. NaN is formatted as `"NaN"`,
    /// positive infinity as `"inf"`, and negative infinity as `"-inf"`.
    pub fn format_dec(&mut self, num: F) -> (r: &str)
        ensures
            r@ == as_chars(decimal_of(num)),
    {
        match num.classify() {
            FloatType::Finite => self.format_dec_finite(num),
            class => special_str(class),
        }
    }

    /// Print a floating point `num` into this buffer in decimal notation,
    /// and return a reference to its string representation, without the
    /// check that `num` is finite.
    pub fn format_dec_finite(&mut self, num: F) -> (r: &str)
        ensures
            r@ == as_chars(decimal_finite_of(num)),
    {
        match num.classify_finite() {
            FiniteFloatType::Nonzero => (),
            class => {
                return zero_str(class);
            },
        }
        let n = num.format_dec_finite_nonzero(<Decimal as teju::format::Sealed>::buffer_as_mut_slice(&mut self.bytes));
        let written = slice_subrange(<Decimal as teju::format::Sealed>::buffer_as_slice(&self.bytes), 0, n);
        proof {
            assert(written@ =~= num.decimal());
        }
        ascii_str(written)
    }
}

} // verus!

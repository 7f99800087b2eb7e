//! The floats that can be formatted, and their classes.

use vstd::prelude::*;
use crate::teju::text::{is_ascii_bytes, LETTER_E, MINUS, POINT, ZERO};

verus! {

/// A floating point type which can be serialised into a string.
///
/// The crate implements it for `Double`. What `Buffer` promises of a float
/// rests on the contracts of `Sealed` alone, so it holds of every type that
/// meets them.
pub trait Float: Sealed {

}

/// The class of a float.
#[derive(Clone, Copy, Debug, PartialEq, Eq)]
pub enum FloatType {
    Finite,
    PosInf,
    NegInf,
    Nan,
}

/// The class of a finite float.
#[derive(Clone, Copy, Debug, PartialEq, Eq)]
pub enum FiniteFloatType {
    Nonzero,
    PosZero,
    NegZero,
}

/// The text of a float that is not finite, in every notation. A finite class
/// has none.
pub open spec fn special_text(class: FloatType) -> Seq<u8> {
    match class {
        FloatType::Finite => Seq::<u8>::empty(),
        FloatType::PosInf => seq![105u8, 110u8, 102u8],
        FloatType::NegInf => seq![MINUS, 105u8, 110u8, 102u8],
        FloatType::Nan => seq![78u8, 97u8, 78u8],
    }
}

/// The text of a zero in decimal and in general notation. A nonzero class has
/// none.
pub open spec fn zero_text(class: FiniteFloatType) -> Seq<u8> {
    match class {
        FiniteFloatType::Nonzero => Seq::<u8>::empty(),
        FiniteFloatType::PosZero => seq![ZERO, POINT, ZERO],
        FiniteFloatType::NegZero => seq![MINUS, ZERO, POINT, ZERO],
    }
}

/// The text of a zero in scientific notation. A nonzero class has none.
pub open spec fn zero_exp_text(class: FiniteFloatType) -> Seq<u8> {
    match class {
        FiniteFloatType::Nonzero => Seq::<u8>::empty(),
        FiniteFloatType::PosZero => seq![ZERO, LETTER_E, ZERO],
        FiniteFloatType::NegZero => seq![MINUS, ZERO, LETTER_E, ZERO],
    }
}

/// Size of buffer necessary for serialising any float in scientific or in
/// general notation.
pub const LEN_EXP: usize = 32;

/// Size of buffer necessary for serialising any float in decimal notation:
/// 324 places, the decimal point with a zero, and 20 places for the mantissa,
/// rounded up to a multiple of eight.
pub const LEN_DEC: usize = 352;

/// What a float offers to the buffers that format it.
pub trait Sealed: Sized {
    /// The class of the float.
    spec fn float_type(&self) -> FloatType;

    /// The class of the float by its magnitude alone: zero or not.
    spec fn finite_float_type(&self) -> FiniteFloatType;

    /// The text of a nonzero float in general notation.
    spec fn general(&self) -> Seq<u8>;

    /// The text of a nonzero float in scientific notation.
    spec fn scientific(&self) -> Seq<u8>;

    /// The text of a nonzero float in decimal notation.
    spec fn decimal(&self) -> Seq<u8>;

    /// The class of the float.
    fn classify(&self) -> (r: FloatType)
        ensures
            r == self.float_type(),
    ;

    /// The class of the float by its magnitude alone.
    fn classify_finite(&self) -> (r: FiniteFloatType)
        ensures
            r == self.finite_float_type(),
    ;

    /// Prints a nonzero float in general notation at the front of `buf`.
    fn format_general_finite_nonzero(self, buf: &mut [u8]) -> (n: usize)
        requires
            self.finite_float_type() is Nonzero,
            old(buf)@.len() >= LEN_EXP,
        ensures
            n == self.general().len(),
            n <= LEN_EXP,
            is_ascii_bytes(self.general()),
            final(buf)@ == self.general() + old(buf)@.subrange(n as int, old(buf)@.len() as int),
    ;

    /// Prints a nonzero float in scientific notation at the front of `buf`.
    fn format_exp_finite_nonzero(self, buf: &mut [u8]) -> (n: usize)
        requires
            self.finite_float_type() is Nonzero,
            old(buf)@.len() >= LEN_EXP,
        ensures
            n == self.scientific().len(),
            n <= LEN_EXP,
            is_ascii_bytes(self.scientific()),
            final(buf)@ == self.scientific() + old(buf)@.subrange(
                n as int,
                old(buf)@.len() as int,
            ),
    ;

    /// Prints a nonzero float in decimal notation at the front of `buf`.
    fn format_dec_finite_nonzero(self, buf: &mut [u8]) -> (n: usize)
        requires
            self.finite_float_type() is Nonzero,
            old(buf)@.len() >= LEN_DEC,
        ensures
            n == self.decimal().len(),
            n <= LEN_DEC,
            is_ascii_bytes(self.decimal()),
            final(buf)@ == self.decimal() + old(buf)@.subrange(n as int, old(buf)@.len() as int),
    ;
}

} // verus!

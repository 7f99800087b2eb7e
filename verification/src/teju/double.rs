//! The binary64 float, held as its bit pattern.

use vstd::prelude::*;
use crate::teju::float::{FiniteFloatType, Float, FloatType, Sealed};
use crate::teju::ieee64::{decode, ABS_MASK};
use crate::teju::shortest::Shortest;
use crate::teju::text::{
    decimal_text, general_text, lemma_signed_text, lemma_text_lengths, scientific_text,
};

verus! {

/// The bit pattern of positive infinity: the exponent field full, the
/// mantissa field empty.
pub const INFINITY_BITS: u64 = 0x7ff0_0000_0000_0000;

/// An IEEE-754 binary64 value, as its 64 bits: from the top the sign, 11
/// bits of biased exponent, and 52 bits of mantissa.
#[derive(Clone, Copy, Debug, PartialEq, Eq)]
pub struct Double {
    bits: u64,
}

/// Whether the sign bit is clear.
pub open spec fn is_sign_positive(bits: u64) -> bool {
    bits < 0x8000_0000_0000_0000
}

/// The biased exponent: the 11 bits below the sign.
pub open spec fn biased_exponent(bits: u64) -> int {
    (bits as int / 0x10_0000_0000_0000) % 0x800
}

/// The stored mantissa: the low 52 bits.
pub open spec fn stored_mantissa(bits: u64) -> int {
    bits as int % 0x10_0000_0000_0000
}

/// The class of a bit pattern: not finite where the exponent field is full,
/// and then an infinity where the mantissa field is empty.
pub open spec fn float_type_of(bits: u64) -> FloatType {
    if biased_exponent(bits) != 0x7ff {
        FloatType::Finite
    } else if stored_mantissa(bits) != 0 {
        FloatType::Nan
    } else if is_sign_positive(bits) {
        FloatType::PosInf
    } else {
        FloatType::NegInf
    }
}

/// The class of a bit pattern by its magnitude: a zero where all bits but
/// the sign are clear.
pub open spec fn finite_float_type_of(bits: u64) -> FiniteFloatType {
    if biased_exponent(bits) != 0 || stored_mantissa(bits) != 0 {
        FiniteFloatType::Nonzero
    } else if is_sign_positive(bits) {
        FiniteFloatType::PosZero
    } else {
        FiniteFloatType::NegZero
    }
}

impl View for Double {
    type V = u64;

    closed spec fn view(&self) -> u64 {
        self.bits
    }
}

impl Double {
    /// The float with the given bit pattern.
    pub fn from_bits(bits: u64) -> (r: Double)
        ensures
            r@ == bits,
    {
        Double { bits }
    }

    /// The bit pattern of the float.
    pub fn to_bits(self) -> (bits: u64)
        ensures
            bits == self@,
    {
        self.bits
    }
}

/// The fields of a bit pattern, by masks and shifts.
proof fn lemma_fields(bits: u64)
    ensures
        is_sign_positive(bits) <==> bits >> 63 == 0,
        (bits & ABS_MASK) == 0 <==> (biased_exponent(bits) == 0 && stored_mantissa(bits) == 0),
        (bits & ABS_MASK) < INFINITY_BITS <==> biased_exponent(bits) != 0x7ff,
        (bits & ABS_MASK) == INFINITY_BITS <==> (biased_exponent(bits) == 0x7ff && stored_mantissa(
            bits,
        ) == 0),
{
    assert((bits < 0x8000_0000_0000_0000) <==> bits >> 63 == 0) by (bit_vector);
    assert((bits & 0x7fff_ffff_ffff_ffff) == 0 <==> ((bits / 0x10_0000_0000_0000) % 0x800 == 0
        && bits % 0x10_0000_0000_0000 == 0)) by (bit_vector);
    assert((bits & 0x7fff_ffff_ffff_ffff) < 0x7ff0_0000_0000_0000 <==> (bits / 0x10_0000_0000_0000)
        % 0x800 != 0x7ff) by (bit_vector);
    assert((bits & 0x7fff_ffff_ffff_ffff) == 0x7ff0_0000_0000_0000 <==> ((bits
        / 0x10_0000_0000_0000) % 0x800 == 0x7ff && bits % 0x10_0000_0000_0000 == 0))
        by (bit_vector);
}

impl Sealed for Double {
    open spec fn float_type(&self) -> FloatType {
        float_type_of(self@)
    }

    open spec fn finite_float_type(&self) -> FiniteFloatType {
        finite_float_type_of(self@)
    }

    open spec fn general(&self) -> Seq<u8> {
        general_text(is_sign_positive(self@), decode(self@).teju_jagua())
    }

    open spec fn scientific(&self) -> Seq<u8> {
        scientific_text(is_sign_positive(self@), decode(self@).teju_jagua())
    }

    open spec fn decimal(&self) -> Seq<u8> {
        decimal_text(is_sign_positive(self@), decode(self@).teju_jagua())
    }

    fn classify(&self) -> (r: FloatType) {
        proof {
            lemma_fields(self.bits);
        }
        let magnitude: u64 = self.bits & ABS_MASK;
        if magnitude < INFINITY_BITS {
            FloatType::Finite
        } else if magnitude == INFINITY_BITS {
            if self.bits >> 63 == 0 {
                FloatType::PosInf
            } else {
                FloatType::NegInf
            }
        } else {
            FloatType::Nan
        }
    }

    fn classify_finite(&self) -> (r: FiniteFloatType) {
        proof {
            lemma_fields(self.bits);
        }
        if self.bits & ABS_MASK != 0 {
            FiniteFloatType::Nonzero
        } else {
            if self.bits >> 63 == 0 {
                FiniteFloatType::PosZero
            } else {
                FiniteFloatType::NegZero
            }
        }
    }

    fn format_general_finite_nonzero(self, buf: &mut [u8]) -> (n: usize) {
        proof {
            lemma_fields(self.bits);
        }
        let shortest = Shortest::new(self.bits);
        proof {
            lemma_text_lengths(shortest.decimal@);
            lemma_signed_text(shortest.sign, shortest.decimal@.general());
        }
        shortest.format_general(buf)
    }

    fn format_exp_finite_nonzero(self, buf: &mut [u8]) -> (n: usize) {
        proof {
            lemma_fields(self.bits);
        }
        let shortest = Shortest::new(self.bits);
        proof {
            lemma_text_lengths(shortest.decimal@);
            lemma_signed_text(shortest.sign, shortest.decimal@.scientific());
        }
        shortest.format_exp(buf)
    }

    fn format_dec_finite_nonzero(self, buf: &mut [u8]) -> (n: usize) {
        proof {
            lemma_fields(self.bits);
        }
        let shortest = Shortest::new(self.bits);
        proof {
            lemma_text_lengths(shortest.decimal@);
            lemma_signed_text(shortest.sign, shortest.decimal@.decimal());
        }
        shortest.format_dec(buf)
    }
}

impl Float for Double {

}

} // verus!

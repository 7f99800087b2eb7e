//! The notations, and the buffer that each of them needs.

use vstd::prelude::*;
use crate::teju::float::{LEN_DEC, LEN_EXP};

verus! {

/// A format for serialising floats.
///
/// The crate implements it for `General`, `Scientific` and `Decimal`.
pub trait Format: Sealed {

}

impl Format for General {

}

impl Format for Scientific {

}

impl Format for Decimal {

}

/// Decimal notation for values of moderate size, scientific notation for the
/// others.
pub struct General;

/// Scientific notation: a mantissa between one and ten, `e`, an exponent.
pub struct Scientific;

/// Decimal notation: an integral part, a decimal point, a fractional part.
pub struct Decimal;

/// The bytes of a buffer that holds no text yet: `n` bytes of zero.
pub open spec fn blank(n: nat) -> Seq<u8> {
    Seq::new(n, |i: int| 0u8)
}

/// The buffer of a notation.
pub trait Sealed {
    /// The bytes that hold the text.
    type Buffer;

    /// The bytes of a buffer.
    spec fn bytes(buf: &Self::Buffer) -> Seq<u8>;

    /// The number of bytes of every buffer.
    spec fn capacity() -> nat;

    /// A buffer that holds no text yet: as many bytes as the notation
    /// needs, each of them zero.
    fn new_buffer() -> (r: Self::Buffer)
        ensures
            Self::bytes(&r) == blank(Self::capacity()),
    ;

    /// The bytes of a buffer, to be written.
    fn buffer_as_mut_slice(buf: &mut Self::Buffer) -> (r: &mut [u8])
        ensures
            r@ == Self::bytes(old(buf)),
            final(r)@ == Self::bytes(final(buf)),
            r@.len() == Self::capacity(),
    ;

    /// The bytes of a buffer, to be read.
    fn buffer_as_slice(buf: &Self::Buffer) -> (r: &[u8])
        ensures
            r@ == Self::bytes(buf),
            r@.len() == Self::capacity(),
    ;
}

impl Sealed for General {
    type Buffer = [u8; 32];

    open spec fn bytes(buf: &Self::Buffer) -> Seq<u8> {
        buf@
    }

    open spec fn capacity() -> nat {
        LEN_EXP as nat
    }

    fn new_buffer() -> (r: Self::Buffer) {
        let buffer = [0u8; 32];
        assert(buffer@ =~= blank(Self::capacity()));
        buffer
    }

    fn buffer_as_mut_slice(buf: &mut Self::Buffer) -> (r: &mut [u8]) {
        buf
    }

    fn buffer_as_slice(buf: &Self::Buffer) -> (r: &[u8]) {
        buf
    }
}

impl Sealed for Scientific {
    type Buffer = [u8; 32];

    open spec fn bytes(buf: &Self::Buffer) -> Seq<u8> {
        buf@
    }

    open spec fn capacity() -> nat {
        LEN_EXP as nat
    }

    fn new_buffer() -> (r: Self::Buffer) {
        let buffer = [0u8; 32];
        assert(buffer@ =~= blank(Self::capacity()));
        buffer
    }

    fn buffer_as_mut_slice(buf: &mut Self::Buffer) -> (r: &mut [u8]) {
        buf
    }

    fn buffer_as_slice(buf: &Self::Buffer) -> (r: &[u8]) {
        buf
    }
}

impl Sealed for Decimal {
    type Buffer = [u8; 352];

    open spec fn bytes(buf: &Self::Buffer) -> Seq<u8> {
        buf@
    }

    open spec fn capacity() -> nat {
        LEN_DEC as nat
    }

    fn new_buffer() -> (r: Self::Buffer) {
        let buffer = [0u8; 352];
        assert(buffer@ =~= blank(Self::capacity()));
        buffer
    }

    fn buffer_as_mut_slice(buf: &mut Self::Buffer) -> (r: &mut [u8]) {
        buf
    }

    fn buffer_as_slice(buf: &Self::Buffer) -> (r: &[u8]) {
        buf
    }
}

} // verus!

//! The conversion proper: tables, decoding, reduction and rendering.

pub mod accuracy;
pub mod common;
pub mod convergent;
pub mod double;
pub mod exactness;
pub mod fewest;
pub mod float;
pub mod fmt;
pub mod format;
pub mod ieee64;
pub mod laws;
pub mod logarithm;
pub mod lut;
pub mod power;
pub mod roundtrip;
pub mod shortest;
pub mod shortness;
pub mod text;

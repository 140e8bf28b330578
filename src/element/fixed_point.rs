//! Fixed-point numbers, held by their raw bits. Their decimal text comes from
//! the `fixed` crate.
use fixed::types::extra::{U16, U30};
use fixed::FixedU32;
use vstd::prelude::*;

verus! {

/// Unsigned 16.16 fixed point: `bits / 65536`.
#[derive(Debug, Clone, Copy, PartialEq, Eq, Structural)]
pub struct U16F16 {
    pub bits: u32,
}

/// Unsigned 8.8 fixed point: `bits / 256`.
#[derive(Debug, Clone, Copy, PartialEq, Eq, Structural)]
pub struct U8F8 {
    pub bits: u16,
}

/// Signed 8.8 fixed point: `bits / 256`.
#[derive(Debug, Clone, Copy, PartialEq, Eq, Structural)]
pub struct I8F8 {
    pub bits: i16,
}

/// Unsigned 2.30 fixed point: `bits / 2^30`.
#[derive(Debug, Clone, Copy, PartialEq, Eq, Structural)]
pub struct U2F30 {
    pub bits: u32,
}

/// The decimal text that `fixed` prints for a 16.16 value with these bits.
pub uninterp spec fn u16f16_text_of(bits: u32) -> Seq<char>;

/// The decimal text that `fixed` prints for a 2.30 value with these bits.
pub uninterp spec fn u2f30_text_of(bits: u32) -> Seq<char>;

/// Relies on `Display` of `fixed::FixedU32<U16>`: the decimal text of the
/// value with these bits, which depends on the bits alone.
#[verifier::external_body]
fn u16f16_text(bits: u32) -> (r: String)
    ensures
        r@ == u16f16_text_of(bits),
{
    FixedU32::<U16>::from_bits(bits).to_string()
}

/// Relies on `Display` of `fixed::FixedU32<U30>`: the decimal text of the
/// value with these bits, which depends on the bits alone.
#[verifier::external_body]
fn u2f30_text(bits: u32) -> (r: String)
    ensures
        r@ == u2f30_text_of(bits),
{
    FixedU32::<U30>::from_bits(bits).to_string()
}

impl U16F16 {
    pub fn from_bits(bits: u32) -> (r: Self)
        ensures
            r.bits == bits,
    {
        U16F16 { bits }
    }

    /// The value in decimal.
    pub fn to_string(&self) -> (r: String)
        ensures
            r@ == u16f16_text_of(self.bits),
    {
        u16f16_text(self.bits)
    }
}

impl U8F8 {
    pub fn from_bits(bits: u16) -> (r: Self)
        ensures
            r.bits == bits,
    {
        U8F8 { bits }
    }
}

impl I8F8 {
    pub fn from_bits(bits: i16) -> (r: Self)
        ensures
            r.bits == bits,
    {
        I8F8 { bits }
    }
}

impl U2F30 {
    pub fn from_bits(bits: u32) -> (r: Self)
        ensures
            r.bits == bits,
    {
        U2F30 { bits }
    }

    /// The value in decimal.
    pub fn to_string(&self) -> (r: String)
        ensures
            r@ == u2f30_text_of(self.bits),
    {
        u2f30_text(self.bits)
    }
}

} // verus!

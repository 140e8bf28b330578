//! Big-endian integer fields, as they are laid out in an atom stream.
use byteorder::{BigEndian, ByteOrder};
use vstd::prelude::*;

verus! {

/// A read that the bytes at hand cannot satisfy.
#[derive(Debug, Clone, Copy, PartialEq, Eq, Structural)]
pub enum IoError {
    /// The data ends, or the enclosing atom ends, before the field at this
    /// offset is complete.
    UnexpectedEof(u64),
    /// The bytes of the text that starts at this offset are not valid UTF-8.
    InvalidData(u64),
}

/// The 16-bit unsigned integer stored most significant byte first at `p`.
pub open spec fn be16(s: Seq<u8>, p: int) -> u16 {
    (s[p] as u16) << 8u16 | s[p + 1] as u16
}

/// The 32-bit unsigned integer stored most significant byte first at `p`.
pub open spec fn be32(s: Seq<u8>, p: int) -> u32 {
    (s[p] as u32) << 24u32 | (s[p + 1] as u32) << 16u32 | (s[p + 2] as u32) << 8u32 | s[p + 3] as u32
}

/// The 64-bit unsigned integer stored most significant byte first at `p`.
pub open spec fn be64(s: Seq<u8>, p: int) -> u64 {
    (be32(s, p) as u64) << 32u64 | be32(s, p + 4) as u64
}

/// The two's complement reading of the 16-bit field at `p`.
pub open spec fn be16_signed(s: Seq<u8>, p: int) -> int {
    if be16(s, p) >= 0x8000 {
        be16(s, p) - 0x10000
    } else {
        be16(s, p) as int
    }
}

/// The four bytes that store `x` most significant byte first.
pub open spec fn be32_bytes(x: u32) -> Seq<u8> {
    seq![(x >> 24u32) as u8, (x >> 16u32) as u8, (x >> 8u32) as u8, x as u8]
}

/// The eight bytes that store `x` most significant byte first.
pub open spec fn be64_bytes(x: u64) -> Seq<u8> {
    be32_bytes((x >> 32u64) as u32) + be32_bytes(x as u32)
}

pub proof fn lemma_be32_bytes(x: u32)
    ensures
        be32(be32_bytes(x), 0) == x,
{
    let b0 = (x >> 24u32) as u8;
    let b1 = (x >> 16u32) as u8;
    let b2 = (x >> 8u32) as u8;
    let b3 = x as u8;
    assert(((b0 as u32) << 24u32 | (b1 as u32) << 16u32 | (b2 as u32) << 8u32 | b3 as u32) == x)
        by (bit_vector)
        requires
            b0 == (x >> 24u32) as u8,
            b1 == (x >> 16u32) as u8,
            b2 == (x >> 8u32) as u8,
            b3 == x as u8,
    ;
}

pub proof fn lemma_be64_bytes(x: u64)
    ensures
        be64(be64_bytes(x), 0) == x,
{
    let hi = (x >> 32u64) as u32;
    let lo = x as u32;
    let s = be64_bytes(x);
    lemma_be32_bytes(hi);
    lemma_be32_bytes(lo);
    assert(s.subrange(0, 4) =~= be32_bytes(hi));
    assert(s.subrange(4, 8) =~= be32_bytes(lo));
    assert(be32(s, 0) == be32(be32_bytes(hi), 0));
    assert(be32(s, 4) == be32(be32_bytes(lo), 0));
    assert(((hi as u64) << 32u64 | lo as u64) == x) by (bit_vector)
        requires
            hi == (x >> 32u64) as u32,
            lo == x as u32,
    ;
}

/// Relies on byteorder's `BigEndian::read_u16`: the first two bytes of the
/// slice, most significant first.
#[verifier::external_body]
pub(crate) fn read_u16_at(data: &[u8], pos: usize) -> (r: u16)
    requires
        pos + 2 <= data@.len(),
    ensures
        r == be16(data@, pos as int),
{
    BigEndian::read_u16(&data[pos..])
}

/// Relies on byteorder's `BigEndian::read_i16`: the first two bytes of the
/// slice, most significant first, in two's complement.
#[verifier::external_body]
pub(crate) fn read_i16_at(data: &[u8], pos: usize) -> (r: i16)
    requires
        pos + 2 <= data@.len(),
    ensures
        r as int == be16_signed(data@, pos as int),
{
    BigEndian::read_i16(&data[pos..])
}

/// Relies on byteorder's `BigEndian::read_u32`: the first four bytes of the
/// slice, most significant first.
#[verifier::external_body]
pub(crate) fn read_u32_at(data: &[u8], pos: usize) -> (r: u32)
    requires
        pos + 4 <= data@.len(),
    ensures
        r == be32(data@, pos as int),
{
    BigEndian::read_u32(&data[pos..])
}

/// Relies on byteorder's `BigEndian::read_u64`: the first eight bytes of the
/// slice, most significant first.
#[verifier::external_body]
pub(crate) fn read_u64_at(data: &[u8], pos: usize) -> (r: u64)
    requires
        pos + 8 <= data@.len(),
    ensures
        r == be64(data@, pos as int),
{
    BigEndian::read_u64(&data[pos..])
}

/// The `n` consecutive 32-bit fields that start at `p`.
pub open spec fn be32_seq(s: Seq<u8>, p: int, n: int) -> Seq<u32> {
    Seq::new(n as nat, |i: int| be32(s, p + 4 * i))
}

/// Reads `n` consecutive 32-bit big-endian fields starting at `pos`.
pub(crate) fn read_u32_seq(data: &[u8], pos: usize, n: usize) -> (r: Vec<u32>)
    requires
        pos + 4 * n <= data@.len(),
    ensures
        r@ == be32_seq(data@, pos as int, n as int),
{
    let mut r: Vec<u32> = Vec::new();
    let mut i: usize = 0;
    let len = data.len();
    while i < n
        invariant
            i <= n,
            len == data@.len(),
            pos + 4 * n <= data@.len(),
            r@ == be32_seq(data@, pos as int, i as int),
        decreases n - i,
    {
        r.push(read_u32_at(data, pos + 4 * i));
        i = i + 1;
        assert(r@ =~= be32_seq(data@, pos as int, i as int));
    }
    r
}

/// The bytes `data[from..to]`, copied in order.
pub(crate) fn copy_bytes(data: &[u8], from: usize, to: usize) -> (r: Vec<u8>)
    requires
        from <= to <= data@.len(),
    ensures
        r@ == data@.subrange(from as int, to as int),
{
    let mut r: Vec<u8> = Vec::new();
    let mut i: usize = from;
    while i < to
        invariant
            from <= i <= to <= data@.len(),
            r@ == data@.subrange(from as int, i as int),
        decreases to - i,
    {
        r.push(data[i]);
        i = i + 1;
        assert(r@ =~= data@.subrange(from as int, i as int));
    }
    r
}

/// Relies on `String::from_utf8`: the text when the bytes are valid UTF-8,
/// nothing otherwise.
#[verifier::external_body]
pub(crate) fn utf8_text(bytes: Vec<u8>) -> (r: Option<String>)
    ensures
        r is Some <==> vstd::utf8::valid_utf8(bytes@),
        r matches Some(s) ==> s@ == vstd::utf8::decode_utf8(bytes@),
{
    String::from_utf8(bytes).ok()
}

} // verus!

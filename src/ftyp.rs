//! A stand-alone reader of a leading `ftyp` atom that keeps its codes as raw
//! bytes.
use vstd::prelude::*;

use crate::field::{be32, read_u32_at};

verus! {

/// A file type atom with its codes kept as raw bytes.
#[derive(Debug, Clone, PartialEq, Eq)]
pub struct Ftyp {
    pub size: u32,
    pub type_str: [u8; 4],
    pub major_brand: [u8; 4],
    pub minor_version: [u8; 4],
    pub compatible_brands: Vec<[u8; 4]>,
}

/// The four bytes at `p`.
fn code_at(input: &[u8], p: usize) -> (r: [u8; 4])
    requires
        p + 4 <= input@.len(),
    ensures
        r@ == input@.subrange(p as int, p + 4),
{
    let r: [u8; 4] = [input[p], input[p + 1], input[p + 2], input[p + 3]];
    assert(r@ =~= input@.subrange(p as int, p + 4));
    r
}

/// `f` holds the `ftyp` atom at the start of `input`: its size, its type,
/// major brand and minor version as raw codes, then its compatible brands.
pub open spec fn ftyp_holds(input: Seq<u8>, f: Ftyp) -> bool {
    &&& f.size == be32(input, 0)
    &&& f.type_str@ == input.subrange(4, 8)
    &&& f.major_brand@ == input.subrange(8, 12)
    &&& f.minor_version@ == input.subrange(12, 16)
    &&& f.compatible_brands@.len() == (f.size - 16) / 4
    &&& forall|i: int|
        0 <= i < f.compatible_brands@.len() ==> #[trigger] f.compatible_brands@[i]@
            == input.subrange(16 + 4 * i, 20 + 4 * i)
}

/// Reads the `ftyp` atom at the start of `input`. Fails when the input is
/// shorter than the atom's fixed part or than the atom's declared size, or
/// when that size is below the fixed part.
pub fn parse_ftyp(input: &[u8]) -> (r: Result<Ftyp, &'static str>)
    ensures
        match r {
            Ok(f) => input@.len() >= 16 && 16 <= be32(input@, 0) <= input@.len() && ftyp_holds(
                input@,
                f,
            ),
            Err(_) => input@.len() < 16 || be32(input@, 0) < 16 || be32(input@, 0) > input@.len(),
        },
{
    if input.len() < 16 {
        return Err("input data is too short");
    }
    let size = read_u32_at(input, 0);
    if size < 16 {
        return Err("atom size is too small");
    }
    if size as usize > input.len() {
        return Err("input data is too short");
    }
    let type_str = code_at(input, 4);
    let major_brand = code_at(input, 8);
    let minor_version = code_at(input, 12);
    let n = ((size - 16) / 4) as usize;
    let mut compatible_brands: Vec<[u8; 4]> = Vec::new();
    let mut i: usize = 0;
    while i < n
        invariant
            i <= n,
            n == (size - 16) / 4,
            16 <= size <= input@.len(),
            compatible_brands@.len() == i,
            forall|j: int|
                0 <= j < i ==> #[trigger] compatible_brands@[j]@ == input@.subrange(
                    16 + 4 * j,
                    20 + 4 * j,
                ),
        decreases n - i,
    {
        compatible_brands.push(code_at(input, 16 + 4 * i));
        i = i + 1;
    }
    Ok(Ftyp { size, type_str, major_brand, minor_version, compatible_brands })
}

} // verus!

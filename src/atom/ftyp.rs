use vstd::prelude::*;

use crate::atom::{body_ok, end_of, truncated, viewed, AtomHead, AtomParseError};
use crate::field::{be32, read_u32_at, IoError};

verus! {

pub const ATOM_ID: u32 = 0x6674_7970; // 'ftyp'

/// The brand code of QuickTime movies, 'qt  '.
pub const QUICKTIME_BRAND: u32 = 0x7174_2020;

/// A file type brand.
#[derive(Debug, Clone, Copy, PartialEq, Eq, Structural)]
pub enum Brand {
    QuickTimeMovieFile,
    Other(u32),
}

pub open spec fn brand_of(val: u32) -> Brand {
    if val == QUICKTIME_BRAND {
        Brand::QuickTimeMovieFile
    } else {
        Brand::Other(val)
    }
}

/// Classifies a four-byte brand code.
pub fn match_brand(val: u32) -> (r: Brand)
    ensures
        r == brand_of(val),
{
    if val == QUICKTIME_BRAND {
        Brand::QuickTimeMovieFile
    } else {
        Brand::Other(val)
    }
}

/// The file type: the brand the file is made for, and the brands it is
/// compatible with.
#[derive(Debug, Clone, PartialEq, Eq)]
pub struct FtypAtom {
    pub atom_head: AtomHead,
    pub major_brand: Brand,
    pub minor_version: u32,
    pub compatible_brands: Vec<Brand>,
}

pub struct FtypAtomView {
    pub atom_head: AtomHead,
    pub major_brand: Brand,
    pub minor_version: u32,
    pub compatible_brands: Seq<Brand>,
}

impl View for FtypAtom {
    type V = FtypAtomView;

    open spec fn view(&self) -> FtypAtomView {
        FtypAtomView {
            atom_head: self.atom_head,
            major_brand: self.major_brand,
            minor_version: self.minor_version,
            compatible_brands: self.compatible_brands@,
        }
    }
}

/// The `n` brands stored as 32-bit codes from `p` on.
pub open spec fn brands_at(data: Seq<u8>, p: int, n: int) -> Seq<Brand> {
    Seq::new(n as nat, |i: int| brand_of(be32(data, p + 4 * i)))
}

/// The major brand, the minor version, then as many compatible brands as
/// whole four-byte codes fit before the atom's end.
pub open spec fn spec_parse(data: Seq<u8>, h: AtomHead, b: int) -> Result<FtypAtomView, AtomParseError> {
    if b + 8 > h.end() {
        Err(truncated(h))
    } else {
        Ok(
            FtypAtomView {
                atom_head: h,
                major_brand: brand_of(be32(data, b)),
                minor_version: be32(data, b + 4),
                compatible_brands: brands_at(data, b + 8, (h.end() - b - 8) / 4),
            },
        )
    }
}

pub fn parse(data: &[u8], atom_head: AtomHead, body: usize) -> (r: Result<FtypAtom, AtomParseError>)
    requires
        body_ok(data@.len() as int, atom_head, body as int),
    ensures
        viewed(r) == spec_parse(data@, atom_head, body as int),
{
    let end = end_of(data, atom_head, body);
    if end - body < 8 {
        return Err(AtomParseError::IoError(IoError::UnexpectedEof(atom_head.atom_offset)));
    }
    let major_brand = match_brand(read_u32_at(data, body));
    let minor_version = read_u32_at(data, body + 4);
    let start = body + 8;
    let n = (end - start) / 4;
    let mut compatible_brands: Vec<Brand> = Vec::new();
    let mut i: usize = 0;
    while i < n
        invariant
            i <= n,
            n == (end - start) / 4,
            start <= end <= data@.len(),
            compatible_brands@ == brands_at(data@, start as int, i as int),
        decreases n - i,
    {
        compatible_brands.push(match_brand(read_u32_at(data, start + 4 * i)));
        i = i + 1;
        assert(compatible_brands@ =~= brands_at(data@, start as int, i as int));
    }
    Ok(FtypAtom { atom_head, major_brand, minor_version, compatible_brands })
}

/// For an `ftyp` atom with an eight-byte header, the compatible brands are
/// the atom's size less sixteen bytes, read four bytes at a time.
pub proof fn lemma_ftyp_brand_count(data: Seq<u8>, h: AtomHead, b: int)
    requires
        b == h.atom_offset + 8,
        h.atom_size >= 16,
    ensures
        spec_parse(data, h, b) matches Ok(f) && f.compatible_brands.len() == (h.atom_size - 16)
            / 4,
{
}

} // verus!

use vstd::prelude::*;

use crate::atom::AtomHead;

verus! {

pub const ATOM_ID: u32 = 0x6d64_6864; // 'mdhd'

/// The media header; its fields are not decoded.
#[derive(Debug, Clone, Copy, PartialEq, Eq, Structural)]
pub struct MdhdAtom {
    pub atom_head: AtomHead,
}

/// Keeps the header; the payload is skipped without being read.
pub fn parse(atom_head: AtomHead) -> (r: MdhdAtom)
    ensures
        r == (MdhdAtom { atom_head }),
{
    MdhdAtom { atom_head }
}

} // verus!

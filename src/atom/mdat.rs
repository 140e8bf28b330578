use vstd::prelude::*;

use crate::atom::AtomHead;

verus! {

pub const ATOM_ID: u32 = 0x6d64_6174; // 'mdat'

/// Raw media data, which is never read.
#[derive(Debug, Clone, Copy, PartialEq, Eq, Structural)]
pub struct MdatAtom {
    pub atom_head: AtomHead,
}

/// Keeps the header; the payload is skipped without being read.
pub fn parse(atom_head: AtomHead) -> (r: MdatAtom)
    ensures
        r == (MdatAtom { atom_head }),
{
    MdatAtom { atom_head }
}

} // verus!

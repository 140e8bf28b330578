use vstd::prelude::*;

use crate::atom::AtomHead;

verus! {

pub const ATOM_ID: u32 = 0x7472_6566; // 'tref'

/// Track references; their entries are not decoded.
#[derive(Debug, Clone, Copy, PartialEq, Eq, Structural)]
pub struct TrefAtom {
    pub atom_head: AtomHead,
}

/// Keeps the header; the payload is skipped without being read.
pub fn parse(atom_head: AtomHead) -> (r: TrefAtom)
    ensures
        r == (TrefAtom { atom_head }),
{
    TrefAtom { atom_head }
}

} // verus!

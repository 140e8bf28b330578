use vstd::prelude::*;

use crate::atom::AtomHead;

verus! {

pub const ATOM_ID: u32 = 0x6672_6565; // 'free'

/// Unused space.
#[derive(Debug, Clone, Copy, PartialEq, Eq, Structural)]
pub struct FreeAtom {
    pub atom_head: AtomHead,
}

/// Keeps the header; the payload is skipped without being read.
pub fn parse(atom_head: AtomHead) -> (r: FreeAtom)
    ensures
        r == (FreeAtom { atom_head }),
{
    FreeAtom { atom_head }
}

} // verus!

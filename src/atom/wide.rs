use vstd::prelude::*;

use crate::atom::AtomHead;

verus! {

pub const ATOM_ID: u32 = 0x7769_6465; // 'wide'

/// Room reserved for a later 64-bit size of the next atom.
#[derive(Debug, Clone, Copy, PartialEq, Eq, Structural)]
pub struct WideAtom {
    pub atom_head: AtomHead,
}

/// Keeps the header; the payload is skipped without being read.
pub fn parse(atom_head: AtomHead) -> (r: WideAtom)
    ensures
        r == (WideAtom { atom_head }),
{
    WideAtom { atom_head }
}

} // verus!

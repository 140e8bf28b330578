use vstd::prelude::*;

use crate::atom::AtomHead;

verus! {

pub const ATOM_ID: u32 = 0x766d_6864; // 'vmhd'

/// The video media information header; its fields are not decoded.
#[derive(Debug, Clone, Copy, PartialEq, Eq, Structural)]
pub struct VmhdAtom {
    pub atom_head: AtomHead,
}

/// Keeps the header; the payload is skipped without being read.
pub fn parse(atom_head: AtomHead) -> (r: VmhdAtom)
    ensures
        r == (VmhdAtom { atom_head }),
{
    VmhdAtom { atom_head }
}

} // verus!

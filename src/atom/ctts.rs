use vstd::prelude::*;

use crate::atom::{body_ok, end_of, read_version_flags, truncated, viewed, AtomHead, AtomParseError};
use crate::field::{be32, read_u32_at, IoError};

verus! {

pub const ATOM_ID: u32 = 0x6374_7473; // 'ctts'

/// A run of samples that share one offset from decode time to composition
/// time.
#[derive(Debug, Clone, Copy, PartialEq, Eq, Structural)]
pub struct CompositionOffsetTableEntry {
    pub sample_count: u32,
    pub composition_offset: u32,
}

/// The composition offset table, in decode order.
#[derive(Debug, Clone, PartialEq, Eq)]
pub struct CttsAtom {
    pub atom_head: AtomHead,
    pub atom_version: u8,
    pub atom_flags: [u8; 3],
    pub entry_count: u32,
    pub composition_offset_table: Vec<CompositionOffsetTableEntry>,
}

pub struct CttsAtomView {
    pub atom_head: AtomHead,
    pub atom_version: u8,
    pub atom_flags: Seq<u8>,
    pub entry_count: u32,
    pub composition_offset_table: Seq<CompositionOffsetTableEntry>,
}

impl View for CttsAtom {
    type V = CttsAtomView;

    open spec fn view(&self) -> CttsAtomView {
        CttsAtomView {
            atom_head: self.atom_head,
            atom_version: self.atom_version,
            atom_flags: self.atom_flags@,
            entry_count: self.entry_count,
            composition_offset_table: self.composition_offset_table@,
        }
    }
}

/// The `n` eight-byte entries that start at `p`.
pub open spec fn entries_at(data: Seq<u8>, p: int, n: int) -> Seq<CompositionOffsetTableEntry> {
    Seq::new(
        n as nat,
        |i: int|
            CompositionOffsetTableEntry {
                sample_count: be32(data, p + 8 * i),
                composition_offset: be32(data, p + 8 * i + 4),
            },
    )
}

/// Version and flags, a 32-bit count, then that many (count, offset) pairs.
pub open spec fn spec_parse(data: Seq<u8>, h: AtomHead, b: int) -> Result<CttsAtomView, AtomParseError> {
    if b + 8 > h.end() {
        Err(truncated(h))
    } else {
        let n = be32(data, b + 4);
        if b + 8 + 8 * n > h.end() {
            Err(truncated(h))
        } else {
            Ok(
                CttsAtomView {
                    atom_head: h,
                    atom_version: data[b],
                    atom_flags: data.subrange(b + 1, b + 4),
                    entry_count: n,
                    composition_offset_table: entries_at(data, b + 8, n as int),
                },
            )
        }
    }
}

pub fn parse(data: &[u8], atom_head: AtomHead, body: usize) -> (r: Result<CttsAtom, AtomParseError>)
    requires
        body_ok(data@.len() as int, atom_head, body as int),
    ensures
        viewed(r) == spec_parse(data@, atom_head, body as int),
{
    let end = end_of(data, atom_head, body);
    if end - body < 8 {
        return Err(AtomParseError::IoError(IoError::UnexpectedEof(atom_head.atom_offset)));
    }
    let (atom_version, atom_flags) = read_version_flags(data, body);
    let entry_count = read_u32_at(data, body + 4);
    if entry_count as u64 * 8 > (end - body - 8) as u64 {
        return Err(AtomParseError::IoError(IoError::UnexpectedEof(atom_head.atom_offset)));
    }
    let n = entry_count as usize;
    let start = body + 8;
    let mut composition_offset_table: Vec<CompositionOffsetTableEntry> = Vec::new();
    let mut i: usize = 0;
    while i < n
        invariant
            i <= n,
            start + 8 * n <= end <= data@.len(),
            composition_offset_table@ == entries_at(data@, start as int, i as int),
        decreases n - i,
    {
        let p = start + 8 * i;
        let sample_count = read_u32_at(data, p);
        let composition_offset = read_u32_at(data, p + 4);
        composition_offset_table.push(CompositionOffsetTableEntry { sample_count, composition_offset });
        i = i + 1;
        assert(composition_offset_table@ =~= entries_at(data@, start as int, i as int));
    }
    Ok(CttsAtom { atom_head, atom_version, atom_flags, entry_count, composition_offset_table })
}

impl CompositionOffsetTableEntry {
    pub fn new(sample_count: u32, composition_offset: u32) -> (r: Self)
        ensures
            r == (CompositionOffsetTableEntry { sample_count, composition_offset }),
    {
        Self { sample_count, composition_offset }
    }
}

} // verus!

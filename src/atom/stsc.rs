use vstd::prelude::*;

use crate::atom::{body_ok, end_of, read_version_flags, truncated, viewed, AtomHead, AtomParseError};
use crate::field::{be32, read_u32_at, IoError};

verus! {

pub const ATOM_ID: u32 = 0x7374_7363; // 'stsc'

/// The sample-to-chunk table, in chunk order.
#[derive(Debug, Clone, PartialEq, Eq)]
pub struct StscAtom {
    pub atom_head: AtomHead,
    pub atom_version: u8,
    pub atom_flags: [u8; 3],
    pub number_of_entries: u32,
    pub sample_to_chunk_table: Vec<SampleToChunk>,
}

/// From `first_chunk` on, each chunk holds `samples_per_chunk` samples
/// described by `sample_description_id`.
#[derive(Debug, Clone, Copy, PartialEq, Eq, Structural)]
pub struct SampleToChunk {
    pub first_chunk: u32,
    pub samples_per_chunk: u32,
    pub sample_description_id: u32,
}

impl SampleToChunk {
    pub fn new(first_chunk: u32, samples_per_chunk: u32, sample_description_id: u32) -> (r: Self)
        ensures
            r == (SampleToChunk { first_chunk, samples_per_chunk, sample_description_id }),
    {
        Self { first_chunk, samples_per_chunk, sample_description_id }
    }
}

pub struct StscAtomView {
    pub atom_head: AtomHead,
    pub atom_version: u8,
    pub atom_flags: Seq<u8>,
    pub number_of_entries: u32,
    pub sample_to_chunk_table: Seq<SampleToChunk>,
}

impl View for StscAtom {
    type V = StscAtomView;

    open spec fn view(&self) -> StscAtomView {
        StscAtomView {
            atom_head: self.atom_head,
            atom_version: self.atom_version,
            atom_flags: self.atom_flags@,
            number_of_entries: self.number_of_entries,
            sample_to_chunk_table: self.sample_to_chunk_table@,
        }
    }
}

/// The `n` twelve-byte entries that start at `p`.
pub open spec fn entries_at(data: Seq<u8>, p: int, n: int) -> Seq<SampleToChunk> {
    Seq::new(
        n as nat,
        |i: int|
            SampleToChunk {
                first_chunk: be32(data, p + 12 * i),
                samples_per_chunk: be32(data, p + 12 * i + 4),
                sample_description_id: be32(data, p + 12 * i + 8),
            },
    )
}

/// Version and flags, a 32-bit count, then that many three-word entries.
pub open spec fn spec_parse(data: Seq<u8>, h: AtomHead, b: int) -> Result<StscAtomView, AtomParseError> {
    if b + 8 > h.end() {
        Err(truncated(h))
    } else {
        let n = be32(data, b + 4);
        if b + 8 + 12 * n > h.end() {
            Err(truncated(h))
        } else {
            Ok(
                StscAtomView {
                    atom_head: h,
                    atom_version: data[b],
                    atom_flags: data.subrange(b + 1, b + 4),
                    number_of_entries: n,
                    sample_to_chunk_table: entries_at(data, b + 8, n as int),
                },
            )
        }
    }
}

pub fn parse(data: &[u8], atom_head: AtomHead, body: usize) -> (r: Result<StscAtom, AtomParseError>)
    requires
        body_ok(data@.len() as int, atom_head, body as int),
    ensures
        viewed(r) == spec_parse(data@, atom_head, body as int),
{
    let end = end_of(data, atom_head, body);
    if end - body < 8 {
        return Err(AtomParseError::IoError(IoError::UnexpectedEof(atom_head.atom_offset)));
    }
    let (atom_version, atom_flags) = read_version_flags(data, body);
    let number_of_entries = read_u32_at(data, body + 4);
    if number_of_entries as u64 * 12 > (end - body - 8) as u64 {
        return Err(AtomParseError::IoError(IoError::UnexpectedEof(atom_head.atom_offset)));
    }
    let n = number_of_entries as usize;
    let start = body + 8;
    let mut sample_to_chunk_table: Vec<SampleToChunk> = Vec::new();
    let mut i: usize = 0;
    while i < n
        invariant
            i <= n,
            start + 12 * n <= end <= data@.len(),
            sample_to_chunk_table@ == entries_at(data@, start as int, i as int),
        decreases n - i,
    {
        let p = start + 12 * i;
        let first_chunk = read_u32_at(data, p);
        let samples_per_chunk = read_u32_at(data, p + 4);
        let sample_description_id = read_u32_at(data, p + 8);
        sample_to_chunk_table.push(
            SampleToChunk::new(first_chunk, samples_per_chunk, sample_description_id),
        );
        i = i + 1;
        assert(sample_to_chunk_table@ =~= entries_at(data@, start as int, i as int));
    }
    Ok(StscAtom { atom_head, atom_version, atom_flags, number_of_entries, sample_to_chunk_table })
}

} // verus!

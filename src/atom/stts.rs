use vstd::prelude::*;

use crate::atom::{body_ok, end_of, read_version_flags, truncated, viewed, AtomHead, AtomParseError};
use crate::field::{be32, read_u32_at, IoError};

verus! {

pub const ATOM_ID: u32 = 0x7374_7473; // 'stts'

/// A run of samples that share one duration.
#[derive(Debug, Clone, Copy, PartialEq, Eq, Structural)]
pub struct TimeToSampleEntry {
    pub sample_count: u32,
    pub sample_duration: u32,
}

/// The time-to-sample table, in playback order.
#[derive(Debug, Clone, PartialEq, Eq)]
pub struct SttsAtom {
    pub atom_head: AtomHead,
    pub atom_version: u8,
    pub atom_flags: [u8; 3],
    pub number_of_entries: u32,
    pub time_to_sample_table: Vec<TimeToSampleEntry>,
}

pub struct SttsAtomView {
    pub atom_head: AtomHead,
    pub atom_version: u8,
    pub atom_flags: Seq<u8>,
    pub number_of_entries: u32,
    pub time_to_sample_table: Seq<TimeToSampleEntry>,
}

impl View for SttsAtom {
    type V = SttsAtomView;

    open spec fn view(&self) -> SttsAtomView {
        SttsAtomView {
            atom_head: self.atom_head,
            atom_version: self.atom_version,
            atom_flags: self.atom_flags@,
            number_of_entries: self.number_of_entries,
            time_to_sample_table: self.time_to_sample_table@,
        }
    }
}

/// The `n` eight-byte entries that start at `p`.
pub open spec fn entries_at(data: Seq<u8>, p: int, n: int) -> Seq<TimeToSampleEntry> {
    Seq::new(
        n as nat,
        |i: int|
            TimeToSampleEntry {
                sample_count: be32(data, p + 8 * i),
                sample_duration: be32(data, p + 8 * i + 4),
            },
    )
}

/// Version and flags, a 32-bit count, then that many (count, duration) pairs.
pub open spec fn spec_parse(data: Seq<u8>, h: AtomHead, b: int) -> Result<SttsAtomView, AtomParseError> {
    if b + 8 > h.end() {
        Err(truncated(h))
    } else {
        let n = be32(data, b + 4);
        if b + 8 + 8 * n > h.end() {
            Err(truncated(h))
        } else {
            Ok(
                SttsAtomView {
                    atom_head: h,
                    atom_version: data[b],
                    atom_flags: data.subrange(b + 1, b + 4),
                    number_of_entries: n,
                    time_to_sample_table: entries_at(data, b + 8, n as int),
                },
            )
        }
    }
}

pub fn parse(data: &[u8], atom_head: AtomHead, body: usize) -> (r: Result<SttsAtom, AtomParseError>)
    requires
        body_ok(data@.len() as int, atom_head, body as int),
    ensures
        viewed(r) == spec_parse(data@, atom_head, body as int),
{
    let end = end_of(data, atom_head, body);
    if end - body < 8 {
        return Err(AtomParseError::IoError(IoError::UnexpectedEof(atom_head.atom_offset)));
    }
    let (atom_version, atom_flags) = read_version_flags(data, body);
    let number_of_entries = read_u32_at(data, body + 4);
    if number_of_entries as u64 * 8 > (end - body - 8) as u64 {
        return Err(AtomParseError::IoError(IoError::UnexpectedEof(atom_head.atom_offset)));
    }
    let n = number_of_entries as usize;
    let start = body + 8;
    let mut time_to_sample_table: Vec<TimeToSampleEntry> = Vec::new();
    let mut i: usize = 0;
    while i < n
        invariant
            i <= n,
            start + 8 * n <= end <= data@.len(),
            time_to_sample_table@ == entries_at(data@, start as int, i as int),
        decreases n - i,
    {
        let p = start + 8 * i;
        let sample_count = read_u32_at(data, p);
        let sample_duration = read_u32_at(data, p + 4);
        time_to_sample_table.push(TimeToSampleEntry { sample_count, sample_duration });
        i = i + 1;
        assert(time_to_sample_table@ =~= entries_at(data@, start as int, i as int));
    }
    Ok(SttsAtom { atom_head, atom_version, atom_flags, number_of_entries, time_to_sample_table })
}

} // verus!

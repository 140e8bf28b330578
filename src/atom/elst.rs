use vstd::prelude::*;

use crate::atom::{body_ok, end_of, read_version_flags, truncated, viewed, AtomHead, AtomParseError};
use crate::element::fixed_point::U16F16;
use crate::field::{be32, read_u32_at, IoError};

verus! {

pub const ATOM_ID: u32 = 0x656c_7374; // 'elst'

/// The edit list, in presentation order.
#[derive(Debug, Clone, PartialEq, Eq)]
pub struct ElstAtom {
    pub atom_head: AtomHead,
    pub atom_version: u8,
    pub atom_flags: [u8; 3],
    pub number_of_entries: u32,
    pub edit_list_table: Vec<EditListTableEntry>,
}

/// One edit: `track_duration` of the track plays the media from `media_time`
/// at `media_rate`.
#[derive(Debug, Clone, Copy, PartialEq, Eq, Structural)]
pub struct EditListTableEntry {
    pub track_duration: u32,
    pub media_time: u32,
    pub media_rate: U16F16,
}

pub struct ElstAtomView {
    pub atom_head: AtomHead,
    pub atom_version: u8,
    pub atom_flags: Seq<u8>,
    pub number_of_entries: u32,
    pub edit_list_table: Seq<EditListTableEntry>,
}

impl View for ElstAtom {
    type V = ElstAtomView;

    open spec fn view(&self) -> ElstAtomView {
        ElstAtomView {
            atom_head: self.atom_head,
            atom_version: self.atom_version,
            atom_flags: self.atom_flags@,
            number_of_entries: self.number_of_entries,
            edit_list_table: self.edit_list_table@,
        }
    }
}

/// The `n` twelve-byte entries that start at `p`.
pub open spec fn entries_at(data: Seq<u8>, p: int, n: int) -> Seq<EditListTableEntry> {
    Seq::new(
        n as nat,
        |i: int|
            EditListTableEntry {
                track_duration: be32(data, p + 12 * i),
                media_time: be32(data, p + 12 * i + 4),
                media_rate: U16F16 { bits: be32(data, p + 12 * i + 8) },
            },
    )
}

/// Version and flags, a 32-bit count, then that many (duration, time, rate)
/// entries.
pub open spec fn spec_parse(data: Seq<u8>, h: AtomHead, b: int) -> Result<ElstAtomView, AtomParseError> {
    if b + 8 > h.end() {
        Err(truncated(h))
    } else {
        let n = be32(data, b + 4);
        if b + 8 + 12 * n > h.end() {
            Err(truncated(h))
        } else {
            Ok(
                ElstAtomView {
                    atom_head: h,
                    atom_version: data[b],
                    atom_flags: data.subrange(b + 1, b + 4),
                    number_of_entries: n,
                    edit_list_table: entries_at(data, b + 8, n as int),
                },
            )
        }
    }
}

pub fn parse(data: &[u8], atom_head: AtomHead, body: usize) -> (r: Result<ElstAtom, AtomParseError>)
    requires
        body_ok(data@.len() as int, atom_head, body as int),
    ensures
        viewed(r) == spec_parse(data@, atom_head, body as int),
{
    let end = end_of(data, atom_head, body);
    if end - body < 8 {
        return Err(AtomParseError::IoError(IoError::UnexpectedEof(atom_head.atom_offset)));
    }
    let (atom_version, atom_flags) = read_version_flags(data, body);
    let number_of_entries = read_u32_at(data, body + 4);
    if number_of_entries as u64 * 12 > (end - body - 8) as u64 {
        return Err(AtomParseError::IoError(IoError::UnexpectedEof(atom_head.atom_offset)));
    }
    let n = number_of_entries as usize;
    let start = body + 8;
    let mut edit_list_table: Vec<EditListTableEntry> = Vec::new();
    let mut i: usize = 0;
    while i < n
        invariant
            i <= n,
            start + 12 * n <= end <= data@.len(),
            edit_list_table@ == entries_at(data@, start as int, i as int),
        decreases n - i,
    {
        let p = start + 12 * i;
        let track_duration = read_u32_at(data, p);
        let media_time = read_u32_at(data, p + 4);
        let rate = read_u32_at(data, p + 8);
        edit_list_table.push(
            EditListTableEntry { track_duration, media_time, media_rate: U16F16::from_bits(rate) },
        );
        i = i + 1;
        assert(edit_list_table@ =~= entries_at(data@, start as int, i as int));
    }
    Ok(ElstAtom { atom_head, atom_version, atom_flags, number_of_entries, edit_list_table })
}

} // verus!

use vstd::prelude::*;

use crate::atom::{body_ok, end_of, read_version_flags, truncated, viewed, AtomHead, AtomParseError};
use crate::field::{be32, be32_seq, read_u32_at, read_u32_seq, IoError};

verus! {

pub const ATOM_ID: u32 = 0x7374_636f; // 'stco'

/// The chunk offset table: the file offset of each chunk, in chunk order.
#[derive(Debug, Clone, PartialEq, Eq)]
pub struct StcoAtom {
    pub atom_head: AtomHead,
    pub atom_version: u8,
    pub atom_flags: [u8; 3],
    pub number_of_entries: u32,
    pub chunk_offset_table: Vec<u32>,
}

pub struct StcoAtomView {
    pub atom_head: AtomHead,
    pub atom_version: u8,
    pub atom_flags: Seq<u8>,
    pub number_of_entries: u32,
    pub chunk_offset_table: Seq<u32>,
}

impl View for StcoAtom {
    type V = StcoAtomView;

    open spec fn view(&self) -> StcoAtomView {
        StcoAtomView {
            atom_head: self.atom_head,
            atom_version: self.atom_version,
            atom_flags: self.atom_flags@,
            number_of_entries: self.number_of_entries,
            chunk_offset_table: self.chunk_offset_table@,
        }
    }
}

/// Version and flags, a 32-bit count, then that many 32-bit offsets.
pub open spec fn spec_parse(data: Seq<u8>, h: AtomHead, b: int) -> Result<StcoAtomView, AtomParseError> {
    if b + 8 > h.end() {
        Err(truncated(h))
    } else {
        let n = be32(data, b + 4);
        if b + 8 + 4 * n > h.end() {
            Err(truncated(h))
        } else {
            Ok(
                StcoAtomView {
                    atom_head: h,
                    atom_version: data[b],
                    atom_flags: data.subrange(b + 1, b + 4),
                    number_of_entries: n,
                    chunk_offset_table: be32_seq(data, b + 8, n as int),
                },
            )
        }
    }
}

pub fn parse(data: &[u8], atom_head: AtomHead, body: usize) -> (r: Result<StcoAtom, AtomParseError>)
    requires
        body_ok(data@.len() as int, atom_head, body as int),
    ensures
        viewed(r) == spec_parse(data@, atom_head, body as int),
{
    let end = end_of(data, atom_head, body);
    if end - body < 8 {
        return Err(AtomParseError::IoError(IoError::UnexpectedEof(atom_head.atom_offset)));
    }
    let (atom_version, atom_flags) = read_version_flags(data, body);
    let number_of_entries = read_u32_at(data, body + 4);
    if number_of_entries as u64 * 4 > (end - body - 8) as u64 {
        return Err(AtomParseError::IoError(IoError::UnexpectedEof(atom_head.atom_offset)));
    }
    let chunk_offset_table = read_u32_seq(data, body + 8, number_of_entries as usize);
    Ok(StcoAtom { atom_head, atom_version, atom_flags, number_of_entries, chunk_offset_table })
}

} // verus!

use vstd::prelude::*;

use crate::atom::{body_ok, end_of, read_version_flags, truncated, viewed, AtomHead, AtomParseError};
use crate::field::{be32, be32_seq, read_u32_at, read_u32_seq, IoError};

verus! {

pub const ATOM_ID: u32 = 0x7374_737a; // 'stsz'

/// The sample size table: a common sample size, and the size of each sample
/// in order.
#[derive(Debug, Clone, PartialEq, Eq)]
pub struct StszAtom {
    pub atom_head: AtomHead,
    pub atom_version: u8,
    pub atom_flags: [u8; 3],
    pub sample_size: u32,
    pub number_of_entries: u32,
    pub sample_size_table: Vec<u32>,
}

pub struct StszAtomView {
    pub atom_head: AtomHead,
    pub atom_version: u8,
    pub atom_flags: Seq<u8>,
    pub sample_size: u32,
    pub number_of_entries: u32,
    pub sample_size_table: Seq<u32>,
}

impl View for StszAtom {
    type V = StszAtomView;

    open spec fn view(&self) -> StszAtomView {
        StszAtomView {
            atom_head: self.atom_head,
            atom_version: self.atom_version,
            atom_flags: self.atom_flags@,
            sample_size: self.sample_size,
            number_of_entries: self.number_of_entries,
            sample_size_table: self.sample_size_table@,
        }
    }
}

/// Version and flags, the common size, a 32-bit count, then that many 32-bit
/// sizes.
pub open spec fn spec_parse(data: Seq<u8>, h: AtomHead, b: int) -> Result<StszAtomView, AtomParseError> {
    if b + 12 > h.end() {
        Err(truncated(h))
    } else {
        let n = be32(data, b + 8);
        if b + 12 + 4 * n > h.end() {
            Err(truncated(h))
        } else {
            Ok(
                StszAtomView {
                    atom_head: h,
                    atom_version: data[b],
                    atom_flags: data.subrange(b + 1, b + 4),
                    sample_size: be32(data, b + 4),
                    number_of_entries: n,
                    sample_size_table: be32_seq(data, b + 12, n as int),
                },
            )
        }
    }
}

pub fn parse(data: &[u8], atom_head: AtomHead, body: usize) -> (r: Result<StszAtom, AtomParseError>)
    requires
        body_ok(data@.len() as int, atom_head, body as int),
    ensures
        viewed(r) == spec_parse(data@, atom_head, body as int),
{
    let end = end_of(data, atom_head, body);
    if end - body < 12 {
        return Err(AtomParseError::IoError(IoError::UnexpectedEof(atom_head.atom_offset)));
    }
    let (atom_version, atom_flags) = read_version_flags(data, body);
    let sample_size = read_u32_at(data, body + 4);
    let number_of_entries = read_u32_at(data, body + 8);
    if number_of_entries as u64 * 4 > (end - body - 12) as u64 {
        return Err(AtomParseError::IoError(IoError::UnexpectedEof(atom_head.atom_offset)));
    }
    let sample_size_table = read_u32_seq(data, body + 12, number_of_entries as usize);
    Ok(
        StszAtom {
            atom_head,
            atom_version,
            atom_flags,
            sample_size,
            number_of_entries,
            sample_size_table,
        },
    )
}

} // verus!

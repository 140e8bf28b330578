use vstd::prelude::*;

use crate::atom::{
    body_ok,
    end_of,
    lemma_prepend_push,
    prepend,
    read_version_flags,
    truncated,
    viewed,
    AtomHead,
    AtomParseError,
};
use crate::field::{be16, be32, read_u16_at, read_u32_at, IoError};

verus! {

pub const ATOM_ID: u32 = 0x7374_7364; // 'stsd'

/// The fixed part of one sample description; the format-specific bytes
/// after it are skipped and `data` stays empty.
#[derive(Debug, Clone, PartialEq, Eq)]
pub struct SampleDescription {
    pub sample_description_size: u32,
    pub data_format: u32,
    pub reserved: [u8; 6],
    pub data_reference_index: u16,
    pub data: Vec<u8>,
}

pub struct SampleDescriptionView {
    pub sample_description_size: u32,
    pub data_format: u32,
    pub reserved: Seq<u8>,
    pub data_reference_index: u16,
    pub data: Seq<u8>,
}

impl View for SampleDescription {
    type V = SampleDescriptionView;

    open spec fn view(&self) -> SampleDescriptionView {
        SampleDescriptionView {
            sample_description_size: self.sample_description_size,
            data_format: self.data_format,
            reserved: self.reserved@,
            data_reference_index: self.data_reference_index,
            data: self.data@,
        }
    }
}

/// The sample description table.
#[derive(Debug, Clone, PartialEq, Eq)]
pub struct StsdAtom {
    pub atom_head: AtomHead,
    pub atom_version: u8,
    pub atom_flags: [u8; 3],
    pub number_of_entries: u32,
    pub sample_description_table: Vec<SampleDescription>,
}

pub struct StsdAtomView {
    pub atom_head: AtomHead,
    pub atom_version: u8,
    pub atom_flags: Seq<u8>,
    pub number_of_entries: u32,
    pub sample_description_table: Seq<SampleDescriptionView>,
}

impl View for StsdAtom {
    type V = StsdAtomView;

    open spec fn view(&self) -> StsdAtomView {
        StsdAtomView {
            atom_head: self.atom_head,
            atom_version: self.atom_version,
            atom_flags: self.atom_flags@,
            number_of_entries: self.number_of_entries,
            sample_description_table: self.sample_description_table@.map_values(
                |d: SampleDescription| d@,
            ),
        }
    }
}

/// `k` descriptions from `p` on, each of the size its first word declares
/// (at least sixteen bytes) and each within the atom.
pub open spec fn descriptions_at(data: Seq<u8>, h: AtomHead, p: int, k: nat) -> Result<
    Seq<SampleDescriptionView>,
    AtomParseError,
>
    decreases k,
{
    if k == 0 {
        Ok(Seq::empty())
    } else if p + 16 > h.end() {
        Err(truncated(h))
    } else {
        let size = be32(data, p);
        if size < 16 {
            Err(AtomParseError::UnexpectedError(p as u64))
        } else if p + size > h.end() {
            Err(truncated(h))
        } else {
            prepend(
                seq![
                    SampleDescriptionView {
                        sample_description_size: size,
                        data_format: be32(data, p + 4),
                        reserved: data.subrange(p + 8, p + 14),
                        data_reference_index: be16(data, p + 14),
                        data: Seq::empty(),
                    },
                ],
                descriptions_at(data, h, p + size, (k - 1) as nat),
            )
        }
    }
}

/// Version and flags, a 32-bit count, then that many descriptions.
pub open spec fn spec_parse(data: Seq<u8>, h: AtomHead, b: int) -> Result<StsdAtomView, AtomParseError> {
    if b + 8 > h.end() {
        Err(truncated(h))
    } else {
        let n = be32(data, b + 4);
        match descriptions_at(data, h, b + 8, n as nat) {
            Err(e) => Err(e),
            Ok(table) => Ok(
                StsdAtomView {
                    atom_head: h,
                    atom_version: data[b],
                    atom_flags: data.subrange(b + 1, b + 4),
                    number_of_entries: n,
                    sample_description_table: table,
                },
            ),
        }
    }
}

pub fn parse(data: &[u8], atom_head: AtomHead, body: usize) -> (r: Result<StsdAtom, AtomParseError>)
    requires
        body_ok(data@.len() as int, atom_head, body as int),
    ensures
        viewed(r) == spec_parse(data@, atom_head, body as int),
{
    let end = end_of(data, atom_head, body);
    if end - body < 8 {
        return Err(AtomParseError::IoError(IoError::UnexpectedEof(atom_head.atom_offset)));
    }
    let (atom_version, atom_flags) = read_version_flags(data, body);
    let number_of_entries = read_u32_at(data, body + 4);
    let mut sample_description_table: Vec<SampleDescription> = Vec::new();
    let mut p = body + 8;
    let mut i: u32 = 0;
    while i < number_of_entries
        invariant
            i <= number_of_entries,
            body + 8 <= p <= end,
            end == atom_head.end(),
            body + 8 <= end,
            number_of_entries == be32(data@, body + 4),
            atom_version == data@[body as int],
            atom_flags@ == data@.subrange(body + 1, body + 4),
            body_ok(data@.len() as int, atom_head, body as int),
            descriptions_at(data@, atom_head, body + 8, number_of_entries as nat) == prepend(
                sample_description_table@.map_values(|d: SampleDescription| d@),
                descriptions_at(data@, atom_head, p as int, (number_of_entries - i) as nat),
            ),
        decreases number_of_entries - i,
    {
        let ghost rest = descriptions_at(data@, atom_head, p as int, (number_of_entries - i) as nat);
        if end - p < 16 {
            assert(rest == Err::<Seq<SampleDescriptionView>, AtomParseError>(truncated(atom_head)));
            return Err(AtomParseError::IoError(IoError::UnexpectedEof(atom_head.atom_offset)));
        }
        let size = read_u32_at(data, p);
        if size < 16 {
            assert(rest == Err::<Seq<SampleDescriptionView>, AtomParseError>(
                AtomParseError::UnexpectedError(p as u64),
            ));
            return Err(AtomParseError::UnexpectedError(p as u64));
        }
        if size as u64 > (end - p) as u64 {
            return Err(AtomParseError::IoError(IoError::UnexpectedEof(atom_head.atom_offset)));
        }
        let reserved: [u8; 6] = [
            data[p + 8],
            data[p + 9],
            data[p + 10],
            data[p + 11],
            data[p + 12],
            data[p + 13],
        ];
        assert(reserved@ =~= data@.subrange(p + 8, p + 14));
        let d = SampleDescription {
            sample_description_size: size,
            data_format: read_u32_at(data, p + 4),
            reserved,
            data_reference_index: read_u16_at(data, p + 14),
            data: Vec::new(),
        };
        proof {
            let old_seen = sample_description_table@.map_values(|d: SampleDescription| d@);
            lemma_prepend_push(
                old_seen,
                d@,
                descriptions_at(data@, atom_head, p + size, (number_of_entries - i - 1) as nat),
            );
            assert(d@.data =~= Seq::<u8>::empty());
        }
        let ghost before = sample_description_table@;
        sample_description_table.push(d);
        assert(sample_description_table@.map_values(|d: SampleDescription| d@) =~= before.map_values(
            |d: SampleDescription| d@,
        ).push(d@));
        p = p + size as usize;
        i = i + 1;
    }
    assert(sample_description_table@.map_values(|d: SampleDescription| d@) + Seq::empty()
        =~= sample_description_table@.map_values(|d: SampleDescription| d@));
    Ok(
        StsdAtom {
            atom_head,
            atom_version,
            atom_flags,
            number_of_entries,
            sample_description_table,
        },
    )
}

} // verus!

use vstd::prelude::*;

use crate::atom::{
    body_ok,
    end_of,
    lemma_head_ok,
    lemma_prepend_push,
    parse_atom_head,
    prepend,
    read_version_flags,
    spec_head,
    truncated,
    viewed,
    AtomHead,
    AtomParseError,
};
use crate::field::{be32, copy_bytes, read_u32_at, utf8_text, IoError};
use vstd::utf8::{decode_utf8, valid_utf8};

verus! {

pub const ATOM_ID: u32 = 0x6472_6566; // 'dref'

/// The entry type of a reference by URL, 'url '.
pub const URL_TYPE: u32 = 0x7572_6c20;

/// The data reference table: where the media data of a track is found.
#[derive(Debug, Clone, PartialEq, Eq)]
pub struct DrefAtom {
    pub atom_head: AtomHead,
    pub atom_version: u8,
    pub atom_flags: [u8; 3],
    pub number_of_entries: u32,
    pub data_references: Vec<DataReferenceType>,
}

#[derive(Debug, Clone, PartialEq, Eq)]
pub enum DataReferenceType {
    MacintoshAlias { atom_head: AtomHead, information: String },
    MacintoshAliasResource { atom_head: AtomHead, resource_type: i32, resorce_id: i16 },
    Url { atom_head: AtomHead, url: String },
    Unknown { atom_head: AtomHead },
}

pub enum DataReferenceTypeView {
    MacintoshAlias { atom_head: AtomHead, information: Seq<char> },
    MacintoshAliasResource { atom_head: AtomHead, resource_type: i32, resorce_id: i16 },
    Url { atom_head: AtomHead, url: Seq<char> },
    Unknown { atom_head: AtomHead },
}

impl View for DataReferenceType {
    type V = DataReferenceTypeView;

    open spec fn view(&self) -> DataReferenceTypeView {
        match self {
            DataReferenceType::MacintoshAlias { atom_head, information } => {
                DataReferenceTypeView::MacintoshAlias { atom_head: *atom_head, information: information@ }
            },
            DataReferenceType::MacintoshAliasResource { atom_head, resource_type, resorce_id } => {
                DataReferenceTypeView::MacintoshAliasResource {
                    atom_head: *atom_head,
                    resource_type: *resource_type,
                    resorce_id: *resorce_id,
                }
            },
            DataReferenceType::Url { atom_head, url } => DataReferenceTypeView::Url {
                atom_head: *atom_head,
                url: url@,
            },
            DataReferenceType::Unknown { atom_head } => DataReferenceTypeView::Unknown {
                atom_head: *atom_head,
            },
        }
    }
}

pub struct DrefAtomView {
    pub atom_head: AtomHead,
    pub atom_version: u8,
    pub atom_flags: Seq<u8>,
    pub number_of_entries: u32,
    pub data_references: Seq<DataReferenceTypeView>,
}

impl View for DrefAtom {
    type V = DrefAtomView;

    open spec fn view(&self) -> DrefAtomView {
        DrefAtomView {
            atom_head: self.atom_head,
            atom_version: self.atom_version,
            atom_flags: self.atom_flags@,
            number_of_entries: self.number_of_entries,
            data_references: self.data_references@.map_values(|d: DataReferenceType| d@),
        }
    }
}

/// One entry with header `eh` and payload from `eb`: a URL entry keeps its
/// payload as UTF-8 text, any other keeps its header only.
pub open spec fn reference_of(data: Seq<u8>, eh: AtomHead, eb: int) -> Result<
    DataReferenceTypeView,
    AtomParseError,
> {
    if eh.atom_type == URL_TYPE {
        let text = data.subrange(eb, eh.end());
        if valid_utf8(text) {
            Ok(DataReferenceTypeView::Url { atom_head: eh, url: decode_utf8(text) })
        } else {
            Err(AtomParseError::IoError(IoError::InvalidData(eb as u64)))
        }
    } else {
        Ok(DataReferenceTypeView::Unknown { atom_head: eh })
    }
}

/// `k` entries from `p` on, each an atom within `h`.
pub open spec fn references_at(data: Seq<u8>, h: AtomHead, p: int, k: nat) -> Result<
    Seq<DataReferenceTypeView>,
    AtomParseError,
>
    decreases k,
{
    if k == 0 {
        Ok(Seq::empty())
    } else if p >= h.end() {
        Err(truncated(h))
    } else {
        match spec_head(data, p, h.end()) {
            Err(e) => Err(e),
            Ok((eh, eb)) => match reference_of(data, eh, eb) {
                Err(e) => Err(e),
                Ok(x) => prepend(seq![x], references_at(data, h, eh.end(), (k - 1) as nat)),
            },
        }
    }
}

/// Version and flags, a 32-bit count, then that many entries.
pub open spec fn spec_parse(data: Seq<u8>, h: AtomHead, b: int) -> Result<DrefAtomView, AtomParseError> {
    if b + 8 > h.end() {
        Err(truncated(h))
    } else {
        let n = be32(data, b + 4);
        match references_at(data, h, b + 8, n as nat) {
            Err(e) => Err(e),
            Ok(refs) => Ok(
                DrefAtomView {
                    atom_head: h,
                    atom_version: data[b],
                    atom_flags: data.subrange(b + 1, b + 4),
                    number_of_entries: n,
                    data_references: refs,
                },
            ),
        }
    }
}

fn parse_reference(data: &[u8], eh: AtomHead, eb: usize) -> (r: Result<
    DataReferenceType,
    AtomParseError,
>)
    requires
        body_ok(data@.len() as int, eh, eb as int),
    ensures
        viewed(r) == reference_of(data@, eh, eb as int),
{
    if eh.atom_type == URL_TYPE {
        let end = end_of(data, eh, eb);
        match utf8_text(copy_bytes(data, eb, end)) {
            Some(url) => Ok(DataReferenceType::Url { atom_head: eh, url }),
            None => Err(AtomParseError::IoError(IoError::InvalidData(eb as u64))),
        }
    } else {
        Ok(DataReferenceType::Unknown { atom_head: eh })
    }
}

pub fn parse(data: &[u8], atom_head: AtomHead, body: usize) -> (r: Result<DrefAtom, AtomParseError>)
    requires
        body_ok(data@.len() as int, atom_head, body as int),
    ensures
        viewed(r) == spec_parse(data@, atom_head, body as int),
{
    let end = end_of(data, atom_head, body);
    if end - body < 8 {
        return Err(AtomParseError::IoError(IoError::UnexpectedEof(atom_head.atom_offset)));
    }
    let (atom_version, atom_flags) = read_version_flags(data, body);
    let number_of_entries = read_u32_at(data, body + 4);
    let mut data_references: Vec<DataReferenceType> = Vec::new();
    let mut p = body + 8;
    let mut i: u32 = 0;
    while i < number_of_entries
        invariant
            i <= number_of_entries,
            body + 8 <= p <= end,
            end == atom_head.end(),
            body + 8 <= end,
            number_of_entries == be32(data@, body + 4),
            atom_version == data@[body as int],
            atom_flags@ == data@.subrange(body + 1, body + 4),
            body_ok(data@.len() as int, atom_head, body as int),
            references_at(data@, atom_head, body + 8, number_of_entries as nat) == prepend(
                data_references@.map_values(|d: DataReferenceType| d@),
                references_at(data@, atom_head, p as int, (number_of_entries - i) as nat),
            ),
        decreases number_of_entries - i,
    {
        let ghost rest = references_at(data@, atom_head, p as int, (number_of_entries - i) as nat);
        if p >= end {
            assert(rest == Err::<Seq<DataReferenceTypeView>, AtomParseError>(truncated(atom_head)));
            return Err(AtomParseError::IoError(IoError::UnexpectedEof(atom_head.atom_offset)));
        }
        let _ = data.len();
        proof {
            lemma_head_ok(data@, p as int, end as int);
        }
        let (eh, eb) = match parse_atom_head(data, p, end) {
            Ok(x) => x,
            Err(e) => {
                assert(rest == Err::<Seq<DataReferenceTypeView>, AtomParseError>(e));
                return Err(e);
            },
        };
        let d = match parse_reference(data, eh, eb) {
            Ok(d) => d,
            Err(e) => {
                assert(rest == Err::<Seq<DataReferenceTypeView>, AtomParseError>(e));
                return Err(e);
            },
        };
        proof {
            lemma_prepend_push(
                data_references@.map_values(|d: DataReferenceType| d@),
                d@,
                references_at(data@, atom_head, eh.end(), (number_of_entries - i - 1) as nat),
            );
        }
        let ghost before = data_references@;
        data_references.push(d);
        assert(data_references@.map_values(|d: DataReferenceType| d@) =~= before.map_values(
            |d: DataReferenceType| d@,
        ).push(d@));
        p = end_of(data, eh, eb);
        i = i + 1;
    }
    assert(data_references@.map_values(|d: DataReferenceType| d@) + Seq::empty()
        =~= data_references@.map_values(|d: DataReferenceType| d@));
    Ok(DrefAtom { atom_head, atom_version, atom_flags, number_of_entries, data_references })
}

} // verus!

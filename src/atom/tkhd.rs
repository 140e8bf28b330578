use vstd::prelude::*;

use crate::atom::{body_ok, end_of, read_version_flags, truncated, viewed, AtomHead, AtomParseError};
use crate::element::fixed_point::{U16F16, U8F8};
use crate::element::qtfile_datetime::QtFileDateTime;
use crate::element::qtfile_matrix::{matrix_at, QtFileMatrix};
use crate::field::{be16, be32, read_u16_at, read_u32_at, IoError};

verus! {

pub const ATOM_ID: u32 = 0x746b_6864; // 'tkhd'

/// Bytes from the payload's start to the end of the last field.
pub const PAYLOAD_LEN: usize = 84;

/// The track header: identity, timing, layering, volume, matrix and size.
#[derive(Debug, Clone, Copy, PartialEq, Eq)]
pub struct TkhdAtom {
    pub atom_head: AtomHead,
    pub atom_version: u8,
    pub atom_flags: [u8; 3],
    pub creation_time: QtFileDateTime,
    pub modification_time: QtFileDateTime,
    pub track_id: u32,
    pub reserved0: u32,
    pub duration: u32,
    pub reserved1: [u8; 8],
    pub layer: u16,
    pub alternate_group: u16,
    pub volume: U8F8,
    pub reserved2: u16,
    pub matrix_structure: QtFileMatrix,
    pub track_width: U16F16,
    pub track_height: U16F16,
}

pub struct TkhdAtomView {
    pub atom_head: AtomHead,
    pub atom_version: u8,
    pub atom_flags: Seq<u8>,
    pub creation_time: QtFileDateTime,
    pub modification_time: QtFileDateTime,
    pub track_id: u32,
    pub reserved0: u32,
    pub duration: u32,
    pub reserved1: Seq<u8>,
    pub layer: u16,
    pub alternate_group: u16,
    pub volume: U8F8,
    pub reserved2: u16,
    pub matrix_structure: QtFileMatrix,
    pub track_width: U16F16,
    pub track_height: U16F16,
}

impl View for TkhdAtom {
    type V = TkhdAtomView;

    open spec fn view(&self) -> TkhdAtomView {
        TkhdAtomView {
            atom_head: self.atom_head,
            atom_version: self.atom_version,
            atom_flags: self.atom_flags@,
            creation_time: self.creation_time,
            modification_time: self.modification_time,
            track_id: self.track_id,
            reserved0: self.reserved0,
            duration: self.duration,
            reserved1: self.reserved1@,
            layer: self.layer,
            alternate_group: self.alternate_group,
            volume: self.volume,
            reserved2: self.reserved2,
            matrix_structure: self.matrix_structure,
            track_width: self.track_width,
            track_height: self.track_height,
        }
    }
}

/// The fixed layout: version and flags, two timestamps, track id, a reserved
/// word, duration, eight reserved bytes, layer, alternate group, 8.8 volume,
/// a reserved half-word, the matrix, then 16.16 width and height.
pub open spec fn spec_parse(data: Seq<u8>, h: AtomHead, b: int) -> Result<TkhdAtomView, AtomParseError> {
    if b + PAYLOAD_LEN > h.end() {
        Err(truncated(h))
    } else {
        Ok(
            TkhdAtomView {
                atom_head: h,
                atom_version: data[b],
                atom_flags: data.subrange(b + 1, b + 4),
                creation_time: QtFileDateTime { value: be32(data, b + 4) },
                modification_time: QtFileDateTime { value: be32(data, b + 8) },
                track_id: be32(data, b + 12),
                reserved0: be32(data, b + 16),
                duration: be32(data, b + 20),
                reserved1: data.subrange(b + 24, b + 32),
                layer: be16(data, b + 32),
                alternate_group: be16(data, b + 34),
                volume: U8F8 { bits: be16(data, b + 36) },
                reserved2: be16(data, b + 38),
                matrix_structure: matrix_at(data, b + 40),
                track_width: U16F16 { bits: be32(data, b + 76) },
                track_height: U16F16 { bits: be32(data, b + 80) },
            },
        )
    }
}

pub fn parse(data: &[u8], atom_head: AtomHead, body: usize) -> (r: Result<TkhdAtom, AtomParseError>)
    requires
        body_ok(data@.len() as int, atom_head, body as int),
    ensures
        viewed(r) == spec_parse(data@, atom_head, body as int),
{
    let end = end_of(data, atom_head, body);
    if end - body < PAYLOAD_LEN {
        return Err(AtomParseError::IoError(IoError::UnexpectedEof(atom_head.atom_offset)));
    }
    let (atom_version, atom_flags) = read_version_flags(data, body);
    let p = body + 24;
    let reserved1: [u8; 8] = [
        data[p],
        data[p + 1],
        data[p + 2],
        data[p + 3],
        data[p + 4],
        data[p + 5],
        data[p + 6],
        data[p + 7],
    ];
    assert(reserved1@ =~= data@.subrange(p as int, p + 8));
    let matrix_structure = match QtFileMatrix::parse(data, body + 40) {
        Ok(m) => m,
        Err(e) => return Err(AtomParseError::ElementParseError(e)),
    };
    Ok(
        TkhdAtom {
            atom_head,
            atom_version,
            atom_flags,
            creation_time: QtFileDateTime::new(read_u32_at(data, body + 4)),
            modification_time: QtFileDateTime::new(read_u32_at(data, body + 8)),
            track_id: read_u32_at(data, body + 12),
            reserved0: read_u32_at(data, body + 16),
            duration: read_u32_at(data, body + 20),
            reserved1,
            layer: read_u16_at(data, body + 32),
            alternate_group: read_u16_at(data, body + 34),
            volume: U8F8::from_bits(read_u16_at(data, body + 36)),
            reserved2: read_u16_at(data, body + 38),
            matrix_structure,
            track_width: U16F16::from_bits(read_u32_at(data, body + 76)),
            track_height: U16F16::from_bits(read_u32_at(data, body + 80)),
        },
    )
}

} // verus!

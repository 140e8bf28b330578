use vstd::prelude::*;

use crate::atom::{body_ok, end_of, read_version_flags, truncated, viewed, AtomHead, AtomParseError};
use crate::element::qtfile_datetime::QtFileDateTime;
use crate::element::qtfile_matrix::{matrix_at, QtFileMatrix};
use crate::field::{be16, be32, read_u16_at, read_u32_at, IoError};

verus! {

pub const ATOM_ID: u32 = 0x6d76_6864; // 'mvhd'

/// Bytes from the payload's start to the end of the last field.
pub const PAYLOAD_LEN: usize = 100;

/// The movie header: timing, playback preferences and the movie's matrix.
#[derive(Debug, Clone, Copy, PartialEq, Eq)]
pub struct MvhdAtom {
    pub atom_head: AtomHead,
    pub atom_version: u8,
    pub atom_flags: [u8; 3],
    pub creation_time: QtFileDateTime,
    pub modification_time: QtFileDateTime,
    pub time_scale: u32,
    pub duration: u32,
    pub preferred_rate: u32,
    pub preferred_volume: u16,
    pub matrix_structure: QtFileMatrix,
    pub preview_time: QtFileDateTime,
    pub preview_duration: u32,
    pub poster_time: QtFileDateTime,
    pub selection_time: QtFileDateTime,
    pub selection_duration: u32,
    pub current_time: QtFileDateTime,
    pub next_track_id: u32,
}

pub struct MvhdAtomView {
    pub atom_head: AtomHead,
    pub atom_version: u8,
    pub atom_flags: Seq<u8>,
    pub creation_time: QtFileDateTime,
    pub modification_time: QtFileDateTime,
    pub time_scale: u32,
    pub duration: u32,
    pub preferred_rate: u32,
    pub preferred_volume: u16,
    pub matrix_structure: QtFileMatrix,
    pub preview_time: QtFileDateTime,
    pub preview_duration: u32,
    pub poster_time: QtFileDateTime,
    pub selection_time: QtFileDateTime,
    pub selection_duration: u32,
    pub current_time: QtFileDateTime,
    pub next_track_id: u32,
}

impl View for MvhdAtom {
    type V = MvhdAtomView;

    open spec fn view(&self) -> MvhdAtomView {
        MvhdAtomView {
            atom_head: self.atom_head,
            atom_version: self.atom_version,
            atom_flags: self.atom_flags@,
            creation_time: self.creation_time,
            modification_time: self.modification_time,
            time_scale: self.time_scale,
            duration: self.duration,
            preferred_rate: self.preferred_rate,
            preferred_volume: self.preferred_volume,
            matrix_structure: self.matrix_structure,
            preview_time: self.preview_time,
            preview_duration: self.preview_duration,
            poster_time: self.poster_time,
            selection_time: self.selection_time,
            selection_duration: self.selection_duration,
            current_time: self.current_time,
            next_track_id: self.next_track_id,
        }
    }
}

/// The fixed layout: version and flags, two timestamps, time scale,
/// duration, rate, volume, ten reserved bytes, the matrix, then preview,
/// poster, selection and current times with their durations and the next
/// track id.
pub open spec fn spec_parse(data: Seq<u8>, h: AtomHead, b: int) -> Result<MvhdAtomView, AtomParseError> {
    if b + PAYLOAD_LEN > h.end() {
        Err(truncated(h))
    } else {
        Ok(
            MvhdAtomView {
                atom_head: h,
                atom_version: data[b],
                atom_flags: data.subrange(b + 1, b + 4),
                creation_time: QtFileDateTime { value: be32(data, b + 4) },
                modification_time: QtFileDateTime { value: be32(data, b + 8) },
                time_scale: be32(data, b + 12),
                duration: be32(data, b + 16),
                preferred_rate: be32(data, b + 20),
                preferred_volume: be16(data, b + 24),
                matrix_structure: matrix_at(data, b + 36),
                preview_time: QtFileDateTime { value: be32(data, b + 72) },
                preview_duration: be32(data, b + 76),
                poster_time: QtFileDateTime { value: be32(data, b + 80) },
                selection_time: QtFileDateTime { value: be32(data, b + 84) },
                selection_duration: be32(data, b + 88),
                current_time: QtFileDateTime { value: be32(data, b + 92) },
                next_track_id: be32(data, b + 96),
            },
        )
    }
}

pub fn parse(data: &[u8], atom_head: AtomHead, body: usize) -> (r: Result<MvhdAtom, AtomParseError>)
    requires
        body_ok(data@.len() as int, atom_head, body as int),
    ensures
        viewed(r) == spec_parse(data@, atom_head, body as int),
{
    let end = end_of(data, atom_head, body);
    if end - body < PAYLOAD_LEN {
        return Err(AtomParseError::IoError(IoError::UnexpectedEof(atom_head.atom_offset)));
    }
    let (atom_version, atom_flags) = read_version_flags(data, body);
    let matrix_structure = match QtFileMatrix::parse(data, body + 36) {
        Ok(m) => m,
        Err(e) => return Err(AtomParseError::ElementParseError(e)),
    };
    Ok(
        MvhdAtom {
            atom_head,
            atom_version,
            atom_flags,
            creation_time: QtFileDateTime::new(read_u32_at(data, body + 4)),
            modification_time: QtFileDateTime::new(read_u32_at(data, body + 8)),
            time_scale: read_u32_at(data, body + 12),
            duration: read_u32_at(data, body + 16),
            preferred_rate: read_u32_at(data, body + 20),
            preferred_volume: read_u16_at(data, body + 24),
            matrix_structure,
            preview_time: QtFileDateTime::new(read_u32_at(data, body + 72)),
            preview_duration: read_u32_at(data, body + 76),
            poster_time: QtFileDateTime::new(read_u32_at(data, body + 80)),
            selection_time: QtFileDateTime::new(read_u32_at(data, body + 84)),
            selection_duration: read_u32_at(data, body + 88),
            current_time: QtFileDateTime::new(read_u32_at(data, body + 92)),
            next_track_id: read_u32_at(data, body + 96),
        },
    )
}

} // verus!

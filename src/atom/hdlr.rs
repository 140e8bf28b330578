use vstd::prelude::*;

use crate::atom::{body_ok, end_of, read_version_flags, truncated, viewed, AtomHead, AtomParseError};
use crate::field::{be32, copy_bytes, read_u32_at, utf8_text, IoError};
use vstd::utf8::{decode_utf8, valid_utf8};

verus! {

pub const ATOM_ID: u32 = 0x6864_6c72; // 'hdlr'

/// The handler reference: which component handles the media, and its name.
#[derive(Debug, Clone, PartialEq, Eq)]
pub struct HdlrAtom {
    pub atom_head: AtomHead,
    pub atom_version: u8,
    pub atom_flags: [u8; 3],
    pub component_type: ComponentType,
    pub component_sub_type: ComponentSubType,
    pub component_manufacturer: u32,
    pub component_flags: u32,
    pub component_flags_mask: u32,
    pub component_name: String,
}

pub struct HdlrAtomView {
    pub atom_head: AtomHead,
    pub atom_version: u8,
    pub atom_flags: Seq<u8>,
    pub component_type: ComponentType,
    pub component_sub_type: ComponentSubType,
    pub component_manufacturer: u32,
    pub component_flags: u32,
    pub component_flags_mask: u32,
    pub component_name: Seq<char>,
}

impl View for HdlrAtom {
    type V = HdlrAtomView;

    open spec fn view(&self) -> HdlrAtomView {
        HdlrAtomView {
            atom_head: self.atom_head,
            atom_version: self.atom_version,
            atom_flags: self.atom_flags@,
            component_type: self.component_type,
            component_sub_type: self.component_sub_type,
            component_manufacturer: self.component_manufacturer,
            component_flags: self.component_flags,
            component_flags_mask: self.component_flags_mask,
            component_name: self.component_name@,
        }
    }
}

#[derive(Debug, Clone, Copy, PartialEq, Eq, Structural)]
pub enum ComponentType {
    /// 'mhlr', a media handler.
    Mhlr,
    /// 'dhlr', a data handler.
    Dhlr,
    Invalid(u32),
}

impl ComponentType {
    pub open spec fn spec_new(t: u32) -> Self {
        if t == 0x6d68_6c72 {
            ComponentType::Mhlr
        } else if t == 0x6468_6c72 {
            ComponentType::Dhlr
        } else {
            ComponentType::Invalid(t)
        }
    }

    pub fn new(t: u32) -> (r: Self)
        ensures
            r == Self::spec_new(t),
    {
        match t {
            0x6d68_6c72 => ComponentType::Mhlr,
            0x6468_6c72 => ComponentType::Dhlr,
            _ => ComponentType::Invalid(t),
        }
    }
}

#[derive(Debug, Clone, Copy, PartialEq, Eq, Structural)]
pub enum ComponentSubType {
    VideoMedia,
    SoundMedia,
    TimedMetadataMedia,
    TimecodeMedia,
    TextMedia,
    ClosedCaptioningMedia,
    SubtitleMedia,
    MusicMedia,
    Mpeg1Media,
    SpriteMedia,
    TweenMedia,
    ModifierTracks,
    TrackReferences,
    ThreeDimensionalMedia,
    StreamingMedia,
    HintMedia,
    VrMedia,
    MovieMedia,
    Unknown(u32),
}

impl ComponentSubType {
    pub open spec fn spec_new(t: u32) -> Self {
        if t == 0x7669_6465 {
            ComponentSubType::VideoMedia
        } else if t == 0x736f_756e {
            ComponentSubType::SoundMedia
        } else if t == 0x6d65_7461 {
            ComponentSubType::TimedMetadataMedia
        } else if t == 0x746d_6364 {
            ComponentSubType::TimecodeMedia
        } else if t == 0x7465_7874 {
            ComponentSubType::TextMedia
        } else if t == 0x636c_6370 {
            ComponentSubType::ClosedCaptioningMedia
        } else if t == 0x7362_746c {
            ComponentSubType::SubtitleMedia
        } else if t == 0x6d75_7369 {
            ComponentSubType::MusicMedia
        } else if t == 0x4d50_4547 {
            ComponentSubType::Mpeg1Media
        } else if t == 0x7370_7274 {
            ComponentSubType::SpriteMedia
        } else if t == 0x7477_656e {
            ComponentSubType::TweenMedia
        } else if t == 0x7164_3364 {
            ComponentSubType::ThreeDimensionalMedia
        } else if t == 0x7374_726d {
            ComponentSubType::StreamingMedia
        } else {
            ComponentSubType::Unknown(t)
        }
    }

    pub fn new(t: u32) -> (r: Self)
        ensures
            r == Self::spec_new(t),
    {
        match t {
            0x7669_6465 => ComponentSubType::VideoMedia,  // 'vide'
            0x736f_756e => ComponentSubType::SoundMedia,  // 'soun'
            0x6d65_7461 => ComponentSubType::TimedMetadataMedia,  // 'meta'
            0x746d_6364 => ComponentSubType::TimecodeMedia,  // 'tmcd'
            0x7465_7874 => ComponentSubType::TextMedia,  // 'text'
            0x636c_6370 => ComponentSubType::ClosedCaptioningMedia,  // 'clcp'
            0x7362_746c => ComponentSubType::SubtitleMedia,  // 'sbtl'
            0x6d75_7369 => ComponentSubType::MusicMedia,  // 'musi'
            0x4d50_4547 => ComponentSubType::Mpeg1Media,  // 'MPEG'
            0x7370_7274 => ComponentSubType::SpriteMedia,  // 'sprt'
            0x7477_656e => ComponentSubType::TweenMedia,  // 'twen'
            0x7164_3364 => ComponentSubType::ThreeDimensionalMedia,  // 'qd3d'
            0x7374_726d => ComponentSubType::StreamingMedia,  // 'strm'
            _ => ComponentSubType::Unknown(t),
        }
    }
}

/// Version and flags, five 32-bit fields, then the name: every remaining byte
/// up to the atom's end, as UTF-8.
pub open spec fn spec_parse(data: Seq<u8>, h: AtomHead, b: int) -> Result<HdlrAtomView, AtomParseError> {
    if b + 24 > h.end() {
        Err(truncated(h))
    } else {
        let name = data.subrange(b + 24, h.end());
        if !valid_utf8(name) {
            Err(AtomParseError::IoError(IoError::InvalidData((b + 24) as u64)))
        } else {
            Ok(
                HdlrAtomView {
                    atom_head: h,
                    atom_version: data[b],
                    atom_flags: data.subrange(b + 1, b + 4),
                    component_type: ComponentType::spec_new(be32(data, b + 4)),
                    component_sub_type: ComponentSubType::spec_new(be32(data, b + 8)),
                    component_manufacturer: be32(data, b + 12),
                    component_flags: be32(data, b + 16),
                    component_flags_mask: be32(data, b + 20),
                    component_name: decode_utf8(name),
                },
            )
        }
    }
}

pub fn parse(data: &[u8], atom_head: AtomHead, body: usize) -> (r: Result<HdlrAtom, AtomParseError>)
    requires
        body_ok(data@.len() as int, atom_head, body as int),
    ensures
        viewed(r) == spec_parse(data@, atom_head, body as int),
{
    let end = end_of(data, atom_head, body);
    if end - body < 24 {
        return Err(AtomParseError::IoError(IoError::UnexpectedEof(atom_head.atom_offset)));
    }
    let (atom_version, atom_flags) = read_version_flags(data, body);
    let component_type = ComponentType::new(read_u32_at(data, body + 4));
    let component_sub_type = ComponentSubType::new(read_u32_at(data, body + 8));
    let component_manufacturer = read_u32_at(data, body + 12);
    let component_flags = read_u32_at(data, body + 16);
    let component_flags_mask = read_u32_at(data, body + 20);
    match utf8_text(copy_bytes(data, body + 24, end)) {
        Some(component_name) => Ok(
            HdlrAtom {
                atom_head,
                atom_version,
                atom_flags,
                component_type,
                component_sub_type,
                component_manufacturer,
                component_flags,
                component_flags_mask,
                component_name,
            },
        ),
        None => Err(AtomParseError::IoError(IoError::InvalidData((body + 24) as u64))),
    }
}

} // verus!

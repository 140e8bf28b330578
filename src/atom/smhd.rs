use vstd::prelude::*;

use crate::atom::{body_ok, end_of, truncated, AtomHead, AtomParseError};
use crate::element::fixed_point::I8F8;
use crate::field::{be16, be16_signed, read_i16_at, read_u16_at, IoError};

verus! {

pub const ATOM_ID: u32 = 0x736d_6864; // 'smhd'

/// The sound media information header: the stereo balance.
#[derive(Debug, Clone, Copy, PartialEq, Eq, Structural)]
pub struct SmhdAtom {
    pub atom_head: AtomHead,
    pub balance: I8F8,
    pub reserved: u16,
}

/// A signed 8.8 balance, then a reserved 16-bit word.
pub open spec fn spec_parse(data: Seq<u8>, h: AtomHead, b: int) -> Result<SmhdAtom, AtomParseError> {
    if b + 4 > h.end() {
        Err(truncated(h))
    } else {
        Ok(
            SmhdAtom {
                atom_head: h,
                balance: I8F8 { bits: be16_signed(data, b) as i16 },
                reserved: be16(data, b + 2),
            },
        )
    }
}

pub fn parse(data: &[u8], atom_head: AtomHead, body: usize) -> (r: Result<SmhdAtom, AtomParseError>)
    requires
        body_ok(data@.len() as int, atom_head, body as int),
    ensures
        r == spec_parse(data@, atom_head, body as int),
{
    let end = end_of(data, atom_head, body);
    if end - body < 4 {
        return Err(AtomParseError::IoError(IoError::UnexpectedEof(atom_head.atom_offset)));
    }
    let balance = I8F8::from_bits(read_i16_at(data, body));
    let reserved = read_u16_at(data, body + 2);
    Ok(SmhdAtom { atom_head, balance, reserved })
}

} // verus!

//! Decoding of QuickTime / ISO base media files into a tree of typed atoms.
use vstd::prelude::*;

pub mod atom;
pub mod element;
pub mod field;
pub mod ftyp;
pub mod qtfile;

use crate::ftyp::{ftyp_holds, Ftyp};
use crate::field::be32;

verus! {

/// A file known by its leading `ftyp` atom.
#[derive(Debug, Clone, PartialEq, Eq)]
pub struct AtomFile {
    pub ftyp: Ftyp,
}

impl AtomFile {
    pub fn new(input: &[u8]) -> (r: Result<AtomFile, &'static str>)
        ensures
            match r {
                Ok(f) => input@.len() >= 16 && 16 <= be32(input@, 0) <= input@.len() && ftyp_holds(
                    input@,
                    f.ftyp,
                ),
                Err(_) => input@.len() < 16 || be32(input@, 0) < 16 || be32(input@, 0)
                    > input@.len(),
            },
    {
        let ftyp = match ftyp::parse_ftyp(input) {
            Ok(f) => f,
            Err(e) => return Err(e),
        };
        Ok(AtomFile { ftyp })
    }
}

} // verus!

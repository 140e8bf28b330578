//! A whole file: the sequence of top-level atoms.
use vstd::prelude::*;

use crate::atom::{self, lemma_head_ok, lemma_prepend_push, prepend, spec_children, Atom, AtomParseError, AtomView, MAX_DEPTH};
use crate::field::IoError;

verus! {

#[derive(Debug, Clone, Copy, PartialEq, Eq, Structural)]
pub enum QtFileError {
    InvalidAtomSize(u64),
    AtomParseError(AtomParseError),
    IoError(IoError),
}

/// The top-level atoms of a file, in file order.
#[derive(Debug, Clone, PartialEq, Eq)]
pub struct QtFile {
    pub atoms: Vec<Atom>,
}

impl View for QtFile {
    type V = Seq<AtomView>;

    open spec fn view(&self) -> Seq<AtomView> {
        self.atoms@.map_values(|a: Atom| a@)
    }
}

/// The atoms that follow one another from the start of `data` to its end.
pub open spec fn spec_file(data: Seq<u8>) -> Result<Seq<AtomView>, AtomParseError> {
    spec_children(data, 0, data.len() as int, MAX_DEPTH as nat)
}

impl QtFile {
    pub fn atoms(&self) -> (r: &[Atom])
        ensures
            r@ == self.atoms@,
    {
        self.atoms.as_slice()
    }

    pub fn into_atoms(self) -> (r: Vec<Atom>)
        ensures
            r@.map_values(|a: Atom| a@) == self@,
    {
        self.atoms
    }
}

/// Decodes every atom of `data`, in order, until the data ends at an atom
/// boundary. The first error ends the decoding. The tree is a function of
/// the bytes alone, so decoding the same bytes twice gives equal trees.
pub fn parse_file(data: &[u8]) -> (r: Result<QtFile, QtFileError>)
    ensures
        match r {
            Ok(f) => spec_file(data@) == Ok::<Seq<AtomView>, AtomParseError>(f@),
            Err(e) => spec_file(data@) matches Err(pe) && e == QtFileError::AtomParseError(pe),
        },
{
    let len = data.len();
    let mut atoms: Vec<Atom> = Vec::new();
    let mut p: usize = 0;
    while p < len
        invariant
            p <= len,
            len == data@.len(),
            spec_file(data@) == prepend(
                atoms@.map_values(|a: Atom| a@),
                spec_children(data@, p as int, len as int, MAX_DEPTH as nat),
            ),
        decreases len - p,
    {
        proof {
            lemma_head_ok(data@, p as int, len as int);
        }
        match atom::parse(data, p) {
            Ok((a, next)) => {
                proof {
                    lemma_prepend_push(
                        atoms@.map_values(|a: Atom| a@),
                        a@,
                        spec_children(data@, next as int, len as int, MAX_DEPTH as nat),
                    );
                }
                let ghost before = atoms@;
                atoms.push(a);
                assert(atoms@.map_values(|a: Atom| a@) =~= before.map_values(|a: Atom| a@).push(a@));
                p = next;
            },
            Err(e) => {
                return Err(QtFileError::AtomParseError(e));
            },
        }
    }
    assert(atoms@.map_values(|a: Atom| a@) + Seq::empty() =~= atoms@.map_values(|a: Atom| a@));
    Ok(QtFile { atoms })
}

} // verus!

use vstd::prelude::*;

use crate::atom::dref::{self, DrefAtom, DrefAtomView};
use crate::atom::{
    body_ok,
    end_of,
    lemma_fold_push,
    lemma_head_ok,
    lemma_prepend_push,
    opt_view,
    parse_atom_body,
    parse_atom_head,
    prepend,
    spec_children,
    viewed,
    Atom,
    AtomHead,
    AtomParseError,
    AtomView,
};

verus! {

pub const ATOM_ID: u32 = 0x6469_6e66; // 'dinf'

/// The data information container: the data reference table it requires.
#[derive(Debug, Clone, PartialEq, Eq)]
pub struct DinfAtom {
    pub atom_head: AtomHead,
    pub dref_atom: Box<DrefAtom>,
}

pub struct DinfAtomView {
    pub atom_head: AtomHead,
    pub dref_atom: DrefAtomView,
}

impl View for DinfAtom {
    type V = DinfAtomView;

    open spec fn view(&self) -> DinfAtomView {
        DinfAtomView { atom_head: self.atom_head, dref_atom: self.dref_atom@ }
    }
}

/// The last data reference table seen.
pub open spec fn absorb(st: Option<DrefAtomView>, a: AtomView) -> Option<DrefAtomView> {
    match a {
        AtomView::Dref(x) => Some(x),
        _ => st,
    }
}

pub open spec fn slots(kids: Seq<AtomView>) -> Option<DrefAtomView> {
    kids.fold_left(None, |st, a| absorb(st, a))
}

pub open spec fn spec_parse(data: Seq<u8>, h: AtomHead, b: int, depth: nat) -> Result<
    DinfAtomView,
    AtomParseError,
>
    decreases depth, 1int, 0int,
{
    if depth == 0 {
        Err(AtomParseError::NestingTooDeep(h.atom_offset))
    } else {
        match spec_children(data, b, h.end(), (depth - 1) as nat) {
            Err(e) => Err(e),
            Ok(kids) => match slots(kids) {
                None => Err(AtomParseError::RequiredAtomNotFound(dref::ATOM_ID)),
                Some(d) => Ok(DinfAtomView { atom_head: h, dref_atom: d }),
            },
        }
    }
}

pub fn parse(data: &[u8], atom_head: AtomHead, body: usize, depth: u32) -> (r: Result<
    DinfAtom,
    AtomParseError,
>)
    requires
        body_ok(data@.len() as int, atom_head, body as int),
    ensures
        viewed(r) == spec_parse(data@, atom_head, body as int, depth as nat),
    decreases depth, 1int, 0int,
{
    if depth == 0 {
        return Err(AtomParseError::NestingTooDeep(atom_head.atom_offset));
    }
    let end = end_of(data, atom_head, body);
    let ghost kid_depth = (depth - 1) as nat;
    let mut dref_atom: Option<Box<DrefAtom>> = None;
    let ghost mut seen: Seq<AtomView> = Seq::empty();
    let mut p = body;
    while p < end
        invariant
            body <= p <= end,
            end == atom_head.end(),
            body_ok(data@.len() as int, atom_head, body as int),
            depth >= 1,
            kid_depth == depth - 1,
            spec_children(data@, body as int, end as int, kid_depth) == prepend(
                seen,
                spec_children(data@, p as int, end as int, kid_depth),
            ),
            slots(seen) == opt_view(dref_atom),
        decreases end - p,
    {
        let _ = data.len();
        proof {
            lemma_head_ok(data@, p as int, end as int);
        }
        let (h, b) = match parse_atom_head(data, p, end) {
            Ok(x) => x,
            Err(e) => return Err(e),
        };
        let a = match parse_atom_body(data, h, b, depth - 1) {
            Ok(a) => a,
            Err(e) => return Err(e),
        };
        proof {
            lemma_prepend_push(seen, a@, spec_children(data@, h.end(), end as int, kid_depth));
            lemma_fold_push(seen, None, |st, a| absorb(st, a), a@);
            seen = seen.push(a@);
        }
        match a {
            Atom::Dref(x) => {
                dref_atom = Some(Box::new(x));
            },
            _ => {},
        }
        p = end_of(data, h, b);
    }
    assert(seen + Seq::empty() =~= seen);
    match dref_atom {
        Some(dref_atom) => Ok(DinfAtom { atom_head, dref_atom }),
        None => Err(AtomParseError::RequiredAtomNotFound(dref::ATOM_ID)),
    }
}

} // verus!

use vstd::prelude::*;

use crate::atom::edts::{EdtsAtom, EdtsAtomView};
use crate::atom::mdia::{self, MdiaAtom, MdiaAtomView};
use crate::atom::tkhd::{self, TkhdAtom, TkhdAtomView};
use crate::atom::{
    body_ok,
    end_of,
    lemma_fold_push,
    lemma_head_ok,
    lemma_prepend_push,
    opt_view,
    parse_atom_body,
    parse_atom_head,
    prepend,
    spec_children,
    viewed,
    Atom,
    AtomHead,
    AtomParseError,
    AtomView,
};

verus! {

pub const ATOM_ID: u32 = 0x7472_616b; // 'trak'

/// A track: its header, its optional edit list and its media.
#[derive(Debug, Clone, PartialEq, Eq)]
pub struct TrakAtom {
    pub atom_head: AtomHead,
    pub tkhd_atom: Box<TkhdAtom>,
    pub edts_atom: Option<Box<EdtsAtom>>,
    pub mdia_atom: Box<MdiaAtom>,
}

pub struct TrakAtomView {
    pub atom_head: AtomHead,
    pub tkhd_atom: TkhdAtomView,
    pub edts_atom: Option<EdtsAtomView>,
    pub mdia_atom: MdiaAtomView,
}

impl View for TrakAtom {
    type V = TrakAtomView;

    open spec fn view(&self) -> TrakAtomView {
        TrakAtomView {
            atom_head: self.atom_head,
            tkhd_atom: self.tkhd_atom@,
            edts_atom: opt_view(self.edts_atom),
            mdia_atom: self.mdia_atom@,
        }
    }
}

/// The last track header, edit list and media seen.
pub open spec fn absorb(
    st: (Option<TkhdAtomView>, Option<EdtsAtomView>, Option<MdiaAtomView>),
    a: AtomView,
) -> (Option<TkhdAtomView>, Option<EdtsAtomView>, Option<MdiaAtomView>) {
    match a {
        AtomView::Tkhd(x) => (Some(x), st.1, st.2),
        AtomView::Edts(x) => (st.0, Some(x), st.2),
        AtomView::Mdia(x) => (st.0, st.1, Some(x)),
        _ => st,
    }
}

pub open spec fn slots(kids: Seq<AtomView>) -> (
    Option<TkhdAtomView>,
    Option<EdtsAtomView>,
    Option<MdiaAtomView>,
) {
    kids.fold_left((None, None, None), |st, a| absorb(st, a))
}

/// The track from its children: a header and a media child are required.
pub open spec fn from_slots(
    h: AtomHead,
    st: (Option<TkhdAtomView>, Option<EdtsAtomView>, Option<MdiaAtomView>),
) -> Result<TrakAtomView, AtomParseError> {
    match st.0 {
        None => Err(AtomParseError::RequiredAtomNotFound(tkhd::ATOM_ID)),
        Some(t) => match st.2 {
            None => Err(AtomParseError::RequiredAtomNotFound(mdia::ATOM_ID)),
            Some(m) => Ok(TrakAtomView { atom_head: h, tkhd_atom: t, edts_atom: st.1, mdia_atom: m }),
        },
    }
}

pub open spec fn spec_parse(data: Seq<u8>, h: AtomHead, b: int, depth: nat) -> Result<
    TrakAtomView,
    AtomParseError,
>
    decreases depth, 1int, 0int,
{
    if depth == 0 {
        Err(AtomParseError::NestingTooDeep(h.atom_offset))
    } else {
        match spec_children(data, b, h.end(), (depth - 1) as nat) {
            Err(e) => Err(e),
            Ok(kids) => from_slots(h, slots(kids)),
        }
    }
}

proof fn lemma_missing_slots(kids: Seq<AtomView>)
    ensures
        (forall|i: int| 0 <= i < kids.len() ==> !(#[trigger] kids[i] is Tkhd)) ==> slots(kids).0
            is None,
        (forall|i: int| 0 <= i < kids.len() ==> !(#[trigger] kids[i] is Mdia)) ==> slots(kids).2
            is None,
    decreases kids.len(),
{
    if kids.len() > 0 {
        let rest = kids.drop_last();
        assert forall|i: int| 0 <= i < rest.len() implies #[trigger] rest[i] == kids[i] by {}
        lemma_missing_slots(rest);
    }
}

/// A track that lacks a track header child or a media child fails with
/// `RequiredAtomNotFound`, once its children have decoded.
pub proof fn lemma_trak_requires_tkhd_and_mdia(data: Seq<u8>, h: AtomHead, b: int, depth: nat)
    requires
        depth >= 1,
        spec_children(data, b, h.end(), (depth - 1) as nat) matches Ok(kids) && ((forall|i: int|
            0 <= i < kids.len() ==> !(#[trigger] kids[i] is Tkhd)) || (forall|i: int|
            0 <= i < kids.len() ==> !(#[trigger] kids[i] is Mdia))),
    ensures
        spec_parse(data, h, b, depth) matches Err(AtomParseError::RequiredAtomNotFound(_)),
{
    if let Ok(kids) = spec_children(data, b, h.end(), (depth - 1) as nat) {
        lemma_missing_slots(kids);
    }
}

pub fn parse(data: &[u8], atom_head: AtomHead, body: usize, depth: u32) -> (r: Result<
    TrakAtom,
    AtomParseError,
>)
    requires
        body_ok(data@.len() as int, atom_head, body as int),
    ensures
        viewed(r) == spec_parse(data@, atom_head, body as int, depth as nat),
    decreases depth, 1int, 0int,
{
    if depth == 0 {
        return Err(AtomParseError::NestingTooDeep(atom_head.atom_offset));
    }
    let end = end_of(data, atom_head, body);
    let ghost kid_depth = (depth - 1) as nat;
    let mut tkhd_atom: Option<Box<TkhdAtom>> = None;
    let mut edts_atom: Option<Box<EdtsAtom>> = None;
    let mut mdia_atom: Option<Box<MdiaAtom>> = None;
    let ghost mut seen: Seq<AtomView> = Seq::empty();
    let mut p = body;
    while p < end
        invariant
            body <= p <= end,
            end == atom_head.end(),
            body_ok(data@.len() as int, atom_head, body as int),
            depth >= 1,
            kid_depth == depth - 1,
            spec_children(data@, body as int, end as int, kid_depth) == prepend(
                seen,
                spec_children(data@, p as int, end as int, kid_depth),
            ),
            slots(seen) == (opt_view(tkhd_atom), opt_view(edts_atom), opt_view(mdia_atom)),
        decreases end - p,
    {
        let _ = data.len();
        proof {
            lemma_head_ok(data@, p as int, end as int);
        }
        let (h, b) = match parse_atom_head(data, p, end) {
            Ok(x) => x,
            Err(e) => return Err(e),
        };
        let a = match parse_atom_body(data, h, b, depth - 1) {
            Ok(a) => a,
            Err(e) => return Err(e),
        };
        proof {
            lemma_prepend_push(seen, a@, spec_children(data@, h.end(), end as int, kid_depth));
            lemma_fold_push(seen, (None, None, None), |st, a| absorb(st, a), a@);
            seen = seen.push(a@);
        }
        match a {
            Atom::Tkhd(x) => {
                tkhd_atom = Some(Box::new(x));
            },
            Atom::Edts(x) => {
                edts_atom = Some(Box::new(x));
            },
            Atom::Mdia(x) => {
                mdia_atom = Some(Box::new(x));
            },
            _ => {},
        }
        p = end_of(data, h, b);
    }
    assert(seen + Seq::empty() =~= seen);
    let tkhd_atom = match tkhd_atom {
        Some(x) => x,
        None => return Err(AtomParseError::RequiredAtomNotFound(tkhd::ATOM_ID)),
    };
    let mdia_atom = match mdia_atom {
        Some(x) => x,
        None => return Err(AtomParseError::RequiredAtomNotFound(mdia::ATOM_ID)),
    };
    Ok(TrakAtom { atom_head, tkhd_atom, edts_atom, mdia_atom })
}

} // verus!

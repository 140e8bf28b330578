use vstd::prelude::*;

use crate::atom::mvhd::{MvhdAtom, MvhdAtomView};
use crate::atom::trak::{TrakAtom, TrakAtomView};
use crate::atom::{
    body_ok,
    end_of,
    lemma_fold_push,
    lemma_head_ok,
    lemma_prepend_push,
    opt_view,
    parse_atom_body,
    parse_atom_head,
    prepend,
    spec_children,
    viewed,
    Atom,
    AtomHead,
    AtomParseError,
    AtomView,
};

verus! {

pub const ATOM_ID: u32 = 0x6d6f_6f76; // 'moov'

/// The movie: its header and its tracks, in file order.
#[derive(Debug, Clone, PartialEq, Eq)]
pub struct MoovAtom {
    pub atom_head: AtomHead,
    pub mvhd_atom: Option<Box<MvhdAtom>>,
    pub trak_atom: Vec<TrakAtom>,
}

pub struct MoovAtomView {
    pub atom_head: AtomHead,
    pub mvhd_atom: Option<MvhdAtomView>,
    pub trak_atom: Seq<TrakAtomView>,
}

impl View for MoovAtom {
    type V = MoovAtomView;

    open spec fn view(&self) -> MoovAtomView {
        MoovAtomView {
            atom_head: self.atom_head,
            mvhd_atom: opt_view(self.mvhd_atom),
            trak_atom: self.trak_atom@.map_values(|t: TrakAtom| t@),
        }
    }
}

/// The movie header seen last, and every track in order.
pub open spec fn absorb(st: (Option<MvhdAtomView>, Seq<TrakAtomView>), a: AtomView) -> (
    Option<MvhdAtomView>,
    Seq<TrakAtomView>,
) {
    match a {
        AtomView::Mvhd(m) => (Some(m), st.1),
        AtomView::Trak(t) => (st.0, st.1.push(t)),
        _ => st,
    }
}

pub open spec fn slots(kids: Seq<AtomView>) -> (Option<MvhdAtomView>, Seq<TrakAtomView>) {
    kids.fold_left((None, Seq::empty()), |st, a| absorb(st, a))
}

/// A container of any children; the movie header and the tracks are kept.
/// The header must carry the `moov` type.
pub open spec fn spec_parse(data: Seq<u8>, h: AtomHead, b: int, depth: nat) -> Result<
    MoovAtomView,
    AtomParseError,
>
    decreases depth, 1int, 0int,
{
    if h.atom_type != ATOM_ID {
        Err(AtomParseError::TypeError(h.atom_offset))
    } else if depth == 0 {
        Err(AtomParseError::NestingTooDeep(h.atom_offset))
    } else {
        match spec_children(data, b, h.end(), (depth - 1) as nat) {
            Err(e) => Err(e),
            Ok(kids) => Ok(
                MoovAtomView { atom_head: h, mvhd_atom: slots(kids).0, trak_atom: slots(kids).1 },
            ),
        }
    }
}

proof fn lemma_no_trak_slot(kids: Seq<AtomView>)
    requires
        forall|i: int| 0 <= i < kids.len() ==> !(#[trigger] kids[i] is Trak),
    ensures
        slots(kids).1 == Seq::<TrakAtomView>::empty(),
    decreases kids.len(),
{
    if kids.len() > 0 {
        let rest = kids.drop_last();
        assert forall|i: int| 0 <= i < rest.len() implies !(#[trigger] rest[i] is Trak) by {
            assert(rest[i] == kids[i]);
        }
        lemma_no_trak_slot(rest);
        assert(!(kids[kids.len() - 1] is Trak));
    }
}

/// A movie none of whose children is a track still decodes, with no tracks:
/// tracks are not required at this level.
pub proof fn lemma_moov_without_trak(data: Seq<u8>, h: AtomHead, b: int, depth: nat)
    requires
        h.atom_type == ATOM_ID,
        depth >= 1,
        spec_children(data, b, h.end(), (depth - 1) as nat) matches Ok(kids) && forall|i: int|
            0 <= i < kids.len() ==> !(#[trigger] kids[i] is Trak),
    ensures
        spec_parse(data, h, b, depth) matches Ok(m) && m.trak_atom.len() == 0,
{
    if let Ok(kids) = spec_children(data, b, h.end(), (depth - 1) as nat) {
        lemma_no_trak_slot(kids);
    }
}

pub fn parse(data: &[u8], atom_head: AtomHead, body: usize, depth: u32) -> (r: Result<
    MoovAtom,
    AtomParseError,
>)
    requires
        body_ok(data@.len() as int, atom_head, body as int),
    ensures
        viewed(r) == spec_parse(data@, atom_head, body as int, depth as nat),
    decreases depth, 1int, 0int,
{
    if atom_head.atom_type != ATOM_ID {
        return Err(AtomParseError::TypeError(atom_head.atom_offset));
    }
    if depth == 0 {
        return Err(AtomParseError::NestingTooDeep(atom_head.atom_offset));
    }
    let end = end_of(data, atom_head, body);
    let ghost kid_depth = (depth - 1) as nat;
    let mut mvhd_atom: Option<Box<MvhdAtom>> = None;
    let mut trak_atom: Vec<TrakAtom> = Vec::new();
    let ghost mut seen: Seq<AtomView> = Seq::empty();
    let mut p = body;
    while p < end
        invariant
            body <= p <= end,
            end == atom_head.end(),
            body_ok(data@.len() as int, atom_head, body as int),
            atom_head.atom_type == ATOM_ID,
            depth >= 1,
            kid_depth == depth - 1,
            spec_children(data@, body as int, end as int, kid_depth) == prepend(
                seen,
                spec_children(data@, p as int, end as int, kid_depth),
            ),
            slots(seen) == (opt_view(mvhd_atom), trak_atom@.map_values(|t: TrakAtom| t@)),
        decreases end - p,
    {
        let _ = data.len();
        proof {
            lemma_head_ok(data@, p as int, end as int);
        }
        let (h, b) = match parse_atom_head(data, p, end) {
            Ok(x) => x,
            Err(e) => return Err(e),
        };
        let a = match parse_atom_body(data, h, b, depth - 1) {
            Ok(a) => a,
            Err(e) => return Err(e),
        };
        proof {
            lemma_prepend_push(seen, a@, spec_children(data@, h.end(), end as int, kid_depth));
            lemma_fold_push(seen, (None, Seq::empty()), |st, a| absorb(st, a), a@);
            seen = seen.push(a@);
        }
        match a {
            Atom::Mvhd(m) => {
                mvhd_atom = Some(Box::new(m));
            },
            Atom::Trak(t) => {
                let ghost before = trak_atom@;
                trak_atom.push(t);
                assert(trak_atom@.map_values(|t: TrakAtom| t@) =~= before.map_values(
                    |t: TrakAtom| t@,
                ).push(t@));
            },
            _ => {},
        }
        p = end_of(data, h, b);
    }
    assert(seen + Seq::empty() =~= seen);
    Ok(MoovAtom { atom_head, mvhd_atom, trak_atom })
}

} // verus!

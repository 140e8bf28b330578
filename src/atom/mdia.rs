use vstd::prelude::*;

use crate::atom::hdlr::{HdlrAtom, HdlrAtomView};
use crate::atom::mdhd::{self, MdhdAtom};
use crate::atom::minf::{MinfAtom, MinfAtomView};
use crate::atom::{
    body_ok,
    end_of,
    lemma_fold_push,
    lemma_head_ok,
    lemma_prepend_push,
    opt_unbox,
    opt_view,
    parse_atom_body,
    parse_atom_head,
    prepend,
    spec_children,
    viewed,
    Atom,
    AtomHead,
    AtomParseError,
    AtomView,
};

verus! {

pub const ATOM_ID: u32 = 0x6d64_6961; // 'mdia'

/// The media of a track: its header, handler and media information.
#[derive(Debug, Clone, PartialEq, Eq)]
pub struct MdiaAtom {
    pub atom_head: AtomHead,
    pub mdhd_atom: Box<MdhdAtom>,
    pub hdlr_atom: Option<Box<HdlrAtom>>,
    pub minf_atom: Option<Box<MinfAtom>>,
}

pub struct MdiaAtomView {
    pub atom_head: AtomHead,
    pub mdhd_atom: MdhdAtom,
    pub hdlr_atom: Option<HdlrAtomView>,
    pub minf_atom: Option<MinfAtomView>,
}

impl View for MdiaAtom {
    type V = MdiaAtomView;

    open spec fn view(&self) -> MdiaAtomView {
        MdiaAtomView {
            atom_head: self.atom_head,
            mdhd_atom: *self.mdhd_atom,
            hdlr_atom: opt_view(self.hdlr_atom),
            minf_atom: opt_view(self.minf_atom),
        }
    }
}

/// The last media header, handler and media information seen.
pub open spec fn absorb(
    st: (Option<MdhdAtom>, Option<HdlrAtomView>, Option<MinfAtomView>),
    a: AtomView,
) -> (Option<MdhdAtom>, Option<HdlrAtomView>, Option<MinfAtomView>) {
    match a {
        AtomView::Mdhd(x) => (Some(x), st.1, st.2),
        AtomView::Hdlr(x) => (st.0, Some(x), st.2),
        AtomView::Minf(x) => (st.0, st.1, Some(x)),
        _ => st,
    }
}

pub open spec fn slots(kids: Seq<AtomView>) -> (
    Option<MdhdAtom>,
    Option<HdlrAtomView>,
    Option<MinfAtomView>,
) {
    kids.fold_left((None, None, None), |st, a| absorb(st, a))
}

pub open spec fn spec_parse(data: Seq<u8>, h: AtomHead, b: int, depth: nat) -> Result<
    MdiaAtomView,
    AtomParseError,
>
    decreases depth, 1int, 0int,
{
    if depth == 0 {
        Err(AtomParseError::NestingTooDeep(h.atom_offset))
    } else {
        match spec_children(data, b, h.end(), (depth - 1) as nat) {
            Err(e) => Err(e),
            Ok(kids) => match slots(kids).0 {
                None => Err(AtomParseError::RequiredAtomNotFound(mdhd::ATOM_ID)),
                Some(m) => Ok(
                    MdiaAtomView {
                        atom_head: h,
                        mdhd_atom: m,
                        hdlr_atom: slots(kids).1,
                        minf_atom: slots(kids).2,
                    },
                ),
            },
        }
    }
}

pub fn parse(data: &[u8], atom_head: AtomHead, body: usize, depth: u32) -> (r: Result<
    MdiaAtom,
    AtomParseError,
>)
    requires
        body_ok(data@.len() as int, atom_head, body as int),
    ensures
        viewed(r) == spec_parse(data@, atom_head, body as int, depth as nat),
    decreases depth, 1int, 0int,
{
    if depth == 0 {
        return Err(AtomParseError::NestingTooDeep(atom_head.atom_offset));
    }
    let end = end_of(data, atom_head, body);
    let ghost kid_depth = (depth - 1) as nat;
    let mut mdhd_atom: Option<Box<MdhdAtom>> = None;
    let mut hdlr_atom: Option<Box<HdlrAtom>> = None;
    let mut minf_atom: Option<Box<MinfAtom>> = None;
    let ghost mut seen: Seq<AtomView> = Seq::empty();
    let mut p = body;
    while p < end
        invariant
            body <= p <= end,
            end == atom_head.end(),
            body_ok(data@.len() as int, atom_head, body as int),
            depth >= 1,
            kid_depth == depth - 1,
            spec_children(data@, body as int, end as int, kid_depth) == prepend(
                seen,
                spec_children(data@, p as int, end as int, kid_depth),
            ),
            slots(seen) == (opt_unbox(mdhd_atom), opt_view(hdlr_atom), opt_view(minf_atom)),
        decreases end - p,
    {
        let _ = data.len();
        proof {
            lemma_head_ok(data@, p as int, end as int);
        }
        let (h, b) = match parse_atom_head(data, p, end) {
            Ok(x) => x,
            Err(e) => return Err(e),
        };
        let a = match parse_atom_body(data, h, b, depth - 1) {
            Ok(a) => a,
            Err(e) => return Err(e),
        };
        proof {
            lemma_prepend_push(seen, a@, spec_children(data@, h.end(), end as int, kid_depth));
            lemma_fold_push(seen, (None, None, None), |st, a| absorb(st, a), a@);
            seen = seen.push(a@);
        }
        match a {
            Atom::Mdhd(x) => {
                mdhd_atom = Some(Box::new(x));
            },
            Atom::Hdlr(x) => {
                hdlr_atom = Some(Box::new(x));
            },
            Atom::Minf(x) => {
                minf_atom = Some(Box::new(x));
            },
            _ => {},
        }
        p = end_of(data, h, b);
    }
    assert(seen + Seq::empty() =~= seen);
    match mdhd_atom {
        Some(mdhd_atom) => Ok(MdiaAtom { atom_head, mdhd_atom, hdlr_atom, minf_atom }),
        None => Err(AtomParseError::RequiredAtomNotFound(mdhd::ATOM_ID)),
    }
}

} // verus!

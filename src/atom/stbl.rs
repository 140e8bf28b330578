use vstd::prelude::*;

use crate::atom::stsd::{StsdAtom, StsdAtomView};
use crate::atom::stts::{SttsAtom, SttsAtomView};
use crate::atom::stss::{StssAtom, StssAtomView};
use crate::atom::ctts::{CttsAtom, CttsAtomView};
use crate::atom::stsc::{StscAtom, StscAtomView};
use crate::atom::stsz::{StszAtom, StszAtomView};
use crate::atom::stco::{StcoAtom, StcoAtomView};
use crate::atom::{
    body_ok,
    end_of,
    lemma_fold_push,
    lemma_head_ok,
    lemma_prepend_push,
    opt_view,
    parse_atom_body,
    parse_atom_head,
    prepend,
    spec_children,
    viewed,
    Atom,
    AtomHead,
    AtomParseError,
    AtomView,
};

verus! {

pub const ATOM_ID: u32 = 0x7374_626c; // 'stbl'

/// The sample table: any of its seven tables may be absent.
#[derive(Debug, Clone, PartialEq, Eq)]
pub struct StblAtom {
    pub atom_head: AtomHead,
    pub stsd_atom: Option<Box<StsdAtom>>,
    pub stts_atom: Option<Box<SttsAtom>>,
    pub stss_atom: Option<Box<StssAtom>>,
    pub ctts_atom: Option<Box<CttsAtom>>,
    pub stsc_atom: Option<Box<StscAtom>>,
    pub stsz_atom: Option<Box<StszAtom>>,
    pub stco_atom: Option<Box<StcoAtom>>,
}

pub struct StblAtomView {
    pub atom_head: AtomHead,
    pub stsd_atom: Option<StsdAtomView>,
    pub stts_atom: Option<SttsAtomView>,
    pub stss_atom: Option<StssAtomView>,
    pub ctts_atom: Option<CttsAtomView>,
    pub stsc_atom: Option<StscAtomView>,
    pub stsz_atom: Option<StszAtomView>,
    pub stco_atom: Option<StcoAtomView>,
}

impl View for StblAtom {
    type V = StblAtomView;

    open spec fn view(&self) -> StblAtomView {
        StblAtomView {
            atom_head: self.atom_head,
            stsd_atom: opt_view(self.stsd_atom),
            stts_atom: opt_view(self.stts_atom),
            stss_atom: opt_view(self.stss_atom),
            ctts_atom: opt_view(self.ctts_atom),
            stsc_atom: opt_view(self.stsc_atom),
            stsz_atom: opt_view(self.stsz_atom),
            stco_atom: opt_view(self.stco_atom),
        }
    }
}

/// The last table of each kind seen.
pub open spec fn absorb(st: StblAtomView, a: AtomView) -> StblAtomView {
    match a {
        AtomView::Stsd(x) => StblAtomView { stsd_atom: Some(x), ..st },
        AtomView::Stts(x) => StblAtomView { stts_atom: Some(x), ..st },
        AtomView::Stss(x) => StblAtomView { stss_atom: Some(x), ..st },
        AtomView::Ctts(x) => StblAtomView { ctts_atom: Some(x), ..st },
        AtomView::Stsc(x) => StblAtomView { stsc_atom: Some(x), ..st },
        AtomView::Stsz(x) => StblAtomView { stsz_atom: Some(x), ..st },
        AtomView::Stco(x) => StblAtomView { stco_atom: Some(x), ..st },
        _ => st,
    }
}

/// No table yet.
pub open spec fn empty(h: AtomHead) -> StblAtomView {
    StblAtomView { atom_head: h, stsd_atom: None, stts_atom: None, stss_atom: None, ctts_atom: None, stsc_atom: None, stsz_atom: None, stco_atom: None }
}

pub open spec fn slots(h: AtomHead, kids: Seq<AtomView>) -> StblAtomView {
    kids.fold_left(empty(h), |st, a| absorb(st, a))
}

pub proof fn lemma_slots_head(h: AtomHead, kids: Seq<AtomView>)
    ensures
        slots(h, kids).atom_head == h,
    decreases kids.len(),
{
    if kids.len() > 0 {
        lemma_slots_head(h, kids.drop_last());
    }
}

pub open spec fn spec_parse(data: Seq<u8>, h: AtomHead, b: int, depth: nat) -> Result<
    StblAtomView,
    AtomParseError,
>
    decreases depth, 1int, 0int,
{
    if depth == 0 {
        Err(AtomParseError::NestingTooDeep(h.atom_offset))
    } else {
        match spec_children(data, b, h.end(), (depth - 1) as nat) {
            Err(e) => Err(e),
            Ok(kids) => Ok(slots(h, kids)),
        }
    }
}

pub fn parse(data: &[u8], atom_head: AtomHead, body: usize, depth: u32) -> (r: Result<
    StblAtom,
    AtomParseError,
>)
    requires
        body_ok(data@.len() as int, atom_head, body as int),
    ensures
        viewed(r) == spec_parse(data@, atom_head, body as int, depth as nat),
    decreases depth, 1int, 0int,
{
    if depth == 0 {
        return Err(AtomParseError::NestingTooDeep(atom_head.atom_offset));
    }
    let end = end_of(data, atom_head, body);
    let ghost kid_depth = (depth - 1) as nat;
    let mut stsd_atom: Option<Box<StsdAtom>> = None;
    let mut stts_atom: Option<Box<SttsAtom>> = None;
    let mut stss_atom: Option<Box<StssAtom>> = None;
    let mut ctts_atom: Option<Box<CttsAtom>> = None;
    let mut stsc_atom: Option<Box<StscAtom>> = None;
    let mut stsz_atom: Option<Box<StszAtom>> = None;
    let mut stco_atom: Option<Box<StcoAtom>> = None;
    let ghost mut seen: Seq<AtomView> = Seq::empty();
    let mut p = body;
    while p < end
        invariant
            body <= p <= end,
            end == atom_head.end(),
            body_ok(data@.len() as int, atom_head, body as int),
            depth >= 1,
            kid_depth == depth - 1,
            spec_children(data@, body as int, end as int, kid_depth) == prepend(
                seen,
                spec_children(data@, p as int, end as int, kid_depth),
            ),
            slots(atom_head, seen) == (StblAtomView {
                atom_head,
                stsd_atom: opt_view(stsd_atom),
                stts_atom: opt_view(stts_atom),
                stss_atom: opt_view(stss_atom),
                ctts_atom: opt_view(ctts_atom),
                stsc_atom: opt_view(stsc_atom),
                stsz_atom: opt_view(stsz_atom),
                stco_atom: opt_view(stco_atom),
            }),
        decreases end - p,
    {
        let _ = data.len();
        proof {
            lemma_head_ok(data@, p as int, end as int);
        }
        let (h, b) = match parse_atom_head(data, p, end) {
            Ok(x) => x,
            Err(e) => return Err(e),
        };
        let a = match parse_atom_body(data, h, b, depth - 1) {
            Ok(a) => a,
            Err(e) => return Err(e),
        };
        proof {
            lemma_prepend_push(seen, a@, spec_children(data@, h.end(), end as int, kid_depth));
            lemma_fold_push(seen, empty(atom_head), |st, a| absorb(st, a), a@);
            seen = seen.push(a@);
        }
        match a {
            Atom::Stsd(x) => {
                stsd_atom = Some(Box::new(x));
            },
            Atom::Stts(x) => {
                stts_atom = Some(Box::new(x));
            },
            Atom::Stss(x) => {
                stss_atom = Some(Box::new(x));
            },
            Atom::Ctts(x) => {
                ctts_atom = Some(Box::new(x));
            },
            Atom::Stsc(x) => {
                stsc_atom = Some(Box::new(x));
            },
            Atom::Stsz(x) => {
                stsz_atom = Some(Box::new(x));
            },
            Atom::Stco(x) => {
                stco_atom = Some(Box::new(x));
            },
            _ => {},
        }
        p = end_of(data, h, b);
    }
    assert(seen + Seq::empty() =~= seen);
    Ok(StblAtom { atom_head, stsd_atom, stts_atom, stss_atom, ctts_atom, stsc_atom, stsz_atom, stco_atom })
}

} // verus!

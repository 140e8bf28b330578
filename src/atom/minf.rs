use vstd::prelude::*;

use crate::atom::dinf::{DinfAtom, DinfAtomView};
use crate::atom::hdlr::{self, HdlrAtom, HdlrAtomView};
use crate::atom::smhd::SmhdAtom;
use crate::atom::stbl::{StblAtom, StblAtomView};
use crate::atom::vmhd::VmhdAtom;
use crate::atom::{
    body_ok,
    end_of,
    lemma_fold_push,
    lemma_head_ok,
    lemma_prepend_push,
    opt_unbox,
    opt_view,
    parse_atom_body,
    parse_atom_head,
    prepend,
    spec_children,
    viewed,
    Atom,
    AtomHead,
    AtomParseError,
    AtomView,
};

verus! {

pub const ATOM_ID: u32 = 0x6d69_6e66; // 'minf'

/// The media information, of a kind set by its first child.
#[derive(Debug, Clone, PartialEq, Eq)]
pub struct MinfAtom {
    pub atom_head: AtomHead,
    pub media_info: MediaInfo,
}

#[derive(Debug, Clone, PartialEq, Eq)]
pub enum MediaInfo {
    /// Led by a video header, which a handler must follow.
    VideoMediaInfo {
        vmhd_atom: Box<VmhdAtom>,
        hdlr_atom: Box<HdlrAtom>,
        dinf_atom: Option<Box<DinfAtom>>,
        stbl_atom: Option<Box<StblAtom>>,
    },
    /// Led by a sound header.
    SoundMediaInfo { smhd_atom: Box<SmhdAtom> },
    Unknown,
}

pub enum MediaInfoView {
    VideoMediaInfo {
        vmhd_atom: VmhdAtom,
        hdlr_atom: HdlrAtomView,
        dinf_atom: Option<DinfAtomView>,
        stbl_atom: Option<StblAtomView>,
    },
    SoundMediaInfo { smhd_atom: SmhdAtom },
    Unknown,
}

impl View for MediaInfo {
    type V = MediaInfoView;

    open spec fn view(&self) -> MediaInfoView {
        match self {
            MediaInfo::VideoMediaInfo { vmhd_atom, hdlr_atom, dinf_atom, stbl_atom } => {
                MediaInfoView::VideoMediaInfo {
                    vmhd_atom: **vmhd_atom,
                    hdlr_atom: hdlr_atom@,
                    dinf_atom: opt_view(*dinf_atom),
                    stbl_atom: opt_view(*stbl_atom),
                }
            },
            MediaInfo::SoundMediaInfo { smhd_atom } => MediaInfoView::SoundMediaInfo {
                smhd_atom: **smhd_atom,
            },
            MediaInfo::Unknown => MediaInfoView::Unknown,
        }
    }
}

pub struct MinfAtomView {
    pub atom_head: AtomHead,
    pub media_info: MediaInfoView,
}

impl View for MinfAtom {
    type V = MinfAtomView;

    open spec fn view(&self) -> MinfAtomView {
        MinfAtomView { atom_head: self.atom_head, media_info: self.media_info@ }
    }
}

/// What the scan of the children has found: `stage` counts the children
/// seen, up to two.
pub struct MinfScan {
    pub stage: nat,
    pub vmhd: Option<VmhdAtom>,
    pub smhd: Option<SmhdAtom>,
    pub hdlr: Option<HdlrAtomView>,
    pub dinf: Option<DinfAtomView>,
    pub stbl: Option<StblAtomView>,
}

/// The first child may be a video or sound header, the second a handler;
/// from the third on, the last data information and sample table are kept.
pub open spec fn absorb(st: MinfScan, a: AtomView) -> MinfScan {
    if st.stage == 0 {
        match a {
            AtomView::Vmhd(x) => MinfScan { stage: 1, vmhd: Some(x), ..st },
            AtomView::Smhd(x) => MinfScan { stage: 1, smhd: Some(x), ..st },
            _ => MinfScan { stage: 1, ..st },
        }
    } else if st.stage == 1 {
        match a {
            AtomView::Hdlr(x) => MinfScan { stage: 2, hdlr: Some(x), ..st },
            _ => MinfScan { stage: 2, ..st },
        }
    } else {
        match a {
            AtomView::Dinf(x) => MinfScan { dinf: Some(x), ..st },
            AtomView::Stbl(x) => MinfScan { stbl: Some(x), ..st },
            _ => st,
        }
    }
}

pub open spec fn scan_start() -> MinfScan {
    MinfScan { stage: 0, vmhd: None, smhd: None, hdlr: None, dinf: None, stbl: None }
}

pub open spec fn slots(kids: Seq<AtomView>) -> MinfScan {
    kids.fold_left(scan_start(), |st, a| absorb(st, a))
}

/// Video when the first child is a video header (and then the second must be
/// a handler), sound when it is a sound header, unknown otherwise.
pub open spec fn from_scan(h: AtomHead, st: MinfScan) -> Result<MinfAtomView, AtomParseError> {
    match st.vmhd {
        Some(v) => match st.hdlr {
            None => Err(AtomParseError::RequiredAtomNotFound(hdlr::ATOM_ID)),
            Some(hd) => Ok(
                MinfAtomView {
                    atom_head: h,
                    media_info: MediaInfoView::VideoMediaInfo {
                        vmhd_atom: v,
                        hdlr_atom: hd,
                        dinf_atom: st.dinf,
                        stbl_atom: st.stbl,
                    },
                },
            ),
        },
        None => match st.smhd {
            Some(s) => Ok(
                MinfAtomView { atom_head: h, media_info: MediaInfoView::SoundMediaInfo { smhd_atom: s } },
            ),
            None => Ok(MinfAtomView { atom_head: h, media_info: MediaInfoView::Unknown }),
        },
    }
}

pub open spec fn spec_parse(data: Seq<u8>, h: AtomHead, b: int, depth: nat) -> Result<
    MinfAtomView,
    AtomParseError,
>
    decreases depth, 1int, 0int,
{
    if depth == 0 {
        Err(AtomParseError::NestingTooDeep(h.atom_offset))
    } else {
        match spec_children(data, b, h.end(), (depth - 1) as nat) {
            Err(e) => Err(e),
            Ok(kids) => from_scan(h, slots(kids)),
        }
    }
}

pub fn parse(data: &[u8], atom_head: AtomHead, body: usize, depth: u32) -> (r: Result<
    MinfAtom,
    AtomParseError,
>)
    requires
        body_ok(data@.len() as int, atom_head, body as int),
    ensures
        viewed(r) == spec_parse(data@, atom_head, body as int, depth as nat),
    decreases depth, 1int, 0int,
{
    if depth == 0 {
        return Err(AtomParseError::NestingTooDeep(atom_head.atom_offset));
    }
    let end = end_of(data, atom_head, body);
    let ghost kid_depth = (depth - 1) as nat;
    let mut stage: u8 = 0;
    let mut vmhd_atom: Option<Box<VmhdAtom>> = None;
    let mut smhd_atom: Option<Box<SmhdAtom>> = None;
    let mut hdlr_atom: Option<Box<HdlrAtom>> = None;
    let mut dinf_atom: Option<Box<DinfAtom>> = None;
    let mut stbl_atom: Option<Box<StblAtom>> = None;
    let ghost mut seen: Seq<AtomView> = Seq::empty();
    let mut p = body;
    while p < end
        invariant
            body <= p <= end,
            end == atom_head.end(),
            body_ok(data@.len() as int, atom_head, body as int),
            depth >= 1,
            kid_depth == depth - 1,
            stage <= 2,
            spec_children(data@, body as int, end as int, kid_depth) == prepend(
                seen,
                spec_children(data@, p as int, end as int, kid_depth),
            ),
            slots(seen) == (MinfScan {
                stage: stage as nat,
                vmhd: opt_unbox(vmhd_atom),
                smhd: opt_unbox(smhd_atom),
                hdlr: opt_view(hdlr_atom),
                dinf: opt_view(dinf_atom),
                stbl: opt_view(stbl_atom),
            }),
        decreases end - p,
    {
        let _ = data.len();
        proof {
            lemma_head_ok(data@, p as int, end as int);
        }
        let (h, b) = match parse_atom_head(data, p, end) {
            Ok(x) => x,
            Err(e) => return Err(e),
        };
        let a = match parse_atom_body(data, h, b, depth - 1) {
            Ok(a) => a,
            Err(e) => return Err(e),
        };
        proof {
            lemma_prepend_push(seen, a@, spec_children(data@, h.end(), end as int, kid_depth));
            lemma_fold_push(seen, scan_start(), |st, a| absorb(st, a), a@);
            seen = seen.push(a@);
        }
        if stage == 0 {
            match a {
                Atom::Vmhd(x) => {
                    vmhd_atom = Some(Box::new(x));
                },
                Atom::Smhd(x) => {
                    smhd_atom = Some(Box::new(x));
                },
                _ => {},
            }
            stage = 1;
        } else if stage == 1 {
            match a {
                Atom::Hdlr(x) => {
                    hdlr_atom = Some(Box::new(x));
                },
                _ => {},
            }
            stage = 2;
        } else {
            match a {
                Atom::Dinf(x) => {
                    dinf_atom = Some(Box::new(x));
                },
                Atom::Stbl(x) => {
                    stbl_atom = Some(Box::new(x));
                },
                _ => {},
            }
        }
        p = end_of(data, h, b);
    }
    assert(seen + Seq::empty() =~= seen);
    let media_info = match vmhd_atom {
        Some(vmhd_atom) => match hdlr_atom {
            None => return Err(AtomParseError::RequiredAtomNotFound(hdlr::ATOM_ID)),
            Some(hdlr_atom) => MediaInfo::VideoMediaInfo { vmhd_atom, hdlr_atom, dinf_atom, stbl_atom },
        },
        None => match smhd_atom {
            Some(smhd_atom) => MediaInfo::SoundMediaInfo { smhd_atom },
            None => MediaInfo::Unknown,
        },
    };
    Ok(MinfAtom { atom_head, media_info })
}

} // verus!

//! Atoms: the self-describing, size-prefixed and type-tagged units of a
//! QuickTime stream, their headers, and the driver that decodes them.
use vstd::prelude::*;

pub mod ctts;
pub mod dinf;
pub mod dref;
pub mod edts;
pub mod elst;
pub mod free;
pub mod ftyp;
pub mod hdlr;
pub mod mdat;
pub mod mdhd;
pub mod mdia;
pub mod minf;
pub mod moov;
pub mod mvhd;
pub mod smhd;
pub mod stbl;
pub mod stco;
pub mod stsc;
pub mod stsd;
pub mod stss;
pub mod stsz;
pub mod stts;
pub mod tkhd;
pub mod trak;
pub mod tref;
pub mod vmhd;
pub mod wide;

use crate::element::ElementParseError;
use crate::field::{
    be32,
    be32_bytes,
    be64,
    be64_bytes,
    lemma_be32_bytes,
    lemma_be64_bytes,
    read_u32_at,
    read_u64_at,
    IoError,
};

verus! {

/// How many containers may nest one inside another. The format itself sets
/// no bound; real files nest about six deep.
pub const MAX_DEPTH: u32 = 32;

/// The common prefix of every atom: where it starts, how many bytes it
/// spans (header included) and its four-character type, read as a
/// big-endian integer.
#[derive(Debug, Clone, Copy, PartialEq, Eq, Structural)]
pub struct AtomHead {
    pub atom_offset: u64,
    pub atom_size: u64,
    pub atom_type: u32,
}

impl AtomHead {
    /// The offset just past the atom.
    pub open spec fn end(self) -> int {
        self.atom_offset + self.atom_size
    }
}

#[derive(Debug, Clone, Copy, PartialEq, Eq, Structural)]
pub enum AtomParseError {
    SeekFailed(u64),
    /// The atom at this offset is not of the type that was asked for.
    TypeError(u64),
    /// A container ended without the child of this type that it needs.
    RequiredAtomNotFound(u32),
    /// The declared size of the atom at this offset does not fit its header
    /// or the range that encloses it.
    UnexpectedError(u64),
    /// The sequence ended exactly at an atom boundary.
    NoMoreAtom,
    IoError(IoError),
    ElementParseError(ElementParseError),
    /// The atom at this offset declares size zero ("up to the end of the
    /// stream"), which is not supported.
    ZeroSizeUnsupported(u64),
    /// The container at this offset lies inside `MAX_DEPTH` others.
    NestingTooDeep(u64),
}

/// The error for an atom whose fields run past its declared end.
pub open spec fn truncated(h: AtomHead) -> AtomParseError {
    AtomParseError::IoError(IoError::UnexpectedEof(h.atom_offset))
}

/// `h` is a header read from `data`, and its payload starts at `body`.
pub open spec fn body_ok(len: int, h: AtomHead, body: int) -> bool {
    h.atom_offset + 8 <= body <= h.end() <= len
}

/// The header at `pos` of an atom that must end by `limit`, with the offset
/// of its payload.
pub open spec fn spec_head(data: Seq<u8>, pos: int, limit: int) -> Result<
    (AtomHead, int),
    AtomParseError,
> {
    if pos >= limit {
        Err(AtomParseError::NoMoreAtom)
    } else if limit - pos < 8 {
        Err(AtomParseError::IoError(IoError::UnexpectedEof(pos as u64)))
    } else {
        let size = be32(data, pos);
        let atom_type = be32(data, pos + 4);
        if size == 0 {
            Err(AtomParseError::ZeroSizeUnsupported(pos as u64))
        } else if size == 1 {
            if limit - pos < 16 {
                Err(AtomParseError::IoError(IoError::UnexpectedEof((pos + 8) as u64)))
            } else {
                let ext = be64(data, pos + 8);
                if ext < 16 || ext > limit - pos {
                    Err(AtomParseError::UnexpectedError(pos as u64))
                } else {
                    Ok((AtomHead { atom_offset: pos as u64, atom_size: ext, atom_type }, pos + 16))
                }
            }
        } else if size < 8 || size > limit - pos {
            Err(AtomParseError::UnexpectedError(pos as u64))
        } else {
            Ok((AtomHead { atom_offset: pos as u64, atom_size: size as u64, atom_type }, pos + 8))
        }
    }
}

/// The bytes of header `h`: the size and type words, or with `extended` the
/// size escape 1, the type word and a 64-bit size.
pub open spec fn encode_head(h: AtomHead, extended: bool) -> Seq<u8> {
    if extended {
        be32_bytes(1) + be32_bytes(h.atom_type) + be64_bytes(h.atom_size)
    } else {
        be32_bytes(h.atom_size as u32) + be32_bytes(h.atom_type)
    }
}

proof fn lemma_be32_in(data: Seq<u8>, p: int, x: u32)
    requires
        0 <= p,
        p + 4 <= data.len(),
        data.subrange(p, p + 4) == be32_bytes(x),
    ensures
        be32(data, p) == x,
{
    lemma_be32_bytes(x);
    assert(data[p] == data.subrange(p, p + 4)[0]);
    assert(data[p + 1] == data.subrange(p, p + 4)[1]);
    assert(data[p + 2] == data.subrange(p, p + 4)[2]);
    assert(data[p + 3] == data.subrange(p, p + 4)[3]);
}

proof fn lemma_be64_in(data: Seq<u8>, p: int, x: u64)
    requires
        0 <= p,
        p + 8 <= data.len(),
        data.subrange(p, p + 8) == be64_bytes(x),
    ensures
        be64(data, p) == x,
{
    lemma_be64_bytes(x);
    let s = be64_bytes(x);
    assert(data.subrange(p, p + 4) =~= s.subrange(0, 4));
    assert(data.subrange(p + 4, p + 8) =~= s.subrange(4, 8));
    assert(s.subrange(0, 4) =~= be32_bytes((x >> 32u64) as u32));
    assert(s.subrange(4, 8) =~= be32_bytes(x as u32));
    lemma_be32_in(data, p, (x >> 32u64) as u32);
    lemma_be32_in(data, p + 4, x as u32);
}

/// Decoding the bytes of a valid header, standard or extended, gives the
/// header back, with the payload right after those bytes. A valid header has
/// a size of at least its own length (that fits 32 bits in the standard
/// form) and ends within the enclosing range.
pub proof fn lemma_head_round_trip(data: Seq<u8>, h: AtomHead, extended: bool, limit: int)
    requires
        h.atom_offset + encode_head(h, extended).len() <= data.len(),
        data.subrange(h.atom_offset as int, h.atom_offset + encode_head(h, extended).len())
            == encode_head(h, extended),
        h.end() <= limit,
        extended ==> h.atom_size >= 16,
        !extended ==> 8 <= h.atom_size <= u32::MAX,
    ensures
        spec_head(data, h.atom_offset as int, limit) == Ok::<(AtomHead, int), AtomParseError>(
            (h, h.atom_offset + encode_head(h, extended).len()),
        ),
{
    let p = h.atom_offset as int;
    let e = encode_head(h, extended);
    let window = data.subrange(p, p + e.len());
    if extended {
        assert(data.subrange(p, p + 4) =~= window.subrange(0, 4));
        assert(data.subrange(p + 4, p + 8) =~= window.subrange(4, 8));
        assert(data.subrange(p + 8, p + 16) =~= window.subrange(8, 16));
        assert(e.subrange(0, 4) =~= be32_bytes(1));
        assert(e.subrange(4, 8) =~= be32_bytes(h.atom_type));
        assert(e.subrange(8, 16) =~= be64_bytes(h.atom_size));
        lemma_be32_in(data, p, 1);
        lemma_be32_in(data, p + 4, h.atom_type);
        lemma_be64_in(data, p + 8, h.atom_size);
    } else {
        assert(data.subrange(p, p + 4) =~= window.subrange(0, 4));
        assert(data.subrange(p + 4, p + 8) =~= window.subrange(4, 8));
        assert(e.subrange(0, 4) =~= be32_bytes(h.atom_size as u32));
        assert(e.subrange(4, 8) =~= be32_bytes(h.atom_type));
        lemma_be32_in(data, p, h.atom_size as u32);
        lemma_be32_in(data, p + 4, h.atom_type);
    }
}

/// A result with its value replaced by the value's view.
pub open spec fn viewed<T: View>(r: Result<T, AtomParseError>) -> Result<T::V, AtomParseError> {
    match r {
        Ok(x) => Ok(x@),
        Err(e) => Err(e),
    }
}

/// `r` with `s` put in front of the sequence it holds.
pub open spec fn prepend<T>(s: Seq<T>, r: Result<Seq<T>, AtomParseError>) -> Result<
    Seq<T>,
    AtomParseError,
> {
    match r {
        Ok(x) => Ok(s + x),
        Err(e) => Err(e),
    }
}

pub proof fn lemma_prepend_push<T>(s: Seq<T>, x: T, r: Result<Seq<T>, AtomParseError>)
    ensures
        prepend(s, prepend(seq![x], r)) == prepend(s.push(x), r),
{
    if let Ok(v) = r {
        assert(s + (seq![x] + v) =~= s.push(x) + v);
    }
}

/// The offset just past the atom, as an index into `data`.
pub fn end_of(data: &[u8], h: AtomHead, body: usize) -> (r: usize)
    requires
        body_ok(data@.len() as int, h, body as int),
    ensures
        r == h.end(),
{
    let _ = data.len();
    (h.atom_offset + h.atom_size) as usize
}

/// The version byte and the three flag bytes that open a full box.
pub fn read_version_flags(data: &[u8], body: usize) -> (r: (u8, [u8; 3]))
    requires
        body + 4 <= data@.len(),
    ensures
        r.0 == data@[body as int],
        r.1@ == data@.subrange(body + 1, body + 4),
{
    let _ = data.len();
    let flags: [u8; 3] = [data[body + 1], data[body + 2], data[body + 3]];
    assert(flags@ =~= data@.subrange(body + 1, body + 4));
    (data[body], flags)
}

pub proof fn lemma_head_ok(data: Seq<u8>, pos: int, limit: int)
    requires
        0 <= pos <= limit <= data.len() <= usize::MAX,
    ensures
        spec_head(data, pos, limit) matches Ok((h, b)) ==> h.atom_offset == pos && pos < h.end()
            <= limit && body_ok(data.len() as int, h, b),
{
}

/// Reads the header at `pos` of an atom that must end by `limit`: a 32-bit
/// size and a 32-bit type, then a 64-bit size when the first size is 1.
/// Returns the header and the offset of the payload.
pub fn parse_atom_head(data: &[u8], pos: usize, limit: usize) -> (r: Result<
    (AtomHead, usize),
    AtomParseError,
>)
    requires
        pos <= limit <= data@.len(),
    ensures
        match r {
            Ok((h, b)) => spec_head(data@, pos as int, limit as int) == Ok::<
                (AtomHead, int),
                AtomParseError,
            >((h, b as int)),
            Err(e) => spec_head(data@, pos as int, limit as int) == Err::<
                (AtomHead, int),
                AtomParseError,
            >(e),
        },
{
    if pos >= limit {
        return Err(AtomParseError::NoMoreAtom);
    }
    if limit - pos < 8 {
        return Err(AtomParseError::IoError(IoError::UnexpectedEof(pos as u64)));
    }
    let size = read_u32_at(data, pos);
    let atom_type = read_u32_at(data, pos + 4);
    if size == 0 {
        Err(AtomParseError::ZeroSizeUnsupported(pos as u64))
    } else if size == 1 {
        if limit - pos < 16 {
            return Err(AtomParseError::IoError(IoError::UnexpectedEof((pos + 8) as u64)));
        }
        let ext = read_u64_at(data, pos + 8);
        if ext < 16 || ext > (limit - pos) as u64 {
            Err(AtomParseError::UnexpectedError(pos as u64))
        } else {
            Ok((AtomHead { atom_offset: pos as u64, atom_size: ext, atom_type }, pos + 16))
        }
    } else if size < 8 || size as u64 > (limit - pos) as u64 {
        Err(AtomParseError::UnexpectedError(pos as u64))
    } else {
        Ok((AtomHead { atom_offset: pos as u64, atom_size: size as u64, atom_type }, pos + 8))
    }
}

/// An atom whose type this decoder does not know; only its header is kept.
#[derive(Debug, Clone, Copy, PartialEq, Eq, Structural)]
pub struct UnimplementedAtom {
    pub atom_head: AtomHead,
}

/// Any decoded atom.
#[derive(Debug, Clone, PartialEq, Eq)]
pub enum Atom {
    Ftyp(ftyp::FtypAtom),
    Wide(wide::WideAtom),
    Mdat(mdat::MdatAtom),
    Free(free::FreeAtom),
    Moov(moov::MoovAtom),
    Mvhd(mvhd::MvhdAtom),
    Trak(trak::TrakAtom),
    Tkhd(tkhd::TkhdAtom),
    Edts(edts::EdtsAtom),
    Elst(elst::ElstAtom),
    Mdia(mdia::MdiaAtom),
    Mdhd(mdhd::MdhdAtom),
    Hdlr(hdlr::HdlrAtom),
    Minf(minf::MinfAtom),
    Vmhd(vmhd::VmhdAtom),
    Dinf(dinf::DinfAtom),
    Dref(dref::DrefAtom),
    Smhd(smhd::SmhdAtom),
    Stbl(stbl::StblAtom),
    Stsd(stsd::StsdAtom),
    Stts(stts::SttsAtom),
    Stss(stss::StssAtom),
    Ctts(ctts::CttsAtom),
    Stsc(stsc::StscAtom),
    Stsz(stsz::StszAtom),
    Stco(stco::StcoAtom),
    Tref(tref::TrefAtom),
    Unimplemented(UnimplementedAtom),
}

pub enum AtomView {
    Ftyp(ftyp::FtypAtomView),
    Wide(wide::WideAtom),
    Mdat(mdat::MdatAtom),
    Free(free::FreeAtom),
    Moov(moov::MoovAtomView),
    Mvhd(mvhd::MvhdAtomView),
    Trak(trak::TrakAtomView),
    Tkhd(tkhd::TkhdAtomView),
    Edts(edts::EdtsAtomView),
    Elst(elst::ElstAtomView),
    Mdia(mdia::MdiaAtomView),
    Mdhd(mdhd::MdhdAtom),
    Hdlr(hdlr::HdlrAtomView),
    Minf(minf::MinfAtomView),
    Vmhd(vmhd::VmhdAtom),
    Dinf(dinf::DinfAtomView),
    Dref(dref::DrefAtomView),
    Smhd(smhd::SmhdAtom),
    Stbl(stbl::StblAtomView),
    Stsd(stsd::StsdAtomView),
    Stts(stts::SttsAtomView),
    Stss(stss::StssAtomView),
    Ctts(ctts::CttsAtomView),
    Stsc(stsc::StscAtomView),
    Stsz(stsz::StszAtomView),
    Stco(stco::StcoAtomView),
    Tref(tref::TrefAtom),
    Unimplemented(UnimplementedAtom),
}

impl View for Atom {
    type V = AtomView;

    open spec fn view(&self) -> AtomView {
        match self {
            Atom::Ftyp(a) => AtomView::Ftyp(a@),
            Atom::Wide(a) => AtomView::Wide(*a),
            Atom::Mdat(a) => AtomView::Mdat(*a),
            Atom::Free(a) => AtomView::Free(*a),
            Atom::Moov(a) => AtomView::Moov(a@),
            Atom::Mvhd(a) => AtomView::Mvhd(a@),
            Atom::Trak(a) => AtomView::Trak(a@),
            Atom::Tkhd(a) => AtomView::Tkhd(a@),
            Atom::Edts(a) => AtomView::Edts(a@),
            Atom::Elst(a) => AtomView::Elst(a@),
            Atom::Mdia(a) => AtomView::Mdia(a@),
            Atom::Mdhd(a) => AtomView::Mdhd(*a),
            Atom::Hdlr(a) => AtomView::Hdlr(a@),
            Atom::Minf(a) => AtomView::Minf(a@),
            Atom::Vmhd(a) => AtomView::Vmhd(*a),
            Atom::Dinf(a) => AtomView::Dinf(a@),
            Atom::Dref(a) => AtomView::Dref(a@),
            Atom::Smhd(a) => AtomView::Smhd(*a),
            Atom::Stbl(a) => AtomView::Stbl(a@),
            Atom::Stsd(a) => AtomView::Stsd(a@),
            Atom::Stts(a) => AtomView::Stts(a@),
            Atom::Stss(a) => AtomView::Stss(a@),
            Atom::Ctts(a) => AtomView::Ctts(a@),
            Atom::Stsc(a) => AtomView::Stsc(a@),
            Atom::Stsz(a) => AtomView::Stsz(a@),
            Atom::Stco(a) => AtomView::Stco(a@),
            Atom::Tref(a) => AtomView::Tref(*a),
            Atom::Unimplemented(a) => AtomView::Unimplemented(*a),
        }
    }
}

/// The header of a decoded atom.
pub open spec fn head_of(a: AtomView) -> AtomHead {
    match a {
        AtomView::Ftyp(x) => x.atom_head,
        AtomView::Wide(x) => x.atom_head,
        AtomView::Mdat(x) => x.atom_head,
        AtomView::Free(x) => x.atom_head,
        AtomView::Moov(x) => x.atom_head,
        AtomView::Mvhd(x) => x.atom_head,
        AtomView::Trak(x) => x.atom_head,
        AtomView::Tkhd(x) => x.atom_head,
        AtomView::Edts(x) => x.atom_head,
        AtomView::Elst(x) => x.atom_head,
        AtomView::Mdia(x) => x.atom_head,
        AtomView::Mdhd(x) => x.atom_head,
        AtomView::Hdlr(x) => x.atom_head,
        AtomView::Minf(x) => x.atom_head,
        AtomView::Vmhd(x) => x.atom_head,
        AtomView::Dinf(x) => x.atom_head,
        AtomView::Dref(x) => x.atom_head,
        AtomView::Smhd(x) => x.atom_head,
        AtomView::Stbl(x) => x.atom_head,
        AtomView::Stsd(x) => x.atom_head,
        AtomView::Stts(x) => x.atom_head,
        AtomView::Stss(x) => x.atom_head,
        AtomView::Ctts(x) => x.atom_head,
        AtomView::Stsc(x) => x.atom_head,
        AtomView::Stsz(x) => x.atom_head,
        AtomView::Stco(x) => x.atom_head,
        AtomView::Tref(x) => x.atom_head,
        AtomView::Unimplemented(x) => x.atom_head,
    }
}

impl Atom {
    /// The header of this atom.
    pub fn atom_head(&self) -> (r: AtomHead)
        ensures
            r == head_of(self@),
    {
        match self {
            Atom::Ftyp(x) => x.atom_head,
            Atom::Wide(x) => x.atom_head,
            Atom::Mdat(x) => x.atom_head,
            Atom::Free(x) => x.atom_head,
            Atom::Moov(x) => x.atom_head,
            Atom::Mvhd(x) => x.atom_head,
            Atom::Trak(x) => x.atom_head,
            Atom::Tkhd(x) => x.atom_head,
            Atom::Edts(x) => x.atom_head,
            Atom::Elst(x) => x.atom_head,
            Atom::Mdia(x) => x.atom_head,
            Atom::Mdhd(x) => x.atom_head,
            Atom::Hdlr(x) => x.atom_head,
            Atom::Minf(x) => x.atom_head,
            Atom::Vmhd(x) => x.atom_head,
            Atom::Dinf(x) => x.atom_head,
            Atom::Dref(x) => x.atom_head,
            Atom::Smhd(x) => x.atom_head,
            Atom::Stbl(x) => x.atom_head,
            Atom::Stsd(x) => x.atom_head,
            Atom::Stts(x) => x.atom_head,
            Atom::Stss(x) => x.atom_head,
            Atom::Ctts(x) => x.atom_head,
            Atom::Stsc(x) => x.atom_head,
            Atom::Stsz(x) => x.atom_head,
            Atom::Stco(x) => x.atom_head,
            Atom::Tref(x) => x.atom_head,
            Atom::Unimplemented(x) => x.atom_head,
        }
    }
}

/// `f` applied to the value of `r`.
pub open spec fn lift<T>(r: Result<T, AtomParseError>, f: spec_fn(T) -> AtomView) -> Result<
    AtomView,
    AtomParseError,
> {
    match r {
        Ok(x) => Ok(f(x)),
        Err(e) => Err(e),
    }
}

/// The view of an optional boxed value.
pub open spec fn opt_view<T: View>(o: Option<Box<T>>) -> Option<T::V> {
    match o {
        Some(x) => Some(x@),
        None => None,
    }
}

/// An optional boxed value, unboxed.
pub open spec fn opt_unbox<T>(o: Option<Box<T>>) -> Option<T> {
    match o {
        Some(x) => Some(*x),
        None => None,
    }
}

/// The atom with header `h` and payload from `b`, decoded by the decoder of
/// its type; containers may nest `depth` levels further.
pub open spec fn spec_atom_body(data: Seq<u8>, h: AtomHead, b: int, depth: nat) -> Result<
    AtomView,
    AtomParseError,
>
    decreases depth, 2int, 0int,
{
    let t = h.atom_type;
    if t == ftyp::ATOM_ID {
        lift(ftyp::spec_parse(data, h, b), |x| AtomView::Ftyp(x))
    } else if t == wide::ATOM_ID {
        Ok(AtomView::Wide(wide::WideAtom { atom_head: h }))
    } else if t == mdat::ATOM_ID {
        Ok(AtomView::Mdat(mdat::MdatAtom { atom_head: h }))
    } else if t == free::ATOM_ID {
        Ok(AtomView::Free(free::FreeAtom { atom_head: h }))
    } else if t == moov::ATOM_ID {
        lift(moov::spec_parse(data, h, b, depth), |x| AtomView::Moov(x))
    } else if t == mvhd::ATOM_ID {
        lift(mvhd::spec_parse(data, h, b), |x| AtomView::Mvhd(x))
    } else if t == trak::ATOM_ID {
        lift(trak::spec_parse(data, h, b, depth), |x| AtomView::Trak(x))
    } else if t == tkhd::ATOM_ID {
        lift(tkhd::spec_parse(data, h, b), |x| AtomView::Tkhd(x))
    } else if t == edts::ATOM_ID {
        lift(edts::spec_parse(data, h, b, depth), |x| AtomView::Edts(x))
    } else if t == elst::ATOM_ID {
        lift(elst::spec_parse(data, h, b), |x| AtomView::Elst(x))
    } else if t == mdia::ATOM_ID {
        lift(mdia::spec_parse(data, h, b, depth), |x| AtomView::Mdia(x))
    } else if t == mdhd::ATOM_ID {
        Ok(AtomView::Mdhd(mdhd::MdhdAtom { atom_head: h }))
    } else if t == hdlr::ATOM_ID {
        lift(hdlr::spec_parse(data, h, b), |x| AtomView::Hdlr(x))
    } else if t == minf::ATOM_ID {
        lift(minf::spec_parse(data, h, b, depth), |x| AtomView::Minf(x))
    } else if t == vmhd::ATOM_ID {
        Ok(AtomView::Vmhd(vmhd::VmhdAtom { atom_head: h }))
    } else if t == dinf::ATOM_ID {
        lift(dinf::spec_parse(data, h, b, depth), |x| AtomView::Dinf(x))
    } else if t == dref::ATOM_ID {
        lift(dref::spec_parse(data, h, b), |x| AtomView::Dref(x))
    } else if t == smhd::ATOM_ID {
        lift(smhd::spec_parse(data, h, b), |x| AtomView::Smhd(x))
    } else if t == stbl::ATOM_ID {
        lift(stbl::spec_parse(data, h, b, depth), |x| AtomView::Stbl(x))
    } else if t == stsd::ATOM_ID {
        lift(stsd::spec_parse(data, h, b), |x| AtomView::Stsd(x))
    } else if t == stts::ATOM_ID {
        lift(stts::spec_parse(data, h, b), |x| AtomView::Stts(x))
    } else if t == stss::ATOM_ID {
        lift(stss::spec_parse(data, h, b), |x| AtomView::Stss(x))
    } else if t == ctts::ATOM_ID {
        lift(ctts::spec_parse(data, h, b), |x| AtomView::Ctts(x))
    } else if t == stsc::ATOM_ID {
        lift(stsc::spec_parse(data, h, b), |x| AtomView::Stsc(x))
    } else if t == stsz::ATOM_ID {
        lift(stsz::spec_parse(data, h, b), |x| AtomView::Stsz(x))
    } else if t == stco::ATOM_ID {
        lift(stco::spec_parse(data, h, b), |x| AtomView::Stco(x))
    } else if t == tref::ATOM_ID {
        Ok(AtomView::Tref(tref::TrefAtom { atom_head: h }))
    } else {
        Ok(AtomView::Unimplemented(UnimplementedAtom { atom_head: h }))
    }
}

/// The atoms that follow one another from `p` up to `end`, each decoded with
/// `depth` levels of nesting left below it. The first error ends the
/// sequence.
pub open spec fn spec_children(data: Seq<u8>, p: int, end: int, depth: nat) -> Result<
    Seq<AtomView>,
    AtomParseError,
>
    decreases depth + 1, 0int, end - p,
{
    if p >= end {
        Ok(Seq::empty())
    } else {
        match spec_head(data, p, end) {
            Err(e) => Err(e),
            Ok((h, b)) => match spec_atom_body(data, h, b, depth) {
                Err(e) => Err(e),
                Ok(a) => prepend(seq![a], spec_children(data, p + h.atom_size, end, depth)),
            },
        }
    }
}

/// The atom at `pos`, which must end by `limit`.
pub open spec fn spec_atom(data: Seq<u8>, pos: int, limit: int, depth: nat) -> Result<
    AtomView,
    AtomParseError,
> {
    match spec_head(data, pos, limit) {
        Err(e) => Err(e),
        Ok((h, b)) => spec_atom_body(data, h, b, depth),
    }
}

/// Every decoder keeps the header it was given.
pub proof fn lemma_body_head(data: Seq<u8>, h: AtomHead, b: int, depth: nat)
    ensures
        spec_atom_body(data, h, b, depth) matches Ok(a) ==> head_of(a) == h,
{
    let t = h.atom_type;
    let r = spec_atom_body(data, h, b, depth);
    if t == ftyp::ATOM_ID {
        assert(ftyp::spec_parse(data, h, b) matches Ok(x) ==> x.atom_head == h);
    } else if t == moov::ATOM_ID {
        assert(moov::spec_parse(data, h, b, depth) matches Ok(x) ==> x.atom_head == h);
    } else if t == mvhd::ATOM_ID {
        assert(mvhd::spec_parse(data, h, b) matches Ok(x) ==> x.atom_head == h);
    } else if t == trak::ATOM_ID {
        assert(trak::spec_parse(data, h, b, depth) matches Ok(x) ==> x.atom_head == h);
    } else if t == tkhd::ATOM_ID {
        assert(tkhd::spec_parse(data, h, b) matches Ok(x) ==> x.atom_head == h);
    } else if t == edts::ATOM_ID {
        assert(edts::spec_parse(data, h, b, depth) matches Ok(x) ==> x.atom_head == h);
    } else if t == elst::ATOM_ID {
        assert(elst::spec_parse(data, h, b) matches Ok(x) ==> x.atom_head == h);
    } else if t == mdia::ATOM_ID {
        assert(mdia::spec_parse(data, h, b, depth) matches Ok(x) ==> x.atom_head == h);
    } else if t == hdlr::ATOM_ID {
        assert(hdlr::spec_parse(data, h, b) matches Ok(x) ==> x.atom_head == h);
    } else if t == minf::ATOM_ID {
        assert(minf::spec_parse(data, h, b, depth) matches Ok(x) ==> x.atom_head == h);
    } else if t == dinf::ATOM_ID {
        assert(dinf::spec_parse(data, h, b, depth) matches Ok(x) ==> x.atom_head == h);
    } else if t == dref::ATOM_ID {
        assert(dref::spec_parse(data, h, b) matches Ok(x) ==> x.atom_head == h);
    } else if t == smhd::ATOM_ID {
        assert(smhd::spec_parse(data, h, b) matches Ok(x) ==> x.atom_head == h);
    } else if t == stbl::ATOM_ID {
        assert(stbl::spec_parse(data, h, b, depth) matches Ok(x) ==> x.atom_head == h) by {
            if let Ok(kids) = spec_children(data, b, h.end(), (depth - 1) as nat) {
                stbl::lemma_slots_head(h, kids);
            }
        }
    } else if t == stsd::ATOM_ID {
        assert(stsd::spec_parse(data, h, b) matches Ok(x) ==> x.atom_head == h);
    } else if t == stts::ATOM_ID {
        assert(stts::spec_parse(data, h, b) matches Ok(x) ==> x.atom_head == h);
    } else if t == stss::ATOM_ID {
        assert(stss::spec_parse(data, h, b) matches Ok(x) ==> x.atom_head == h);
    } else if t == ctts::ATOM_ID {
        assert(ctts::spec_parse(data, h, b) matches Ok(x) ==> x.atom_head == h);
    } else if t == stsc::ATOM_ID {
        assert(stsc::spec_parse(data, h, b) matches Ok(x) ==> x.atom_head == h);
    } else if t == stsz::ATOM_ID {
        assert(stsz::spec_parse(data, h, b) matches Ok(x) ==> x.atom_head == h);
    } else if t == stco::ATOM_ID {
        assert(stco::spec_parse(data, h, b) matches Ok(x) ==> x.atom_head == h);
    }
}

pub proof fn lemma_fold_push<A, B>(s: Seq<A>, init: B, f: spec_fn(B, A) -> B, x: A)
    ensures
        s.push(x).fold_left(init, f) == f(s.fold_left(init, f), x),
{
    assert(s.push(x).drop_last() =~= s);
}

/// Decodes the payload of the atom with header `h` by the decoder of its
/// type. Unknown types keep their header only.
pub fn parse_atom_body(data: &[u8], h: AtomHead, b: usize, depth: u32) -> (r: Result<
    Atom,
    AtomParseError,
>)
    requires
        body_ok(data@.len() as int, h, b as int),
    ensures
        viewed(r) == spec_atom_body(data@, h, b as int, depth as nat),
    decreases depth, 2int, 0int,
{
    let t = h.atom_type;
    if t == ftyp::ATOM_ID {
        match ftyp::parse(data, h, b) {
            Ok(x) => Ok(Atom::Ftyp(x)),
            Err(e) => Err(e),
        }
    } else if t == wide::ATOM_ID {
        Ok(Atom::Wide(wide::parse(h)))
    } else if t == mdat::ATOM_ID {
        Ok(Atom::Mdat(mdat::parse(h)))
    } else if t == free::ATOM_ID {
        Ok(Atom::Free(free::parse(h)))
    } else if t == moov::ATOM_ID {
        match moov::parse(data, h, b, depth) {
            Ok(x) => Ok(Atom::Moov(x)),
            Err(e) => Err(e),
        }
    } else if t == mvhd::ATOM_ID {
        match mvhd::parse(data, h, b) {
            Ok(x) => Ok(Atom::Mvhd(x)),
            Err(e) => Err(e),
        }
    } else if t == trak::ATOM_ID {
        match trak::parse(data, h, b, depth) {
            Ok(x) => Ok(Atom::Trak(x)),
            Err(e) => Err(e),
        }
    } else if t == tkhd::ATOM_ID {
        match tkhd::parse(data, h, b) {
            Ok(x) => Ok(Atom::Tkhd(x)),
            Err(e) => Err(e),
        }
    } else if t == edts::ATOM_ID {
        match edts::parse(data, h, b, depth) {
            Ok(x) => Ok(Atom::Edts(x)),
            Err(e) => Err(e),
        }
    } else if t == elst::ATOM_ID {
        match elst::parse(data, h, b) {
            Ok(x) => Ok(Atom::Elst(x)),
            Err(e) => Err(e),
        }
    } else if t == mdia::ATOM_ID {
        match mdia::parse(data, h, b, depth) {
            Ok(x) => Ok(Atom::Mdia(x)),
            Err(e) => Err(e),
        }
    } else if t == mdhd::ATOM_ID {
        Ok(Atom::Mdhd(mdhd::parse(h)))
    } else if t == hdlr::ATOM_ID {
        match hdlr::parse(data, h, b) {
            Ok(x) => Ok(Atom::Hdlr(x)),
            Err(e) => Err(e),
        }
    } else if t == minf::ATOM_ID {
        match minf::parse(data, h, b, depth) {
            Ok(x) => Ok(Atom::Minf(x)),
            Err(e) => Err(e),
        }
    } else if t == vmhd::ATOM_ID {
        Ok(Atom::Vmhd(vmhd::parse(h)))
    } else if t == dinf::ATOM_ID {
        match dinf::parse(data, h, b, depth) {
            Ok(x) => Ok(Atom::Dinf(x)),
            Err(e) => Err(e),
        }
    } else if t == dref::ATOM_ID {
        match dref::parse(data, h, b) {
            Ok(x) => Ok(Atom::Dref(x)),
            Err(e) => Err(e),
        }
    } else if t == smhd::ATOM_ID {
        match smhd::parse(data, h, b) {
            Ok(x) => Ok(Atom::Smhd(x)),
            Err(e) => Err(e),
        }
    } else if t == stbl::ATOM_ID {
        match stbl::parse(data, h, b, depth) {
            Ok(x) => Ok(Atom::Stbl(x)),
            Err(e) => Err(e),
        }
    } else if t == stsd::ATOM_ID {
        match stsd::parse(data, h, b) {
            Ok(x) => Ok(Atom::Stsd(x)),
            Err(e) => Err(e),
        }
    } else if t == stts::ATOM_ID {
        match stts::parse(data, h, b) {
            Ok(x) => Ok(Atom::Stts(x)),
            Err(e) => Err(e),
        }
    } else if t == stss::ATOM_ID {
        match stss::parse(data, h, b) {
            Ok(x) => Ok(Atom::Stss(x)),
            Err(e) => Err(e),
        }
    } else if t == ctts::ATOM_ID {
        match ctts::parse(data, h, b) {
            Ok(x) => Ok(Atom::Ctts(x)),
            Err(e) => Err(e),
        }
    } else if t == stsc::ATOM_ID {
        match stsc::parse(data, h, b) {
            Ok(x) => Ok(Atom::Stsc(x)),
            Err(e) => Err(e),
        }
    } else if t == stsz::ATOM_ID {
        match stsz::parse(data, h, b) {
            Ok(x) => Ok(Atom::Stsz(x)),
            Err(e) => Err(e),
        }
    } else if t == stco::ATOM_ID {
        match stco::parse(data, h, b) {
            Ok(x) => Ok(Atom::Stco(x)),
            Err(e) => Err(e),
        }
    } else if t == tref::ATOM_ID {
        Ok(Atom::Tref(tref::parse(h)))
    } else {
        Ok(Atom::Unimplemented(UnimplementedAtom { atom_head: h }))
    }
}

/// Decodes the atom at `pos`, which must end by `limit`, and returns it with
/// the offset just past it: its declared end, however many of its bytes the
/// decoder of its type read.
pub fn parse_within(data: &[u8], pos: usize, limit: usize, depth: u32) -> (r: Result<
    (Atom, usize),
    AtomParseError,
>)
    requires
        pos <= limit <= data@.len(),
    ensures
        match r {
            Ok((a, next)) => {
                &&& spec_atom(data@, pos as int, limit as int, depth as nat) == Ok::<
                    AtomView,
                    AtomParseError,
                >(a@)
                &&& (spec_head(data@, pos as int, limit as int) matches Ok((h, _)) && next
                    == h.end())
                &&& head_of(a@).atom_offset == pos
                &&& next == head_of(a@).end()
                &&& pos < next <= limit
            },
            Err(e) => spec_atom(data@, pos as int, limit as int, depth as nat) == Err::<
                AtomView,
                AtomParseError,
            >(e),
        },
{
    let _ = data.len();
    proof {
        lemma_head_ok(data@, pos as int, limit as int);
    }
    let (h, b) = match parse_atom_head(data, pos, limit) {
        Ok(x) => x,
        Err(e) => return Err(e),
    };
    proof {
        lemma_body_head(data@, h, b as int, depth as nat);
    }
    match parse_atom_body(data, h, b, depth) {
        Ok(a) => Ok((a, end_of(data, h, b))),
        Err(e) => Err(e),
    }
}

/// Decodes the atom at `pos` of a whole stream.
pub fn parse(data: &[u8], pos: usize) -> (r: Result<(Atom, usize), AtomParseError>)
    requires
        pos <= data@.len(),
    ensures
        match r {
            Ok((a, next)) => {
                &&& spec_atom(data@, pos as int, data@.len() as int, MAX_DEPTH as nat) == Ok::<
                    AtomView,
                    AtomParseError,
                >(a@)
                &&& (spec_head(data@, pos as int, data@.len() as int) matches Ok((h, _)) && next
                    == h.end())
                &&& head_of(a@).atom_offset == pos
                &&& next == head_of(a@).end()
                &&& pos < next <= data@.len()
            },
            Err(e) => spec_atom(data@, pos as int, data@.len() as int, MAX_DEPTH as nat) == Err::<
                AtomView,
                AtomParseError,
            >(e),
        },
{
    parse_within(data, pos, data.len(), MAX_DEPTH)
}

} // verus!

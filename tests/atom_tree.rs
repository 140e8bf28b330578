use atom_analyzer::atom::ftyp::{match_brand, Brand, FtypAtom};
use atom_analyzer::atom::hdlr::{ComponentSubType, ComponentType};
use atom_analyzer::atom::minf::MediaInfo;
use atom_analyzer::atom::{
    self, dinf, hdlr, mdhd, mdia, moov, parse, parse_atom_head, tkhd, Atom, AtomHead,
    AtomParseError, UnimplementedAtom, MAX_DEPTH,
};
use atom_analyzer::element::fixed_point::I8F8;
use atom_analyzer::field::IoError;
use atom_analyzer::qtfile::{parse_file, QtFileError};

fn boxed(tag: &[u8; 4], payload: Vec<u8>) -> Vec<u8> {
    let mut out = (8 + payload.len() as u32).to_be_bytes().to_vec();
    out.extend_from_slice(tag);
    out.extend(payload);
    out
}

fn tkhd_box() -> Vec<u8> {
    boxed(b"tkhd", vec![0u8; 84])
}

fn mdia_box() -> Vec<u8> {
    boxed(b"mdia", boxed(b"mdhd", vec![0u8; 24]))
}

#[test]
fn scenario_ftyp_standard_header() {
    let data = [
        0x00, 0x00, 0x00, 0x14, 0x66, 0x74, 0x79, 0x70, 0x71, 0x74, 0x20, 0x20, 0x20, 0x04, 0x06,
        0x00, 0x00, 0x00, 0x00, 0x00,
    ];
    let (a, next) = parse(&data, 0).unwrap();
    assert_eq!(next, 0x14);
    assert_eq!(
        a,
        Atom::Ftyp(FtypAtom {
            atom_head: AtomHead { atom_offset: 0, atom_size: 0x14, atom_type: 0x6674_7970 },
            major_brand: Brand::QuickTimeMovieFile,
            minor_version: 0x2004_0600,
            compatible_brands: vec![Brand::Other(0)],
        })
    );
}

#[test]
fn scenario_ftyp_extended_header() {
    let data = [
        0x00, 0x00, 0x00, 0x01, 0x66, 0x74, 0x79, 0x70, 0x00, 0x00, 0x00, 0x00, 0x00, 0x00, 0x00,
        0x1c, 0x71, 0x74, 0x20, 0x20, 0x20, 0x04, 0x06, 0x00, 0x00, 0x00, 0x00, 0x00,
    ];
    let (a, next) = parse(&data, 0).unwrap();
    assert_eq!(next, 0x1c);
    assert_eq!(
        a,
        Atom::Ftyp(FtypAtom {
            atom_head: AtomHead { atom_offset: 0, atom_size: 0x1c, atom_type: 0x6674_7970 },
            major_brand: Brand::QuickTimeMovieFile,
            minor_version: 0x2004_0600,
            compatible_brands: vec![Brand::Other(0)],
        })
    );
}

#[test]
fn scenario_truncated_header_is_an_io_error() {
    let data = [0x10, 0x10, 0x10, 0x10];
    assert_eq!(parse(&data, 0), Err(AtomParseError::IoError(IoError::UnexpectedEof(0))));
    assert_eq!(
        parse_file(&data),
        Err(QtFileError::AtomParseError(AtomParseError::IoError(IoError::UnexpectedEof(0))))
    );
}

#[test]
fn scenario_moov_with_ftyp_tag_is_a_type_error() {
    let mut data = boxed(b"free", vec![]);
    data.extend(boxed(b"gtyp", vec![0u8; 8]));
    let (h, b) = parse_atom_head(&data, 8, data.len()).unwrap();
    assert_eq!(h.atom_type, 0x6774_7970);
    assert_eq!(moov::parse(&data, h, b, MAX_DEPTH), Err(AtomParseError::TypeError(8)));
}

#[test]
fn header_round_trip_standard_and_extended() {
    let h = AtomHead { atom_offset: 0, atom_size: 24, atom_type: 0x6672_6565 };
    let mut standard = 24u32.to_be_bytes().to_vec();
    standard.extend(0x6672_6565u32.to_be_bytes());
    standard.extend(vec![0u8; 16]);
    assert_eq!(parse_atom_head(&standard, 0, standard.len()), Ok((h, 8)));

    let mut extended = 1u32.to_be_bytes().to_vec();
    extended.extend(0x6672_6565u32.to_be_bytes());
    extended.extend(24u64.to_be_bytes());
    extended.extend(vec![0u8; 8]);
    assert_eq!(parse_atom_head(&extended, 0, extended.len()), Ok((h, 16)));
}

#[test]
fn header_errors() {
    let data = boxed(b"free", vec![]);
    assert_eq!(parse_atom_head(&data, 8, 8), Err(AtomParseError::NoMoreAtom));

    let zero = [0, 0, 0, 0, b'f', b'r', b'e', b'e'];
    assert_eq!(parse(&zero, 0), Err(AtomParseError::ZeroSizeUnsupported(0)));

    let small = [0, 0, 0, 4, b'f', b'r', b'e', b'e'];
    assert_eq!(parse(&small, 0), Err(AtomParseError::UnexpectedError(0)));

    let past_end = [0, 0, 0, 9, b'f', b'r', b'e', b'e'];
    assert_eq!(parse(&past_end, 0), Err(AtomParseError::UnexpectedError(0)));

    let mut short_ext = vec![0, 0, 0, 1, b'f', b'r', b'e', b'e'];
    short_ext.extend(8u64.to_be_bytes());
    assert_eq!(parse(&short_ext, 0), Err(AtomParseError::UnexpectedError(0)));

    let cut_ext = [0, 0, 0, 1, b'f', b'r', b'e', b'e', 0, 0];
    assert_eq!(parse(&cut_ext, 0), Err(AtomParseError::IoError(IoError::UnexpectedEof(8))));
}

#[test]
fn container_cursor_lands_on_declared_end() {
    // The edit container's unknown child and trailing bytes are skipped.
    let inner = [boxed(b"junk", vec![1, 2, 3]), boxed(b"elst", vec![0u8; 8])].concat();
    let mut data = boxed(b"edts", inner);
    data.extend(boxed(b"free", vec![]));
    let (a, next) = parse(&data, 0).unwrap();
    assert_eq!(next, 8 + 11 + 16);
    match a {
        Atom::Edts(e) => {
            let elst = e.elst_atom.unwrap();
            assert_eq!(elst.atom_head.atom_offset, 19);
            assert_eq!(elst.number_of_entries, 0);
        }
        other => panic!("expected edts, got {:?}", other),
    }
    let (b, end) = parse(&data, next).unwrap();
    assert_eq!(b, Atom::Free(atom::free::FreeAtom {
        atom_head: AtomHead { atom_offset: 35, atom_size: 8, atom_type: 0x6672_6565 },
    }));
    assert_eq!(end, data.len());
}

#[test]
fn ftyp_brand_count_follows_size() {
    let mut payload = b"isom".to_vec();
    payload.extend(vec![0, 0, 2, 0]);
    payload.extend(b"isomiso2avc1mp41");
    payload.extend(vec![0xaa, 0xbb]);
    let data = boxed(b"ftyp", payload);
    assert_eq!(data.len(), 34);
    match parse(&data, 0).unwrap().0 {
        Atom::Ftyp(f) => {
            assert_eq!(f.compatible_brands.len(), (34 - 16) / 4);
            assert_eq!(f.compatible_brands[3], Brand::Other(0x6d70_3431));
        }
        other => panic!("expected ftyp, got {:?}", other),
    }
}

#[test]
fn moov_without_trak_succeeds() {
    let data = boxed(b"moov", boxed(b"free", vec![0u8; 4]));
    match parse(&data, 0).unwrap().0 {
        Atom::Moov(m) => {
            assert!(m.trak_atom.is_empty());
            assert!(m.mvhd_atom.is_none());
        }
        other => panic!("expected moov, got {:?}", other),
    }
}

#[test]
fn trak_requires_tkhd_and_mdia() {
    let no_mdia = boxed(b"trak", tkhd_box());
    assert_eq!(parse(&no_mdia, 0), Err(AtomParseError::RequiredAtomNotFound(mdia::ATOM_ID)));
    let no_tkhd = boxed(b"trak", mdia_box());
    assert_eq!(parse(&no_tkhd, 0), Err(AtomParseError::RequiredAtomNotFound(tkhd::ATOM_ID)));
    let both = boxed(b"trak", [tkhd_box(), mdia_box()].concat());
    assert!(matches!(parse(&both, 0), Ok((Atom::Trak(_), _))));
}

#[test]
fn moov_keeps_tracks_in_order() {
    let trak = |id: u8| {
        let mut t = vec![0u8; 84];
        t[15] = id;
        boxed(b"trak", [boxed(b"tkhd", t), mdia_box()].concat())
    };
    let data = boxed(b"moov", [trak(1), trak(2), trak(3)].concat());
    match parse(&data, 0).unwrap().0 {
        Atom::Moov(m) => {
            let ids: Vec<u32> = m.trak_atom.iter().map(|t| t.tkhd_atom.track_id).collect();
            assert_eq!(ids, vec![1, 2, 3]);
        }
        other => panic!("expected moov, got {:?}", other),
    }
}

#[test]
fn required_children_of_mdia_dinf_minf() {
    let mdia = boxed(b"mdia", boxed(b"free", vec![]));
    assert_eq!(parse(&mdia, 0), Err(AtomParseError::RequiredAtomNotFound(mdhd::ATOM_ID)));
    let dinf = boxed(b"dinf", boxed(b"free", vec![]));
    assert_eq!(parse(&dinf, 0), Err(AtomParseError::RequiredAtomNotFound(0x6472_6566)));
    assert_eq!(dinf::ATOM_ID, 0x6469_6e66);
    let minf = boxed(b"minf", [boxed(b"vmhd", vec![0u8; 12]), boxed(b"free", vec![])].concat());
    assert_eq!(parse(&minf, 0), Err(AtomParseError::RequiredAtomNotFound(hdlr::ATOM_ID)));
}

#[test]
fn minf_kinds() {
    let sound = boxed(b"minf", boxed(b"smhd", vec![0xff, 0x00, 0, 0]));
    match parse(&sound, 0).unwrap().0 {
        Atom::Minf(m) => match m.media_info {
            MediaInfo::SoundMediaInfo { smhd_atom } => {
                assert_eq!(smhd_atom.balance, I8F8::from_bits(-256));
            }
            other => panic!("expected sound, got {:?}", other),
        },
        other => panic!("expected minf, got {:?}", other),
    }
    let empty = boxed(b"minf", vec![]);
    match parse(&empty, 0).unwrap().0 {
        Atom::Minf(m) => assert_eq!(m.media_info, MediaInfo::Unknown),
        other => panic!("expected minf, got {:?}", other),
    }
}

#[test]
fn nesting_deeper_than_the_bound_fails() {
    let mut data = boxed(b"free", vec![]);
    for _ in 0..(MAX_DEPTH + 1) {
        data = boxed(b"edts", data);
    }
    let depth = MAX_DEPTH as u64 + 1;
    assert_eq!(parse(&data, 0), Err(AtomParseError::NestingTooDeep(8 * (depth - 1))));
    let mut ok = boxed(b"free", vec![]);
    for _ in 0..MAX_DEPTH {
        ok = boxed(b"edts", ok);
    }
    assert!(parse(&ok, 0).is_ok());
}

#[test]
fn hdlr_name_must_be_utf8() {
    let mut payload = vec![0u8; 24];
    payload.extend(vec![0xff, 0xfe]);
    let data = boxed(b"hdlr", payload);
    assert_eq!(parse(&data, 0), Err(AtomParseError::IoError(IoError::InvalidData(32))));
}

#[test]
fn table_longer_than_its_atom_is_truncated() {
    let data = boxed(b"stco", [vec![0u8; 4], 2u32.to_be_bytes().to_vec(), vec![0u8; 4]].concat());
    assert_eq!(parse(&data, 0), Err(AtomParseError::IoError(IoError::UnexpectedEof(0))));
    let nested = boxed(b"stbl", data);
    assert_eq!(parse(&nested, 0), Err(AtomParseError::IoError(IoError::UnexpectedEof(8))));
}

#[test]
fn sample_description_smaller_than_its_fields() {
    let entry = [8u32.to_be_bytes().to_vec(), vec![0u8; 12]].concat();
    let data = boxed(b"stsd", [vec![0u8; 4], 1u32.to_be_bytes().to_vec(), entry].concat());
    assert_eq!(parse(&data, 0), Err(AtomParseError::UnexpectedError(16)));
}

#[test]
fn unknown_types_keep_their_header() {
    let data = boxed(b"udta", vec![9u8; 5]);
    assert_eq!(
        parse(&data, 0),
        Ok((
            Atom::Unimplemented(UnimplementedAtom {
                atom_head: AtomHead { atom_offset: 0, atom_size: 13, atom_type: 0x7564_7461 },
            }),
            13
        ))
    );
}

#[test]
fn whole_file_sequence() {
    assert_eq!(parse_file(&[]).unwrap().atoms().len(), 0);
    let data = [boxed(b"free", vec![]), boxed(b"wide", vec![]), boxed(b"skip", vec![1])].concat();
    let f = parse_file(&data).unwrap();
    let offsets: Vec<u64> = f.atoms().iter().map(|a| a.atom_head().atom_offset).collect();
    assert_eq!(offsets, vec![0, 8, 16]);
}

#[test]
fn codes_classify() {
    assert_eq!(match_brand(0x7174_2020), Brand::QuickTimeMovieFile);
    assert_eq!(match_brand(0x6973_6f6d), Brand::Other(0x6973_6f6d));
    assert_eq!(ComponentType::new(0x6d68_6c72), ComponentType::Mhlr);
    assert_eq!(ComponentType::new(0x6468_6c72), ComponentType::Dhlr);
    assert_eq!(ComponentType::new(7), ComponentType::Invalid(7));
    assert_eq!(ComponentSubType::new(0x736f_756e), ComponentSubType::SoundMedia);
    assert_eq!(ComponentSubType::new(0x7374_726d), ComponentSubType::StreamingMedia);
    assert_eq!(ComponentSubType::new(1), ComponentSubType::Unknown(1));
}

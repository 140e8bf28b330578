use fixed::types::extra::{U16, U8};
use fixed::{FixedU16, FixedU32};

use atom_analyzer::atom::ctts::CompositionOffsetTableEntry;
use atom_analyzer::atom::stsc::SampleToChunk;
use atom_analyzer::atom::{self, Atom, AtomHead};
use atom_analyzer::element::fixed_point::{U16F16, U8F8};
use atom_analyzer::element::qtfile_datetime::QtFileDateTime;
use atom_analyzer::element::qtfile_matrix::QtFileMatrix;
use atom_analyzer::qtfile;

fn be32(v: u32) -> Vec<u8> {
    v.to_be_bytes().to_vec()
}

fn be16(v: u16) -> Vec<u8> {
    v.to_be_bytes().to_vec()
}

fn boxed(tag: &[u8; 4], payload: Vec<u8>) -> Vec<u8> {
    let mut out = be32(8 + payload.len() as u32);
    out.extend_from_slice(tag);
    out.extend(payload);
    out
}

fn identity_matrix() -> Vec<u8> {
    [0x10000u32, 0, 0, 0, 0x10000, 0, 0, 0, 0x40000000].iter().flat_map(|w| be32(*w)).collect()
}

fn hdlr(kind: &[u8; 4], sub: &[u8; 4], name: &[u8]) -> Vec<u8> {
    let mut p = vec![0, 0, 0, 0];
    p.extend_from_slice(kind);
    p.extend_from_slice(sub);
    p.extend(vec![0u8; 12]);
    p.extend_from_slice(name);
    boxed(b"hdlr", p)
}

const SAMPLE_SIZES: [u32; 30] = [
    0x5c82, 0x0187, 0x003d, 0x0033, 0x001f, 0x005a, 0x0024, 0x0017, 0x0017, 0x003a, 0x001a, 0x0012,
    0x0012, 0x0039, 0x001b, 0x0012, 0x0012, 0x0034, 0x0019, 0x0012, 0x0013, 0x0018, 0x0019, 0x0012,
    0x0012, 0x0018, 0x0018, 0x0012, 0x0012, 0x0019,
];

const CTTS_OFFSETS: [u32; 30] = [
    0x400, 0xa00, 0x400, 0, 0x200, 0xa00, 0x400, 0, 0x200, 0xa00, 0x400, 0, 0x200, 0xa00, 0x400, 0,
    0x200, 0xa00, 0x400, 0, 0x200, 0xa00, 0x400, 0, 0x200, 0xa00, 0x400, 0, 0x200, 0x400,
];

/// The layout of the sample movie `camouflage_vga.mov`: `ftyp`, `wide`, a
/// 0x6170-byte `mdat`, then a `moov` with one video track.
fn camouflage_vga_layout() -> Vec<u8> {
    let mut file = boxed(b"ftyp", [b"qt  ".to_vec(), be32(0x200), b"qt  ".to_vec()].concat());
    file.extend(boxed(b"wide", vec![]));
    file.extend(boxed(b"mdat", vec![0u8; 0x6170 - 8]));

    let mut mvhd = vec![0u8; 4 + 8];
    mvhd.extend(be32(1000));
    mvhd.extend(be32(1000));
    mvhd.extend(be32(0x10000));
    mvhd.extend(be16(0x100));
    mvhd.extend(vec![0u8; 10]);
    mvhd.extend(identity_matrix());
    mvhd.extend(vec![0u8; 24]);
    mvhd.extend(be32(2));

    let mut tkhd = vec![0, 0, 0, 3, 0, 0, 0, 0, 0, 0, 0, 0];
    tkhd.extend(be32(1));
    tkhd.extend(be32(0));
    tkhd.extend(be32(1000));
    tkhd.extend(vec![0u8; 8 + 8]);
    tkhd.extend(identity_matrix());
    tkhd.extend(be32(640 << 16));
    tkhd.extend(be32(400 << 16));

    let elst = boxed(b"elst", [vec![0u8; 4], be32(1), be32(1000), be32(1024), be32(0x10000)].concat());
    let edts = boxed(b"edts", elst);

    let url = boxed(b"url ", vec![0, 0, 0, 1]);
    let dref = boxed(b"dref", [vec![0u8; 4], be32(1), url].concat());
    let dinf = boxed(b"dinf", dref);

    let mut description = be32(0x98);
    description.extend(b"avc1");
    description.extend(vec![0u8; 6]);
    description.extend(be16(1));
    description.extend(vec![0u8; 0x98 - 16]);
    let stsd = boxed(b"stsd", [vec![0u8; 4], be32(1), description].concat());
    let stts = boxed(b"stts", [vec![0u8; 4], be32(1), be32(0x1e), be32(0x200)].concat());
    let stss = boxed(b"stss", [vec![0u8; 4], be32(1), be32(1)].concat());
    let mut ctts = [vec![0u8; 4], be32(30)].concat();
    for off in CTTS_OFFSETS {
        ctts.extend(be32(1));
        ctts.extend(be32(off));
    }
    let ctts = boxed(b"ctts", ctts);
    let stsc = boxed(b"stsc", [vec![0u8; 4], be32(1), be32(1), be32(30), be32(1)].concat());
    let mut stsz = [vec![0u8; 4], be32(0), be32(30)].concat();
    for s in SAMPLE_SIZES {
        stsz.extend(be32(s));
    }
    let stsz = boxed(b"stsz", stsz);
    let stco = boxed(b"stco", [vec![0u8; 4], be32(1), be32(0x24)].concat());
    let stbl = boxed(b"stbl", [stsd, stts, stss, ctts, stsc, stsz, stco].concat());

    let minf = boxed(
        b"minf",
        [
            boxed(b"vmhd", vec![0u8; 12]),
            hdlr(b"dhlr", b"url ", b"\x0bDataHandler"),
            dinf,
            stbl,
        ]
        .concat(),
    );
    let mdia = boxed(
        b"mdia",
        [boxed(b"mdhd", vec![0u8; 24]), hdlr(b"mhlr", b"vide", b"\x0cVideoHandler"), minf].concat(),
    );
    let trak = boxed(b"trak", [boxed(b"tkhd", tkhd), edts, mdia].concat());
    let udta = boxed(b"udta", vec![0u8; 0x21 - 8]);
    file.extend(boxed(b"moov", [boxed(b"mvhd", mvhd), trak, udta].concat()));
    file
}

#[test]
fn test_camouflage_vga_mov_manual() {
    let data = camouflage_vga_layout();
    let qt = qtfile::parse_file(&data).unwrap();
    let mut qt = qt.into_atoms().into_iter();

    let ftyp = qt.next().unwrap();

    assert_eq!(
        ftyp,
        Atom::Ftyp(atom::ftyp::FtypAtom {
            atom_head: AtomHead { atom_offset: 0, atom_size: 20, atom_type: atom::ftyp::ATOM_ID },
            major_brand: atom::ftyp::Brand::QuickTimeMovieFile,
            minor_version: 0x00000200,
            compatible_brands: vec![atom::ftyp::Brand::QuickTimeMovieFile]
        })
    );

    let wide = qt.next().unwrap();

    assert_eq!(
        wide,
        Atom::Wide(atom::wide::WideAtom {
            atom_head: AtomHead { atom_offset: 20, atom_size: 8, atom_type: atom::wide::ATOM_ID },
        }),
    );

    let mdat = qt.next().unwrap();

    assert_eq!(
        mdat,
        Atom::Mdat(atom::mdat::MdatAtom {
            atom_head: AtomHead {
                atom_offset: 28,
                atom_size: 0x6170,
                atom_type: atom::mdat::ATOM_ID,
            },
        }),
    );

    let moov = match qt.next().unwrap() {
        Atom::Moov(m) => m,
        other => panic!("expected moov, got {:?}", other),
    };
    assert!(qt.next().is_none());

    assert_eq!(
        moov.atom_head,
        AtomHead { atom_type: atom::moov::ATOM_ID, atom_offset: 0x618c, atom_size: 0x476 }
    );

    assert_eq!(
        moov.mvhd_atom,
        Some(Box::new(atom::mvhd::MvhdAtom {
            atom_head: AtomHead {
                atom_type: atom::mvhd::ATOM_ID,
                atom_offset: 0x6194,
                atom_size: 0x6c,
            },
            atom_version: 0,
            atom_flags: [0, 0, 0],
            creation_time: QtFileDateTime::new(0),
            modification_time: QtFileDateTime::new(0),
            time_scale: 1000,
            duration: 1000,
            preferred_rate: 0x10000,
            preferred_volume: 0x100,
            matrix_structure: QtFileMatrix::new(&[0x10000, 0, 0, 0, 0x10000, 0, 0, 0, 0x40000000]),
            preview_time: QtFileDateTime::new(0),
            preview_duration: 0,
            poster_time: QtFileDateTime::new(0),
            selection_time: QtFileDateTime::new(0),
            selection_duration: 0,
            current_time: QtFileDateTime::new(0),
            next_track_id: 2,
        })),
    );
    assert_eq!(moov.mvhd_atom.as_ref().unwrap().creation_time.to_string(), "1904-01-01 00:00:00");

    assert_eq!(moov.trak_atom.len(), 1);

    let trak_atom = &moov.trak_atom[0];

    assert_eq!(
        trak_atom.atom_head,
        AtomHead { atom_offset: 0x6200, atom_size: 0x3e1, atom_type: atom::trak::ATOM_ID },
    );

    let tkhd_atom = &trak_atom.tkhd_atom;

    assert_eq!(
        tkhd_atom,
        &Box::new(atom::tkhd::TkhdAtom {
            atom_head: AtomHead {
                atom_offset: 0x6208,
                atom_size: 0x5c,
                atom_type: atom::tkhd::ATOM_ID,
            },
            atom_version: 0,
            atom_flags: [0, 0, 3],
            creation_time: QtFileDateTime::new(0),
            modification_time: QtFileDateTime::new(0),
            track_id: 1,
            reserved0: 0,
            duration: 1000,
            reserved1: [0, 0, 0, 0, 0, 0, 0, 0],
            layer: 0,
            alternate_group: 0,
            volume: U8F8::from_bits(FixedU16::<U8>::from_num(0).to_bits()),
            reserved2: 0,
            matrix_structure: QtFileMatrix::new(&[0x10000, 0, 0, 0, 0x10000, 0, 0, 0, 0x40000000]),
            track_width: U16F16::from_bits(FixedU32::<U16>::from_num(640).to_bits()),
            track_height: U16F16::from_bits(FixedU32::<U16>::from_num(400).to_bits()),
        }),
    );

    let edts_atom = &trak_atom.edts_atom;

    assert_eq!(
        edts_atom,
        &Some(Box::new(atom::edts::EdtsAtom {
            atom_head: AtomHead {
                atom_offset: 0x6264,
                atom_size: 0x24,
                atom_type: atom::edts::ATOM_ID,
            },
            elst_atom: Some(Box::new(atom::elst::ElstAtom {
                atom_head: AtomHead {
                    atom_offset: 0x626c,
                    atom_size: 0x1c,
                    atom_type: atom::elst::ATOM_ID,
                },
                atom_version: 0,
                atom_flags: [0, 0, 0],
                number_of_entries: 1,
                edit_list_table: vec![atom::elst::EditListTableEntry {
                    track_duration: 1000,
                    media_time: 1024,
                    media_rate: U16F16::from_bits(FixedU32::<U16>::from_num(1).to_bits()),
                }],
            })),
        })),
    );

    let mdia_atom = &trak_atom.mdia_atom;

    assert_eq!(
        mdia_atom.atom_head,
        AtomHead { atom_offset: 0x6288, atom_size: 0x359, atom_type: atom::mdia::ATOM_ID },
    );

    assert_eq!(
        &mdia_atom.mdhd_atom,
        &Box::new(atom::mdhd::MdhdAtom {
            atom_head: AtomHead {
                atom_offset: 0x6290,
                atom_size: 0x20,
                atom_type: atom::mdhd::ATOM_ID,
            }
        }),
    );

    assert_eq!(
        &mdia_atom.hdlr_atom,
        &Some(Box::new(atom::hdlr::HdlrAtom {
            atom_head: AtomHead {
                atom_offset: 0x62b0,
                atom_size: 0x2d,
                atom_type: atom::hdlr::ATOM_ID,
            },
            atom_version: 0,
            atom_flags: [0, 0, 0],
            component_type: atom::hdlr::ComponentType::Mhlr,
            component_sub_type: atom::hdlr::ComponentSubType::VideoMedia,
            component_manufacturer: 0,
            component_flags: 0,
            component_flags_mask: 0,
            component_name: "\u{c}VideoHandler".into()
        })),
    );

    let minf_atom = mdia_atom.minf_atom.as_ref().unwrap();

    assert_eq!(
        minf_atom.atom_head,
        AtomHead { atom_offset: 0x62dd, atom_size: 0x304, atom_type: atom::minf::ATOM_ID },
    );

    let (vmhd_atom, hdlr_atom, dinf_atom, stbl_atom) = match &minf_atom.media_info {
        atom::minf::MediaInfo::VideoMediaInfo { vmhd_atom, hdlr_atom, dinf_atom, stbl_atom } => {
            (vmhd_atom, hdlr_atom, dinf_atom, stbl_atom)
        }
        _ => panic!(),
    };

    assert_eq!(
        vmhd_atom,
        &Box::new(atom::vmhd::VmhdAtom {
            atom_head: AtomHead {
                atom_offset: 0x62e5,
                atom_size: 0x14,
                atom_type: atom::vmhd::ATOM_ID,
            },
        }),
    );

    assert_eq!(
        hdlr_atom,
        &Box::new(atom::hdlr::HdlrAtom {
            atom_head: AtomHead {
                atom_offset: 0x62f9,
                atom_size: 0x2c,
                atom_type: atom::hdlr::ATOM_ID,
            },
            atom_version: 0,
            atom_flags: [0, 0, 0],
            component_type: atom::hdlr::ComponentType::Dhlr,
            component_sub_type: atom::hdlr::ComponentSubType::Unknown(0x7572_6c20),
            component_manufacturer: 0,
            component_flags: 0,
            component_flags_mask: 0,
            component_name: "\u{b}DataHandler".into()
        }),
    );

    assert_eq!(
        dinf_atom,
        &Some(Box::new(atom::dinf::DinfAtom {
            atom_head: AtomHead {
                atom_offset: 0x6325,
                atom_size: 0x24,
                atom_type: atom::dinf::ATOM_ID,
            },
            dref_atom: Box::new(atom::dref::DrefAtom {
                atom_head: AtomHead {
                    atom_offset: 0x632d,
                    atom_size: 0x1c,
                    atom_type: atom::dref::ATOM_ID,
                },
                atom_version: 0,
                atom_flags: [0, 0, 0],
                number_of_entries: 1,
                data_references: vec![atom::dref::DataReferenceType::Url {
                    atom_head: AtomHead {
                        atom_offset: 0x633d,
                        atom_size: 0x0c,
                        atom_type: 0x7572_6c20,
                    },
                    url: "\u{0}\u{0}\u{0}\u{1}".into()
                }],
            }),
        })),
    );

    assert_eq!(
        stbl_atom,
        &Some(Box::new(atom::stbl::StblAtom {
            atom_head: AtomHead {
                atom_offset: 0x6349,
                atom_size: 0x298,
                atom_type: atom::stbl::ATOM_ID,
            },
            stsd_atom: Some(Box::new(atom::stsd::StsdAtom {
                atom_head: AtomHead {
                    atom_offset: 0x6351,
                    atom_size: 0xa8,
                    atom_type: atom::stsd::ATOM_ID,
                },
                atom_version: 0,
                atom_flags: [0, 0, 0],
                number_of_entries: 1,
                sample_description_table: vec![atom::stsd::SampleDescription {
                    sample_description_size: 0x98,
                    data_format: 0x6176_6331,
                    reserved: [0, 0, 0, 0, 0, 0],
                    data_reference_index: 1,
                    data: vec![]
                }]
            })),
            stts_atom: Some(Box::new(atom::stts::SttsAtom {
                atom_head: AtomHead {
                    atom_offset: 0x63f9,
                    atom_size: 0x18,
                    atom_type: atom::stts::ATOM_ID,
                },
                atom_version: 0,
                atom_flags: [0, 0, 0],
                number_of_entries: 1,
                time_to_sample_table: vec![atom::stts::TimeToSampleEntry {
                    sample_count: 0x1e,
                    sample_duration: 0x200,
                }],
            })),
            stss_atom: Some(Box::new(atom::stss::StssAtom {
                atom_head: AtomHead {
                    atom_offset: 0x6411,
                    atom_size: 0x14,
                    atom_type: atom::stss::ATOM_ID,
                },
                atom_version: 0,
                atom_flags: [0, 0, 0],
                number_of_entries: 1,
                sync_sample_table: vec![1,]
            })),
            ctts_atom: Some(Box::new(atom::ctts::CttsAtom {
                atom_head: AtomHead {
                    atom_offset: 0x6425,
                    atom_size: 0x100,
                    atom_type: atom::ctts::ATOM_ID,
                },
                atom_version: 0,
                atom_flags: [0, 0, 0],
                entry_count: 30,
                composition_offset_table: CTTS_OFFSETS
                    .iter()
                    .map(|o| CompositionOffsetTableEntry::new(1, *o))
                    .collect(),
            })),
            stsc_atom: Some(Box::new(atom::stsc::StscAtom {
                atom_head: AtomHead {
                    atom_offset: 0x6525,
                    atom_size: 0x1c,
                    atom_type: atom::stsc::ATOM_ID,
                },
                atom_version: 0,
                atom_flags: [0, 0, 0],
                number_of_entries: 1,
                sample_to_chunk_table: vec![SampleToChunk::new(1, 30, 1),]
            })),
            stsz_atom: Some(Box::new(atom::stsz::StszAtom {
                atom_head: AtomHead {
                    atom_offset: 0x6541,
                    atom_size: 0x8c,
                    atom_type: atom::stsz::ATOM_ID,
                },
                atom_version: 0,
                atom_flags: [0, 0, 0],
                sample_size: 0,
                number_of_entries: 30,
                sample_size_table: SAMPLE_SIZES.to_vec(),
            })),
            stco_atom: Some(Box::new(atom::stco::StcoAtom {
                atom_head: AtomHead {
                    atom_offset: 0x65cd,
                    atom_size: 0x14,
                    atom_type: atom::stco::ATOM_ID,
                },
                atom_version: 0,
                atom_flags: [0, 0, 0],
                number_of_entries: 1,
                chunk_offset_table: vec![0x24],
            })),
        })),
    );
}

#[test]
fn sample_layout_parses_the_same_twice() {
    let data = camouflage_vga_layout();
    let first = qtfile::parse_file(&data).unwrap();
    let second = qtfile::parse_file(&data).unwrap();
    assert_eq!(first, second);
    assert_eq!(first.atoms().len(), 4);
}

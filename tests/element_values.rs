use atom_analyzer::element::fixed_point::{U16F16, U2F30};
use atom_analyzer::element::qtfile_datetime::QtFileDateTime;
use atom_analyzer::element::qtfile_matrix::QtFileMatrix;
use atom_analyzer::element::ElementParseError;
use atom_analyzer::field::IoError;

#[test]
fn test_qtfile_zero() {
    let t = QtFileDateTime::new(0);

    assert_eq!(t.value, 0);

    assert_eq!(t.to_string(), "1904-01-01 00:00:00");
}

#[test]
fn test_qtfile_3600sec() {
    let t = QtFileDateTime::new(3600);

    assert_eq!(t.value, 3600);

    assert_eq!(t.to_string(), "1904-01-01 01:00:00");
}

#[test]
fn qtfile_datetime_crosses_leap_day() {
    // 1904 is a leap year: day 59 after New Year is February 29th.
    assert_eq!(QtFileDateTime::new(59 * 86400).to_string(), "1904-02-29 00:00:00");
    assert_eq!(QtFileDateTime::new(u32::MAX).to_string(), "2040-02-06 06:28:15");
}

#[test]
fn qtfile_datetime_parse_reads_big_endian() {
    let t = QtFileDateTime::parse(&[0x00, 0x00, 0x0e, 0x10], 0).unwrap();
    assert_eq!(t, QtFileDateTime::new(3600));
    assert_eq!(
        QtFileDateTime::parse(&[0x00, 0x00, 0x0e], 0),
        Err(ElementParseError::IoError(IoError::UnexpectedEof(0)))
    );
}

#[test]
fn test_matrix_all_zero() {
    let t = QtFileMatrix::new(&[0 as u32; 9]);
    assert_eq!(t.to_string(), "[[0, 0, 0], [0, 0, 0], [0, 0, 0]]");
}

#[test]
fn test_matrix_all_one() {
    let t = QtFileMatrix::new(&[
        0x10000, 0x10000, 0x40000000, 0x10000, 0x10000, 0x40000000, 0x10000, 0x10000,
        0x40000000,
    ]);
    assert_eq!(t.to_string(), "[[1, 1, 1], [1, 1, 1], [1, 1, 1]]");
}

#[test]
fn matrix_places_words_row_by_row() {
    let t = QtFileMatrix::new(&[1, 2, 3, 4, 5, 6, 7, 8, 9]);
    assert_eq!(t.a.bits, 1);
    assert_eq!(t.b.bits, 2);
    assert_eq!(t.u.bits, 3);
    assert_eq!(t.c.bits, 4);
    assert_eq!(t.d.bits, 5);
    assert_eq!(t.v.bits, 6);
    assert_eq!(t.t_x.bits, 7);
    assert_eq!(t.t_y.bits, 8);
    assert_eq!(t.w.bits, 9);
}

#[test]
fn matrix_parse_needs_nine_words() {
    let mut bytes = vec![0u8; 36];
    bytes[3] = 1;
    bytes[35] = 2;
    let m = QtFileMatrix::parse(&bytes, 0).unwrap();
    assert_eq!(m.a.bits, 1);
    assert_eq!(m.w.bits, 2);
    assert_eq!(
        QtFileMatrix::parse(&bytes, 4),
        Err(ElementParseError::IoError(IoError::UnexpectedEof(4)))
    );
}

#[test]
fn fixed_point_text() {
    assert_eq!(U16F16::from_bits(0x0001_8000).to_string(), "1.5");
    assert_eq!(U16F16::from_bits(640 << 16).to_string(), "640");
    assert_eq!(U2F30::from_bits(0x2000_0000).to_string(), "0.5");
}

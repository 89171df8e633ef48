//! Integer encoding: the forgiving-widen / strict-narrow coercion law and
//! the decimal text form.

use mysql_srv::Column;
use mysql_srv::ColumnType;
use mysql_srv::EncodeError;
use mysql_srv::ToMysqlValue;
use mysql_srv::UNSIGNED_FLAG;

fn col(t: ColumnType) -> Column {
    Column { coltype: t, colflags: 0 }
}

fn ucol(t: ColumnType) -> Column {
    Column { coltype: t, colflags: UNSIGNED_FLAG }
}

#[test]
fn longlong_signed_little_endian() {
    let mut w = Vec::new();
    1025i64.to_mysql_bin(&mut w, &col(ColumnType::MYSQL_TYPE_LONGLONG)).unwrap();
    assert_eq!(w, vec![0x01, 0x04, 0, 0, 0, 0, 0, 0]);
}

#[test]
fn longlong_negative_twos_complement() {
    let mut w = Vec::new();
    (-2i64).to_mysql_bin(&mut w, &col(ColumnType::MYSQL_TYPE_LONGLONG)).unwrap();
    assert_eq!(w, vec![0xfe, 0xff, 0xff, 0xff, 0xff, 0xff, 0xff, 0xff]);
}

#[test]
fn long_unsigned_four_bytes() {
    let mut w = Vec::new();
    0xdead_beefu32.to_mysql_bin(&mut w, &ucol(ColumnType::MYSQL_TYPE_LONG)).unwrap();
    assert_eq!(w, vec![0xef, 0xbe, 0xad, 0xde]);
}

#[test]
fn short_signed_negative() {
    let mut w = Vec::new();
    (-300i16).to_mysql_bin(&mut w, &col(ColumnType::MYSQL_TYPE_SHORT)).unwrap();
    assert_eq!(w, vec![0xd4, 0xfe]);
}

#[test]
fn year_uses_two_bytes() {
    let mut w = Vec::new();
    2021u16.to_mysql_bin(&mut w, &ucol(ColumnType::MYSQL_TYPE_YEAR)).unwrap();
    assert_eq!(w, vec![0xe5, 0x07]);
}

#[test]
fn tiny_signed_byte() {
    let mut w = Vec::new();
    (-5i8).to_mysql_bin(&mut w, &col(ColumnType::MYSQL_TYPE_TINY)).unwrap();
    assert_eq!(w, vec![0xfb]);
}

#[test]
fn narrow_value_widens_into_longlong() {
    let mut w = Vec::new();
    7u8.to_mysql_bin(&mut w, &col(ColumnType::MYSQL_TYPE_LONGLONG)).unwrap();
    assert_eq!(w, vec![7, 0, 0, 0, 0, 0, 0, 0]);
}

#[test]
fn wide_value_narrows_when_it_fits() {
    let mut w = Vec::new();
    100i64.to_mysql_bin(&mut w, &col(ColumnType::MYSQL_TYPE_TINY)).unwrap();
    assert_eq!(w, vec![100]);
}

#[test]
fn out_of_range_is_rejected_and_sink_untouched() {
    let mut w = vec![0xaa];
    let r = 300u16.to_mysql_bin(&mut w, &col(ColumnType::MYSQL_TYPE_TINY));
    assert_eq!(r, Err(EncodeError::Incompatible { expected: ColumnType::MYSQL_TYPE_TINY }));
    assert_eq!(w, vec![0xaa]);
}

#[test]
fn negative_into_unsigned_is_rejected() {
    let mut w = Vec::new();
    let r = (-1i32).to_mysql_bin(&mut w, &ucol(ColumnType::MYSQL_TYPE_LONG));
    assert_eq!(r, Err(EncodeError::Incompatible { expected: ColumnType::MYSQL_TYPE_LONG }));
    assert!(w.is_empty());
}

#[test]
fn signed_range_differs_from_unsigned_range() {
    let mut w = Vec::new();
    200u8.to_mysql_bin(&mut w, &ucol(ColumnType::MYSQL_TYPE_TINY)).unwrap();
    assert_eq!(w, vec![0xc8]);
    let mut w2 = Vec::new();
    let r = 200u8.to_mysql_bin(&mut w2, &col(ColumnType::MYSQL_TYPE_TINY));
    assert_eq!(r, Err(EncodeError::Incompatible { expected: ColumnType::MYSQL_TYPE_TINY }));
}

#[test]
fn non_integer_column_is_rejected() {
    let mut w = Vec::new();
    let r = 1u64.to_mysql_bin(&mut w, &col(ColumnType::MYSQL_TYPE_DATE));
    assert_eq!(r, Err(EncodeError::Incompatible { expected: ColumnType::MYSQL_TYPE_DATE }));
}

#[test]
fn u64_max_against_unsigned_longlong() {
    let mut w = Vec::new();
    u64::MAX.to_mysql_bin(&mut w, &ucol(ColumnType::MYSQL_TYPE_LONGLONG)).unwrap();
    assert_eq!(w, vec![0xff; 8]);
}

#[test]
fn i64_min_against_signed_longlong() {
    let mut w = Vec::new();
    i64::MIN.to_mysql_bin(&mut w, &col(ColumnType::MYSQL_TYPE_LONGLONG)).unwrap();
    assert_eq!(w, vec![0, 0, 0, 0, 0, 0, 0, 0x80]);
}

#[test]
fn text_is_length_prefixed_decimal() {
    let mut w = Vec::new();
    200u8.to_mysql_text(&mut w).unwrap();
    assert_eq!(w, vec![3, b'2', b'0', b'0']);
}

#[test]
fn text_zero() {
    let mut w = Vec::new();
    0u32.to_mysql_text(&mut w).unwrap();
    assert_eq!(w, vec![1, b'0']);
}

#[test]
fn text_negative_has_minus_sign() {
    let mut w = Vec::new();
    (-42i16).to_mysql_text(&mut w).unwrap();
    assert_eq!(w, vec![3, b'-', b'4', b'2']);
}

#[test]
fn text_i64_min() {
    let mut w = Vec::new();
    i64::MIN.to_mysql_text(&mut w).unwrap();
    let expect = b"-9223372036854775808";
    let mut v = vec![expect.len() as u8];
    v.extend_from_slice(expect);
    assert_eq!(w, v);
}

#[test]
fn text_u64_max() {
    let mut w = Vec::new();
    u64::MAX.to_mysql_text(&mut w).unwrap();
    let expect = b"18446744073709551615";
    let mut v = vec![expect.len() as u8];
    v.extend_from_slice(expect);
    assert_eq!(w, v);
}

#[test]
fn usize_and_isize_delegate_to_the_same_law() {
    let mut w = Vec::new();
    300usize.to_mysql_bin(&mut w, &col(ColumnType::MYSQL_TYPE_SHORT)).unwrap();
    assert_eq!(w, vec![0x2c, 0x01]);
    let mut w2 = Vec::new();
    (-300isize).to_mysql_bin(&mut w2, &col(ColumnType::MYSQL_TYPE_INT24)).unwrap();
    assert_eq!(w2, vec![0xd4, 0xfe, 0xff, 0xff]);
}

#[test]
fn integers_never_report_null() {
    assert!(!5u8.is_null());
    assert!(!(-1i64).is_null());
}

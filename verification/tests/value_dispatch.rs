//! The generic tagged value: dispatch to the concrete encoders, NULL
//! handling, and the rejection of negative times.

use mysql_srv::Column;
use mysql_srv::ColumnType;
use mysql_srv::EncodeError;
use mysql_srv::ToMysqlValue;
use mysql_srv::Value;
use mysql_srv::UNSIGNED_FLAG;

fn col(t: ColumnType) -> Column {
    Column { coltype: t, colflags: 0 }
}

fn ucol(t: ColumnType) -> Column {
    Column { coltype: t, colflags: UNSIGNED_FLAG }
}

#[test]
fn null_text_is_the_null_marker() {
    let mut w = Vec::new();
    Value::NULL.to_mysql_text(&mut w).unwrap();
    assert_eq!(w, vec![0xfb]);
}

#[test]
fn only_null_reports_null() {
    assert!(Value::NULL.is_null());
    assert!(!Value::Int(0).is_null());
    assert!(!Value::Bytes(Vec::new()).is_null());
}

#[test]
fn option_none_text_and_is_null() {
    let mut w = Vec::new();
    None::<u8>.to_mysql_text(&mut w).unwrap();
    assert_eq!(w, vec![0xfb]);
    assert!(None::<u8>.is_null());
    assert!(!Some(3u8).is_null());
}

#[test]
fn option_some_delegates() {
    let mut w = Vec::new();
    Some(7u8).to_mysql_bin(&mut w, &col(ColumnType::MYSQL_TYPE_SHORT)).unwrap();
    assert_eq!(w, vec![7, 0]);
}

#[test]
fn tagged_int_narrows_to_one_byte() {
    let mut w = Vec::new();
    Value::Int(200).to_mysql_bin(&mut w, &ucol(ColumnType::MYSQL_TYPE_TINY)).unwrap();
    assert_eq!(w, vec![0xc8]);
}

#[test]
fn tagged_int_out_of_range_is_rejected() {
    let mut w = Vec::new();
    let r = Value::Int(70000).to_mysql_bin(&mut w, &col(ColumnType::MYSQL_TYPE_SHORT));
    assert_eq!(r, Err(EncodeError::Incompatible { expected: ColumnType::MYSQL_TYPE_SHORT }));
    assert!(w.is_empty());
}

#[test]
fn tagged_uint_against_unsigned_longlong() {
    let mut w = Vec::new();
    Value::UInt(0x0102_0304_0506_0708).to_mysql_bin(&mut w, &ucol(ColumnType::MYSQL_TYPE_LONGLONG))
        .unwrap();
    assert_eq!(w, vec![8, 7, 6, 5, 4, 3, 2, 1]);
}

#[test]
fn tagged_int_text() {
    let mut w = Vec::new();
    Value::Int(-17).to_mysql_text(&mut w).unwrap();
    assert_eq!(w, vec![3, b'-', b'1', b'7']);
}

#[test]
fn tagged_bytes_both_formats() {
    let v = Value::Bytes(vec![1, 2, 3]);
    let mut w = Vec::new();
    v.to_mysql_text(&mut w).unwrap();
    assert_eq!(w, vec![3, 1, 2, 3]);
    let mut w2 = Vec::new();
    v.to_mysql_bin(&mut w2, &col(ColumnType::MYSQL_TYPE_BLOB)).unwrap();
    assert_eq!(w2, vec![3, 1, 2, 3]);
    let mut w3 = Vec::new();
    let r = v.to_mysql_bin(&mut w3, &col(ColumnType::MYSQL_TYPE_LONG));
    assert_eq!(r, Err(EncodeError::Incompatible { expected: ColumnType::MYSQL_TYPE_LONG }));
}

#[test]
fn tagged_date_with_zero_time_fills_a_date_column() {
    let mut w = Vec::new();
    Value::Date(2021, 7, 15, 0, 0, 0, 0).to_mysql_bin(&mut w, &col(ColumnType::MYSQL_TYPE_DATE))
        .unwrap();
    assert_eq!(w, vec![0x04, 0xe5, 0x07, 0x07, 0x0f]);
}

#[test]
fn tagged_date_with_time_rejects_a_date_column() {
    let mut w = Vec::new();
    let r = Value::Date(2021, 7, 15, 1, 0, 0, 0).to_mysql_bin(&mut w, &col(ColumnType::MYSQL_TYPE_DATE));
    assert_eq!(r, Err(EncodeError::Incompatible { expected: ColumnType::MYSQL_TYPE_DATE }));
}

#[test]
fn tagged_date_fills_a_datetime_column() {
    let mut w = Vec::new();
    Value::Date(2021, 7, 15, 13, 14, 15, 0).to_mysql_bin(
        &mut w,
        &col(ColumnType::MYSQL_TYPE_DATETIME),
    ).unwrap();
    assert_eq!(w, vec![0x07, 0xe5, 0x07, 0x07, 0x0f, 13, 14, 15]);
}

#[test]
fn tagged_date_text_always_shows_the_time() {
    let mut w = Vec::new();
    Value::Date(2021, 7, 15, 0, 0, 0, 0).to_mysql_text(&mut w).unwrap();
    let expect = b"2021-07-15 00:00:00";
    let mut v = vec![expect.len() as u8];
    v.extend_from_slice(expect);
    assert_eq!(w, v);
}

#[test]
fn tagged_time_folds_fields_into_a_duration() {
    // 1 day, 2 hours, 3 minutes, 4 seconds and 1.000007 seconds of micros
    let mut w = Vec::new();
    Value::Time(false, 1, 2, 3, 4, 1_000_007).to_mysql_bin(&mut w, &col(ColumnType::MYSQL_TYPE_TIME))
        .unwrap();
    assert_eq!(w, vec![0x0c, 0x00, 1, 0, 0, 0, 2, 3, 5, 7, 0, 0, 0]);
}

#[test]
fn tagged_zero_time_is_one_zero_byte() {
    let mut w = Vec::new();
    Value::Time(false, 0, 0, 0, 0, 0).to_mysql_bin(&mut w, &col(ColumnType::MYSQL_TYPE_TIME))
        .unwrap();
    assert_eq!(w, vec![0x00]);
}

#[test]
fn negative_time_fails_in_text() {
    let mut w = Vec::new();
    let r = Value::Time(true, 0, 1, 0, 0, 0).to_mysql_text(&mut w);
    assert_eq!(r, Err(EncodeError::NegativeTime));
    assert!(w.is_empty());
}

#[test]
fn negative_time_fails_in_binary_whatever_the_column() {
    for t in [
        ColumnType::MYSQL_TYPE_TIME,
        ColumnType::MYSQL_TYPE_LONG,
        ColumnType::MYSQL_TYPE_DATETIME,
        ColumnType::MYSQL_TYPE_BLOB,
    ] {
        let mut w = Vec::new();
        let r = Value::Time(true, 0, 1, 0, 0, 0).to_mysql_bin(&mut w, &col(t));
        assert_eq!(r, Err(EncodeError::NegativeTime));
        assert!(w.is_empty());
    }
}

#[test]
fn tagged_time_text() {
    let mut w = Vec::new();
    Value::Time(false, 1, 2, 3, 4, 0).to_mysql_text(&mut w).unwrap();
    let expect = b"26:03:04";
    let mut v = vec![expect.len() as u8];
    v.extend_from_slice(expect);
    assert_eq!(w, v);
}

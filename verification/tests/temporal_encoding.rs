//! Temporal encoding: the packed binary layouts with their collapsing
//! length codes, and the text forms.

use mysql_srv::Column;
use mysql_srv::ColumnType;
use mysql_srv::EncodeError;
use mysql_srv::MysqlDate;
use mysql_srv::MysqlDateTime;
use mysql_srv::MysqlDuration;
use mysql_srv::ToMysqlValue;

fn col(t: ColumnType) -> Column {
    Column { coltype: t, colflags: 0 }
}

fn sample_datetime(micros: u32) -> MysqlDateTime {
    MysqlDateTime {
        year: 2021,
        month: 7,
        day: 15,
        hour: 13,
        minute: 14,
        second: 15,
        micros,
    }
}

#[test]
fn date_binary_form() {
    let d = MysqlDate { year: 2021, month: 7, day: 15 };
    let mut w = Vec::new();
    d.to_mysql_bin(&mut w, &col(ColumnType::MYSQL_TYPE_DATE)).unwrap();
    assert_eq!(w, vec![0x04, 0xe5, 0x07, 0x07, 0x0f]);
}

#[test]
fn date_rejects_other_columns() {
    let d = MysqlDate { year: 2021, month: 7, day: 15 };
    let mut w = Vec::new();
    let r = d.to_mysql_bin(&mut w, &col(ColumnType::MYSQL_TYPE_DATETIME));
    assert_eq!(r, Err(EncodeError::Incompatible { expected: ColumnType::MYSQL_TYPE_DATETIME }));
    assert!(w.is_empty());
}

#[test]
fn date_text_form() {
    let d = MysqlDate { year: 985, month: 7, day: 5 };
    let mut w = Vec::new();
    d.to_mysql_text(&mut w).unwrap();
    assert_eq!(w, vec![10, b'0', b'9', b'8', b'5', b'-', b'0', b'7', b'-', b'0', b'5']);
}

#[test]
fn datetime_zero_micros_collapses_to_seven() {
    let mut w = Vec::new();
    sample_datetime(0).to_mysql_bin(&mut w, &col(ColumnType::MYSQL_TYPE_DATETIME)).unwrap();
    assert_eq!(w, vec![0x07, 0xe5, 0x07, 0x07, 0x0f, 13, 14, 15]);
}

#[test]
fn datetime_with_micros_uses_eleven() {
    let mut w = Vec::new();
    sample_datetime(500_000).to_mysql_bin(&mut w, &col(ColumnType::MYSQL_TYPE_TIMESTAMP)).unwrap();
    assert_eq!(
        w,
        vec![0x0b, 0xe5, 0x07, 0x07, 0x0f, 13, 14, 15, 0x20, 0xa1, 0x07, 0x00]
    );
}

#[test]
fn datetime_rejects_date_column() {
    let mut w = Vec::new();
    let r = sample_datetime(0).to_mysql_bin(&mut w, &col(ColumnType::MYSQL_TYPE_DATE));
    assert_eq!(r, Err(EncodeError::Incompatible { expected: ColumnType::MYSQL_TYPE_DATE }));
}

#[test]
fn datetime_text_without_fraction() {
    let mut w = Vec::new();
    sample_datetime(0).to_mysql_text(&mut w).unwrap();
    let expect = b"2021-07-15 13:14:15";
    let mut v = vec![expect.len() as u8];
    v.extend_from_slice(expect);
    assert_eq!(w, v);
}

#[test]
fn datetime_text_with_fraction() {
    let mut w = Vec::new();
    sample_datetime(1500).to_mysql_text(&mut w).unwrap();
    let expect = b"2021-07-15 13:14:15.001500";
    let mut v = vec![expect.len() as u8];
    v.extend_from_slice(expect);
    assert_eq!(w, v);
}

#[test]
fn zero_duration_is_one_zero_byte() {
    let d = MysqlDuration { secs: 0, micros: 0 };
    let mut w = Vec::new();
    d.to_mysql_bin(&mut w, &col(ColumnType::MYSQL_TYPE_TIME)).unwrap();
    assert_eq!(w, vec![0x00]);
}

#[test]
fn duration_without_micros_is_nine_bytes() {
    // 2 days, 3 hours, 4 minutes, 5 seconds
    let d = MysqlDuration { secs: 2 * 86400 + 3 * 3600 + 4 * 60 + 5, micros: 0 };
    let mut w = Vec::new();
    d.to_mysql_bin(&mut w, &col(ColumnType::MYSQL_TYPE_TIME)).unwrap();
    assert_eq!(w, vec![0x08, 0x00, 2, 0, 0, 0, 3, 4, 5]);
}

#[test]
fn duration_with_micros_is_thirteen_bytes() {
    let d = MysqlDuration { secs: 3661, micros: 7 };
    let mut w = Vec::new();
    d.to_mysql_bin(&mut w, &col(ColumnType::MYSQL_TYPE_TIME)).unwrap();
    assert_eq!(w, vec![0x0c, 0x00, 0, 0, 0, 0, 1, 1, 1, 7, 0, 0, 0]);
}

#[test]
fn duration_at_the_day_bound() {
    let d = MysqlDuration { secs: 34 * 86400, micros: 0 };
    let mut w = Vec::new();
    d.to_mysql_bin(&mut w, &col(ColumnType::MYSQL_TYPE_TIME)).unwrap();
    assert_eq!(w, vec![0x08, 0x00, 34, 0, 0, 0, 0, 0, 0]);
}

#[test]
fn duration_rejects_other_columns() {
    let d = MysqlDuration { secs: 1, micros: 0 };
    let mut w = Vec::new();
    let r = d.to_mysql_bin(&mut w, &col(ColumnType::MYSQL_TYPE_LONG));
    assert_eq!(r, Err(EncodeError::Incompatible { expected: ColumnType::MYSQL_TYPE_LONG }));
}

#[test]
fn duration_text_folds_days_into_hours() {
    let d = MysqlDuration { secs: 25 * 3600 + 6 * 60 + 7, micros: 0 };
    let mut w = Vec::new();
    d.to_mysql_text(&mut w).unwrap();
    let expect = b"25:06:07";
    let mut v = vec![expect.len() as u8];
    v.extend_from_slice(expect);
    assert_eq!(w, v);
}

#[test]
fn duration_text_with_fraction() {
    let d = MysqlDuration { secs: 59, micros: 120 };
    let mut w = Vec::new();
    d.to_mysql_text(&mut w).unwrap();
    let expect = b"00:00:59.000120";
    let mut v = vec![expect.len() as u8];
    v.extend_from_slice(expect);
    assert_eq!(w, v);
}

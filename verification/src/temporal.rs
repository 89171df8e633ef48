//! Temporal values and their encoders: the calendar date, the datetime /
//! timestamp, and the non-negative time duration.  The binary layouts are
//! the protocol's variable-length packed forms, always choosing the shortest
//! valid length: trailing zero fields collapse the length code.

use vstd::prelude::*;

use crate::column::Column;
use crate::column::ColumnType;
use crate::error::bad;
use crate::error::EncodeError;
use crate::wire::dec_pad;
use crate::wire::le_bytes;
use crate::wire::lenenc_bytes;
use crate::wire::push_dec_pad;
use crate::wire::push_lenenc_slice;
use crate::wire::put_le_bytes;

verus! {

/// A calendar date, as the wire carries it: a year, a month and a day.
/// The fields are encoded as given; calendar validity is the caller's
/// business.
#[derive(Clone, Copy, Debug, PartialEq, Eq, Structural)]
pub struct MysqlDate {
    pub year: u16,
    pub month: u8,
    pub day: u8,
}

/// A datetime or timestamp: a date with a time of day and a microsecond
/// part.
#[derive(Clone, Copy, Debug, PartialEq, Eq, Structural)]
pub struct MysqlDateTime {
    pub year: u16,
    pub month: u8,
    pub day: u8,
    pub hour: u8,
    pub minute: u8,
    pub second: u8,
    pub micros: u32,
}

/// A non-negative duration: whole seconds and the microseconds below one
/// second.  Negative durations are not representable.
#[derive(Clone, Copy, Debug, PartialEq, Eq, Structural)]
pub struct MysqlDuration {
    pub secs: u64,
    pub micros: u32,
}

impl MysqlDuration {
    /// The whole-day part of the duration.
    pub open spec fn spec_days(&self) -> int {
        self.secs as int / 86400
    }
}

/// The characters of a date in the text format: `YYYY-MM-DD`.
pub open spec fn date_text_bytes(d: MysqlDate) -> Seq<u8> {
    dec_pad(d.year as nat, 4) + seq![45u8] + dec_pad(d.month as nat, 2) + seq![45u8] + dec_pad(
        d.day as nat,
        2,
    )
}

/// The binary form of a date: length 4, then the year in two little-endian
/// bytes, the month and the day.
pub open spec fn date_bin_bytes(d: MysqlDate) -> Seq<u8> {
    seq![4u8] + le_bytes(d.year as u64, 2) + seq![d.month, d.day]
}

/// What binary encoding produces for a date: its packed form against the
/// DATE column type, the incompatible-value error against any other.
pub open spec fn date_bin_spec(d: MysqlDate, c: Column) -> Result<Seq<u8>, EncodeError> {
    if c.coltype == ColumnType::MYSQL_TYPE_DATE {
        Ok(date_bin_bytes(d))
    } else {
        Err(EncodeError::Incompatible { expected: c.coltype })
    }
}

/// Text-encode a date as a length-encoded `YYYY-MM-DD`.
pub fn encode_date_text(w: &mut Vec<u8>, d: &MysqlDate)
    ensures
        final(w)@ == old(w)@ + lenenc_bytes(date_text_bytes(*d)),
{
    let mut tmp: Vec<u8> = Vec::new();
    push_dec_pad(&mut tmp, d.year as u64, 4);
    tmp.push(45);
    push_dec_pad(&mut tmp, d.month as u64, 2);
    tmp.push(45);
    push_dec_pad(&mut tmp, d.day as u64, 2);
    proof {
        assert(tmp@ =~= date_text_bytes(*d));
    }
    push_lenenc_slice(w, tmp.as_slice());
}

/// Binary-encode a date against column `c`.
pub fn encode_date_bin(w: &mut Vec<u8>, d: &MysqlDate, c: &Column) -> (r: Result<(), EncodeError>)
    ensures
        match date_bin_spec(*d, *c) {
            Ok(b) => r is Ok && final(w)@ == old(w)@ + b,
            Err(e) => r == Err::<(), EncodeError>(e) && final(w)@ == old(w)@,
        },
{
    match c.coltype {
        ColumnType::MYSQL_TYPE_DATE => {
            w.push(4);
            put_le_bytes(w, d.year as u64, 2);
            w.push(d.month);
            w.push(d.day);
            proof {
                assert(final(w)@ =~= old(w)@ + date_bin_bytes(*d));
            }
            Ok(())
        },
        _ => Err(bad(c)),
    }
}

/// The characters of a datetime in the text format:
/// `YYYY-MM-DD HH:MM:SS`, with `.ffffff` appended only when the microsecond
/// part is nonzero.
pub open spec fn datetime_text_bytes(t: MysqlDateTime) -> Seq<u8> {
    dec_pad(t.year as nat, 4) + seq![45u8] + dec_pad(t.month as nat, 2) + seq![45u8] + dec_pad(
        t.day as nat,
        2,
    ) + seq![32u8] + dec_pad(t.hour as nat, 2) + seq![58u8] + dec_pad(t.minute as nat, 2)
        + seq![58u8] + dec_pad(t.second as nat, 2) + (if t.micros != 0 {
        seq![46u8] + dec_pad(t.micros as nat, 6)
    } else {
        Seq::<u8>::empty()
    })
}

/// The binary form of a datetime: length 11 with a microsecond field when
/// the microsecond part is nonzero, else the collapsed length 7; then the
/// year in two little-endian bytes and one byte each for month, day, hour,
/// minute and second.
pub open spec fn datetime_bin_bytes(t: MysqlDateTime) -> Seq<u8> {
    let core = le_bytes(t.year as u64, 2) + seq![t.month, t.day, t.hour, t.minute, t.second];
    if t.micros != 0 {
        seq![11u8] + core + le_bytes(t.micros as u64, 4)
    } else {
        seq![7u8] + core
    }
}

/// What binary encoding produces for a datetime: its packed form against
/// the DATETIME and TIMESTAMP column types, the incompatible-value error
/// against any other.
pub open spec fn datetime_bin_spec(t: MysqlDateTime, c: Column) -> Result<Seq<u8>, EncodeError> {
    if c.coltype == ColumnType::MYSQL_TYPE_DATETIME || c.coltype
        == ColumnType::MYSQL_TYPE_TIMESTAMP {
        Ok(datetime_bin_bytes(t))
    } else {
        Err(EncodeError::Incompatible { expected: c.coltype })
    }
}

/// Text-encode a datetime as a length-encoded
/// `YYYY-MM-DD HH:MM:SS[.ffffff]`.
pub fn encode_datetime_text(w: &mut Vec<u8>, t: &MysqlDateTime)
    ensures
        final(w)@ == old(w)@ + lenenc_bytes(datetime_text_bytes(*t)),
{
    let mut tmp: Vec<u8> = Vec::new();
    push_dec_pad(&mut tmp, t.year as u64, 4);
    tmp.push(45);
    push_dec_pad(&mut tmp, t.month as u64, 2);
    tmp.push(45);
    push_dec_pad(&mut tmp, t.day as u64, 2);
    tmp.push(32);
    push_dec_pad(&mut tmp, t.hour as u64, 2);
    tmp.push(58);
    push_dec_pad(&mut tmp, t.minute as u64, 2);
    tmp.push(58);
    push_dec_pad(&mut tmp, t.second as u64, 2);
    if t.micros != 0 {
        tmp.push(46);
        push_dec_pad(&mut tmp, t.micros as u64, 6);
    }
    proof {
        assert(tmp@ =~= datetime_text_bytes(*t));
    }
    push_lenenc_slice(w, tmp.as_slice());
}

/// Binary-encode a datetime against column `c`.
pub fn encode_datetime_bin(w: &mut Vec<u8>, t: &MysqlDateTime, c: &Column) -> (r: Result<
    (),
    EncodeError,
>)
    ensures
        match datetime_bin_spec(*t, *c) {
            Ok(b) => r is Ok && final(w)@ == old(w)@ + b,
            Err(e) => r == Err::<(), EncodeError>(e) && final(w)@ == old(w)@,
        },
{
    match c.coltype {
        ColumnType::MYSQL_TYPE_DATETIME | ColumnType::MYSQL_TYPE_TIMESTAMP => {
            if t.micros != 0 {
                w.push(11);
            } else {
                w.push(7);
            }
            put_le_bytes(w, t.year as u64, 2);
            w.push(t.month);
            w.push(t.day);
            w.push(t.hour);
            w.push(t.minute);
            w.push(t.second);
            if t.micros != 0 {
                put_le_bytes(w, t.micros as u64, 4);
            }
            proof {
                assert(final(w)@ =~= old(w)@ + datetime_bin_bytes(*t));
            }
            Ok(())
        },
        _ => Err(bad(c)),
    }
}

/// The characters of a duration in the text format: `HH:MM:SS`, with
/// `.ffffff` appended only when the microsecond part is nonzero.  The whole
/// elapsed time folds into the hour field, which may exceed two digits.
pub open spec fn duration_text_bytes(d: MysqlDuration) -> Seq<u8> {
    dec_pad((d.secs / 3600) as nat, 2) + seq![58u8] + dec_pad(((d.secs % 3600) / 60) as nat, 2)
        + seq![58u8] + dec_pad((d.secs % 60) as nat, 2) + (if d.micros != 0 {
        seq![46u8] + dec_pad(d.micros as nat, 6)
    } else {
        Seq::<u8>::empty()
    })
}

/// The binary form of a duration: a single zero byte for the zero duration;
/// otherwise length 12 with a microsecond field when the microsecond part is
/// nonzero, else the collapsed length 8; then the sign byte (always
/// positive), the day count in four little-endian bytes, and one byte each
/// for hour, minute and second.
pub open spec fn duration_bin_bytes(d: MysqlDuration) -> Seq<u8> {
    if d.secs == 0 && d.micros == 0 {
        seq![0u8]
    } else {
        let core = seq![0u8] + le_bytes((d.secs / 86400) as u64, 4) + seq![
            ((d.secs % 86400) / 3600) as u8,
            ((d.secs % 3600) / 60) as u8,
            (d.secs % 60) as u8,
        ];
        if d.micros != 0 {
            seq![12u8] + core + le_bytes(d.micros as u64, 4)
        } else {
            seq![8u8] + core
        }
    }
}

/// What binary encoding produces for a duration: its packed form against
/// the TIME column type, the incompatible-value error against any other.
pub open spec fn duration_bin_spec(d: MysqlDuration, c: Column) -> Result<Seq<u8>, EncodeError> {
    if c.coltype == ColumnType::MYSQL_TYPE_TIME {
        Ok(duration_bin_bytes(d))
    } else {
        Err(EncodeError::Incompatible { expected: c.coltype })
    }
}

/// Text-encode a duration as a length-encoded `HH:MM:SS[.ffffff]`.
pub fn encode_duration_text(w: &mut Vec<u8>, d: &MysqlDuration)
    ensures
        final(w)@ == old(w)@ + lenenc_bytes(duration_text_bytes(*d)),
{
    let mut tmp: Vec<u8> = Vec::new();
    push_dec_pad(&mut tmp, d.secs / 3600, 2);
    tmp.push(58);
    push_dec_pad(&mut tmp, (d.secs % 3600) / 60, 2);
    tmp.push(58);
    push_dec_pad(&mut tmp, d.secs % 60, 2);
    if d.micros != 0 {
        tmp.push(46);
        push_dec_pad(&mut tmp, d.micros as u64, 6);
    }
    proof {
        assert(tmp@ =~= duration_text_bytes(*d));
    }
    push_lenenc_slice(w, tmp.as_slice());
}

/// Binary-encode a duration against column `c`.  The protocol bounds the
/// day count of a binary TIME at 34 days; larger durations are outside this
/// encoder's contract.
pub fn encode_duration_bin(w: &mut Vec<u8>, d: &MysqlDuration, c: &Column) -> (r: Result<
    (),
    EncodeError,
>)
    requires
        d.spec_days() <= 34,
    ensures
        match duration_bin_spec(*d, *c) {
            Ok(b) => r is Ok && final(w)@ == old(w)@ + b,
            Err(e) => r == Err::<(), EncodeError>(e) && final(w)@ == old(w)@,
        },
{
    match c.coltype {
        ColumnType::MYSQL_TYPE_TIME => {
            if d.secs == 0 && d.micros == 0 {
                w.push(0);
            } else {
                if d.micros != 0 {
                    w.push(12);
                } else {
                    w.push(8);
                }
                w.push(0);
                put_le_bytes(w, d.secs / 86400, 4);
                w.push(((d.secs % 86400) / 3600) as u8);
                w.push(((d.secs % 3600) / 60) as u8);
                w.push((d.secs % 60) as u8);
                if d.micros != 0 {
                    put_le_bytes(w, d.micros as u64, 4);
                }
            }
            proof {
                assert(final(w)@ =~= old(w)@ + duration_bin_bytes(*d));
            }
            Ok(())
        },
        _ => Err(bad(c)),
    }
}

/// A datetime with a zero microsecond part binary-encodes to the collapsed
/// form: the length byte 7 followed by 7 payload bytes.  With a nonzero
/// microsecond part it encodes to the length byte 11 followed by 11 payload
/// bytes, the last 4 holding the microseconds in little-endian order.
pub proof fn lemma_datetime_bin_lengths(t: MysqlDateTime, c: Column)
    requires
        c.coltype == ColumnType::MYSQL_TYPE_DATETIME || c.coltype
            == ColumnType::MYSQL_TYPE_TIMESTAMP,
    ensures
        datetime_bin_spec(t, c) is Ok,
        t.micros == 0 ==> datetime_bin_spec(t, c)->Ok_0.len() == 8 && datetime_bin_spec(
            t,
            c,
        )->Ok_0[0] == 7,
        t.micros != 0 ==> datetime_bin_spec(t, c)->Ok_0.len() == 12 && datetime_bin_spec(
            t,
            c,
        )->Ok_0[0] == 11 && datetime_bin_spec(t, c)->Ok_0.subrange(8, 12) == le_bytes(
            t.micros as u64,
            4,
        ),
{
    if t.micros != 0 {
        assert(datetime_bin_bytes(t).subrange(8, 12) =~= le_bytes(t.micros as u64, 4));
    }
}

/// A duration's binary TIME form always takes the shortest legal length:
/// the zero duration is the single zero length byte; with no microseconds
/// the length byte is 8 followed by 8 payload bytes; with microseconds the
/// length byte is 12 followed by 12 payload bytes, the last 4 holding the
/// microseconds in little-endian order.
pub proof fn lemma_duration_bin_lengths(d: MysqlDuration, c: Column)
    requires
        c.coltype == ColumnType::MYSQL_TYPE_TIME,
    ensures
        duration_bin_spec(d, c) is Ok,
        d.secs == 0 && d.micros == 0 ==> duration_bin_spec(d, c)->Ok_0 =~= seq![0u8],
        !(d.secs == 0 && d.micros == 0) && d.micros == 0 ==> duration_bin_spec(d, c)->Ok_0.len()
            == 9 && duration_bin_spec(d, c)->Ok_0[0] == 8,
        d.micros != 0 ==> duration_bin_spec(d, c)->Ok_0.len() == 13 && duration_bin_spec(
            d,
            c,
        )->Ok_0[0] == 12 && duration_bin_spec(d, c)->Ok_0.subrange(9, 13) == le_bytes(
            d.micros as u64,
            4,
        ),
{
    if d.micros != 0 {
        assert(duration_bin_bytes(d).subrange(9, 13) =~= le_bytes(d.micros as u64, 4));
    }
}

} // verus!

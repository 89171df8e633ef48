//! The dynamically tagged value a backing driver produces, and its
//! dispatcher: each variant is narrowed to the concrete encoder that holds
//! it and delegated, so every range check lives with the concrete encoders.

use vstd::prelude::*;

use vstd::pervasive::unreached;

use crate::bytes::bytes_bin_spec;
use crate::bytes::encode_bytes_bin;
use crate::column::Column;
use crate::column::ColumnType;
use crate::error::bad;
use crate::error::EncodeError;
use crate::float::double_bin_spec;
use crate::float::encode_double_bin;
use crate::float::encode_float_bin;
use crate::float::float_bin_spec;
use crate::ints::encode_int_bin;
use crate::ints::encode_int_text;
use crate::ints::int_bin_spec;
use crate::ints::int_text_spec;
use crate::temporal::date_bin_bytes;
use crate::temporal::datetime_bin_spec;
use crate::temporal::datetime_text_bytes;
use crate::temporal::duration_bin_spec;
use crate::temporal::duration_text_bytes;
use crate::temporal::encode_date_bin;
use crate::temporal::encode_datetime_bin;
use crate::temporal::encode_datetime_text;
use crate::temporal::encode_duration_bin;
use crate::temporal::encode_duration_text;
use crate::temporal::MysqlDate;
use crate::temporal::MysqlDateTime;
use crate::temporal::MysqlDuration;
use crate::wire::lenenc_bytes;
use crate::wire::push_lenenc_slice;

verus! {

/// A value as a backing driver typically hands it over: either NULL, an
/// opaque byte payload, a 64-bit number, a floating-point bit pattern, or a
/// temporal shape.  Floating-point values are carried as their IEEE-754 bit
/// patterns.
#[derive(Clone, Debug, PartialEq)]
pub enum Value {
    /// SQL NULL.
    NULL,
    /// An opaque byte payload; strings travel in this shape.
    Bytes(Vec<u8>),
    /// A signed 64-bit integer, the driver's one shape for every signed
    /// width.
    Int(i64),
    /// An unsigned 64-bit integer.
    UInt(u64),
    /// A single-precision float, as its 32-bit pattern.
    Float(u32),
    /// A double-precision float, as its 64-bit pattern.
    Double(u64),
    /// Year, month, day, hour, minute, second, microsecond.
    Date(u16, u8, u8, u8, u8, u8, u32),
    /// Negative?, days, hours, minutes, seconds, microseconds.
    Time(bool, u32, u8, u8, u8, u32),
}

/// The datetime shape of a Date value's fields.
pub open spec fn date_fields(y: u16, mo: u8, d: u8, h: u8, mi: u8, s: u8, us: u32) -> MysqlDateTime {
    MysqlDateTime { year: y, month: mo, day: d, hour: h, minute: mi, second: s, micros: us }
}

/// The duration a Time value's fields denote: days, hours, minutes and
/// seconds fold into whole seconds, and so do whole seconds hiding in the
/// microsecond field.
pub open spec fn time_duration(d: u32, h: u8, m: u8, s: u8, us: u32) -> MysqlDuration {
    MysqlDuration {
        secs: (d * 86400 + h * 3600 + m * 60 + s + us / 1_000_000) as u64,
        micros: (us % 1_000_000) as u32,
    }
}

/// Fold Time fields into a duration.
pub fn to_duration(d: u32, h: u8, m: u8, s: u8, us: u32) -> (r: MysqlDuration)
    ensures
        r == time_duration(d, h, m, s, us),
{
    let extra: u64 = (us as u64) / 1_000_000;
    let secs: u64 = (d as u64) * 86400 + (h as u64) * 3600 + (m as u64) * 60 + (s as u64) + extra;
    MysqlDuration { secs, micros: us % 1_000_000 }
}

/// When text encoding may be invoked on a value.  Floating-point text
/// rendering lives outside this crate, so the float shapes stay out.
pub open spec fn value_text_req(v: Value) -> bool {
    match v {
        Value::Float(_) => false,
        Value::Double(_) => false,
        _ => true,
    }
}

/// When binary encoding may be invoked on a value: never on NULL — the
/// caller's null bitmap must have filtered it — and a non-negative time
/// must fit the protocol's 34-day bound on a binary TIME.
pub open spec fn value_bin_req(v: Value) -> bool {
    match v {
        Value::NULL => false,
        Value::Time(neg, d, h, m, s, us) => neg || time_duration(d, h, m, s, us).spec_days()
            <= 34,
        _ => true,
    }
}

/// What text encoding produces for a value: NULL's one-byte marker, and
/// every other value's length-encoded string; only a negative time fails.
pub open spec fn value_text_spec(v: Value) -> Result<Seq<u8>, EncodeError> {
    match v {
        Value::NULL => Ok(seq![0xfbu8]),
        Value::Bytes(b) => Ok(lenenc_bytes(b@)),
        Value::Int(n) => Ok(int_text_spec(n as int)),
        Value::UInt(n) => Ok(int_text_spec(n as int)),
        Value::Float(_) => arbitrary(),
        Value::Double(_) => arbitrary(),
        Value::Date(y, mo, d, h, mi, s, us) => Ok(
            lenenc_bytes(datetime_text_bytes(date_fields(y, mo, d, h, mi, s, us))),
        ),
        Value::Time(neg, d, h, m, s, us) => if neg {
            Err(EncodeError::NegativeTime)
        } else {
            Ok(lenenc_bytes(duration_text_bytes(time_duration(d, h, m, s, us))))
        },
    }
}

/// What binary encoding produces for a value under column `c`: each variant
/// narrowed to the concrete encoder that holds it.  A Date value with a
/// zero time of day may fill a DATE column in the packed date form; with
/// any nonzero time-of-day field a DATE column rejects it.
pub open spec fn value_bin_spec(v: Value, c: Column) -> Result<Seq<u8>, EncodeError> {
    match v {
        Value::NULL => arbitrary(),
        Value::Bytes(b) => bytes_bin_spec(b@, c),
        Value::Int(n) => int_bin_spec(n as int, c),
        Value::UInt(n) => int_bin_spec(n as int, c),
        Value::Float(bits) => float_bin_spec(bits, c),
        Value::Double(bits) => double_bin_spec(bits, c),
        Value::Date(y, mo, d, h, mi, s, us) => if c.coltype == ColumnType::MYSQL_TYPE_DATE {
            if h == 0 && mi == 0 && s == 0 && us == 0 {
                Ok(date_bin_bytes(MysqlDate { year: y, month: mo, day: d }))
            } else {
                Err(EncodeError::Incompatible { expected: c.coltype })
            }
        } else {
            datetime_bin_spec(date_fields(y, mo, d, h, mi, s, us), c)
        },
        Value::Time(neg, d, h, m, s, us) => if neg {
            Err(EncodeError::NegativeTime)
        } else {
            duration_bin_spec(time_duration(d, h, m, s, us), c)
        },
    }
}

/// Text-encode a value.
pub fn encode_value_text(w: &mut Vec<u8>, v: &Value) -> (r: Result<(), EncodeError>)
    requires
        value_text_req(*v),
    ensures
        match value_text_spec(*v) {
            Ok(b) => r is Ok && final(w)@ == old(w)@ + b,
            Err(e) => r == Err::<(), EncodeError>(e) && final(w)@ == old(w)@,
        },
{
    match v {
        Value::NULL => {
            w.push(0xfb);
            proof {
                assert(final(w)@ =~= old(w)@ + seq![0xfbu8]);
            }
            Ok(())
        },
        Value::Bytes(b) => {
            push_lenenc_slice(w, b.as_slice());
            Ok(())
        },
        Value::Int(n) => {
            encode_int_text(w, *n as i128);
            Ok(())
        },
        Value::UInt(n) => {
            encode_int_text(w, *n as i128);
            Ok(())
        },
        Value::Float(_) => unreached(),
        Value::Double(_) => unreached(),
        Value::Date(y, mo, d, h, mi, s, us) => {
            let t = MysqlDateTime {
                year: *y,
                month: *mo,
                day: *d,
                hour: *h,
                minute: *mi,
                second: *s,
                micros: *us,
            };
            encode_datetime_text(w, &t);
            Ok(())
        },
        Value::Time(neg, d, h, m, s, us) => {
            if *neg {
                Err(EncodeError::NegativeTime)
            } else {
                let dur = to_duration(*d, *h, *m, *s, *us);
                encode_duration_text(w, &dur);
                Ok(())
            }
        },
    }
}

/// Binary-encode a value against column `c`.
pub fn encode_value_bin(w: &mut Vec<u8>, v: &Value, c: &Column) -> (r: Result<(), EncodeError>)
    requires
        value_bin_req(*v),
    ensures
        match value_bin_spec(*v, *c) {
            Ok(b) => r is Ok && final(w)@ == old(w)@ + b,
            Err(e) => r == Err::<(), EncodeError>(e) && final(w)@ == old(w)@,
        },
{
    match v {
        Value::NULL => unreached(),
        Value::Bytes(b) => encode_bytes_bin(w, b.as_slice(), c),
        Value::Int(n) => encode_int_bin(w, *n as i128, c),
        Value::UInt(n) => encode_int_bin(w, *n as i128, c),
        Value::Float(bits) => encode_float_bin(w, *bits, c),
        Value::Double(bits) => encode_double_bin(w, *bits, c),
        Value::Date(y, mo, d, h, mi, s, us) => {
            if matches!(c.coltype, ColumnType::MYSQL_TYPE_DATE) {
                if *h == 0 && *mi == 0 && *s == 0 && *us == 0 {
                    let date = MysqlDate { year: *y, month: *mo, day: *d };
                    encode_date_bin(w, &date, c)
                } else {
                    Err(bad(c))
                }
            } else {
                let t = MysqlDateTime {
                    year: *y,
                    month: *mo,
                    day: *d,
                    hour: *h,
                    minute: *mi,
                    second: *s,
                    micros: *us,
                };
                encode_datetime_bin(w, &t, c)
            }
        },
        Value::Time(neg, d, h, m, s, us) => {
            if *neg {
                Err(EncodeError::NegativeTime)
            } else {
                let dur = to_duration(*d, *h, *m, *s, *us);
                encode_duration_bin(w, &dur, c)
            }
        },
    }
}

/// A negative time value is rejected whatever the target format: text
/// encoding fails, and binary encoding fails against every column.
pub proof fn lemma_negative_time_rejected(d: u32, h: u8, m: u8, s: u8, us: u32, c: Column)
    ensures
        value_text_spec(Value::Time(true, d, h, m, s, us)) == Err::<Seq<u8>, EncodeError>(
            EncodeError::NegativeTime,
        ),
        value_bin_spec(Value::Time(true, d, h, m, s, us), c) == Err::<Seq<u8>, EncodeError>(
            EncodeError::NegativeTime,
        ),
{
}

} // verus!

//! The Encodable capability: a value that can render itself in both wire
//! formats.  Text encoding never takes a column descriptor — the text
//! protocol represents every value as a length-encoded string whatever the
//! declared type — while binary encoding is directed by the declared column
//! type and validates the value against it.
//!
//! Every implementation forwards to the one concrete encoder that owns its
//! shape, so no coercion rule is stated twice.

use vstd::prelude::*;

use vstd::pervasive::unreached;
use vstd::utf8::encode_utf8;

use crate::bytes::bytes_bin_spec;
use crate::bytes::encode_bytes_bin;
use crate::column::Column;
use crate::error::EncodeError;
use crate::float::double_bin_spec;
use crate::float::encode_double_bin;
use crate::float::encode_float_bin;
use crate::float::float_bin_spec;
use crate::ints::encode_int_bin;
use crate::ints::encode_int_text;
use crate::ints::int_bin_spec;
use crate::ints::int_text_spec;
use crate::temporal::date_bin_spec;
use crate::temporal::date_text_bytes;
use crate::temporal::datetime_bin_spec;
use crate::temporal::datetime_text_bytes;
use crate::temporal::duration_bin_spec;
use crate::temporal::duration_text_bytes;
use crate::temporal::encode_date_bin;
use crate::temporal::encode_date_text;
use crate::temporal::encode_datetime_bin;
use crate::temporal::encode_datetime_text;
use crate::temporal::encode_duration_bin;
use crate::temporal::encode_duration_text;
use crate::temporal::MysqlDate;
use crate::temporal::MysqlDateTime;
use crate::temporal::MysqlDuration;
use crate::value::encode_value_bin;
use crate::value::encode_value_text;
use crate::value::value_bin_req;
use crate::value::value_bin_spec;
use crate::value::value_text_req;
use crate::value::value_text_spec;
use crate::value::Value;
use crate::wire::lenenc_bytes;
use crate::wire::push_lenenc_slice;

verus! {

/// Implementors can be sent as a single resultset value to a client.
///
/// The two spec functions `text_spec` and `bin_spec` pin down, for every
/// admitted value, either the exact bytes an encode call appends to the
/// sink or the exact error it reports; on an error the sink is untouched.
/// `text_req` and `bin_req` say when a call is admitted at all: binary
/// encoding is never invoked on a NULL — filtering NULLs into the row's
/// null bitmap is the caller's job, checked here as a precondition.
pub trait ToMysqlValue {
    /// When text encoding may be invoked on this value.
    spec fn text_req(&self) -> bool;

    /// When binary encoding may be invoked on this value against column
    /// `c`.
    spec fn bin_req(&self, c: Column) -> bool;

    /// The bytes text encoding appends, or the error it reports.
    spec fn text_spec(&self) -> Result<Seq<u8>, EncodeError>;

    /// The bytes binary encoding appends against column `c`, or the error
    /// it reports.
    spec fn bin_spec(&self, c: Column) -> Result<Seq<u8>, EncodeError>;

    /// Whether this value is SQL NULL.
    spec fn spec_is_null(&self) -> bool;

    /// Encode this value using the text-based protocol.
    fn to_mysql_text(&self, w: &mut Vec<u8>) -> (r: Result<(), EncodeError>)
        requires
            self.text_req(),
        ensures
            match self.text_spec() {
                Ok(b) => r is Ok && final(w)@ == old(w)@ + b,
                Err(e) => r == Err::<(), EncodeError>(e) && final(w)@ == old(w)@,
            },
    ;

    /// Encode this value using the binary protocol, against the column the
    /// client was told to expect.
    fn to_mysql_bin(&self, w: &mut Vec<u8>, c: &Column) -> (r: Result<(), EncodeError>)
        requires
            self.bin_req(*c),
        ensures
            match self.bin_spec(*c) {
                Ok(b) => r is Ok && final(w)@ == old(w)@ + b,
                Err(e) => r == Err::<(), EncodeError>(e) && final(w)@ == old(w)@,
            },
    ;

    /// Is this value NULL?
    fn is_null(&self) -> (r: bool)
        ensures
            r == self.spec_is_null(),
    ;
}

impl ToMysqlValue for u8 {
    open spec fn text_req(&self) -> bool {
        true
    }

    open spec fn bin_req(&self, c: Column) -> bool {
        true
    }

    open spec fn text_spec(&self) -> Result<Seq<u8>, EncodeError> {
        Ok(int_text_spec(*self as int))
    }

    open spec fn bin_spec(&self, c: Column) -> Result<Seq<u8>, EncodeError> {
        int_bin_spec(*self as int, c)
    }

    open spec fn spec_is_null(&self) -> bool {
        false
    }

    fn to_mysql_text(&self, w: &mut Vec<u8>) -> (r: Result<(), EncodeError>) {
        encode_int_text(w, *self as i128);
        Ok(())
    }

    fn to_mysql_bin(&self, w: &mut Vec<u8>, c: &Column) -> (r: Result<(), EncodeError>) {
        encode_int_bin(w, *self as i128, c)
    }

    fn is_null(&self) -> (r: bool) {
        false
    }
}

impl ToMysqlValue for i8 {
    open spec fn text_req(&self) -> bool {
        true
    }

    open spec fn bin_req(&self, c: Column) -> bool {
        true
    }

    open spec fn text_spec(&self) -> Result<Seq<u8>, EncodeError> {
        Ok(int_text_spec(*self as int))
    }

    open spec fn bin_spec(&self, c: Column) -> Result<Seq<u8>, EncodeError> {
        int_bin_spec(*self as int, c)
    }

    open spec fn spec_is_null(&self) -> bool {
        false
    }

    fn to_mysql_text(&self, w: &mut Vec<u8>) -> (r: Result<(), EncodeError>) {
        encode_int_text(w, *self as i128);
        Ok(())
    }

    fn to_mysql_bin(&self, w: &mut Vec<u8>, c: &Column) -> (r: Result<(), EncodeError>) {
        encode_int_bin(w, *self as i128, c)
    }

    fn is_null(&self) -> (r: bool) {
        false
    }
}

impl ToMysqlValue for u16 {
    open spec fn text_req(&self) -> bool {
        true
    }

    open spec fn bin_req(&self, c: Column) -> bool {
        true
    }

    open spec fn text_spec(&self) -> Result<Seq<u8>, EncodeError> {
        Ok(int_text_spec(*self as int))
    }

    open spec fn bin_spec(&self, c: Column) -> Result<Seq<u8>, EncodeError> {
        int_bin_spec(*self as int, c)
    }

    open spec fn spec_is_null(&self) -> bool {
        false
    }

    fn to_mysql_text(&self, w: &mut Vec<u8>) -> (r: Result<(), EncodeError>) {
        encode_int_text(w, *self as i128);
        Ok(())
    }

    fn to_mysql_bin(&self, w: &mut Vec<u8>, c: &Column) -> (r: Result<(), EncodeError>) {
        encode_int_bin(w, *self as i128, c)
    }

    fn is_null(&self) -> (r: bool) {
        false
    }
}

impl ToMysqlValue for i16 {
    open spec fn text_req(&self) -> bool {
        true
    }

    open spec fn bin_req(&self, c: Column) -> bool {
        true
    }

    open spec fn text_spec(&self) -> Result<Seq<u8>, EncodeError> {
        Ok(int_text_spec(*self as int))
    }

    open spec fn bin_spec(&self, c: Column) -> Result<Seq<u8>, EncodeError> {
        int_bin_spec(*self as int, c)
    }

    open spec fn spec_is_null(&self) -> bool {
        false
    }

    fn to_mysql_text(&self, w: &mut Vec<u8>) -> (r: Result<(), EncodeError>) {
        encode_int_text(w, *self as i128);
        Ok(())
    }

    fn to_mysql_bin(&self, w: &mut Vec<u8>, c: &Column) -> (r: Result<(), EncodeError>) {
        encode_int_bin(w, *self as i128, c)
    }

    fn is_null(&self) -> (r: bool) {
        false
    }
}

impl ToMysqlValue for u32 {
    open spec fn text_req(&self) -> bool {
        true
    }

    open spec fn bin_req(&self, c: Column) -> bool {
        true
    }

    open spec fn text_spec(&self) -> Result<Seq<u8>, EncodeError> {
        Ok(int_text_spec(*self as int))
    }

    open spec fn bin_spec(&self, c: Column) -> Result<Seq<u8>, EncodeError> {
        int_bin_spec(*self as int, c)
    }

    open spec fn spec_is_null(&self) -> bool {
        false
    }

    fn to_mysql_text(&self, w: &mut Vec<u8>) -> (r: Result<(), EncodeError>) {
        encode_int_text(w, *self as i128);
        Ok(())
    }

    fn to_mysql_bin(&self, w: &mut Vec<u8>, c: &Column) -> (r: Result<(), EncodeError>) {
        encode_int_bin(w, *self as i128, c)
    }

    fn is_null(&self) -> (r: bool) {
        false
    }
}

impl ToMysqlValue for i32 {
    open spec fn text_req(&self) -> bool {
        true
    }

    open spec fn bin_req(&self, c: Column) -> bool {
        true
    }

    open spec fn text_spec(&self) -> Result<Seq<u8>, EncodeError> {
        Ok(int_text_spec(*self as int))
    }

    open spec fn bin_spec(&self, c: Column) -> Result<Seq<u8>, EncodeError> {
        int_bin_spec(*self as int, c)
    }

    open spec fn spec_is_null(&self) -> bool {
        false
    }

    fn to_mysql_text(&self, w: &mut Vec<u8>) -> (r: Result<(), EncodeError>) {
        encode_int_text(w, *self as i128);
        Ok(())
    }

    fn to_mysql_bin(&self, w: &mut Vec<u8>, c: &Column) -> (r: Result<(), EncodeError>) {
        encode_int_bin(w, *self as i128, c)
    }

    fn is_null(&self) -> (r: bool) {
        false
    }
}

impl ToMysqlValue for u64 {
    open spec fn text_req(&self) -> bool {
        true
    }

    open spec fn bin_req(&self, c: Column) -> bool {
        true
    }

    open spec fn text_spec(&self) -> Result<Seq<u8>, EncodeError> {
        Ok(int_text_spec(*self as int))
    }

    open spec fn bin_spec(&self, c: Column) -> Result<Seq<u8>, EncodeError> {
        int_bin_spec(*self as int, c)
    }

    open spec fn spec_is_null(&self) -> bool {
        false
    }

    fn to_mysql_text(&self, w: &mut Vec<u8>) -> (r: Result<(), EncodeError>) {
        encode_int_text(w, *self as i128);
        Ok(())
    }

    fn to_mysql_bin(&self, w: &mut Vec<u8>, c: &Column) -> (r: Result<(), EncodeError>) {
        encode_int_bin(w, *self as i128, c)
    }

    fn is_null(&self) -> (r: bool) {
        false
    }
}

impl ToMysqlValue for i64 {
    open spec fn text_req(&self) -> bool {
        true
    }

    open spec fn bin_req(&self, c: Column) -> bool {
        true
    }

    open spec fn text_spec(&self) -> Result<Seq<u8>, EncodeError> {
        Ok(int_text_spec(*self as int))
    }

    open spec fn bin_spec(&self, c: Column) -> Result<Seq<u8>, EncodeError> {
        int_bin_spec(*self as int, c)
    }

    open spec fn spec_is_null(&self) -> bool {
        false
    }

    fn to_mysql_text(&self, w: &mut Vec<u8>) -> (r: Result<(), EncodeError>) {
        encode_int_text(w, *self as i128);
        Ok(())
    }

    fn to_mysql_bin(&self, w: &mut Vec<u8>, c: &Column) -> (r: Result<(), EncodeError>) {
        encode_int_bin(w, *self as i128, c)
    }

    fn is_null(&self) -> (r: bool) {
        false
    }
}

impl ToMysqlValue for usize {
    open spec fn text_req(&self) -> bool {
        true
    }

    open spec fn bin_req(&self, c: Column) -> bool {
        true
    }

    open spec fn text_spec(&self) -> Result<Seq<u8>, EncodeError> {
        Ok(int_text_spec(*self as int))
    }

    open spec fn bin_spec(&self, c: Column) -> Result<Seq<u8>, EncodeError> {
        int_bin_spec(*self as int, c)
    }

    open spec fn spec_is_null(&self) -> bool {
        false
    }

    fn to_mysql_text(&self, w: &mut Vec<u8>) -> (r: Result<(), EncodeError>) {
        encode_int_text(w, *self as i128);
        Ok(())
    }

    fn to_mysql_bin(&self, w: &mut Vec<u8>, c: &Column) -> (r: Result<(), EncodeError>) {
        encode_int_bin(w, *self as i128, c)
    }

    fn is_null(&self) -> (r: bool) {
        false
    }
}

impl ToMysqlValue for isize {
    open spec fn text_req(&self) -> bool {
        true
    }

    open spec fn bin_req(&self, c: Column) -> bool {
        true
    }

    open spec fn text_spec(&self) -> Result<Seq<u8>, EncodeError> {
        Ok(int_text_spec(*self as int))
    }

    open spec fn bin_spec(&self, c: Column) -> Result<Seq<u8>, EncodeError> {
        int_bin_spec(*self as int, c)
    }

    open spec fn spec_is_null(&self) -> bool {
        false
    }

    fn to_mysql_text(&self, w: &mut Vec<u8>) -> (r: Result<(), EncodeError>) {
        encode_int_text(w, *self as i128);
        Ok(())
    }

    fn to_mysql_bin(&self, w: &mut Vec<u8>, c: &Column) -> (r: Result<(), EncodeError>) {
        encode_int_bin(w, *self as i128, c)
    }

    fn is_null(&self) -> (r: bool) {
        false
    }
}

impl ToMysqlValue for Vec<u8> {
    open spec fn text_req(&self) -> bool {
        true
    }

    open spec fn bin_req(&self, c: Column) -> bool {
        true
    }

    open spec fn text_spec(&self) -> Result<Seq<u8>, EncodeError> {
        Ok(lenenc_bytes(self@))
    }

    open spec fn bin_spec(&self, c: Column) -> Result<Seq<u8>, EncodeError> {
        bytes_bin_spec(self@, c)
    }

    open spec fn spec_is_null(&self) -> bool {
        false
    }

    fn to_mysql_text(&self, w: &mut Vec<u8>) -> (r: Result<(), EncodeError>) {
        push_lenenc_slice(w, self.as_slice());
        Ok(())
    }

    fn to_mysql_bin(&self, w: &mut Vec<u8>, c: &Column) -> (r: Result<(), EncodeError>) {
        encode_bytes_bin(w, self.as_slice(), c)
    }

    fn is_null(&self) -> (r: bool) {
        false
    }
}

impl ToMysqlValue for String {
    open spec fn text_req(&self) -> bool {
        true
    }

    open spec fn bin_req(&self, c: Column) -> bool {
        true
    }

    open spec fn text_spec(&self) -> Result<Seq<u8>, EncodeError> {
        Ok(lenenc_bytes(encode_utf8(self@)))
    }

    open spec fn bin_spec(&self, c: Column) -> Result<Seq<u8>, EncodeError> {
        bytes_bin_spec(encode_utf8(self@), c)
    }

    open spec fn spec_is_null(&self) -> bool {
        false
    }

    fn to_mysql_text(&self, w: &mut Vec<u8>) -> (r: Result<(), EncodeError>) {
        push_lenenc_slice(w, self.as_str().as_bytes());
        Ok(())
    }

    fn to_mysql_bin(&self, w: &mut Vec<u8>, c: &Column) -> (r: Result<(), EncodeError>) {
        encode_bytes_bin(w, self.as_str().as_bytes(), c)
    }

    fn is_null(&self) -> (r: bool) {
        false
    }
}

impl ToMysqlValue for str {
    open spec fn text_req(&self) -> bool {
        true
    }

    open spec fn bin_req(&self, c: Column) -> bool {
        true
    }

    open spec fn text_spec(&self) -> Result<Seq<u8>, EncodeError> {
        Ok(lenenc_bytes(encode_utf8(self@)))
    }

    open spec fn bin_spec(&self, c: Column) -> Result<Seq<u8>, EncodeError> {
        bytes_bin_spec(encode_utf8(self@), c)
    }

    open spec fn spec_is_null(&self) -> bool {
        false
    }

    fn to_mysql_text(&self, w: &mut Vec<u8>) -> (r: Result<(), EncodeError>) {
        push_lenenc_slice(w, self.as_bytes());
        Ok(())
    }

    fn to_mysql_bin(&self, w: &mut Vec<u8>, c: &Column) -> (r: Result<(), EncodeError>) {
        encode_bytes_bin(w, self.as_bytes(), c)
    }

    fn is_null(&self) -> (r: bool) {
        false
    }
}

impl<T: ToMysqlValue> ToMysqlValue for Option<T> {
    open spec fn text_req(&self) -> bool {
        match self {
            Some(v) => v.text_req(),
            None => true,
        }
    }

    open spec fn bin_req(&self, c: Column) -> bool {
        match self {
            Some(v) => v.bin_req(c),
            None => false,
        }
    }

    open spec fn text_spec(&self) -> Result<Seq<u8>, EncodeError> {
        match self {
            Some(v) => v.text_spec(),
            None => Ok(seq![0xfbu8]),
        }
    }

    open spec fn bin_spec(&self, c: Column) -> Result<Seq<u8>, EncodeError> {
        match self {
            Some(v) => v.bin_spec(c),
            None => arbitrary(),
        }
    }

    open spec fn spec_is_null(&self) -> bool {
        (*self) is None
    }

    fn to_mysql_text(&self, w: &mut Vec<u8>) -> (r: Result<(), EncodeError>) {
        match self {
            Some(v) => v.to_mysql_text(w),
            None => {
                w.push(0xfb);
                proof {
                    assert(final(w)@ =~= old(w)@ + seq![0xfbu8]);
                }
                Ok(())
            },
        }
    }

    fn to_mysql_bin(&self, w: &mut Vec<u8>, c: &Column) -> (r: Result<(), EncodeError>) {
        match self {
            Some(v) => v.to_mysql_bin(w, c),
            None => unreached(),
        }
    }

    fn is_null(&self) -> (r: bool) {
        self.is_none()
    }
}

impl ToMysqlValue for MysqlDate {
    open spec fn text_req(&self) -> bool {
        true
    }

    open spec fn bin_req(&self, c: Column) -> bool {
        true
    }

    open spec fn text_spec(&self) -> Result<Seq<u8>, EncodeError> {
        Ok(lenenc_bytes(date_text_bytes(*self)))
    }

    open spec fn bin_spec(&self, c: Column) -> Result<Seq<u8>, EncodeError> {
        date_bin_spec(*self, c)
    }

    open spec fn spec_is_null(&self) -> bool {
        false
    }

    fn to_mysql_text(&self, w: &mut Vec<u8>) -> (r: Result<(), EncodeError>) {
        encode_date_text(w, self);
        Ok(())
    }

    fn to_mysql_bin(&self, w: &mut Vec<u8>, c: &Column) -> (r: Result<(), EncodeError>) {
        encode_date_bin(w, self, c)
    }

    fn is_null(&self) -> (r: bool) {
        false
    }
}

impl ToMysqlValue for MysqlDateTime {
    open spec fn text_req(&self) -> bool {
        true
    }

    open spec fn bin_req(&self, c: Column) -> bool {
        true
    }

    open spec fn text_spec(&self) -> Result<Seq<u8>, EncodeError> {
        Ok(lenenc_bytes(datetime_text_bytes(*self)))
    }

    open spec fn bin_spec(&self, c: Column) -> Result<Seq<u8>, EncodeError> {
        datetime_bin_spec(*self, c)
    }

    open spec fn spec_is_null(&self) -> bool {
        false
    }

    fn to_mysql_text(&self, w: &mut Vec<u8>) -> (r: Result<(), EncodeError>) {
        encode_datetime_text(w, self);
        Ok(())
    }

    fn to_mysql_bin(&self, w: &mut Vec<u8>, c: &Column) -> (r: Result<(), EncodeError>) {
        encode_datetime_bin(w, self, c)
    }

    fn is_null(&self) -> (r: bool) {
        false
    }
}

impl ToMysqlValue for MysqlDuration {
    open spec fn text_req(&self) -> bool {
        true
    }

    open spec fn bin_req(&self, c: Column) -> bool {
        self.spec_days() <= 34
    }

    open spec fn text_spec(&self) -> Result<Seq<u8>, EncodeError> {
        Ok(lenenc_bytes(duration_text_bytes(*self)))
    }

    open spec fn bin_spec(&self, c: Column) -> Result<Seq<u8>, EncodeError> {
        duration_bin_spec(*self, c)
    }

    open spec fn spec_is_null(&self) -> bool {
        false
    }

    fn to_mysql_text(&self, w: &mut Vec<u8>) -> (r: Result<(), EncodeError>) {
        encode_duration_text(w, self);
        Ok(())
    }

    fn to_mysql_bin(&self, w: &mut Vec<u8>, c: &Column) -> (r: Result<(), EncodeError>) {
        encode_duration_bin(w, self, c)
    }

    fn is_null(&self) -> (r: bool) {
        false
    }
}

impl<'a, T: ToMysqlValue> ToMysqlValue for &'a T {
    open spec fn text_req(&self) -> bool {
        (**self).text_req()
    }

    open spec fn bin_req(&self, c: Column) -> bool {
        (**self).bin_req(c)
    }

    open spec fn text_spec(&self) -> Result<Seq<u8>, EncodeError> {
        (**self).text_spec()
    }

    open spec fn bin_spec(&self, c: Column) -> Result<Seq<u8>, EncodeError> {
        (**self).bin_spec(c)
    }

    open spec fn spec_is_null(&self) -> bool {
        (**self).spec_is_null()
    }

    fn to_mysql_text(&self, w: &mut Vec<u8>) -> (r: Result<(), EncodeError>) {
        (*self).to_mysql_text(w)
    }

    fn to_mysql_bin(&self, w: &mut Vec<u8>, c: &Column) -> (r: Result<(), EncodeError>) {
        (*self).to_mysql_bin(w, c)
    }

    fn is_null(&self) -> (r: bool) {
        (*self).is_null()
    }
}

impl ToMysqlValue for Value {
    open spec fn text_req(&self) -> bool {
        value_text_req(*self)
    }

    open spec fn bin_req(&self, c: Column) -> bool {
        value_bin_req(*self)
    }

    open spec fn text_spec(&self) -> Result<Seq<u8>, EncodeError> {
        value_text_spec(*self)
    }

    open spec fn bin_spec(&self, c: Column) -> Result<Seq<u8>, EncodeError> {
        value_bin_spec(*self, c)
    }

    open spec fn spec_is_null(&self) -> bool {
        (*self) is NULL
    }

    fn to_mysql_text(&self, w: &mut Vec<u8>) -> (r: Result<(), EncodeError>) {
        encode_value_text(w, self)
    }

    fn to_mysql_bin(&self, w: &mut Vec<u8>, c: &Column) -> (r: Result<(), EncodeError>) {
        encode_value_bin(w, self, c)
    }

    fn is_null(&self) -> (r: bool) {
        matches!(self, Value::NULL)
    }
}

} // verus!

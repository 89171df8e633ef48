//! Byte-string encoding.  Text encoding frames any payload as a
//! length-encoded string; binary encoding does the same but is legal only
//! against the column types that carry opaque byte payloads.

use vstd::prelude::*;

use crate::column::Column;
use crate::column::ColumnType;
use crate::error::bad;
use crate::error::EncodeError;
use crate::wire::lenenc_bytes;
use crate::wire::push_lenenc_slice;

verus! {

/// Whether a column type carries an opaque byte payload: the character and
/// blob families, set, enum, the decimals, bit, geometry and json.
pub open spec fn spec_is_bytes_coltype(t: ColumnType) -> bool {
    match t {
        ColumnType::MYSQL_TYPE_STRING => true,
        ColumnType::MYSQL_TYPE_VAR_STRING => true,
        ColumnType::MYSQL_TYPE_BLOB => true,
        ColumnType::MYSQL_TYPE_TINY_BLOB => true,
        ColumnType::MYSQL_TYPE_MEDIUM_BLOB => true,
        ColumnType::MYSQL_TYPE_LONG_BLOB => true,
        ColumnType::MYSQL_TYPE_SET => true,
        ColumnType::MYSQL_TYPE_ENUM => true,
        ColumnType::MYSQL_TYPE_DECIMAL => true,
        ColumnType::MYSQL_TYPE_VARCHAR => true,
        ColumnType::MYSQL_TYPE_BIT => true,
        ColumnType::MYSQL_TYPE_NEWDECIMAL => true,
        ColumnType::MYSQL_TYPE_GEOMETRY => true,
        ColumnType::MYSQL_TYPE_JSON => true,
        _ => false,
    }
}

/// What binary encoding produces for a byte payload `b` under column `c`:
/// the same length-encoded string as the text format when the column type
/// carries bytes, and the incompatible-value error otherwise.
pub open spec fn bytes_bin_spec(b: Seq<u8>, c: Column) -> Result<Seq<u8>, EncodeError> {
    if spec_is_bytes_coltype(c.coltype) {
        Ok(lenenc_bytes(b))
    } else {
        Err(EncodeError::Incompatible { expected: c.coltype })
    }
}

/// Binary-encode byte payload `b` against column `c`.
pub fn encode_bytes_bin(w: &mut Vec<u8>, b: &[u8], c: &Column) -> (r: Result<(), EncodeError>)
    ensures
        match bytes_bin_spec(b@, *c) {
            Ok(bs) => r is Ok && final(w)@ == old(w)@ + bs,
            Err(e) => r == Err::<(), EncodeError>(e) && final(w)@ == old(w)@,
        },
{
    let legal = match c.coltype {
        ColumnType::MYSQL_TYPE_STRING => true,
        ColumnType::MYSQL_TYPE_VAR_STRING => true,
        ColumnType::MYSQL_TYPE_BLOB => true,
        ColumnType::MYSQL_TYPE_TINY_BLOB => true,
        ColumnType::MYSQL_TYPE_MEDIUM_BLOB => true,
        ColumnType::MYSQL_TYPE_LONG_BLOB => true,
        ColumnType::MYSQL_TYPE_SET => true,
        ColumnType::MYSQL_TYPE_ENUM => true,
        ColumnType::MYSQL_TYPE_DECIMAL => true,
        ColumnType::MYSQL_TYPE_VARCHAR => true,
        ColumnType::MYSQL_TYPE_BIT => true,
        ColumnType::MYSQL_TYPE_NEWDECIMAL => true,
        ColumnType::MYSQL_TYPE_GEOMETRY => true,
        ColumnType::MYSQL_TYPE_JSON => true,
        _ => false,
    };
    if legal {
        push_lenenc_slice(w, b);
        Ok(())
    } else {
        Err(bad(c))
    }
}

/// For a column type that carries bytes, the binary form of a payload is
/// exactly its text form: the same length-encoded string, so the two
/// formats never diverge on byte payloads.
pub proof fn lemma_bytes_bin_matches_text(b: Seq<u8>, c: Column)
    requires
        spec_is_bytes_coltype(c.coltype),
    ensures
        bytes_bin_spec(b, c) == Ok::<Seq<u8>, EncodeError>(lenenc_bytes(b)),
{
}

} // verus!

//! The failures the encoders report.  No encoder retries and no encoder
//! leaves partial bytes behind on failure: when a value cannot be encoded,
//! the sink is exactly as it was before the call.

use vstd::prelude::*;

use crate::column::Column;
use crate::column::ColumnType;

verus! {

/// Why a value could not be encoded.
#[derive(Clone, Copy, Debug, PartialEq, Eq, Structural)]
pub enum EncodeError {
    /// The value's runtime type or magnitude cannot be represented under the
    /// column's declared wire type: overflow, signedness mismatch, or wrong
    /// type class.  Carries the wire type the column declared.
    Incompatible { expected: ColumnType },
    /// Negative durations are not representable; they are rejected whatever
    /// the target format.
    NegativeTime,
}

/// The error reported when a value is used against column `c` although the
/// column's declared wire type cannot represent it.
pub fn bad(c: &Column) -> (r: EncodeError)
    ensures
        r == (EncodeError::Incompatible { expected: c.coltype }),
{
    EncodeError::Incompatible { expected: c.coltype }
}

} // verus!

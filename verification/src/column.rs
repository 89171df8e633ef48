//! Column metadata: the declared wire type and the flag word of a result-set
//! column.  The encoders read the metadata; they never compute it.

use vstd::prelude::*;

verus! {

/// The wire type codes a column declaration can carry.  Binary encoding is
/// directed by this code; text encoding ignores it.
#[allow(non_camel_case_types)]
#[derive(Clone, Copy, Debug, PartialEq, Eq, Structural)]
pub enum ColumnType {
    MYSQL_TYPE_DECIMAL,
    MYSQL_TYPE_TINY,
    MYSQL_TYPE_SHORT,
    MYSQL_TYPE_LONG,
    MYSQL_TYPE_FLOAT,
    MYSQL_TYPE_DOUBLE,
    MYSQL_TYPE_NULL,
    MYSQL_TYPE_TIMESTAMP,
    MYSQL_TYPE_LONGLONG,
    MYSQL_TYPE_INT24,
    MYSQL_TYPE_DATE,
    MYSQL_TYPE_TIME,
    MYSQL_TYPE_DATETIME,
    MYSQL_TYPE_YEAR,
    MYSQL_TYPE_NEWDATE,
    MYSQL_TYPE_VARCHAR,
    MYSQL_TYPE_BIT,
    MYSQL_TYPE_JSON,
    MYSQL_TYPE_NEWDECIMAL,
    MYSQL_TYPE_ENUM,
    MYSQL_TYPE_SET,
    MYSQL_TYPE_TINY_BLOB,
    MYSQL_TYPE_MEDIUM_BLOB,
    MYSQL_TYPE_LONG_BLOB,
    MYSQL_TYPE_BLOB,
    MYSQL_TYPE_VAR_STRING,
    MYSQL_TYPE_STRING,
    MYSQL_TYPE_GEOMETRY,
}

/// The bit of `Column::colflags` that marks a column as unsigned.
pub const UNSIGNED_FLAG: u16 = 32;

/// What the encoders read of a column declaration: its wire type code and its
/// flag word.  A column descriptor is immutable for the duration of one
/// encode call.
#[derive(Clone, Copy, Debug, PartialEq, Eq, Structural)]
pub struct Column {
    pub coltype: ColumnType,
    pub colflags: u16,
}

impl Column {
    /// Whether the unsigned marker is set in the flag word.
    pub open spec fn spec_is_unsigned(&self) -> bool {
        self.colflags & UNSIGNED_FLAG != 0
    }

    pub fn is_unsigned(&self) -> (r: bool)
        ensures
            r == self.spec_is_unsigned(),
    {
        self.colflags & UNSIGNED_FLAG != 0
    }
}

} // verus!

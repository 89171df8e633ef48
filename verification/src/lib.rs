//! Value serialization for the MySQL/MariaDB client-server wire protocol.
//!
//! A value produced by a backend is rendered into one of the two on-the-wire
//! encodings of the protocol: the human-readable *text* resultset format and
//! the compact *binary* resultset format.  Text encoding represents every
//! value as a length-encoded string and never consults the column metadata;
//! binary encoding is directed by the declared column type and rejects any
//! value that the declared type cannot represent exactly.
//!
//! Every encoder appends bytes to a caller-supplied `Vec<u8>` sink, and every
//! contract states the exact byte sequence appended on success and that the
//! sink is untouched on failure.

pub mod bytes;
pub mod column;
pub mod encode;
pub mod error;
pub mod float;
pub mod ints;
pub mod temporal;
pub mod value;
pub mod wire;

pub use column::Column;
pub use column::ColumnType;
pub use column::UNSIGNED_FLAG;
pub use encode::ToMysqlValue;
pub use error::EncodeError;
pub use temporal::MysqlDate;
pub use temporal::MysqlDateTime;
pub use temporal::MysqlDuration;
pub use value::Value;

use vstd::prelude::*;

use crate::datatypes::{DataType, SqlType};

verus! {

/// Errors of the conversion layer.
#[derive(Clone, Copy, Debug, PartialEq, Eq, Structural)]
pub enum Error {
    /// A logical type that has no native counterpart.
    UnsupportedType(DataType),
    /// A driver-reported column type that has no buffer counterpart.
    UnsupportedSqlType(SqlType),
    /// The driver reported a schema that cannot be read.
    MetadataError,
    /// A value is longer than the maximum length of the column it goes to.
    ValueTooLong,
    /// Bytes read for a text column are not valid UTF-8.
    EncodingError,
    /// A fixed-size binary value read back has a length other than the size.
    WrongLength,
    /// A declared maximum length too large for the driver's signed length
    /// indicators.
    LengthOutOfRange,
    /// The array and the buffer column do not fit each other: other kind,
    /// too few rows, or a null for a column without null indicators.
    Incompatible,
}

} // verus!

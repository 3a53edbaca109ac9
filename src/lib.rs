//! Conversion between columnar arrays and the column-wise bound buffers of
//! ODBC drivers: type mapping, buffer layout inference, and (de)serialization
//! of single columns with their null indicators.

pub mod datatypes;
pub mod deserialize;
pub mod array;
pub mod buffer;
pub mod error;
pub mod read;
pub mod schema;
pub mod serialize;
pub mod write;

use vstd::prelude::*;

verus! {

/// Logical type of a columnar array.
#[derive(Clone, Copy, Debug, PartialEq, Eq, Structural)]
pub enum DataType {
    Null,
    Boolean,
    Int8,
    Int16,
    Int32,
    Int64,
    UInt8,
    UInt16,
    UInt32,
    UInt64,
    Float16,
    Float32,
    Float64,
    Date32,
    Date64,
    /// Binary values of exactly this many bytes each.
    FixedSizeBinary(usize),
    Binary,
    LargeBinary,
    Utf8,
    LargeUtf8,
}

/// The logical types that have a native buffer counterpart.
pub open spec fn is_supported(t: DataType) -> bool {
    match t {
        DataType::Boolean | DataType::Int16 | DataType::Int32 | DataType::Float32
        | DataType::Float64 | DataType::FixedSizeBinary(_) | DataType::Binary
        | DataType::LargeBinary | DataType::Utf8 | DataType::LargeUtf8 => true,
        _ => false,
    }
}

/// A named, typed column of a batch.
#[derive(Clone, Debug)]
pub struct Field {
    pub name: String,
    pub data_type: DataType,
    pub is_nullable: bool,
    /// Declared maximum length in bytes of a variable-length value; unused
    /// by fixed-width types.
    pub max_length: usize,
}

impl Field {
    pub fn new(name: String, data_type: DataType, is_nullable: bool, max_length: usize) -> (r: Self)
        ensures
            r.name@ == name@,
            r.data_type == data_type,
            r.is_nullable == is_nullable,
            r.max_length == max_length,
    {
        Field { name, data_type, is_nullable, max_length }
    }
}

/// Column type on the native side, as written into a buffer descriptor.
#[derive(Clone, Copy, Debug, PartialEq, Eq, Structural)]
pub enum NativeKind {
    Bit,
    SmallInt,
    Integer,
    /// Floating point with this many bits of mantissa precision (24 or 53).
    Float { precision: u16 },
    /// Fixed-length binary of `length` bytes.
    Binary { length: usize },
    /// Variable-length binary of at most `length` bytes.
    Varbinary { length: usize },
    /// Variable-length text of at most `length` bytes.
    Varchar { length: usize },
}

/// Layout of one column of a native buffer.
#[derive(Clone, Copy, Debug, PartialEq, Eq, Structural)]
pub struct BufferDescriptor {
    pub kind: NativeKind,
    pub nullable: bool,
}

impl BufferDescriptor {
    /// A variable-length maximum fits the driver's signed length indicators.
    pub open spec fn length_fits(self) -> bool {
        match self.kind {
            NativeKind::Binary { length } => length <= isize::MAX,
            NativeKind::Varbinary { length } => length <= isize::MAX,
            NativeKind::Varchar { length } => length <= isize::MAX,
            _ => true,
        }
    }
}

/// Column type as reported by a driver for a result set. A length of 0
/// means that the driver declared none.
#[derive(Clone, Copy, Debug, PartialEq, Eq, Structural)]
pub enum SqlType {
    Unknown,
    Bit,
    TinyInt,
    SmallInt,
    Integer,
    BigInt,
    Real,
    Float { precision: u16 },
    Double,
    Char { length: usize },
    Varchar { length: usize },
    Binary { length: usize },
    Varbinary { length: usize },
    Date,
    Timestamp,
}

/// Whether a driver-reported column may hold nulls.
#[derive(Clone, Copy, Debug, PartialEq, Eq, Structural)]
pub enum Nullability {
    Unknown,
    Nullable,
    NoNulls,
}

impl Nullability {
    pub open spec fn spec_could_be_nullable(self) -> bool {
        !(self is NoNulls)
    }

    /// True unless the driver promised that the column holds no nulls.
    pub fn could_be_nullable(&self) -> (r: bool)
        ensures
            r == self.spec_could_be_nullable(),
    {
        !matches!(self, Nullability::NoNulls)
    }
}

/// Driver-reported description of one result-set column.
#[derive(Clone, Debug)]
pub struct ColumnDescription {
    pub name: String,
    pub data_type: SqlType,
    pub nullability: Nullability,
}

impl ColumnDescription {
    pub fn new(name: String, data_type: SqlType, nullability: Nullability) -> (r: Self)
        ensures
            r.name@ == name@,
            r.data_type == data_type,
            r.nullability == nullability,
    {
        ColumnDescription { name, data_type, nullability }
    }
}

} // verus!

use vstd::prelude::*;

use crate::datatypes::{
    is_supported, BufferDescriptor, ColumnDescription, DataType, Field, NativeKind, SqlType,
};
use crate::error::Error;

verus! {

/// The native kind of a logical type; variable-length kinds take
/// `max_len` as their declared maximum length.
pub open spec fn native_of(t: DataType, max_len: usize) -> Option<NativeKind> {
    match t {
        DataType::Boolean => Some(NativeKind::Bit),
        DataType::Int16 => Some(NativeKind::SmallInt),
        DataType::Int32 => Some(NativeKind::Integer),
        DataType::Float32 => Some(NativeKind::Float { precision: 24 }),
        DataType::Float64 => Some(NativeKind::Float { precision: 53 }),
        DataType::FixedSizeBinary(n) => Some(NativeKind::Binary { length: n }),
        DataType::Binary | DataType::LargeBinary => Some(NativeKind::Varbinary { length: max_len }),
        DataType::Utf8 | DataType::LargeUtf8 => Some(NativeKind::Varchar { length: max_len }),
        _ => None,
    }
}

/// What mapping a logical type gives: its native kind, or the error that
/// names the type.
pub open spec fn mapped(t: DataType, max_len: usize) -> Result<NativeKind, Error> {
    match native_of(t, max_len) {
        Some(k) => Ok(k),
        None => Err(Error::UnsupportedType(t)),
    }
}

/// Maps a logical type to its native column kind.
pub fn data_type_to(data_type: &DataType, max_len: usize) -> (r: Result<NativeKind, Error>)
    ensures
        r == mapped(*data_type, max_len),
        is_supported(*data_type) <==> r is Ok,
{
    match data_type {
        DataType::Boolean => Ok(NativeKind::Bit),
        DataType::Int16 => Ok(NativeKind::SmallInt),
        DataType::Int32 => Ok(NativeKind::Integer),
        DataType::Float32 => Ok(NativeKind::Float { precision: 24 }),
        DataType::Float64 => Ok(NativeKind::Float { precision: 53 }),
        DataType::FixedSizeBinary(length) => Ok(NativeKind::Binary { length: *length }),
        DataType::Binary | DataType::LargeBinary => Ok(NativeKind::Varbinary { length: max_len }),
        DataType::Utf8 | DataType::LargeUtf8 => Ok(NativeKind::Varchar { length: max_len }),
        _ => Err(Error::UnsupportedType(*data_type)),
    }
}

/// The mapping is total over the supported logical types and fails on every
/// other one; being a function of its inputs alone, two mappings of the same
/// type and length give the same result.
pub proof fn lemma_mapping_total_and_pure(
    t: DataType,
    max_len: usize,
    first: Result<NativeKind, Error>,
    second: Result<NativeKind, Error>,
)
    requires
        first == mapped(t, max_len),
        second == mapped(t, max_len),
    ensures
        is_supported(t) <==> first is Ok,
        !is_supported(t) ==> first == Err::<NativeKind, Error>(Error::UnsupportedType(t)),
        first == second,
{
}

/// The buffer descriptor that a field maps to.
pub open spec fn descriptor_of(f: Field) -> Option<BufferDescriptor> {
    match native_of(f.data_type, f.max_length) {
        Some(k) => Some(BufferDescriptor { kind: k, nullable: f.is_nullable }),
        None => None,
    }
}

/// `i` is the first position of `fields` whose type is unsupported.
pub open spec fn first_unsupported(fields: Seq<Field>, i: int) -> bool {
    &&& 0 <= i < fields.len()
    &&& !is_supported(fields[i].data_type)
    &&& forall|j: int| 0 <= j < i ==> is_supported(#[trigger] fields[j].data_type)
}

/// Buffer descriptors for a list of fields, one per field and in order.
/// Fails on the first field whose type has no native counterpart.
pub fn infer_buffer_descriptors(fields: &Vec<Field>) -> (r: Result<Vec<BufferDescriptor>, Error>)
    ensures
        r is Ok <==> forall|i: int| 0 <= i < fields.len() ==> is_supported(#[trigger] fields@[i].data_type),
        r matches Ok(d) ==> d.len() == fields.len() && forall|i: int|
            0 <= i < fields.len() ==> descriptor_of(#[trigger] fields@[i]) == Some(d@[i]),
        r matches Err(e) ==> exists|i: int|
            first_unsupported(fields@, i) && e == Error::UnsupportedType(#[trigger] fields@[i].data_type),
{
    let mut out: Vec<BufferDescriptor> = Vec::new();
    let mut i: usize = 0;
    while i < fields.len()
        invariant
            i <= fields.len(),
            out.len() == i,
            forall|j: int| 0 <= j < i ==> is_supported(#[trigger] fields@[j].data_type),
            forall|j: int| 0 <= j < i ==> descriptor_of(#[trigger] fields@[j]) == Some(out@[j]),
        decreases fields.len() - i,
    {
        let f = &fields[i];
        match data_type_to(&f.data_type, f.max_length) {
            Ok(kind) => {
                out.push(BufferDescriptor { kind, nullable: f.is_nullable });
            },
            Err(e) => {
                assert(first_unsupported(fields@, i as int));
                return Err(e);
            },
        }
        i = i + 1;
    }
    Ok(out)
}

/// The buffer kind for a driver-reported column type.
pub open spec fn native_of_sql(t: SqlType) -> Option<NativeKind> {
    match t {
        SqlType::Bit => Some(NativeKind::Bit),
        SqlType::SmallInt => Some(NativeKind::SmallInt),
        SqlType::Integer => Some(NativeKind::Integer),
        SqlType::Real => Some(NativeKind::Float { precision: 24 }),
        SqlType::Float { precision } => if precision <= 24 {
            Some(NativeKind::Float { precision: 24 })
        } else if precision <= 53 {
            Some(NativeKind::Float { precision: 53 })
        } else {
            None
        },
        SqlType::Double => Some(NativeKind::Float { precision: 53 }),
        SqlType::Char { length } | SqlType::Varchar { length } => if length == 0 {
            None
        } else {
            Some(NativeKind::Varchar { length })
        },
        SqlType::Binary { length } => if length == 0 {
            None
        } else {
            Some(NativeKind::Binary { length })
        },
        SqlType::Varbinary { length } => if length == 0 {
            None
        } else {
            Some(NativeKind::Varbinary { length })
        },
        _ => None,
    }
}

/// Maps a driver-reported column type to the buffer kind that holds it.
pub fn sql_type_to(t: &SqlType) -> (r: Result<NativeKind, Error>)
    ensures
        r is Ok <==> native_of_sql(*t) is Some,
        r matches Ok(k) ==> native_of_sql(*t) == Some(k),
        r matches Err(e) ==> e == Error::UnsupportedSqlType(*t),
{
    match t {
        SqlType::Bit => Ok(NativeKind::Bit),
        SqlType::SmallInt => Ok(NativeKind::SmallInt),
        SqlType::Integer => Ok(NativeKind::Integer),
        SqlType::Real => Ok(NativeKind::Float { precision: 24 }),
        SqlType::Float { precision } if *precision <= 24 => Ok(NativeKind::Float { precision: 24 }),
        SqlType::Float { precision } if *precision <= 53 => Ok(NativeKind::Float { precision: 53 }),
        SqlType::Double => Ok(NativeKind::Float { precision: 53 }),
        SqlType::Char { length } if *length != 0 => Ok(NativeKind::Varchar { length: *length }),
        SqlType::Varchar { length } if *length != 0 => Ok(NativeKind::Varchar { length: *length }),
        SqlType::Binary { length } if *length != 0 => Ok(NativeKind::Binary { length: *length }),
        SqlType::Varbinary { length } if *length != 0 => Ok(NativeKind::Varbinary { length: *length }),
        _ => Err(Error::UnsupportedSqlType(*t)),
    }
}

/// The buffer descriptor for a driver-reported column.
pub open spec fn descriptor_of_column(c: ColumnDescription) -> Option<BufferDescriptor> {
    match native_of_sql(c.data_type) {
        Some(k) => Some(
            BufferDescriptor { kind: k, nullable: c.nullability.spec_could_be_nullable() },
        ),
        None => None,
    }
}

/// `i` is the first column whose type has no buffer counterpart.
pub open spec fn first_unsupported_column(cols: Seq<ColumnDescription>, i: int) -> bool {
    &&& 0 <= i < cols.len()
    &&& native_of_sql(cols[i].data_type) is None
    &&& forall|j: int| 0 <= j < i ==> native_of_sql(#[trigger] cols[j].data_type) is Some
}

/// The metadata holds one description per reported column.
pub open spec fn metadata_consistent(num_cols: i16, columns: Seq<ColumnDescription>) -> bool {
    num_cols >= 0 && columns.len() == num_cols as int
}

/// Buffer descriptors for a result set, given the column count that the
/// driver reported and the descriptions of columns `1..=num_cols`, in order.
pub fn infer_buffer_descriptors_from_metadata(num_cols: i16, columns: &Vec<ColumnDescription>) -> (r:
    Result<Vec<BufferDescriptor>, Error>)
    ensures
        r is Ok <==> metadata_consistent(num_cols, columns@) && forall|i: int|
            0 <= i < columns.len() ==> native_of_sql(#[trigger] columns@[i].data_type) is Some,
        !metadata_consistent(num_cols, columns@) ==> r == Err::<Vec<BufferDescriptor>, Error>(
            Error::MetadataError,
        ),
        r matches Ok(d) ==> d.len() == columns.len() && forall|i: int|
            0 <= i < columns.len() ==> descriptor_of_column(#[trigger] columns@[i]) == Some(d@[i]),
        metadata_consistent(num_cols, columns@) ==> (r matches Err(e) ==> exists|i: int|
            first_unsupported_column(columns@, i) && e == Error::UnsupportedSqlType(
                #[trigger] columns@[i].data_type,
            )),
{
    if num_cols < 0 || columns.len() != num_cols as usize {
        return Err(Error::MetadataError);
    }
    let mut out: Vec<BufferDescriptor> = Vec::new();
    let mut i: usize = 0;
    while i < columns.len()
        invariant
            i <= columns.len(),
            metadata_consistent(num_cols, columns@),
            out.len() == i,
            forall|j: int| 0 <= j < i ==> native_of_sql(#[trigger] columns@[j].data_type) is Some,
            forall|j: int| 0 <= j < i ==> descriptor_of_column(#[trigger] columns@[j]) == Some(out@[j]),
        decreases columns.len() - i,
    {
        let c = &columns[i];
        match sql_type_to(&c.data_type) {
            Ok(kind) => {
                out.push(BufferDescriptor { kind, nullable: c.nullability.could_be_nullable() });
            },
            Err(e) => {
                assert(first_unsupported_column(columns@, i as int));
                return Err(e);
            },
        }
        i = i + 1;
    }
    Ok(out)
}

} // verus!

use vstd::prelude::*;

use crate::array::{Array, Chunk};
use crate::buffer::{buffer_from_description, allocated, ColumnBuffer};
use crate::datatypes::{ColumnDescription, DataType, Field, NativeKind};
use crate::deserialize::{decode_error, decoded, deserialize};
use crate::error::Error;
use crate::schema::{infer_buffer_descriptors_from_metadata, metadata_consistent, native_of_sql, sql_type_to};

verus! {

/// Rows per fetched batch when the caller sets no limit.
pub const DEFAULT_BATCH_SIZE: usize = 100;

/// A query to run against a data source, read back as batches.
pub struct Reader {
    pub connection_string: String,
    pub query: String,
    pub login_timeout_sec: Option<u32>,
}

/// Column `j` of a batch is the first that cannot be read as its field's type.
pub open spec fn first_bad_column(fields: Seq<Field>, cols: Seq<ColumnBuffer>, j: int) -> bool {
    &&& 0 <= j < cols.len()
    &&& decode_error(cols[j], fields[j].data_type) is Some
    &&& forall|k: int| 0 <= k < j ==> decode_error(#[trigger] cols[k], fields[k].data_type) is None
}

/// Why a fetched batch cannot be read with these fields, if it cannot.
pub open spec fn batch_error(fields: Seq<Field>, cols: Seq<ColumnBuffer>) -> Option<Error> {
    if fields.len() != cols.len() {
        Some(Error::Incompatible)
    } else if exists|j: int| first_bad_column(fields, cols, j) {
        decode_error(cols[choose|j: int| first_bad_column(fields, cols, j)], fields[choose|j: int| first_bad_column(fields, cols, j)].data_type)
    } else {
        None
    }
}

/// `chunk` is the batch `cols` read with `fields`, column by column.
pub open spec fn batch_decoded(fields: Seq<Field>, cols: Seq<ColumnBuffer>, chunk: Chunk) -> bool {
    &&& chunk.arrays.len() == cols.len()
    &&& forall|j: int|
        0 <= j < cols.len() ==> decoded(cols[j], fields[j].data_type, #[trigger] chunk.arrays@[j])
}

pub open spec fn all_wf(cols: Seq<ColumnBuffer>) -> bool {
    forall|j: int| 0 <= j < cols.len() ==> (#[trigger] cols[j]).wf()
}

/// Reads one fetched batch: column `j` as the type of field `j`.
pub fn deserialize_batch(fields: &Vec<Field>, columns: &Vec<ColumnBuffer>) -> (r: Result<Chunk, Error>)
    requires
        all_wf(columns@),
    ensures
        r is Ok <==> batch_error(fields@, columns@) is None,
        r matches Ok(chunk) ==> batch_decoded(fields@, columns@, chunk),
        r matches Err(e) ==> batch_error(fields@, columns@) == Some(e),
{
    if fields.len() != columns.len() {
        return Err(Error::Incompatible);
    }
    let mut arrays: Vec<Array> = Vec::new();
    let mut j: usize = 0;
    while j < columns.len()
        invariant
            all_wf(columns@),
            fields.len() == columns.len(),
            j <= columns.len(),
            arrays.len() == j,
            forall|k: int| 0 <= k < j ==> decode_error(#[trigger] columns@[k], fields@[k].data_type) is None,
            forall|k: int|
                0 <= k < j ==> decoded(columns@[k], fields@[k].data_type, #[trigger] arrays@[k]),
        decreases columns.len() - j,
    {
        match deserialize(&columns[j], &fields[j].data_type) {
            Ok(a) => arrays.push(a),
            Err(e) => {
                proof {
                    assert(first_bad_column(fields@, columns@, j as int));
                    let c = choose|c: int| first_bad_column(fields@, columns@, c);
                    if c < j {
                        assert(decode_error(columns@[c], fields@[c].data_type) is None);
                    } else if c > j {
                        assert(decode_error(columns@[j as int], fields@[j as int].data_type) is None);
                    }
                }
                return Err(e);
            },
        }
        j = j + 1;
    }
    let chunk = Chunk { arrays };
    proof {
        assert forall|c: int| !first_bad_column(fields@, columns@, c) by {
            if 0 <= c < columns.len() {
                assert(decode_error(columns@[c], fields@[c].data_type) is None);
            }
        }
    }
    Ok(chunk)
}

impl Reader {
    pub fn new(connection_string: String, query: String, login_timeout_sec: Option<u32>) -> (r: Self)
        ensures
            r.connection_string@ == connection_string@,
            r.query@ == query@,
            r.login_timeout_sec == login_timeout_sec,
    {
        Reader { connection_string, query, login_timeout_sec }
    }

    /// Rows per batch: the caller's limit, or `DEFAULT_BATCH_SIZE`.
    pub fn batch_capacity(max_batch_size: Option<usize>) -> (r: usize)
        ensures
            r == match max_batch_size {
                Some(n) => n,
                None => DEFAULT_BATCH_SIZE,
            },
    {
        match max_batch_size {
            Some(n) => n,
            None => DEFAULT_BATCH_SIZE,
        }
    }

    /// Reads fetched batches, in order, with the fields of the result set.
    /// Fails with the error of the first batch that cannot be read.
    pub fn read(&self, fields: &Vec<Field>, batches: &Vec<Vec<ColumnBuffer>>) -> (r: Result<Vec<Chunk>, Error>)
        requires
            forall|k: int| 0 <= k < batches.len() ==> all_wf(#[trigger] batches@[k]@),
        ensures
            r is Ok <==> forall|k: int|
                0 <= k < batches.len() ==> batch_error(fields@, #[trigger] batches@[k]@) is None,
            r matches Ok(chunks) ==> chunks.len() == batches.len() && forall|k: int|
                0 <= k < batches.len() ==> batch_decoded(fields@, batches@[k]@, #[trigger] chunks@[k]),
            r matches Err(e) ==> exists|k: int|
                0 <= k < batches.len() && batch_error(fields@, #[trigger] batches@[k]@) == Some(e)
                    && forall|m: int| 0 <= m < k ==> batch_error(fields@, #[trigger] batches@[m]@) is None,
    {
        let mut chunks: Vec<Chunk> = Vec::new();
        let mut k: usize = 0;
        while k < batches.len()
            invariant
                forall|m: int| 0 <= m < batches.len() ==> all_wf(#[trigger] batches@[m]@),
                k <= batches.len(),
                chunks.len() == k,
                forall|m: int| 0 <= m < k ==> batch_error(fields@, #[trigger] batches@[m]@) is None,
                forall|m: int|
                    0 <= m < k ==> batch_decoded(fields@, batches@[m]@, #[trigger] chunks@[m]),
            decreases batches.len() - k,
        {
            match deserialize_batch(fields, &batches[k]) {
                Ok(chunk) => chunks.push(chunk),
                Err(e) => {
                    assert(batch_error(fields@, batches@[k as int]@) == Some(e));
                    return Err(e);
                },
            }
            k = k + 1;
        }
        Ok(chunks)
    }
}

/// The logical type that a driver-reported column is read as.
pub open spec fn logical_of_sql(t: crate::datatypes::SqlType) -> Option<(DataType, usize)> {
    match native_of_sql(t) {
        Some(NativeKind::Bit) => Some((DataType::Boolean, 0usize)),
        Some(NativeKind::SmallInt) => Some((DataType::Int16, 0usize)),
        Some(NativeKind::Integer) => Some((DataType::Int32, 0usize)),
        Some(NativeKind::Float { precision }) => Some(
            (if precision <= 24 { DataType::Float32 } else { DataType::Float64 }, 0usize),
        ),
        Some(NativeKind::Binary { length }) => Some((DataType::FixedSizeBinary(length), 0usize)),
        Some(NativeKind::Varbinary { length }) => Some((DataType::Binary, length)),
        Some(NativeKind::Varchar { length }) => Some((DataType::Utf8, length)),
        None => None,
    }
}

/// Fields of a result set, one per driver-reported column, in order.
pub fn infer_schema(columns: &Vec<ColumnDescription>) -> (r: Result<Vec<Field>, Error>)
    ensures
        r is Ok <==> forall|i: int|
            0 <= i < columns.len() ==> native_of_sql(#[trigger] columns@[i].data_type) is Some,
        r matches Ok(fields) ==> fields.len() == columns.len() && forall|i: int|
            0 <= i < columns.len() ==> {
                let f = #[trigger] fields@[i];
                let c = columns@[i];
                &&& f.name@ == c.name@
                &&& logical_of_sql(c.data_type) == Some((f.data_type, f.max_length))
                &&& f.is_nullable == c.nullability.spec_could_be_nullable()
            },
        r matches Err(e) ==> exists|i: int|
            crate::schema::first_unsupported_column(columns@, i) && e == Error::UnsupportedSqlType(
                #[trigger] columns@[i].data_type,
            ),
{
    let mut fields: Vec<Field> = Vec::new();
    let mut i: usize = 0;
    while i < columns.len()
        invariant
            i <= columns.len(),
            fields.len() == i,
            forall|j: int| 0 <= j < i ==> native_of_sql(#[trigger] columns@[j].data_type) is Some,
            forall|j: int|
                0 <= j < i ==> {
                    let f = #[trigger] fields@[j];
                    let c = columns@[j];
                    &&& f.name@ == c.name@
                    &&& logical_of_sql(c.data_type) == Some((f.data_type, f.max_length))
                    &&& f.is_nullable == c.nullability.spec_could_be_nullable()
                },
        decreases columns.len() - i,
    {
        let c = &columns[i];
        let (data_type, max_length) = match sql_type_to(&c.data_type) {
            Ok(NativeKind::Bit) => (DataType::Boolean, 0usize),
            Ok(NativeKind::SmallInt) => (DataType::Int16, 0usize),
            Ok(NativeKind::Integer) => (DataType::Int32, 0usize),
            Ok(NativeKind::Float { precision }) => {
                (if precision <= 24 { DataType::Float32 } else { DataType::Float64 }, 0usize)
            },
            Ok(NativeKind::Binary { length }) => (DataType::FixedSizeBinary(length), 0usize),
            Ok(NativeKind::Varbinary { length }) => (DataType::Binary, length),
            Ok(NativeKind::Varchar { length }) => (DataType::Utf8, length),
            Err(e) => {
                assert(crate::schema::first_unsupported_column(columns@, i as int));
                return Err(e);
            },
        };
        fields.push(
            Field {
                name: c.name.clone(),
                data_type,
                is_nullable: c.nullability.could_be_nullable(),
                max_length,
            },
        );
        i = i + 1;
    }
    Ok(fields)
}

/// The column maps to a descriptor whose length fits the indicators.
pub open spec fn column_fits(c: ColumnDescription) -> bool {
    match crate::schema::descriptor_of_column(c) {
        Some(d) => d.length_fits(),
        None => false,
    }
}

/// Allocates the buffer for a result set: one column per driver-reported
/// column, each of `capacity` rows.
pub fn buffer_from_metadata(num_cols: i16, columns: &Vec<ColumnDescription>, capacity: usize) -> (r:
    Result<Vec<ColumnBuffer>, Error>)
    ensures
        !metadata_consistent(num_cols, columns@) ==> r == Err::<Vec<ColumnBuffer>, Error>(
            Error::MetadataError,
        ),
        r matches Ok(bufs) ==> exists|descs: Seq<crate::datatypes::BufferDescriptor>|
            {
                &&& descs.len() == columns.len()
                &&& forall|i: int|
                    0 <= i < columns.len() ==> crate::schema::descriptor_of_column(
                        #[trigger] columns@[i],
                    ) == Some(descs[i])
                &&& allocated(descs, capacity, bufs@)
            },
        r is Ok <==> metadata_consistent(num_cols, columns@) && (forall|i: int|
            0 <= i < columns.len() ==> column_fits(#[trigger] columns@[i])),
        metadata_consistent(num_cols, columns@) && (exists|i: int|
            crate::schema::first_unsupported_column(columns@, i)) ==> exists|i: int|
            crate::schema::first_unsupported_column(columns@, i) && r == Err::<Vec<ColumnBuffer>, Error>(
                Error::UnsupportedSqlType(#[trigger] columns@[i].data_type),
            ),
        metadata_consistent(num_cols, columns@) && (forall|i: int|
            0 <= i < columns.len() ==> native_of_sql(#[trigger] columns@[i].data_type) is Some)
            && r is Err ==> r == Err::<Vec<ColumnBuffer>, Error>(Error::LengthOutOfRange),
{
    let descs = match infer_buffer_descriptors_from_metadata(num_cols, columns) {
        Ok(d) => d,
        Err(e) => {
            proof {
                if metadata_consistent(num_cols, columns@) {
                    let i = choose|i: int| crate::schema::first_unsupported_column(columns@, i) && e
                        == Error::UnsupportedSqlType(#[trigger] columns@[i].data_type);
                    assert(!column_fits(columns@[i]));
                    assert forall|k: int| #![auto] crate::schema::first_unsupported_column(columns@, k) implies k == i by {
                        if k < i {
                            assert(native_of_sql(columns@[k].data_type) is Some);
                        } else if k > i {
                            assert(native_of_sql(columns@[i].data_type) is Some);
                        }
                    }
                }
            }
            return Err(e);
        },
    };
    let r = buffer_from_description(&descs, capacity);
    proof {
        if r is Ok {
            assert(allocated(descs@, capacity, r->Ok_0@));
        }
        if metadata_consistent(num_cols, columns@) && (forall|i: int|
            0 <= i < columns.len() ==> column_fits(#[trigger] columns@[i])) {
            assert forall|i: int| 0 <= i < descs.len() implies (#[trigger] descs@[i]).length_fits() by {
                assert(crate::schema::descriptor_of_column(columns@[i]) == Some(descs@[i]));
            }
        }
        assert forall|i: int| 0 <= i < columns.len() implies (column_fits(#[trigger] columns@[i])
            <==> descs@[i].length_fits()) by {
            assert(crate::schema::descriptor_of_column(columns@[i]) == Some(descs@[i]));
        }
        assert forall|i: int| !crate::schema::first_unsupported_column(columns@, i) by {
            if 0 <= i < columns.len() {
                assert(crate::schema::descriptor_of_column(columns@[i]) == Some(descs@[i]));
            }
        }
    }
    r
}

} // verus!

use columnar_odbc::buffer::ColumnBuffer;
use columnar_odbc::datatypes::{BufferDescriptor, ColumnDescription, DataType, Field, NativeKind, Nullability, SqlType};
use columnar_odbc::error::Error;
use columnar_odbc::read::{buffer_from_metadata, infer_schema};
use columnar_odbc::schema::{data_type_to, infer_buffer_descriptors, infer_buffer_descriptors_from_metadata, sql_type_to};

#[test]
fn mapping_table() {
    assert_eq!(data_type_to(&DataType::Boolean, 9), Ok(NativeKind::Bit));
    assert_eq!(data_type_to(&DataType::Int16, 9), Ok(NativeKind::SmallInt));
    assert_eq!(data_type_to(&DataType::Int32, 9), Ok(NativeKind::Integer));
    assert_eq!(data_type_to(&DataType::Float32, 9), Ok(NativeKind::Float { precision: 24 }));
    assert_eq!(data_type_to(&DataType::Float64, 9), Ok(NativeKind::Float { precision: 53 }));
    assert_eq!(data_type_to(&DataType::FixedSizeBinary(16), 9), Ok(NativeKind::Binary { length: 16 }));
    assert_eq!(data_type_to(&DataType::Binary, 9), Ok(NativeKind::Varbinary { length: 9 }));
    assert_eq!(data_type_to(&DataType::LargeBinary, 9), Ok(NativeKind::Varbinary { length: 9 }));
    assert_eq!(data_type_to(&DataType::Utf8, 9), Ok(NativeKind::Varchar { length: 9 }));
    assert_eq!(data_type_to(&DataType::LargeUtf8, 9), Ok(NativeKind::Varchar { length: 9 }));
    assert_eq!(data_type_to(&DataType::Int64, 9), Err(Error::UnsupportedType(DataType::Int64)));
    assert_eq!(data_type_to(&DataType::Date32, 0), Err(Error::UnsupportedType(DataType::Date32)));
}

#[test]
fn mapping_twice_gives_the_same() {
    for t in [DataType::Boolean, DataType::Utf8, DataType::Null, DataType::FixedSizeBinary(2)] {
        assert_eq!(data_type_to(&t, 4), data_type_to(&t, 4));
    }
}

#[test]
fn descriptors_keep_order_and_length() {
    let fields = vec![
        Field::new("a".to_string(), DataType::Utf8, true, 10),
        Field::new("b".to_string(), DataType::Int32, false, 0),
        Field::new("c".to_string(), DataType::Boolean, true, 0),
    ];
    let d = infer_buffer_descriptors(&fields).unwrap();
    assert_eq!(
        d,
        vec![
            BufferDescriptor { kind: NativeKind::Varchar { length: 10 }, nullable: true },
            BufferDescriptor { kind: NativeKind::Integer, nullable: false },
            BufferDescriptor { kind: NativeKind::Bit, nullable: true },
        ]
    );
    assert_eq!(infer_buffer_descriptors(&vec![]).unwrap(), vec![]);
}

#[test]
fn descriptors_fail_on_first_unsupported() {
    let fields = vec![
        Field::new("a".to_string(), DataType::Int32, false, 0),
        Field::new("b".to_string(), DataType::UInt8, false, 0),
        Field::new("c".to_string(), DataType::Date64, false, 0),
    ];
    assert_eq!(infer_buffer_descriptors(&fields), Err(Error::UnsupportedType(DataType::UInt8)));
}

fn col(name: &str, t: SqlType, n: Nullability) -> ColumnDescription {
    ColumnDescription::new(name.to_string(), t, n)
}

#[test]
fn descriptors_from_metadata() {
    let cols = vec![
        col("a", SqlType::Integer, Nullability::NoNulls),
        col("b", SqlType::Varchar { length: 20 }, Nullability::Nullable),
        col("c", SqlType::Float { precision: 10 }, Nullability::Unknown),
        col("d", SqlType::Double, Nullability::NoNulls),
    ];
    let d = infer_buffer_descriptors_from_metadata(4, &cols).unwrap();
    assert_eq!(
        d,
        vec![
            BufferDescriptor { kind: NativeKind::Integer, nullable: false },
            BufferDescriptor { kind: NativeKind::Varchar { length: 20 }, nullable: true },
            BufferDescriptor { kind: NativeKind::Float { precision: 24 }, nullable: true },
            BufferDescriptor { kind: NativeKind::Float { precision: 53 }, nullable: false },
        ]
    );
    assert_eq!(infer_buffer_descriptors_from_metadata(3, &cols), Err(Error::MetadataError));
    assert_eq!(infer_buffer_descriptors_from_metadata(-1, &vec![]), Err(Error::MetadataError));
    let bad = vec![col("a", SqlType::BigInt, Nullability::NoNulls), col("b", SqlType::Date, Nullability::NoNulls)];
    assert_eq!(infer_buffer_descriptors_from_metadata(2, &bad), Err(Error::UnsupportedSqlType(SqlType::BigInt)));
    assert_eq!(sql_type_to(&SqlType::Char { length: 3 }), Ok(NativeKind::Varchar { length: 3 }));
}

#[test]
fn schema_from_metadata() {
    let cols = vec![
        col("id", SqlType::SmallInt, Nullability::NoNulls),
        col("bin", SqlType::Binary { length: 4 }, Nullability::Nullable),
        col("txt", SqlType::Varchar { length: 8 }, Nullability::Nullable),
        col("r", SqlType::Real, Nullability::Nullable),
    ];
    let fields = infer_schema(&cols).unwrap();
    assert_eq!(fields[0].name, "id");
    assert_eq!(fields[0].data_type, DataType::Int16);
    assert!(!fields[0].is_nullable);
    assert_eq!(fields[1].data_type, DataType::FixedSizeBinary(4));
    assert_eq!((fields[2].data_type, fields[2].max_length), (DataType::Utf8, 8));
    assert_eq!(fields[3].data_type, DataType::Float32);
    assert_eq!(infer_schema(&vec![col("t", SqlType::Timestamp, Nullability::Unknown)]).unwrap_err(), Error::UnsupportedSqlType(SqlType::Timestamp));
}

#[test]
fn buffer_from_metadata_allocates_each_column() {
    let cols = vec![col("a", SqlType::Bit, Nullability::Nullable), col("b", SqlType::Varbinary { length: 5 }, Nullability::NoNulls)];
    let bufs = buffer_from_metadata(2, &cols, 7).unwrap();
    assert_eq!(bufs.len(), 2);
    assert_eq!(bufs[0].num_rows(), 7);
    match &bufs[1] {
        ColumnBuffer::Binary(c) => {
            assert_eq!(c.max_len, 5);
            assert_eq!(c.values.len(), 7);
        },
        other => panic!("unexpected column {:?}", other),
    }
    assert_eq!(buffer_from_metadata(1, &cols, 7).unwrap_err(), Error::MetadataError);
    let huge = vec![col("a", SqlType::Varchar { length: usize::MAX }, Nullability::Nullable)];
    assert_eq!(buffer_from_metadata(1, &huge, 1).unwrap_err(), Error::LengthOutOfRange);
}

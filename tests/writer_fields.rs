use columnar_odbc::array::{Array, Chunk};
use columnar_odbc::buffer::{ColumnBuffer, VarColumn, NULL_DATA};
use columnar_odbc::datatypes::{ColumnDescription, DataType, Field, NativeKind, Nullability, SqlType};
use columnar_odbc::deserialize::deserialize;
use columnar_odbc::error::Error;
use columnar_odbc::schema::{infer_buffer_descriptors_from_metadata, sql_type_to};
use columnar_odbc::write::Writer;

fn text_field(max_length: usize) -> Field {
    Field::new("a".to_string(), DataType::Utf8, true, max_length)
}

#[test]
fn writer_value_too_long_for_declared_column() {
    let chunk = Chunk { arrays: vec![Array::Utf8(vec![Some(b"aaaaa".to_vec())])] };
    assert_eq!(Writer::fill_buffers_for(&vec![text_field(4)], &chunk).unwrap_err(), Error::ValueTooLong);
}

#[test]
fn writer_nullable_text_into_four_characters() {
    let values = vec![Some(b"aa".to_vec()), None, Some(b"aaaa".to_vec())];
    let chunk = Chunk { arrays: vec![Array::Utf8(values.clone())] };
    let bufs = Writer::fill_buffers_for(&vec![text_field(4)], &chunk).unwrap();
    match &bufs[0] {
        ColumnBuffer::Text(c) => assert_eq!(c.max_len, 4),
        other => panic!("unexpected column {:?}", other),
    }
    match deserialize(&bufs[0], &DataType::Utf8).unwrap() {
        Array::Utf8(v) => assert_eq!(v, values),
        other => panic!("unexpected array {:?}", other),
    }
}

#[test]
fn writer_reports_first_failing_column() {
    let chunk = Chunk {
        arrays: vec![Array::Int32(vec![Some(1)]), Array::Utf8(vec![Some(b"abc".to_vec())])],
    };
    let fields = vec![
        Field::new("a".to_string(), DataType::Int64, false, 0),
        Field::new("b".to_string(), DataType::Utf8, true, 1),
    ];
    assert_eq!(Writer::fill_buffers_for(&fields, &chunk).unwrap_err(), Error::UnsupportedType(DataType::Int64));
    let fields = vec![
        Field::new("a".to_string(), DataType::Int32, false, 0),
        Field::new("b".to_string(), DataType::Utf8, true, 1),
    ];
    assert_eq!(Writer::fill_buffers_for(&fields, &chunk).unwrap_err(), Error::ValueTooLong);
    assert_eq!(Writer::fill_buffers_for(&fields[..1].to_vec(), &chunk).unwrap_err(), Error::Incompatible);
}

#[test]
fn writer_null_into_non_nullable_field() {
    let chunk = Chunk { arrays: vec![Array::Int16(vec![None])] };
    let fields = vec![Field::new("a".to_string(), DataType::Int16, false, 0)];
    assert_eq!(Writer::fill_buffers_for(&fields, &chunk).unwrap_err(), Error::Incompatible);
    let fields = vec![Field::new("a".to_string(), DataType::Int32, true, 0)];
    assert_eq!(Writer::fill_buffers_for(&fields, &chunk).unwrap_err(), Error::Incompatible);
}

#[test]
fn target_field_takes_declared_length() {
    let array = Array::Utf8(vec![Some(b"x".to_vec())]);
    let column = ColumnDescription::new(String::new(), SqlType::Varchar { length: 4 }, Nullability::Nullable);
    let f = Writer::target_field(3, &array, &column);
    assert_eq!(f.name, "column_3");
    assert_eq!(f.data_type, DataType::Utf8);
    assert_eq!(f.max_length, 4);
    assert!(f.is_nullable);
    let column = ColumnDescription::new(String::new(), SqlType::Integer, Nullability::NoNulls);
    let f = Writer::target_field(0, &Array::Int32(vec![]), &column);
    assert_eq!((f.max_length, f.is_nullable), (0, false));
}

#[test]
fn value_at_reads_one_row() {
    let c = VarColumn { max_len: 3, values: vec![b"abc".to_vec(), b"xyz".to_vec()], indicators: vec![2, NULL_DATA] };
    assert_eq!(c.value_at(0), Some(b"ab".to_vec()));
    assert_eq!(c.value_at(1), None);
}

#[test]
fn chunk_is_wf_checks_lengths_and_values() {
    assert!(Chunk { arrays: vec![Array::Int32(vec![Some(1)]), Array::Boolean(vec![None])] }.is_wf());
    assert!(!Chunk { arrays: vec![Array::Int32(vec![Some(1)]), Array::Boolean(vec![])] }.is_wf());
    assert!(!Chunk { arrays: vec![Array::Utf8(vec![Some(vec![0xff])])] }.is_wf());
    assert!(!Chunk { arrays: vec![Array::FixedSizeBinary(2, vec![Some(vec![1])])] }.is_wf());
    assert!(Chunk { arrays: vec![] }.is_wf());
}

#[test]
fn undeclared_lengths_and_wide_floats_are_unsupported() {
    assert_eq!(sql_type_to(&SqlType::Varchar { length: 0 }), Err(Error::UnsupportedSqlType(SqlType::Varchar { length: 0 })));
    assert_eq!(sql_type_to(&SqlType::Binary { length: 0 }), Err(Error::UnsupportedSqlType(SqlType::Binary { length: 0 })));
    assert_eq!(sql_type_to(&SqlType::Float { precision: 60 }), Err(Error::UnsupportedSqlType(SqlType::Float { precision: 60 })));
    assert_eq!(sql_type_to(&SqlType::Float { precision: 53 }), Ok(NativeKind::Float { precision: 53 }));
    let cols = vec![ColumnDescription::new("c".to_string(), SqlType::Char { length: 0 }, Nullability::Nullable)];
    assert!(infer_buffer_descriptors_from_metadata(1, &cols).is_err());
}

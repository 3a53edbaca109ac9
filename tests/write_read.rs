use columnar_odbc::array::{Array, Chunk};
use columnar_odbc::buffer::{buffer_from_description, ColumnBuffer};
use columnar_odbc::datatypes::{BufferDescriptor, DataType, Field, NativeKind};
use columnar_odbc::deserialize::deserialize;
use columnar_odbc::error::Error;
use columnar_odbc::schema::infer_buffer_descriptors;
use columnar_odbc::serialize::serialize;
use columnar_odbc::write::Writer;

fn write_then_read(array: &Array, field: Field) -> Result<Array, Error> {
    let descs = infer_buffer_descriptors(&vec![field])?;
    let mut bufs = buffer_from_description(&descs, array.len())?;
    let mut column = bufs.remove(0);
    serialize(array, &mut column)?;
    deserialize(&column, &array.data_type())
}

#[test]
fn int_column() {
    let array = Array::Int32(vec![Some(1)]);
    let back = write_then_read(&array, Field::new("a".to_string(), DataType::Int32, false, 0)).unwrap();
    match back {
        Array::Int32(v) => assert_eq!(v, vec![Some(1)]),
        other => panic!("unexpected array {:?}", other),
    }
}

#[test]
fn int_column_nullable() {
    let array = Array::Int32(vec![Some(1), None]);
    let back = write_then_read(&array, Field::new("a".to_string(), DataType::Int32, true, 0)).unwrap();
    match back {
        Array::Int32(v) => assert_eq!(v, vec![Some(1), None]),
        other => panic!("unexpected array {:?}", other),
    }
}

#[test]
fn utf8_nullable() {
    let values = vec![Some(b"aa".to_vec()), None, Some(b"aaaa".to_vec())];
    let array = Array::Utf8(values.clone());
    let back = write_then_read(&array, Field::new("a".to_string(), DataType::Utf8, true, 4)).unwrap();
    match back {
        Array::Utf8(v) => assert_eq!(v, values),
        other => panic!("unexpected array {:?}", other),
    }
}

#[test]
fn utf8_too_long_is_rejected() {
    let array = Array::Utf8(vec![Some(b"aaaaa".to_vec())]);
    let r = write_then_read(&array, Field::new("a".to_string(), DataType::Utf8, true, 4));
    assert_eq!(r.unwrap_err(), Error::ValueTooLong);
}

#[test]
fn too_long_leaves_column_untouched() {
    let desc = BufferDescriptor { kind: NativeKind::Varchar { length: 2 }, nullable: true };
    let mut column = ColumnBuffer::new(&desc, 2);
    let array = Array::Utf8(vec![Some(b"a".to_vec()), Some(b"abc".to_vec())]);
    assert_eq!(serialize(&array, &mut column), Err(Error::ValueTooLong));
    match column {
        ColumnBuffer::Text(c) => assert_eq!(c.indicators, vec![-1, -1]),
        other => panic!("unexpected column {:?}", other),
    }
}

#[test]
fn empty_batch() {
    let chunk = Chunk { arrays: vec![Array::Int32(vec![]), Array::Utf8(vec![])] };
    let bufs = Writer::fill_buffers(&chunk).unwrap();
    assert_eq!(bufs.len(), 2);
    assert_eq!(bufs[0].num_rows(), 0);
    match deserialize(&bufs[0], &DataType::Int32).unwrap() {
        Array::Int32(v) => assert!(v.is_empty()),
        other => panic!("unexpected array {:?}", other),
    }
    assert_eq!(deserialize(&bufs[1], &DataType::Utf8).unwrap().len(), 0);
}

#[test]
fn boolean_round_trip() {
    let values = vec![Some(true), None, Some(false)];
    let back = write_then_read(&Array::Boolean(values.clone()), Field::new("b".to_string(), DataType::Boolean, true, 0)).unwrap();
    match back {
        Array::Boolean(v) => assert_eq!(v, values),
        other => panic!("unexpected array {:?}", other),
    }
}

#[test]
fn int16_round_trip() {
    let values = vec![Some(-7i16), Some(i16::MAX)];
    let back = write_then_read(&Array::Int16(values.clone()), Field::new("s".to_string(), DataType::Int16, false, 0)).unwrap();
    match back {
        Array::Int16(v) => assert_eq!(v, values),
        other => panic!("unexpected array {:?}", other),
    }
}

#[test]
fn float_round_trip_keeps_bits() {
    let values = vec![Some(1.5f32.to_bits()), None, Some(f32::NAN.to_bits())];
    let back = write_then_read(&Array::Float32(values.clone()), Field::new("f".to_string(), DataType::Float32, true, 0)).unwrap();
    match back {
        Array::Float32(v) => {
            assert_eq!(v, values);
            assert_eq!(f32::from_bits(v[0].unwrap()), 1.5f32);
        },
        other => panic!("unexpected array {:?}", other),
    }
    let values = vec![Some((-2.25f64).to_bits())];
    let back = write_then_read(&Array::Float64(values.clone()), Field::new("d".to_string(), DataType::Float64, false, 0)).unwrap();
    match back {
        Array::Float64(v) => assert_eq!(v, values),
        other => panic!("unexpected array {:?}", other),
    }
}

#[test]
fn fixed_size_binary_round_trip() {
    let values = vec![Some(vec![1u8, 2, 3]), None, Some(vec![0u8, 0, 9])];
    let array = Array::FixedSizeBinary(3, values.clone());
    let back = write_then_read(&array, Field::new("x".to_string(), DataType::FixedSizeBinary(3), true, 0)).unwrap();
    match back {
        Array::FixedSizeBinary(3, v) => assert_eq!(v, values),
        other => panic!("unexpected array {:?}", other),
    }
}

#[test]
fn binary_round_trip() {
    let values = vec![Some(vec![]), Some(vec![255u8, 0, 7]), None];
    let back = write_then_read(&Array::LargeBinary(values.clone()), Field::new("y".to_string(), DataType::LargeBinary, true, 3)).unwrap();
    match back {
        Array::LargeBinary(v) => assert_eq!(v, values),
        other => panic!("unexpected array {:?}", other),
    }
}

#[test]
fn fill_buffers_writes_every_column() {
    let chunk = Chunk {
        arrays: vec![
            Array::Int32(vec![Some(4), None]),
            Array::Utf8(vec![Some("héllo".as_bytes().to_vec()), Some(b"x".to_vec())]),
            Array::Boolean(vec![Some(true), Some(false)]),
        ],
    };
    let bufs = Writer::fill_buffers(&chunk).unwrap();
    assert_eq!(bufs.len(), 3);
    match &bufs[0] {
        ColumnBuffer::I32(c) => {
            assert_eq!(c.values[0], 4);
            assert_eq!(c.indicators, Some(vec![0, -1]));
        },
        other => panic!("unexpected column {:?}", other),
    }
    match &bufs[1] {
        ColumnBuffer::Text(c) => {
            assert_eq!(c.max_len, 6);
            assert_eq!(c.indicators, vec![6, 1]);
        },
        other => panic!("unexpected column {:?}", other),
    }
    match &bufs[2] {
        ColumnBuffer::Bit(c) => {
            assert_eq!(c.values, vec![1, 0]);
            assert!(c.indicators.is_none());
        },
        other => panic!("unexpected column {:?}", other),
    }
    for (buf, array) in bufs.iter().zip(chunk.arrays.iter()) {
        let back = deserialize(buf, &array.data_type()).unwrap();
        assert_eq!(format!("{:?}", back), format!("{:?}", array));
    }
}

#[test]
fn fields_of_names_and_nullability() {
    let chunk = Chunk {
        arrays: vec![Array::Int16(vec![Some(1)]), Array::Binary(vec![None])],
    };
    let fields = Writer::fields_of(&chunk);
    assert_eq!(fields.len(), 2);
    assert_eq!(fields[0].name, "column_0");
    assert_eq!(fields[1].name, "column_1");
    assert!(!fields[0].is_nullable);
    assert!(fields[1].is_nullable);
    assert_eq!(fields[1].data_type, DataType::Binary);
    assert_eq!(fields[1].max_length, 0);
    assert_eq!(columnar_odbc::write::column_name(12), "column_12");
}

#[test]
fn longest_value_of_text() {
    let a = Array::Utf8(vec![Some(b"ab".to_vec()), None, Some(b"abcde".to_vec())]);
    assert_eq!(columnar_odbc::write::longest_value(&a), 5);
    assert_eq!(columnar_odbc::write::longest_value(&Array::Int32(vec![Some(1)])), 0);
}

#[test]
fn writer_new_keeps_settings() {
    let w = Writer::new("DSN=x".to_string(), "INSERT INTO t (a) VALUES (?)".to_string(), Some(5));
    assert_eq!(w.connection_string, "DSN=x");
    assert_eq!(w.query, "INSERT INTO t (a) VALUES (?)");
    assert_eq!(w.login_timeout_sec, Some(5));
}

use columnar_odbc::array::Array;
use columnar_odbc::buffer::{ColumnBuffer, FixedColumn, VarColumn};
use columnar_odbc::datatypes::{DataType, Field};
use columnar_odbc::error::Error;
use columnar_odbc::read::{deserialize_batch, Reader};

fn fields() -> Vec<Field> {
    vec![
        Field::new("a".to_string(), DataType::Int32, true, 0),
        Field::new("b".to_string(), DataType::Utf8, true, 2),
    ]
}

fn batch(n: i32, s: &[u8]) -> Vec<ColumnBuffer> {
    vec![
        ColumnBuffer::I32(FixedColumn { values: vec![n], indicators: Some(vec![0]) }),
        ColumnBuffer::Text(VarColumn { max_len: 2, values: vec![s.to_vec()], indicators: vec![2] }),
    ]
}

#[test]
fn reader_defaults() {
    assert_eq!(Reader::batch_capacity(None), 100);
    assert_eq!(Reader::batch_capacity(Some(7)), 7);
    let r = Reader::new("DSN=x".to_string(), "SELECT a FROM t".to_string(), None);
    assert_eq!(r.query, "SELECT a FROM t");
    assert_eq!(r.login_timeout_sec, None);
}

#[test]
fn read_batches_in_order() {
    let r = Reader::new("DSN=x".to_string(), "SELECT a, b FROM t".to_string(), Some(3));
    let chunks = r.read(&fields(), &vec![batch(1, b"xy"), batch(2, b"zw")]).unwrap();
    assert_eq!(chunks.len(), 2);
    match &chunks[1].arrays[0] {
        Array::Int32(v) => assert_eq!(v, &vec![Some(2)]),
        other => panic!("unexpected array {:?}", other),
    }
    match &chunks[0].arrays[1] {
        Array::Utf8(v) => assert_eq!(v, &vec![Some(b"xy".to_vec())]),
        other => panic!("unexpected array {:?}", other),
    }
    assert_eq!(r.read(&fields(), &vec![]).unwrap().len(), 0);
}

#[test]
fn read_reports_first_bad_batch() {
    let r = Reader::new(String::new(), String::new(), None);
    let err = r.read(&fields(), &vec![batch(1, b"ok"), batch(2, &[0xc3, 0x28])]).unwrap_err();
    assert_eq!(err, Error::EncodingError);
    assert_eq!(deserialize_batch(&fields(), &vec![]).unwrap_err(), Error::Incompatible);
}

use vstd::prelude::*;

use crate::array::{all_sized, all_utf8, Array, Cell};
use crate::buffer::{ColumnBuffer, FixedColumn, VarColumn, NULL_DATA};
use crate::datatypes::{is_supported, DataType};
use crate::error::Error;

verus! {

/// A column of this kind can be read as logical type `t`.
pub open spec fn readable(c: ColumnBuffer, t: DataType) -> bool {
    match (t, c) {
        (DataType::Boolean, ColumnBuffer::Bit(_)) => true,
        (DataType::Int16, ColumnBuffer::I16(_)) => true,
        (DataType::Int32, ColumnBuffer::I32(_)) => true,
        (DataType::Float32, ColumnBuffer::F32(_)) => true,
        (DataType::Float64, ColumnBuffer::F64(_)) => true,
        (DataType::FixedSizeBinary(_), ColumnBuffer::Binary(_)) => true,
        (DataType::Binary, ColumnBuffer::Binary(_)) => true,
        (DataType::LargeBinary, ColumnBuffer::Binary(_)) => true,
        (DataType::Utf8, ColumnBuffer::Text(_)) => true,
        (DataType::LargeUtf8, ColumnBuffer::Text(_)) => true,
        _ => false,
    }
}

/// Row `i` of `c` holds a value that type `t` does not accept: a
/// fixed-size binary of another size, or text that is not UTF-8.
pub open spec fn bad_row(c: ColumnBuffer, t: DataType, i: int) -> bool {
    match c.cell(i) {
        Some(Cell::Bytes(b)) => match t {
            DataType::FixedSizeBinary(n) => b.len() != n,
            DataType::Utf8 | DataType::LargeUtf8 => !vstd::utf8::valid_utf8(b),
            _ => false,
        },
        _ => false,
    }
}

/// Why column `c` cannot be read as type `t`, if it cannot.
pub open spec fn decode_error(c: ColumnBuffer, t: DataType) -> Option<Error> {
    if !is_supported(t) {
        Some(Error::UnsupportedType(t))
    } else if !readable(c, t) {
        Some(Error::Incompatible)
    } else if exists|i: int| 0 <= i < c.rows() && #[trigger] bad_row(c, t, i) {
        Some(if t is FixedSizeBinary { Error::WrongLength } else { Error::EncodingError })
    } else {
        None
    }
}

/// `a` is column `c` read as type `t`: one slot per row, null exactly
/// where the row is null, and otherwise the row's value.
pub open spec fn decoded(c: ColumnBuffer, t: DataType, a: Array) -> bool {
    &&& a.wf()
    &&& a.spec_data_type() == t
    &&& a.spec_len() == c.rows()
    &&& forall|i: int| 0 <= i < c.rows() ==> #[trigger] a.cell(i) == c.cell(i)
}

/// Reads a native column as an array of logical type `data_type`.
pub fn deserialize(column: &ColumnBuffer, data_type: &DataType) -> (r: Result<Array, Error>)
    requires
        column.wf(),
    ensures
        r is Ok <==> decode_error(*column, *data_type) is None,
        r matches Ok(a) ==> decoded(*column, *data_type, a),
        r matches Err(e) ==> decode_error(*column, *data_type) == Some(e),
        r matches Ok(a) ==> forall|i: int|
            0 <= i < column.rows() ==> (#[trigger] a.cell(i) is None <==> column.row_is_null(i)),
{
    if !supported(data_type) {
        return Err(Error::UnsupportedType(*data_type));
    }
    let r = match (data_type, column) {
        (DataType::Boolean, ColumnBuffer::Bit(c)) => Ok(Array::Boolean(read_bits(c))),
        (DataType::Int16, ColumnBuffer::I16(c)) => Ok(Array::Int16(read_fixed(c))),
        (DataType::Int32, ColumnBuffer::I32(c)) => Ok(Array::Int32(read_fixed(c))),
        (DataType::Float32, ColumnBuffer::F32(c)) => Ok(Array::Float32(read_fixed(c))),
        (DataType::Float64, ColumnBuffer::F64(c)) => Ok(Array::Float64(read_fixed(c))),
        (DataType::FixedSizeBinary(n), ColumnBuffer::Binary(c)) => {
            let v = read_var(c);
            if all_have_size(&v, *n) {
                Ok(Array::FixedSizeBinary(*n, v))
            } else {
                let ghost i = choose|i: int| 0 <= i < v.len() && !(#[trigger] v@[i] matches Some(b) ==> b@.len() == *n);
                assert(bad_row(*column, *data_type, i));
                Err(Error::WrongLength)
            }
        },
        (DataType::Binary, ColumnBuffer::Binary(c)) => Ok(Array::Binary(read_var(c))),
        (DataType::LargeBinary, ColumnBuffer::Binary(c)) => Ok(Array::LargeBinary(read_var(c))),
        (DataType::Utf8, ColumnBuffer::Text(c)) | (DataType::LargeUtf8, ColumnBuffer::Text(c)) => {
            let v = read_var(c);
            if all_valid_utf8(&v) {
                if matches!(data_type, DataType::Utf8) {
                    Ok(Array::Utf8(v))
                } else {
                    Ok(Array::LargeUtf8(v))
                }
            } else {
                let ghost i = choose|i: int| 0 <= i < v.len() && !(#[trigger] v@[i] matches Some(b) ==> vstd::utf8::valid_utf8(b@));
                assert(bad_row(*column, *data_type, i));
                Err(Error::EncodingError)
            }
        },
        _ => Err(Error::Incompatible),
    };
    proof {
        if r is Ok {
            let a = r->Ok_0;
            assert forall|i: int| 0 <= i < column.rows() implies !bad_row(*column, *data_type, i) by {
                assert(a.cell(i) == column.cell(i));
            }
        }
    }
    r
}

fn supported(t: &DataType) -> (r: bool)
    ensures
        r == is_supported(*t),
{
    match t {
        DataType::Boolean | DataType::Int16 | DataType::Int32 | DataType::Float32
        | DataType::Float64 | DataType::FixedSizeBinary(_) | DataType::Binary
        | DataType::LargeBinary | DataType::Utf8 | DataType::LargeUtf8 => true,
        _ => false,
    }
}

fn fixed_is_null<T>(c: &FixedColumn<T>, i: usize) -> (r: bool)
    requires
        c.wf(),
        i < c.rows(),
    ensures
        r == c.row_is_null(i as int),
{
    match &c.indicators {
        Some(ind) => ind[i] == NULL_DATA,
        None => false,
    }
}

fn read_fixed<T: Copy>(c: &FixedColumn<T>) -> (r: Vec<Option<T>>)
    requires
        c.wf(),
    ensures
        r.len() == c.rows(),
        forall|i: int|
            0 <= i < c.rows() ==> #[trigger] r@[i] == if c.row_is_null(i) {
                None
            } else {
                Some(c.values@[i])
            },
{
    let mut out: Vec<Option<T>> = Vec::new();
    let mut i: usize = 0;
    while i < c.values.len()
        invariant
            c.wf(),
            i <= c.rows(),
            out.len() == i,
            forall|j: int|
                0 <= j < i ==> #[trigger] out@[j] == if c.row_is_null(j) {
                    None
                } else {
                    Some(c.values@[j])
                },
        decreases c.rows() - i,
    {
        if fixed_is_null(c, i) {
            out.push(None);
        } else {
            out.push(Some(c.values[i]));
        }
        i = i + 1;
    }
    out
}

fn read_bits(c: &FixedColumn<u8>) -> (r: Vec<Option<bool>>)
    requires
        c.wf(),
    ensures
        r.len() == c.rows(),
        forall|i: int|
            0 <= i < c.rows() ==> #[trigger] r@[i] == if c.row_is_null(i) {
                None
            } else {
                Some(c.values@[i] != 0)
            },
{
    let mut out: Vec<Option<bool>> = Vec::new();
    let mut i: usize = 0;
    while i < c.values.len()
        invariant
            c.wf(),
            i <= c.rows(),
            out.len() == i,
            forall|j: int|
                0 <= j < i ==> #[trigger] out@[j] == if c.row_is_null(j) {
                    None
                } else {
                    Some(c.values@[j] != 0)
                },
        decreases c.rows() - i,
    {
        if fixed_is_null(c, i) {
            out.push(None);
        } else {
            out.push(Some(c.values[i] != 0));
        }
        i = i + 1;
    }
    out
}

fn read_var(c: &VarColumn) -> (r: Vec<Option<Vec<u8>>>)
    requires
        c.wf(),
    ensures
        r.len() == c.rows(),
        forall|i: int|
            0 <= i < c.rows() ==> (#[trigger] r@[i] is None <==> c.row_is_null(i)),
        forall|i: int|
            0 <= i < c.rows() ==> (#[trigger] r@[i] matches Some(b) ==> b@ == c.bytes(i)),
{
    let mut out: Vec<Option<Vec<u8>>> = Vec::new();
    let mut i: usize = 0;
    while i < c.indicators.len()
        invariant
            c.wf(),
            i <= c.rows(),
            out.len() == i,
            forall|j: int| 0 <= j < i ==> (#[trigger] out@[j] is None <==> c.row_is_null(j)),
            forall|j: int| 0 <= j < i ==> (#[trigger] out@[j] matches Some(b) ==> b@ == c.bytes(j)),
        decreases c.rows() - i,
    {
        out.push(c.value_at(i));
        i = i + 1;
    }
    out
}

pub(crate) fn all_have_size(v: &Vec<Option<Vec<u8>>>, n: usize) -> (r: bool)
    ensures
        r == all_sized(v@, n),
{
    let mut i: usize = 0;
    while i < v.len()
        invariant
            i <= v.len(),
            forall|j: int| 0 <= j < i ==> (#[trigger] v@[j] matches Some(b) ==> b@.len() == n),
        decreases v.len() - i,
    {
        if let Some(b) = &v[i] {
            if b.len() != n {
                return false;
            }
        }
        i = i + 1;
    }
    true
}

pub(crate) fn all_valid_utf8(v: &Vec<Option<Vec<u8>>>) -> (r: bool)
    ensures
        r == all_utf8(v@),
{
    let mut i: usize = 0;
    while i < v.len()
        invariant
            i <= v.len(),
            forall|j: int|
                0 <= j < i ==> (#[trigger] v@[j] matches Some(b) ==> vstd::utf8::valid_utf8(b@)),
        decreases v.len() - i,
    {
        if let Some(b) = &v[i] {
            if !is_utf8(b.as_slice()) {
                return false;
            }
        }
        i = i + 1;
    }
    true
}

/// Relies on `std::str::from_utf8`, which succeeds exactly on valid UTF-8.
#[verifier::external_body]
fn is_utf8(bytes: &[u8]) -> (r: bool)
    ensures
        r == vstd::utf8::valid_utf8(bytes@),
{
    std::str::from_utf8(bytes).is_ok()
}

} // verus!

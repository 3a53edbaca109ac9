use vstd::prelude::*;

use crate::array::{Array, Cell};
use crate::buffer::{ColumnBuffer, FixedColumn, VarColumn, NULL_DATA};
use crate::deserialize::{bad_row, decode_error, decoded, readable};
use crate::error::Error;

verus! {

/// Slot `i` of `a` is a value longer than `max_len` bytes.
pub open spec fn too_long(a: Array, i: int, max_len: usize) -> bool {
    a.cell(i) matches Some(Cell::Bytes(b)) && b.len() > max_len
}

/// Why array `a` cannot be written into column `c`, if it cannot.
pub open spec fn encode_error(a: Array, c: ColumnBuffer) -> Option<Error> {
    if !readable(c, a.spec_data_type()) || a.spec_len() > c.rows() || (a.spec_has_nulls()
        && !c.nullable()) {
        Some(Error::Incompatible)
    } else if exists|i: int| 0 <= i < a.spec_len() && #[trigger] too_long(a, i, c.max_len()) {
        Some(Error::ValueTooLong)
    } else {
        None
    }
}

/// `after` is `before` with the first `a.len()` rows holding the slots of
/// `a`, and the other rows untouched.
pub open spec fn serialized(a: Array, before: ColumnBuffer, after: ColumnBuffer) -> bool {
    &&& after.wf()
    &&& after.same_shape(before)
    &&& forall|i: int| 0 <= i < a.spec_len() ==> #[trigger] after.cell(i) == a.cell(i)
    &&& forall|i: int| a.spec_len() <= i < before.rows() ==> #[trigger] after.cell(i) == before.cell(i)
}

/// Writes `array` into the first rows of `column`, values and indicators.
/// Nothing is written when the array does not fit the column.
pub fn serialize(array: &Array, column: &mut ColumnBuffer) -> (r: Result<(), Error>)
    requires
        old(column).wf(),
        array.wf(),
    ensures
        r is Ok <==> encode_error(*array, *old(column)) is None,
        r matches Err(e) ==> encode_error(*array, *old(column)) == Some(e) && *final(column) == *old(column),
        r is Ok ==> serialized(*array, *old(column), *final(column)),
{
    let fits_kind = match (array, &*column) {
        (Array::Boolean(_), ColumnBuffer::Bit(_)) => true,
        (Array::Int16(_), ColumnBuffer::I16(_)) => true,
        (Array::Int32(_), ColumnBuffer::I32(_)) => true,
        (Array::Float32(_), ColumnBuffer::F32(_)) => true,
        (Array::Float64(_), ColumnBuffer::F64(_)) => true,
        (Array::FixedSizeBinary(_, _), ColumnBuffer::Binary(_)) => true,
        (Array::Binary(_), ColumnBuffer::Binary(_)) => true,
        (Array::LargeBinary(_), ColumnBuffer::Binary(_)) => true,
        (Array::Utf8(_), ColumnBuffer::Text(_)) => true,
        (Array::LargeUtf8(_), ColumnBuffer::Text(_)) => true,
        _ => false,
    };
    let nullable = match &*column {
        ColumnBuffer::Bit(c) => c.indicators.is_some(),
        ColumnBuffer::I16(c) => c.indicators.is_some(),
        ColumnBuffer::I32(c) => c.indicators.is_some(),
        ColumnBuffer::F32(c) => c.indicators.is_some(),
        ColumnBuffer::F64(c) => c.indicators.is_some(),
        ColumnBuffer::Binary(_) => true,
        ColumnBuffer::Text(_) => true,
    };
    if !fits_kind || array.len() > column.num_rows() || (array.has_nulls() && !nullable) {
        return Err(Error::Incompatible);
    }
    let max_len = match &*column {
        ColumnBuffer::Binary(c) => c.max_len,
        ColumnBuffer::Text(c) => c.max_len,
        _ => 0,
    };
    let short = match array {
        Array::FixedSizeBinary(_, v) => all_fit(v, max_len),
        Array::Binary(v) => all_fit(v, max_len),
        Array::LargeBinary(v) => all_fit(v, max_len),
        Array::Utf8(v) => all_fit(v, max_len),
        Array::LargeUtf8(v) => all_fit(v, max_len),
        _ => true,
    };
    if !short {
        proof {
            let v = array.byte_slots();
            let i = choose|i: int| 0 <= i < v.len() && !(#[trigger] v[i] matches Some(b) ==> b@.len() <= max_len);
            assert(too_long(*array, i, column.max_len()));
        }
        return Err(Error::ValueTooLong);
    }
    proof {
        assert forall|i: int| 0 <= i < array.spec_len() implies !(#[trigger] too_long(*array, i, column.max_len())) by {}
        assert forall|i: int| 0 <= i < array.spec_len() && !nullable implies !(#[trigger] array.cell(i) is None) by {}
    }
    let mut taken = ColumnBuffer::Bit(FixedColumn { values: Vec::new(), indicators: None });
    std::mem::swap(column, &mut taken);
    let ghost before = taken;
    let filled = match array {
        Array::Boolean(v) => match taken {
            ColumnBuffer::Bit(c) => {
                proof {
                    assert forall|i: int| 0 <= i < v.len() && (#[trigger] v@[i]) is None implies c.nullable() by {
                        assert(array.cell(i) is None);
                    }
                }
                ColumnBuffer::Bit(write_bits(v, c))
            },
            other => other,
        },
        Array::Int16(v) => match taken {
            ColumnBuffer::I16(c) => {
                proof {
                    assert forall|i: int| 0 <= i < v.len() && (#[trigger] v@[i]) is None implies c.nullable() by {
                        assert(array.cell(i) is None);
                    }
                }
                ColumnBuffer::I16(write_fixed(v, c))
            },
            other => other,
        },
        Array::Int32(v) => match taken {
            ColumnBuffer::I32(c) => {
                proof {
                    assert forall|i: int| 0 <= i < v.len() && (#[trigger] v@[i]) is None implies c.nullable() by {
                        assert(array.cell(i) is None);
                    }
                }
                ColumnBuffer::I32(write_fixed(v, c))
            },
            other => other,
        },
        Array::Float32(v) => match taken {
            ColumnBuffer::F32(c) => {
                proof {
                    assert forall|i: int| 0 <= i < v.len() && (#[trigger] v@[i]) is None implies c.nullable() by {
                        assert(array.cell(i) is None);
                    }
                }
                ColumnBuffer::F32(write_fixed(v, c))
            },
            other => other,
        },
        Array::Float64(v) => match taken {
            ColumnBuffer::F64(c) => {
                proof {
                    assert forall|i: int| 0 <= i < v.len() && (#[trigger] v@[i]) is None implies c.nullable() by {
                        assert(array.cell(i) is None);
                    }
                }
                ColumnBuffer::F64(write_fixed(v, c))
            },
            other => other,
        },
        Array::FixedSizeBinary(_, v) | Array::Binary(v) | Array::LargeBinary(v) => match taken {
            ColumnBuffer::Binary(c) => ColumnBuffer::Binary(write_var(v, c)),
            other => other,
        },
        Array::Utf8(v) | Array::LargeUtf8(v) => match taken {
            ColumnBuffer::Text(c) => ColumnBuffer::Text(write_var(v, c)),
            other => other,
        },
    };
    *column = filled;
    proof {
        assert forall|i: int| 0 <= i < array.spec_len() implies #[trigger] column.cell(i) == array.cell(i) by {}
        assert forall|i: int| array.spec_len() <= i < before.rows() implies #[trigger] column.cell(i) == before.cell(i) by {}
    }
    Ok(())
}

/// Writing an array into a column of exactly its length and reading that
/// column back as the array's type succeeds and gives the array's slots
/// again: each value where the array has a value, a null where it has a null.
pub proof fn lemma_round_trip(a: Array, before: ColumnBuffer, after: ColumnBuffer)
    requires
        a.wf(),
        before.wf(),
        before.rows() == a.spec_len(),
        encode_error(a, before) is None,
        serialized(a, before, after),
    ensures
        decode_error(after, a.spec_data_type()) is None,
        forall|b: Array| decoded(after, a.spec_data_type(), b) ==> #[trigger] b.same_slots(a),
{
    let t = a.spec_data_type();
    assert forall|i: int| 0 <= i < after.rows() implies !#[trigger] bad_row(after, t, i) by {
        assert(after.cell(i) == a.cell(i));
    }
    assert forall|b: Array| decoded(after, t, b) implies #[trigger] b.same_slots(a) by {
        assert forall|i: int| 0 <= i < b.spec_len() implies #[trigger] b.cell(i) == a.cell(i) by {
            assert(after.cell(i) == a.cell(i));
        }
    }
}

fn all_fit(v: &Vec<Option<Vec<u8>>>, max_len: usize) -> (r: bool)
    ensures
        r == forall|i: int| 0 <= i < v.len() ==> (#[trigger] v@[i] matches Some(b) ==> b@.len() <= max_len),
{
    let mut i: usize = 0;
    while i < v.len()
        invariant
            i <= v.len(),
            forall|j: int| 0 <= j < i ==> (#[trigger] v@[j] matches Some(b) ==> b@.len() <= max_len),
        decreases v.len() - i,
    {
        if let Some(b) = &v[i] {
            if b.len() > max_len {
                return false;
            }
        }
        i = i + 1;
    }
    true
}

/// Null indicators for the first `vals.len()` rows; later rows keep theirs.
fn write_indicators<T>(vals: &Vec<Option<T>>, ind: Vec<isize>) -> (r: Vec<isize>)
    requires
        vals.len() <= ind.len(),
    ensures
        r.len() == ind.len(),
        forall|i: int| 0 <= i < vals.len() ==> (#[trigger] vals@[i] is None <==> r@[i] == NULL_DATA),
        forall|i: int| vals.len() <= i < ind.len() ==> #[trigger] r@[i] == ind@[i],
{
    let mut ind = ind;
    let ghost orig = ind@;
    let mut i: usize = 0;
    while i < vals.len()
        invariant
            vals.len() <= orig.len(),
            ind.len() == orig.len(),
            i <= vals.len(),
            forall|j: int| 0 <= j < i ==> (#[trigger] vals@[j] is None <==> ind@[j] == NULL_DATA),
            forall|j: int| i <= j < orig.len() ==> #[trigger] ind@[j] == orig[j],
        decreases vals.len() - i,
    {
        if vals[i].is_none() {
            ind.set(i, NULL_DATA);
        } else {
            ind.set(i, 0);
        }
        i = i + 1;
    }
    ind
}

fn write_fixed<T: Copy>(vals: &Vec<Option<T>>, c: FixedColumn<T>) -> (r: FixedColumn<T>)
    requires
        c.wf(),
        vals.len() <= c.rows(),
        forall|i: int| 0 <= i < vals.len() && (#[trigger] vals@[i]) is None ==> c.nullable(),
    ensures
        r.wf(),
        r.rows() == c.rows(),
        r.nullable() == c.nullable(),
        forall|i: int|
            0 <= i < vals.len() ==> (#[trigger] vals@[i] is None <==> r.row_is_null(i)),
        forall|i: int|
            0 <= i < vals.len() ==> (#[trigger] vals@[i] matches Some(x) ==> r.values@[i] == x),
        forall|i: int| vals.len() <= i < c.rows() ==> #[trigger] r.values@[i] == c.values@[i],
        forall|i: int| vals.len() <= i < c.rows() ==> #[trigger] r.row_is_null(i) == c.row_is_null(i),
{
    let FixedColumn { mut values, indicators } = c;
    let mut i: usize = 0;
    while i < vals.len()
        invariant
            vals.len() <= c.rows(),
            i <= vals.len(),
            values.len() == c.values.len(),
            forall|j: int| 0 <= j < i ==> (#[trigger] vals@[j] matches Some(x) ==> values@[j] == x),
            forall|j: int| i <= j < c.rows() ==> #[trigger] values@[j] == c.values@[j],
        decreases vals.len() - i,
    {
        if let Some(x) = vals[i] {
            values.set(i, x);
        }
        i = i + 1;
    }
    let indicators = match indicators {
        Some(ind) => Some(write_indicators(vals, ind)),
        None => None,
    };
    FixedColumn { values, indicators }
}

fn write_bits(vals: &Vec<Option<bool>>, c: FixedColumn<u8>) -> (r: FixedColumn<u8>)
    requires
        c.wf(),
        vals.len() <= c.rows(),
        forall|i: int| 0 <= i < vals.len() && (#[trigger] vals@[i]) is None ==> c.nullable(),
    ensures
        r.wf(),
        r.rows() == c.rows(),
        r.nullable() == c.nullable(),
        forall|i: int|
            0 <= i < vals.len() ==> (#[trigger] vals@[i] is None <==> r.row_is_null(i)),
        forall|i: int|
            0 <= i < vals.len() ==> (#[trigger] vals@[i] matches Some(x) ==> (r.values@[i] != 0) == x),
        forall|i: int| vals.len() <= i < c.rows() ==> #[trigger] r.values@[i] == c.values@[i],
        forall|i: int| vals.len() <= i < c.rows() ==> #[trigger] r.row_is_null(i) == c.row_is_null(i),
{
    let FixedColumn { mut values, indicators } = c;
    let mut i: usize = 0;
    while i < vals.len()
        invariant
            vals.len() <= c.rows(),
            i <= vals.len(),
            values.len() == c.values.len(),
            forall|j: int| 0 <= j < i ==> (#[trigger] vals@[j] matches Some(x) ==> (values@[j] != 0) == x),
            forall|j: int| i <= j < c.rows() ==> #[trigger] values@[j] == c.values@[j],
        decreases vals.len() - i,
    {
        if let Some(x) = vals[i] {
            values.set(i, if x { 1u8 } else { 0u8 });
        }
        i = i + 1;
    }
    let indicators = match indicators {
        Some(ind) => Some(write_indicators(vals, ind)),
        None => None,
    };
    FixedColumn { values, indicators }
}

/// A slot of `size` bytes that starts with `b`, the rest zero.
fn padded(b: &Vec<u8>, size: usize) -> (r: Vec<u8>)
    requires
        b.len() <= size,
    ensures
        r@.len() == size,
        r@.subrange(0, b.len() as int) == b@,
{
    let mut out: Vec<u8> = Vec::new();
    let mut i: usize = 0;
    while i < size
        invariant
            b.len() <= size,
            i <= size,
            out@.len() == i,
            forall|j: int| 0 <= j < i && j < b.len() ==> out@[j] == b@[j],
        decreases size - i,
    {
        if i < b.len() {
            out.push(b[i]);
        } else {
            out.push(0u8);
        }
        i = i + 1;
    }
    assert(out@.subrange(0, b.len() as int) =~= b@);
    out
}

fn write_var(vals: &Vec<Option<Vec<u8>>>, c: VarColumn) -> (r: VarColumn)
    requires
        c.wf(),
        vals.len() <= c.rows(),
        forall|i: int| 0 <= i < vals.len() ==> (#[trigger] vals@[i] matches Some(b) ==> b@.len() <= c.max_len),
    ensures
        r.wf(),
        r.rows() == c.rows(),
        r.max_len == c.max_len,
        forall|i: int|
            0 <= i < vals.len() ==> (#[trigger] vals@[i] is None <==> r.row_is_null(i)),
        forall|i: int|
            0 <= i < vals.len() ==> (#[trigger] vals@[i] matches Some(b) ==> r.bytes(i) == b@),
        forall|i: int| vals.len() <= i < c.rows() ==> #[trigger] r.values@[i] == c.values@[i],
        forall|i: int| vals.len() <= i < c.rows() ==> #[trigger] r.indicators@[i] == c.indicators@[i],
{
    let VarColumn { max_len, mut values, mut indicators } = c;
    let mut i: usize = 0;
    while i < vals.len()
        invariant
            c.wf(),
            max_len == c.max_len,
            vals.len() <= c.rows(),
            forall|j: int| 0 <= j < vals.len() ==> (#[trigger] vals@[j] matches Some(b) ==> b@.len() <= c.max_len),
            i <= vals.len(),
            values.len() == c.values.len(),
            indicators.len() == c.indicators.len(),
            forall|j: int| 0 <= j < values.len() ==> (#[trigger] values@[j])@.len() == max_len,
            forall|j: int|
                0 <= j < i ==> (#[trigger] vals@[j] is None <==> (VarColumn { max_len, values, indicators }).row_is_null(j)),
            forall|j: int|
                0 <= j < i ==> (#[trigger] vals@[j] matches Some(b) ==> (VarColumn { max_len, values, indicators }).bytes(j) == b@),
            forall|j: int| i <= j < c.rows() ==> #[trigger] values@[j] == c.values@[j],
            forall|j: int| i <= j < c.rows() ==> #[trigger] indicators@[j] == c.indicators@[j],
        decreases vals.len() - i,
    {
        match &vals[i] {
            Some(b) => {
                values.set(i, padded(b, max_len));
                indicators.set(i, b.len() as isize);
            },
            None => {
                indicators.set(i, NULL_DATA);
            },
        }
        i = i + 1;
    }
    VarColumn { max_len, values, indicators }
}

} // verus!

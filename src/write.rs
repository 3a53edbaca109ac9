use vstd::prelude::*;

use crate::array::{Array, Cell, Chunk};
use crate::buffer::ColumnBuffer;
use crate::datatypes::{BufferDescriptor, ColumnDescription, DataType, Field, NativeKind, SqlType};
use crate::error::Error;
use crate::schema::{data_type_to, descriptor_of};
use crate::serialize::{encode_error, serialize, too_long};

verus! {

/// Prefix of the names given to the columns of a batch written without a
/// schema; the column's index follows it.
pub const COLUMN_PREFIX: &'static str = "column_";

/// An insert statement that batches are written to.
pub struct Writer {
    pub connection_string: String,
    pub query: String,
    pub login_timeout_sec: Option<u32>,
}

/// `m` is the length of the longest value of `a` (0 when it has none).
pub open spec fn is_longest(a: Array, m: usize) -> bool {
    &&& forall|i: int|
        0 <= i < a.spec_len() ==> (#[trigger] a.cell(i) matches Some(Cell::Bytes(b)) ==> b.len() <= m)
    &&& (m == 0 || exists|i: int|
        0 <= i < a.spec_len() && (#[trigger] a.cell(i) matches Some(Cell::Bytes(b)) && b.len() == m))
}

/// The field a written column is described by: its own type, nullable
/// exactly when some slot is null, and as long as its longest value.
pub open spec fn field_for(a: Array, f: Field) -> bool {
    &&& f.data_type == a.spec_data_type()
    &&& f.is_nullable == a.spec_has_nulls()
    &&& is_longest(a, f.max_length)
}

/// `name` is the prefix followed by `j` as std writes it in decimal.
pub open spec fn is_column_name(j: usize, name: String) -> bool {
    exists|d: String|
        vstd::string::to_string_from_display_ensures::<usize>(&j, d) && name@ == COLUMN_PREFIX@ + d@
}

/// Name of column `j` of a batch written without a schema.
pub fn column_name(j: usize) -> (r: String)
    ensures
        is_column_name(j, r),
{
    let digits = j.to_string();
    let r = String::from_str(COLUMN_PREFIX).concat(digits.as_str());
    assert(vstd::string::to_string_from_display_ensures::<usize>(&j, digits) && r@ == COLUMN_PREFIX@ + digits@);
    r
}

/// Length of the longest present value among `v`.
fn longest_in(v: &Vec<Option<Vec<u8>>>) -> (r: usize)
    ensures
        forall|i: int| 0 <= i < v.len() ==> (#[trigger] v@[i] matches Some(b) ==> b@.len() <= r),
        r == 0 || exists|i: int| 0 <= i < v.len() && (#[trigger] v@[i] matches Some(b) && b@.len() == r),
{
    let mut m: usize = 0;
    let mut i: usize = 0;
    while i < v.len()
        invariant
            i <= v.len(),
            forall|j: int| 0 <= j < i ==> (#[trigger] v@[j] matches Some(b) ==> b@.len() <= m),
            m == 0 || exists|j: int| 0 <= j < i && (#[trigger] v@[j] matches Some(b) && b@.len() == m),
        decreases v.len() - i,
    {
        if let Some(b) = &v[i] {
            if b.len() > m {
                m = b.len();
            }
        }
        i = i + 1;
    }
    m
}

/// Length of the longest value of an array; 0 for fixed-width types.
pub fn longest_value(a: &Array) -> (r: usize)
    ensures
        is_longest(*a, r),
{
    let r = match a {
        Array::FixedSizeBinary(_, v) => longest_in(v),
        Array::Binary(v) => longest_in(v),
        Array::LargeBinary(v) => longest_in(v),
        Array::Utf8(v) => longest_in(v),
        Array::LargeUtf8(v) => longest_in(v),
        _ => 0,
    };
    proof {
        if r != 0 {
            let v = a.byte_slots();
            let i = choose|i: int| 0 <= i < v.len() && (#[trigger] v[i] matches Some(b) && b@.len() == r);
            assert(a.cell(i) matches Some(Cell::Bytes(b)) && b.len() == r);
        }
        assert forall|i: int| 0 <= i < a.spec_len() implies (#[trigger] a.cell(i) matches Some(Cell::Bytes(b)) ==> b.len() <= r) by {}
    }
    r
}

/// The lengths of a written column fit the driver's signed indicators.
pub open spec fn lengths_fit(a: Array) -> bool {
    match a {
        Array::FixedSizeBinary(n, _) => n <= isize::MAX,
        _ => forall|i: int|
            0 <= i < a.spec_len() ==> (#[trigger] a.cell(i) matches Some(Cell::Bytes(b)) ==> b.len()
                <= isize::MAX),
    }
}

/// A column of layout `d` can hold values of type `t`.
pub open spec fn layout_accepts(d: BufferDescriptor, t: DataType) -> bool {
    match (d.kind, t) {
        (NativeKind::Bit, DataType::Boolean) => true,
        (NativeKind::SmallInt, DataType::Int16) => true,
        (NativeKind::Integer, DataType::Int32) => true,
        (NativeKind::Float { precision }, DataType::Float32) => precision <= 24,
        (NativeKind::Float { precision }, DataType::Float64) => precision > 24,
        (NativeKind::Binary { .. }, DataType::FixedSizeBinary(_)) => true,
        (NativeKind::Binary { .. }, DataType::Binary) => true,
        (NativeKind::Binary { .. }, DataType::LargeBinary) => true,
        (NativeKind::Varbinary { .. }, DataType::FixedSizeBinary(_)) => true,
        (NativeKind::Varbinary { .. }, DataType::Binary) => true,
        (NativeKind::Varbinary { .. }, DataType::LargeBinary) => true,
        (NativeKind::Varchar { .. }, DataType::Utf8) => true,
        (NativeKind::Varchar { .. }, DataType::LargeUtf8) => true,
        _ => false,
    }
}

/// Variable-length layouts always have null indicators.
pub open spec fn layout_nullable(d: BufferDescriptor) -> bool {
    match d.kind {
        NativeKind::Binary { .. } | NativeKind::Varbinary { .. } | NativeKind::Varchar { .. } => true,
        _ => d.nullable,
    }
}

/// Maximum value length of a layout; 0 for fixed-width kinds.
pub open spec fn layout_max_len(d: BufferDescriptor) -> usize {
    match d.kind {
        NativeKind::Binary { length } => length,
        NativeKind::Varbinary { length } => length,
        NativeKind::Varchar { length } => length,
        _ => 0,
    }
}

/// Why array `a` cannot be written to a column declared as field `f`, if
/// it cannot: the field's type has no native kind, its declared length does
/// not fit the indicators, the array does not fit the layout (other type,
/// or nulls where the column has no indicators), or a value is longer than
/// the declared maximum.
pub open spec fn field_error(a: Array, f: Field) -> Option<Error> {
    match descriptor_of(f) {
        None => Some(Error::UnsupportedType(f.data_type)),
        Some(d) => if !d.length_fits() {
            Some(Error::LengthOutOfRange)
        } else if !layout_accepts(d, a.spec_data_type()) || (a.spec_has_nulls() && !layout_nullable(d)) {
            Some(Error::Incompatible)
        } else if exists|i: int| 0 <= i < a.spec_len() && #[trigger] too_long(a, i, layout_max_len(d)) {
            Some(Error::ValueTooLong)
        } else {
            None
        },
    }
}

/// Column `c` has the layout that field `f` maps to.
pub open spec fn laid_out_for(c: ColumnBuffer, f: Field) -> bool {
    match descriptor_of(f) {
        Some(d) => c.matches_descriptor(d),
        None => false,
    }
}

/// Column `j` is the first whose array cannot be written as its field.
pub open spec fn first_failing(arrays: Seq<Array>, fields: Seq<Field>, j: int) -> bool {
    &&& 0 <= j < arrays.len()
    &&& field_error(arrays[j], fields[j]) is Some
    &&& forall|k: int| 0 <= k < j ==> field_error(#[trigger] arrays[k], fields[k]) is None
}

/// `bufs` holds, for each array, a column laid out for its field and
/// holding the array's `n` slots.
pub open spec fn filled(arrays: Seq<Array>, fields: Seq<Field>, n: nat, bufs: Seq<ColumnBuffer>) -> bool {
    &&& bufs.len() == arrays.len()
    &&& forall|j: int|
        0 <= j < bufs.len() ==> {
            let c = #[trigger] bufs[j];
            let a = arrays[j];
            &&& c.wf()
            &&& c.rows() == n
            &&& laid_out_for(c, fields[j])
            &&& forall|i: int| 0 <= i < c.rows() ==> #[trigger] c.cell(i) == a.cell(i)
        }
}

/// A column laid out as `d` takes an array unless the layout refuses it.
proof fn lemma_layout_error(a: Array, d: BufferDescriptor, c: ColumnBuffer)
    requires
        a.wf(),
        c.wf(),
        c.matches_descriptor(d),
        c.rows() == a.spec_len(),
    ensures
        encode_error(a, c) == (if !layout_accepts(d, a.spec_data_type()) || (a.spec_has_nulls()
            && !layout_nullable(d)) {
            Some(Error::Incompatible)
        } else if exists|i: int| 0 <= i < a.spec_len() && #[trigger] too_long(a, i, layout_max_len(d)) {
            Some(Error::ValueTooLong)
        } else {
            None
        }),
{
    assert(crate::deserialize::readable(c, a.spec_data_type()) == layout_accepts(d, a.spec_data_type()));
    assert(c.nullable() == layout_nullable(d));
    assert(c.max_len() == layout_max_len(d));
}

/// The field derived from an array accepts it, unless its longest value
/// does not fit the length indicators.
proof fn lemma_derived_field(a: Array, f: Field)
    requires
        a.wf(),
        field_for(a, f),
    ensures
        field_error(a, f) is None <==> lengths_fit(a),
        field_error(a, f) is Some ==> field_error(a, f) == Some(Error::LengthOutOfRange),
{
    assert forall|i: int| 0 <= i < a.spec_len() implies !(#[trigger] too_long(a, i, f.max_length)) by {}
    if let Array::FixedSizeBinary(n, v) = a {
        assert forall|i: int| 0 <= i < a.spec_len() implies !(#[trigger] too_long(a, i, n)) by {
            assert(v@[i] matches Some(b) ==> b@.len() == n);
        }
    }
    if !lengths_fit(a) && !(a is FixedSizeBinary) {
        let i = choose|i: int|
            0 <= i < a.spec_len() && !(#[trigger] a.cell(i) matches Some(Cell::Bytes(b)) ==> b.len() <= isize::MAX);
        assert(a.cell(i) matches Some(Cell::Bytes(b)) && b.len() <= f.max_length);
    }
}

/// The declared maximum length of a driver-reported column type; 0 for
/// types without one.
pub open spec fn declared_length(t: SqlType) -> usize {
    match t {
        SqlType::Char { length } => length,
        SqlType::Varchar { length } => length,
        SqlType::Binary { length } => length,
        SqlType::Varbinary { length } => length,
        _ => 0,
    }
}

/// A batch written as fields of its arrays' own types and read back with
/// the same fields is read without error, and gives every array's slots again: its values in order,
/// and nulls exactly where it had nulls.
pub proof fn lemma_batch_round_trip(chunk: Chunk, fields: Seq<Field>, bufs: Seq<ColumnBuffer>)
    requires
        chunk.wf(),
        fields.len() == chunk.arrays.len(),
        forall|j: int| 0 <= j < fields.len() ==> field_error(#[trigger] chunk.arrays@[j], fields[j]) is None,
        forall|j: int| 0 <= j < fields.len() ==> (#[trigger] fields[j]).data_type == chunk.arrays@[j].spec_data_type(),
        filled(chunk.arrays@, fields, chunk.spec_num_rows(), bufs),
    ensures
        crate::read::batch_error(fields, bufs) is None,
        forall|out: Chunk|
            crate::read::batch_decoded(fields, bufs, out) ==> forall|j: int|
                0 <= j < fields.len() ==> (#[trigger] out.arrays@[j]).same_slots(chunk.arrays@[j]),
{
    assert forall|j: int| 0 <= j < fields.len() implies crate::deserialize::decode_error(#[trigger] bufs[j], fields[j].data_type) is None by {
        let a = chunk.arrays@[j];
        let f = fields[j];
        let c = bufs[j];
        assert(field_error(a, f) is None);
        assert(laid_out_for(c, f));
        let t = f.data_type;
        assert(crate::deserialize::readable(c, t));
        assert forall|i: int| 0 <= i < c.rows() implies !#[trigger] crate::deserialize::bad_row(c, t, i) by {
            assert(c.cell(i) == a.cell(i));
            if let Array::FixedSizeBinary(n, v) = a {
                assert(v@[i] matches Some(b) ==> b@.len() == n);
            }
            if let Array::Utf8(v) = a {
                assert(v@[i] matches Some(b) ==> vstd::utf8::valid_utf8(b@));
            }
            if let Array::LargeUtf8(v) = a {
                assert(v@[i] matches Some(b) ==> vstd::utf8::valid_utf8(b@));
            }
        }
    }
    assert forall|j: int| !crate::read::first_bad_column(fields, bufs, j) by {}
    assert forall|out: Chunk| crate::read::batch_decoded(fields, bufs, out) implies forall|j: int|
        0 <= j < fields.len() ==> (#[trigger] out.arrays@[j]).same_slots(chunk.arrays@[j]) by {
        assert forall|j: int| 0 <= j < fields.len() implies (#[trigger] out.arrays@[j]).same_slots(chunk.arrays@[j]) by {
            let a = chunk.arrays@[j];
            let c = bufs[j];
            assert(crate::deserialize::decoded(c, fields[j].data_type, out.arrays@[j]));
            assert forall|i: int| 0 <= i < a.spec_len() implies #[trigger] out.arrays@[j].cell(i) == a.cell(i) by {
                assert(c.cell(i) == a.cell(i));
            }
        }
    }
}

impl Writer {
    pub fn new(connection_string: String, query: String, login_timeout_sec: Option<u32>) -> (r: Self)
        ensures
            r.connection_string@ == connection_string@,
            r.query@ == query@,
            r.login_timeout_sec == login_timeout_sec,
    {
        Writer { connection_string, query, login_timeout_sec }
    }

    /// Fields for a batch written without a schema: column `i` is named
    /// `column_<i>` and described by `field_for`.
    pub fn fields_of(chunk: &Chunk) -> (r: Vec<Field>)
        ensures
            r.len() == chunk.arrays.len(),
            forall|j: int| 0 <= j < r.len() ==> field_for(chunk.arrays@[j], #[trigger] r@[j]),
            forall|j: int| 0 <= j < r.len() ==> is_column_name(j as usize, #[trigger] r@[j].name),
    {
        let mut fields: Vec<Field> = Vec::new();
        let mut j: usize = 0;
        while j < chunk.arrays.len()
            invariant
                j <= chunk.arrays.len(),
                fields.len() == j,
                forall|k: int| 0 <= k < j ==> field_for(chunk.arrays@[k], #[trigger] fields@[k]),
                forall|k: int| 0 <= k < j ==> is_column_name(k as usize, #[trigger] fields@[k].name),
            decreases chunk.arrays.len() - j,
        {
            let a = &chunk.arrays[j];
            let name = column_name(j);
            fields.push(Field { name, data_type: a.data_type(), is_nullable: a.has_nulls(), max_length: longest_value(a) });
            j = j + 1;
        }
        fields
    }

    /// The field that array `a` is written as, to a target column that the
    /// driver describes as `column`: the array's type, the column's declared
    /// maximum length and nullability, named `column_<index>`.
    pub fn target_field(index: usize, a: &Array, column: &ColumnDescription) -> (r: Field)
        ensures
            is_column_name(index, r.name),
            r.data_type == a.spec_data_type(),
            r.max_length == declared_length(column.data_type),
            r.is_nullable == column.nullability.spec_could_be_nullable(),
    {
        let max_length = match column.data_type {
            SqlType::Char { length } | SqlType::Varchar { length } | SqlType::Binary { length }
            | SqlType::Varbinary { length } => length,
            _ => 0,
        };
        Field {
            name: column_name(index),
            data_type: a.data_type(),
            is_nullable: column.nullability.could_be_nullable(),
            max_length,
        }
    }

    /// Buffers for a batch written to columns declared as `fields`: column
    /// `j` is laid out for field `j`, with the field's declared maximum
    /// length, and holds array `j`. Fails with the error of the first
    /// column whose array cannot be written as its field (see
    /// `field_error`); a value longer than its column's declared maximum is
    /// `ValueTooLong`.
    pub fn fill_buffers_for(fields: &Vec<Field>, chunk: &Chunk) -> (r: Result<Vec<ColumnBuffer>, Error>)
        requires
            chunk.wf(),
        ensures
            fields.len() != chunk.arrays.len() ==> r == Err::<Vec<ColumnBuffer>, Error>(Error::Incompatible),
            r is Ok <==> fields.len() == chunk.arrays.len() && forall|j: int|
                0 <= j < chunk.arrays.len() ==> field_error(#[trigger] chunk.arrays@[j], fields@[j]) is None,
            fields.len() == chunk.arrays.len() ==> (r matches Err(e) ==> exists|j: int|
                first_failing(chunk.arrays@, fields@, j) && field_error(
                    #[trigger] chunk.arrays@[j],
                    fields@[j],
                ) == Some(e)),
            r matches Ok(bufs) ==> filled(chunk.arrays@, fields@, chunk.spec_num_rows(), bufs@),
    {
        if fields.len() != chunk.arrays.len() {
            return Err(Error::Incompatible);
        }
        let n = chunk.num_rows();
        let mut bufs: Vec<ColumnBuffer> = Vec::new();
        let mut j: usize = 0;
        while j < chunk.arrays.len()
            invariant
                chunk.wf(),
                n == chunk.spec_num_rows(),
                fields.len() == chunk.arrays.len(),
                j <= chunk.arrays.len(),
                forall|k: int| 0 <= k < j ==> field_error(#[trigger] chunk.arrays@[k], fields@[k]) is None,
                filled(chunk.arrays@.take(j as int), fields@, n as nat, bufs@),
            decreases chunk.arrays.len() - j,
        {
            let f = &fields[j];
            let a = &chunk.arrays[j];
            proof {
                assert(a.spec_len() == n);
            }
            let kind = match data_type_to(&f.data_type, f.max_length) {
                Ok(k) => k,
                Err(e) => {
                    assert(first_failing(chunk.arrays@, fields@, j as int));
                    return Err(e);
                },
            };
            let d = BufferDescriptor { kind, nullable: f.is_nullable };
            assert(descriptor_of(*f) == Some(d));
            let fits = match d.kind {
                NativeKind::Binary { length } | NativeKind::Varbinary { length } | NativeKind::Varchar {
                    length,
                } => length <= isize::MAX as usize,
                _ => true,
            };
            if !fits {
                assert(first_failing(chunk.arrays@, fields@, j as int));
                return Err(Error::LengthOutOfRange);
            }
            let mut c = ColumnBuffer::new(&d, n);
            proof {
                lemma_layout_error(*a, d, c);
            }
            let ghost before = c;
            match serialize(a, &mut c) {
                Ok(()) => {},
                Err(e) => {
                    assert(first_failing(chunk.arrays@, fields@, j as int));
                    return Err(e);
                },
            }
            proof {
                assert(c.matches_descriptor(d)) by {
                    assert(c.same_shape(before));
                }
            }
            bufs.push(c);
            proof {
                assert(chunk.arrays@.take(j + 1)[j as int] == chunk.arrays@[j as int]);
                assert forall|k: int| 0 <= k < j ==> chunk.arrays@.take(j + 1)[k] == #[trigger] chunk.arrays@.take(j as int)[k] by {}
            }
            j = j + 1;
        }
        assert(chunk.arrays@.take(j as int) =~= chunk.arrays@);
        Ok(bufs)
    }

    /// Buffers for a batch written without a schema, with the fields of
    /// `fields_of`. Each variable-length column is declared as long as its
    /// longest value, so this mode cannot tell a value that is too long for
    /// the target table's column: use `fill_buffers_for` with the target's
    /// declared fields for that.
    pub fn fill_buffers(chunk: &Chunk) -> (r: Result<Vec<ColumnBuffer>, Error>)
        requires
            chunk.wf(),
        ensures
            r is Ok <==> forall|j: int| 0 <= j < chunk.arrays.len() ==> lengths_fit(#[trigger] chunk.arrays@[j]),
            r matches Err(e) ==> e == Error::LengthOutOfRange,
            r matches Ok(bufs) ==> exists|fields: Seq<Field>|
                {
                    &&& fields.len() == chunk.arrays.len()
                    &&& forall|j: int| 0 <= j < fields.len() ==> field_for(chunk.arrays@[j], #[trigger] fields[j])
                    &&& filled(chunk.arrays@, fields, chunk.spec_num_rows(), bufs@)
                },
    {
        let fields = Writer::fields_of(chunk);
        proof {
            assert forall|j: int| 0 <= j < fields.len() implies (field_error(#[trigger] chunk.arrays@[j], fields@[j]) is None <==> lengths_fit(chunk.arrays@[j]))
                && (field_error(chunk.arrays@[j], fields@[j]) is Some ==> field_error(chunk.arrays@[j], fields@[j]) == Some(Error::LengthOutOfRange)) by {
                lemma_derived_field(chunk.arrays@[j], fields@[j]);
            }
        }
        let r = Writer::fill_buffers_for(&fields, chunk);
        proof {
            if r is Ok {
                assert(filled(chunk.arrays@, fields@, chunk.spec_num_rows(), r->Ok_0@));
            }
        }
        r
    }
}

} // verus!

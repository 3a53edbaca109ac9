use vstd::prelude::*;

use crate::array::Cell;
use crate::error::Error;
use crate::datatypes::{BufferDescriptor, NativeKind};

verus! {

/// Indicator value that marks a row as null.
pub const NULL_DATA: isize = -1;

/// A column of fixed-width values, with one indicator per row when the
/// column may hold nulls.
#[derive(Debug)]
pub struct FixedColumn<T> {
    pub values: Vec<T>,
    pub indicators: Option<Vec<isize>>,
}

impl<T> FixedColumn<T> {
    pub open spec fn wf(self) -> bool {
        self.indicators matches Some(ind) ==> ind.len() == self.values.len()
    }

    pub open spec fn rows(self) -> nat {
        self.values@.len()
    }

    pub open spec fn nullable(self) -> bool {
        self.indicators is Some
    }

    pub open spec fn row_is_null(self, i: int) -> bool {
        self.indicators matches Some(ind) && ind@[i] == NULL_DATA
    }
}

/// A column of variable-length bytes: every row has a slot of `max_len`
/// bytes and an indicator, either `NULL_DATA` or the length of the value
/// (other negative indicators mean that the whole slot is the value).
#[derive(Debug)]
pub struct VarColumn {
    pub max_len: usize,
    pub values: Vec<Vec<u8>>,
    pub indicators: Vec<isize>,
}

impl VarColumn {
    pub open spec fn wf(self) -> bool {
        &&& self.max_len <= isize::MAX
        &&& self.values.len() == self.indicators.len()
        &&& forall|i: int| 0 <= i < self.values.len() ==> (#[trigger] self.values@[i])@.len() == self.max_len
    }

    pub open spec fn rows(self) -> nat {
        self.indicators@.len()
    }

    pub open spec fn row_is_null(self, i: int) -> bool {
        self.indicators@[i] == NULL_DATA
    }

    /// Length of the value in row `i`, capped by the slot size.
    pub open spec fn value_len(self, i: int) -> int {
        let ind = self.indicators@[i];
        if ind < 0 {
            self.max_len as int
        } else if ind <= self.max_len {
            ind as int
        } else {
            self.max_len as int
        }
    }

    pub open spec fn bytes(self, i: int) -> Seq<u8> {
        self.values@[i]@.subrange(0, self.value_len(i))
    }

    /// The value in row `row`: `None` when the row is null.
    pub fn value_at(&self, row: usize) -> (r: Option<Vec<u8>>)
        requires
            self.wf(),
            row < self.rows(),
        ensures
            r is None <==> self.row_is_null(row as int),
            r matches Some(b) ==> b@ == self.bytes(row as int),
    {
        let ind = self.indicators[row];
        if ind == NULL_DATA {
            return None;
        }
        let n: usize = if ind < 0 || ind as usize > self.max_len {
            self.max_len
        } else {
            ind as usize
        };
        let slot = &self.values[row];
        let mut out: Vec<u8> = Vec::new();
        let mut i: usize = 0;
        while i < n
            invariant
                n <= slot.len(),
                i <= n,
                out@ == slot@.subrange(0, i as int),
            decreases n - i,
        {
            out.push(slot[i]);
            i = i + 1;
        }
        Some(out)
    }
}

/// One column of a native buffer.
#[derive(Debug)]
pub enum ColumnBuffer {
    /// Bits stored as bytes, 0 for false.
    Bit(FixedColumn<u8>),
    I16(FixedColumn<i16>),
    I32(FixedColumn<i32>),
    /// IEEE 754 single-precision bit patterns.
    F32(FixedColumn<u32>),
    /// IEEE 754 double-precision bit patterns.
    F64(FixedColumn<u64>),
    Binary(VarColumn),
    Text(VarColumn),
}

pub open spec fn fixed_cell<T>(c: FixedColumn<T>, i: int, f: spec_fn(T) -> Cell) -> Option<Cell> {
    if c.row_is_null(i) {
        None
    } else {
        Some(f(c.values@[i]))
    }
}

pub open spec fn var_cell(c: VarColumn, i: int) -> Option<Cell> {
    if c.row_is_null(i) {
        None
    } else {
        Some(Cell::Bytes(c.bytes(i)))
    }
}

impl ColumnBuffer {
    pub open spec fn wf(self) -> bool {
        match self {
            ColumnBuffer::Bit(c) => c.wf(),
            ColumnBuffer::I16(c) => c.wf(),
            ColumnBuffer::I32(c) => c.wf(),
            ColumnBuffer::F32(c) => c.wf(),
            ColumnBuffer::F64(c) => c.wf(),
            ColumnBuffer::Binary(c) => c.wf(),
            ColumnBuffer::Text(c) => c.wf(),
        }
    }

    pub open spec fn rows(self) -> nat {
        match self {
            ColumnBuffer::Bit(c) => c.rows(),
            ColumnBuffer::I16(c) => c.rows(),
            ColumnBuffer::I32(c) => c.rows(),
            ColumnBuffer::F32(c) => c.rows(),
            ColumnBuffer::F64(c) => c.rows(),
            ColumnBuffer::Binary(c) => c.rows(),
            ColumnBuffer::Text(c) => c.rows(),
        }
    }

    /// Whether the column has null indicators.
    pub open spec fn nullable(self) -> bool {
        match self {
            ColumnBuffer::Bit(c) => c.nullable(),
            ColumnBuffer::I16(c) => c.nullable(),
            ColumnBuffer::I32(c) => c.nullable(),
            ColumnBuffer::F32(c) => c.nullable(),
            ColumnBuffer::F64(c) => c.nullable(),
            ColumnBuffer::Binary(_) => true,
            ColumnBuffer::Text(_) => true,
        }
    }

    /// Maximum value length of a variable-length column; 0 otherwise.
    pub open spec fn max_len(self) -> usize {
        match self {
            ColumnBuffer::Binary(c) => c.max_len,
            ColumnBuffer::Text(c) => c.max_len,
            _ => 0,
        }
    }

    pub open spec fn row_is_null(self, i: int) -> bool {
        self.cell(i) is None
    }

    /// Row `i` as read back: `None` when its indicator marks it null.
    pub open spec fn cell(self, i: int) -> Option<Cell> {
        match self {
            ColumnBuffer::Bit(c) => fixed_cell(c, i, |x: u8| Cell::Bool(x != 0)),
            ColumnBuffer::I16(c) => fixed_cell(c, i, |x: i16| Cell::Int16(x)),
            ColumnBuffer::I32(c) => fixed_cell(c, i, |x: i32| Cell::Int32(x)),
            ColumnBuffer::F32(c) => fixed_cell(c, i, |x: u32| Cell::Float32(x)),
            ColumnBuffer::F64(c) => fixed_cell(c, i, |x: u64| Cell::Float64(x)),
            ColumnBuffer::Binary(c) => var_cell(c, i),
            ColumnBuffer::Text(c) => var_cell(c, i),
        }
    }

    /// Same variant, rows, nullability and maximum length.
    pub open spec fn same_shape(self, other: ColumnBuffer) -> bool {
        &&& self.rows() == other.rows()
        &&& self.nullable() == other.nullable()
        &&& self.max_len() == other.max_len()
        &&& match (self, other) {
            (ColumnBuffer::Bit(_), ColumnBuffer::Bit(_)) => true,
            (ColumnBuffer::I16(_), ColumnBuffer::I16(_)) => true,
            (ColumnBuffer::I32(_), ColumnBuffer::I32(_)) => true,
            (ColumnBuffer::F32(_), ColumnBuffer::F32(_)) => true,
            (ColumnBuffer::F64(_), ColumnBuffer::F64(_)) => true,
            (ColumnBuffer::Binary(_), ColumnBuffer::Binary(_)) => true,
            (ColumnBuffer::Text(_), ColumnBuffer::Text(_)) => true,
            _ => false,
        }
    }

    /// The column has the layout that `d` describes.
    pub open spec fn matches_descriptor(self, d: BufferDescriptor) -> bool {
        &&& match (d.kind, self) {
            (NativeKind::Bit, ColumnBuffer::Bit(_)) => true,
            (NativeKind::SmallInt, ColumnBuffer::I16(_)) => true,
            (NativeKind::Integer, ColumnBuffer::I32(_)) => true,
            (NativeKind::Float { precision }, ColumnBuffer::F32(_)) => precision <= 24,
            (NativeKind::Float { precision }, ColumnBuffer::F64(_)) => precision > 24,
            (NativeKind::Binary { length }, ColumnBuffer::Binary(c)) => c.max_len == length,
            (NativeKind::Varbinary { length }, ColumnBuffer::Binary(c)) => c.max_len == length,
            (NativeKind::Varchar { length }, ColumnBuffer::Text(c)) => c.max_len == length,
            _ => false,
        }
        &&& (self is Binary || self is Text || self.nullable() == d.nullable)
    }

    /// Allocates a column of `capacity` rows for descriptor `d`, every row
    /// null where the column has indicators.
    pub fn new(d: &BufferDescriptor, capacity: usize) -> (r: Self)
        requires
            d.length_fits(),
        ensures
            r.wf(),
            r.rows() == capacity,
            r.matches_descriptor(*d),
            forall|i: int| 0 <= i < capacity ==> #[trigger] r.row_is_null(i) == r.nullable(),
    {
        match d.kind {
            NativeKind::Bit => ColumnBuffer::Bit(fixed_column(0u8, capacity, d.nullable)),
            NativeKind::SmallInt => ColumnBuffer::I16(fixed_column(0i16, capacity, d.nullable)),
            NativeKind::Integer => ColumnBuffer::I32(fixed_column(0i32, capacity, d.nullable)),
            NativeKind::Float { precision } => {
                if precision <= 24 {
                    ColumnBuffer::F32(fixed_column(0u32, capacity, d.nullable))
                } else {
                    ColumnBuffer::F64(fixed_column(0u64, capacity, d.nullable))
                }
            },
            NativeKind::Binary { length } => ColumnBuffer::Binary(var_column(length, capacity)),
            NativeKind::Varbinary { length } => ColumnBuffer::Binary(var_column(length, capacity)),
            NativeKind::Varchar { length } => ColumnBuffer::Text(var_column(length, capacity)),
        }
    }

    /// Number of rows.
    pub fn num_rows(&self) -> (r: usize)
        ensures
            r == self.rows(),
    {
        match self {
            ColumnBuffer::Bit(c) => c.values.len(),
            ColumnBuffer::I16(c) => c.values.len(),
            ColumnBuffer::I32(c) => c.values.len(),
            ColumnBuffer::F32(c) => c.values.len(),
            ColumnBuffer::F64(c) => c.values.len(),
            ColumnBuffer::Binary(c) => c.indicators.len(),
            ColumnBuffer::Text(c) => c.indicators.len(),
        }
    }
}

/// `bufs` holds one column per descriptor, in order, each of `capacity` rows.
pub open spec fn allocated(descs: Seq<BufferDescriptor>, capacity: usize, bufs: Seq<ColumnBuffer>) -> bool {
    &&& bufs.len() == descs.len()
    &&& forall|i: int|
        0 <= i < descs.len() ==> {
            let b = #[trigger] bufs[i];
            &&& b.wf()
            &&& b.rows() == capacity
            &&& b.matches_descriptor(descs[i])
        }
}

/// Allocates one column of `capacity` rows per descriptor. Fails when a
/// declared maximum length does not fit the length indicators.
pub fn buffer_from_description(descriptions: &Vec<BufferDescriptor>, capacity: usize) -> (r: Result<
    Vec<ColumnBuffer>,
    Error,
>)
    ensures
        r is Ok <==> forall|i: int| 0 <= i < descriptions.len() ==> (#[trigger] descriptions@[i]).length_fits(),
        r matches Ok(bufs) ==> allocated(descriptions@, capacity, bufs@),
        r matches Err(e) ==> e == Error::LengthOutOfRange,
{
    let mut bufs: Vec<ColumnBuffer> = Vec::new();
    let mut i: usize = 0;
    while i < descriptions.len()
        invariant
            i <= descriptions.len(),
            bufs.len() == i,
            forall|j: int| 0 <= j < i ==> (#[trigger] descriptions@[j]).length_fits(),
            forall|j: int|
                0 <= j < i ==> {
                    let b = #[trigger] bufs@[j];
                    &&& b.wf()
                    &&& b.rows() == capacity
                    &&& b.matches_descriptor(descriptions@[j])
                },
        decreases descriptions.len() - i,
    {
        let d = &descriptions[i];
        let fits = match d.kind {
            NativeKind::Binary { length } | NativeKind::Varbinary { length } | NativeKind::Varchar {
                length,
            } => length <= isize::MAX as usize,
            _ => true,
        };
        if !fits {
            return Err(Error::LengthOutOfRange);
        }
        bufs.push(ColumnBuffer::new(d, capacity));
        i = i + 1;
    }
    Ok(bufs)
}

fn fixed_column<T: Copy>(zero: T, capacity: usize, nullable: bool) -> (r: FixedColumn<T>)
    ensures
        r.wf(),
        r.rows() == capacity,
        r.nullable() == nullable,
        forall|i: int| 0 <= i < capacity ==> #[trigger] r.row_is_null(i) == nullable,
{
    let mut values: Vec<T> = Vec::new();
    let mut indicators: Vec<isize> = Vec::new();
    let mut i: usize = 0;
    while i < capacity
        invariant
            i <= capacity,
            values.len() == i,
            indicators.len() == i,
            forall|j: int| 0 <= j < i ==> #[trigger] indicators@[j] == NULL_DATA,
        decreases capacity - i,
    {
        values.push(zero);
        indicators.push(NULL_DATA);
        i = i + 1;
    }
    FixedColumn { values, indicators: if nullable { Some(indicators) } else { None } }
}

fn var_column(max_len: usize, capacity: usize) -> (r: VarColumn)
    requires
        max_len <= isize::MAX,
    ensures
        r.wf(),
        r.rows() == capacity,
        r.max_len == max_len,
        forall|i: int| 0 <= i < capacity ==> #[trigger] r.row_is_null(i),
{
    let mut values: Vec<Vec<u8>> = Vec::new();
    let mut indicators: Vec<isize> = Vec::new();
    let mut i: usize = 0;
    while i < capacity
        invariant
            i <= capacity,
            values.len() == i,
            indicators.len() == i,
            forall|j: int| 0 <= j < i ==> (#[trigger] values@[j])@.len() == max_len,
            forall|j: int| 0 <= j < i ==> #[trigger] indicators@[j] == NULL_DATA,
        decreases capacity - i,
    {
        values.push(vec![0u8; max_len]);
        indicators.push(NULL_DATA);
        i = i + 1;
    }
    VarColumn { max_len, values, indicators }
}

} // verus!

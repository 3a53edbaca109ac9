use vstd::prelude::*;

use crate::datatypes::DataType;

verus! {

/// The value of one non-null slot, as a mathematical value. Floating-point
/// values are carried as their IEEE 754 bit patterns.
pub enum Cell {
    Bool(bool),
    Int16(i16),
    Int32(i32),
    Float32(u32),
    Float64(u64),
    Bytes(Seq<u8>),
}

/// A typed column of values, each slot either null (`None`) or a value.
/// Floating-point arrays hold IEEE 754 bit patterns; text arrays hold UTF-8
/// bytes.
#[derive(Clone, Debug)]
pub enum Array {
    Boolean(Vec<Option<bool>>),
    Int16(Vec<Option<i16>>),
    Int32(Vec<Option<i32>>),
    Float32(Vec<Option<u32>>),
    Float64(Vec<Option<u64>>),
    /// Values of exactly the given number of bytes each.
    FixedSizeBinary(usize, Vec<Option<Vec<u8>>>),
    Binary(Vec<Option<Vec<u8>>>),
    LargeBinary(Vec<Option<Vec<u8>>>),
    Utf8(Vec<Option<Vec<u8>>>),
    LargeUtf8(Vec<Option<Vec<u8>>>),
}

pub open spec fn bytes_cell(o: Option<Vec<u8>>) -> Option<Cell> {
    match o {
        Some(v) => Some(Cell::Bytes(v@)),
        None => None,
    }
}

pub open spec fn prim_cell<T>(o: Option<T>, f: spec_fn(T) -> Cell) -> Option<Cell> {
    match o {
        Some(v) => Some(f(v)),
        None => None,
    }
}

/// Every present value has exactly `n` bytes.
pub open spec fn all_sized(v: Seq<Option<Vec<u8>>>, n: usize) -> bool {
    forall|i: int| 0 <= i < v.len() ==> (#[trigger] v[i] matches Some(b) ==> b@.len() == n)
}

/// Every present value is valid UTF-8.
pub open spec fn all_utf8(v: Seq<Option<Vec<u8>>>) -> bool {
    forall|i: int|
        0 <= i < v.len() ==> (#[trigger] v[i] matches Some(b) ==> vstd::utf8::valid_utf8(b@))
}

impl Array {
    pub open spec fn spec_len(self) -> nat {
        match self {
            Array::Boolean(v) => v@.len(),
            Array::Int16(v) => v@.len(),
            Array::Int32(v) => v@.len(),
            Array::Float32(v) => v@.len(),
            Array::Float64(v) => v@.len(),
            Array::FixedSizeBinary(_, v) => v@.len(),
            Array::Binary(v) => v@.len(),
            Array::LargeBinary(v) => v@.len(),
            Array::Utf8(v) => v@.len(),
            Array::LargeUtf8(v) => v@.len(),
        }
    }

    pub open spec fn spec_data_type(self) -> DataType {
        match self {
            Array::Boolean(_) => DataType::Boolean,
            Array::Int16(_) => DataType::Int16,
            Array::Int32(_) => DataType::Int32,
            Array::Float32(_) => DataType::Float32,
            Array::Float64(_) => DataType::Float64,
            Array::FixedSizeBinary(n, _) => DataType::FixedSizeBinary(n),
            Array::Binary(_) => DataType::Binary,
            Array::LargeBinary(_) => DataType::LargeBinary,
            Array::Utf8(_) => DataType::Utf8,
            Array::LargeUtf8(_) => DataType::LargeUtf8,
        }
    }

    /// Slot `i`: `None` when null.
    pub open spec fn cell(self, i: int) -> Option<Cell> {
        match self {
            Array::Boolean(v) => prim_cell(v@[i], |x: bool| Cell::Bool(x)),
            Array::Int16(v) => prim_cell(v@[i], |x: i16| Cell::Int16(x)),
            Array::Int32(v) => prim_cell(v@[i], |x: i32| Cell::Int32(x)),
            Array::Float32(v) => prim_cell(v@[i], |x: u32| Cell::Float32(x)),
            Array::Float64(v) => prim_cell(v@[i], |x: u64| Cell::Float64(x)),
            Array::FixedSizeBinary(_, v) => bytes_cell(v@[i]),
            Array::Binary(v) => bytes_cell(v@[i]),
            Array::LargeBinary(v) => bytes_cell(v@[i]),
            Array::Utf8(v) => bytes_cell(v@[i]),
            Array::LargeUtf8(v) => bytes_cell(v@[i]),
        }
    }

    /// The slots of a binary or text array; empty for other types.
    pub open spec fn byte_slots(self) -> Seq<Option<Vec<u8>>> {
        match self {
            Array::FixedSizeBinary(_, v) => v@,
            Array::Binary(v) => v@,
            Array::LargeBinary(v) => v@,
            Array::Utf8(v) => v@,
            Array::LargeUtf8(v) => v@,
            _ => Seq::empty(),
        }
    }

    /// Fixed-size values have their size; text values are valid UTF-8.
    pub open spec fn wf(self) -> bool {
        match self {
            Array::FixedSizeBinary(n, v) => all_sized(v@, n),
            Array::Utf8(v) => all_utf8(v@),
            Array::LargeUtf8(v) => all_utf8(v@),
            _ => true,
        }
    }

    /// Two arrays hold the same slots (values at null slots do not exist).
    pub open spec fn same_slots(self, other: Array) -> bool {
        &&& self.spec_len() == other.spec_len()
        &&& forall|i: int| 0 <= i < self.spec_len() ==> #[trigger] self.cell(i) == other.cell(i)
    }

    pub open spec fn spec_has_nulls(self) -> bool {
        exists|i: int| 0 <= i < self.spec_len() && #[trigger] self.cell(i) is None
    }

    /// Number of slots.
    pub fn len(&self) -> (r: usize)
        ensures
            r == self.spec_len(),
    {
        match self {
            Array::Boolean(v) => v.len(),
            Array::Int16(v) => v.len(),
            Array::Int32(v) => v.len(),
            Array::Float32(v) => v.len(),
            Array::Float64(v) => v.len(),
            Array::FixedSizeBinary(_, v) => v.len(),
            Array::Binary(v) => v.len(),
            Array::LargeBinary(v) => v.len(),
            Array::Utf8(v) => v.len(),
            Array::LargeUtf8(v) => v.len(),
        }
    }

    /// The logical type of the array.
    pub fn data_type(&self) -> (r: DataType)
        ensures
            r == self.spec_data_type(),
    {
        match self {
            Array::Boolean(_) => DataType::Boolean,
            Array::Int16(_) => DataType::Int16,
            Array::Int32(_) => DataType::Int32,
            Array::Float32(_) => DataType::Float32,
            Array::Float64(_) => DataType::Float64,
            Array::FixedSizeBinary(n, _) => DataType::FixedSizeBinary(*n),
            Array::Binary(_) => DataType::Binary,
            Array::LargeBinary(_) => DataType::LargeBinary,
            Array::Utf8(_) => DataType::Utf8,
            Array::LargeUtf8(_) => DataType::LargeUtf8,
        }
    }

    /// Whether slot `i` is null.
    pub fn is_null(&self, i: usize) -> (r: bool)
        requires
            i < self.spec_len(),
        ensures
            r == self.cell(i as int) is None,
    {
        match self {
            Array::Boolean(v) => v[i].is_none(),
            Array::Int16(v) => v[i].is_none(),
            Array::Int32(v) => v[i].is_none(),
            Array::Float32(v) => v[i].is_none(),
            Array::Float64(v) => v[i].is_none(),
            Array::FixedSizeBinary(_, v) => v[i].is_none(),
            Array::Binary(v) => v[i].is_none(),
            Array::LargeBinary(v) => v[i].is_none(),
            Array::Utf8(v) => v[i].is_none(),
            Array::LargeUtf8(v) => v[i].is_none(),
        }
    }

    /// Whether any slot is null.
    pub fn has_nulls(&self) -> (r: bool)
        ensures
            r == self.spec_has_nulls(),
    {
        let n = self.len();
        let mut i: usize = 0;
        while i < n
            invariant
                n == self.spec_len(),
                i <= n,
                forall|j: int| 0 <= j < i ==> !(#[trigger] self.cell(j) is None),
            decreases n - i,
        {
            if self.is_null(i) {
                return true;
            }
            i = i + 1;
        }
        false
    }
}

/// A batch: arrays of equal length, one per column.
#[derive(Clone, Debug)]
pub struct Chunk {
    pub arrays: Vec<Array>,
}

impl Chunk {
    /// Number of rows: the length of the first array, 0 without arrays.
    pub open spec fn spec_num_rows(self) -> nat {
        if self.arrays.len() == 0 {
            0
        } else {
            self.arrays@[0].spec_len()
        }
    }

    /// All arrays have the same length and are well formed.
    pub open spec fn wf(self) -> bool {
        &&& self.rows_are(self.spec_num_rows())
        &&& forall|i: int| 0 <= i < self.arrays.len() ==> (#[trigger] self.arrays@[i]).wf()
    }

    /// Whether the batch is well formed (see `wf`).
    pub fn is_wf(&self) -> (r: bool)
        ensures
            r == self.wf(),
    {
        let n = self.num_rows();
        let mut j: usize = 0;
        while j < self.arrays.len()
            invariant
                n == self.spec_num_rows(),
                j <= self.arrays.len(),
                forall|k: int| 0 <= k < j ==> (#[trigger] self.arrays@[k]).spec_len() == n,
                forall|k: int| 0 <= k < j ==> (#[trigger] self.arrays@[k]).wf(),
            decreases self.arrays.len() - j,
        {
            let a = &self.arrays[j];
            if a.len() != n {
                return false;
            }
            let ok = match a {
                Array::FixedSizeBinary(size, v) => crate::deserialize::all_have_size(v, *size),
                Array::Utf8(v) => crate::deserialize::all_valid_utf8(v),
                Array::LargeUtf8(v) => crate::deserialize::all_valid_utf8(v),
                _ => true,
            };
            if !ok {
                return false;
            }
            j = j + 1;
        }
        true
    }

    /// Number of rows.
    pub fn num_rows(&self) -> (r: usize)
        ensures
            r == self.spec_num_rows(),
    {
        if self.arrays.len() == 0 {
            0
        } else {
            self.arrays[0].len()
        }
    }

    /// All arrays have `n` slots.
    pub open spec fn rows_are(self, n: nat) -> bool {
        forall|i: int| 0 <= i < self.arrays.len() ==> (#[trigger] self.arrays@[i]).spec_len() == n
    }
}

} // verus!

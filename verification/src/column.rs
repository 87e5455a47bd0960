//! Per-variable typed column buffers.
//!
//! Each declared variable owns one growable buffer whose storage type is
//! fixed at declaration time. Appending a value whose runtime type disagrees
//! with the buffer's storage type is rejected by precondition; a missing
//! value appends a null regardless of storage type.

use vstd::prelude::*;

use crate::DataType;
use crate::rs::ReadStatVar;

verus! {

/// Mathematical content of one cell: either absent, or a value of the
/// column's storage type.
pub enum CellValue {
    Missing,
    Utf8(Seq<char>),
    Int16(i16),
    Int32(i32),
    Float32(u32),
    Float64(u64),
}

/// The storage type a delivered value calls for: strings are text, 8-bit
/// integers widen to 16 bits, and everything else keeps its width.
pub open spec fn spec_value_dtype(v: ReadStatVar) -> DataType {
    match v {
        ReadStatVar::String(_) => DataType::Utf8,
        ReadStatVar::Int8(_) => DataType::Int16,
        ReadStatVar::Int16(_) => DataType::Int16,
        ReadStatVar::Int32(_) => DataType::Int32,
        ReadStatVar::Float32Bits(_) => DataType::Float32,
        ReadStatVar::Float64Bits(_) => DataType::Float64,
    }
}

/// The cell a delivered value is stored as.
pub open spec fn spec_cell_of(v: ReadStatVar) -> CellValue {
    match v {
        ReadStatVar::String(s) => CellValue::Utf8(s@),
        ReadStatVar::Int8(x) => CellValue::Int16(x as i16),
        ReadStatVar::Int16(x) => CellValue::Int16(x),
        ReadStatVar::Int32(x) => CellValue::Int32(x),
        ReadStatVar::Float32Bits(b) => CellValue::Float32(b),
        ReadStatVar::Float64Bits(b) => CellValue::Float64(b),
    }
}

/// Reports the storage type a delivered value calls for.
pub fn value_dtype(v: &ReadStatVar) -> (d: DataType)
    ensures
        d == spec_value_dtype(*v),
{
    match v {
        ReadStatVar::String(_) => DataType::Utf8,
        ReadStatVar::Int8(_) => DataType::Int16,
        ReadStatVar::Int16(_) => DataType::Int16,
        ReadStatVar::Int32(_) => DataType::Int32,
        ReadStatVar::Float32Bits(_) => DataType::Float32,
        ReadStatVar::Float64Bits(_) => DataType::Float64,
    }
}

/// One column of cells, tagged by storage type. Serves both as the growing
/// buffer during assembly and, once handed into a batch, as the finished
/// immutable array.
#[derive(Clone, Debug, PartialEq)]
pub enum Column {
    Utf8(Vec<Option<String>>),
    Int16(Vec<Option<i16>>),
    Int32(Vec<Option<i32>>),
    Float32(Vec<Option<u32>>),
    Float64(Vec<Option<u64>>),
}

impl Column {
    /// The storage type this column was created with.
    pub open spec fn dtype(self) -> DataType {
        match self {
            Column::Utf8(_) => DataType::Utf8,
            Column::Int16(_) => DataType::Int16,
            Column::Int32(_) => DataType::Int32,
            Column::Float32(_) => DataType::Float32,
            Column::Float64(_) => DataType::Float64,
        }
    }

    /// The cells held so far, in append order.
    pub open spec fn cells(self) -> Seq<CellValue> {
        match self {
            Column::Utf8(v) => v@.map(
                |i: int, c: Option<String>|
                    match c {
                        Some(s) => CellValue::Utf8(s@),
                        None => CellValue::Missing,
                    },
            ),
            Column::Int16(v) => v@.map(
                |i: int, c: Option<i16>|
                    match c {
                        Some(x) => CellValue::Int16(x),
                        None => CellValue::Missing,
                    },
            ),
            Column::Int32(v) => v@.map(
                |i: int, c: Option<i32>|
                    match c {
                        Some(x) => CellValue::Int32(x),
                        None => CellValue::Missing,
                    },
            ),
            Column::Float32(v) => v@.map(
                |i: int, c: Option<u32>|
                    match c {
                        Some(b) => CellValue::Float32(b),
                        None => CellValue::Missing,
                    },
            ),
            Column::Float64(v) => v@.map(
                |i: int, c: Option<u64>|
                    match c {
                        Some(b) => CellValue::Float64(b),
                        None => CellValue::Missing,
                    },
            ),
        }
    }

    /// Allocates an empty column of the given storage type. The capacity is
    /// a hint only and plays no part in what the column holds.
    pub fn new(dtype: DataType, capacity: usize) -> (c: Column)
        ensures
            c.dtype() == dtype,
            c.cells() == Seq::<CellValue>::empty(),
    {
        let c = match dtype {
            DataType::Utf8 => Column::Utf8(Vec::with_capacity(capacity)),
            DataType::Int16 => Column::Int16(Vec::with_capacity(capacity)),
            DataType::Int32 => Column::Int32(Vec::with_capacity(capacity)),
            DataType::Float32 => Column::Float32(Vec::with_capacity(capacity)),
            DataType::Float64 => Column::Float64(Vec::with_capacity(capacity)),
        };
        proof {
            assert(c.cells() =~= Seq::<CellValue>::empty());
        }
        c
    }

    /// How many cells the column holds.
    pub fn len(&self) -> (n: usize)
        ensures
            n == self.cells().len(),
    {
        match self {
            Column::Utf8(v) => v.len(),
            Column::Int16(v) => v.len(),
            Column::Int32(v) => v.len(),
            Column::Float32(v) => v.len(),
            Column::Float64(v) => v.len(),
        }
    }

    /// Reports the storage type.
    pub fn data_type(&self) -> (d: DataType)
        ensures
            d == self.dtype(),
    {
        match self {
            Column::Utf8(_) => DataType::Utf8,
            Column::Int16(_) => DataType::Int16,
            Column::Int32(_) => DataType::Int32,
            Column::Float32(_) => DataType::Float32,
            Column::Float64(_) => DataType::Float64,
        }
    }

    /// Appends a present value. The value's runtime type must agree with the
    /// column's storage type; 8-bit integers are widened on the way in.
    pub fn append_value(&mut self, v: ReadStatVar)
        requires
            spec_value_dtype(v) == old(self).dtype(),
        ensures
            final(self).dtype() == old(self).dtype(),
            final(self).cells() == old(self).cells().push(spec_cell_of(v)),
    {
        let ghost old_cells = old(self).cells();
        let ghost cell = spec_cell_of(v);
        match self {
            Column::Utf8(vec) => {
                match v {
                    ReadStatVar::String(s) => {
                        vec.push(Some(s));
                    },
                    _ => {
                        proof {
                            assert(false);
                        }
                    },
                }
            },
            Column::Int16(vec) => {
                match v {
                    ReadStatVar::Int8(x) => {
                        vec.push(Some(x as i16));
                    },
                    ReadStatVar::Int16(x) => {
                        vec.push(Some(x));
                    },
                    _ => {
                        proof {
                            assert(false);
                        }
                    },
                }
            },
            Column::Int32(vec) => {
                match v {
                    ReadStatVar::Int32(x) => {
                        vec.push(Some(x));
                    },
                    _ => {
                        proof {
                            assert(false);
                        }
                    },
                }
            },
            Column::Float32(vec) => {
                match v {
                    ReadStatVar::Float32Bits(b) => {
                        vec.push(Some(b));
                    },
                    _ => {
                        proof {
                            assert(false);
                        }
                    },
                }
            },
            Column::Float64(vec) => {
                match v {
                    ReadStatVar::Float64Bits(b) => {
                        vec.push(Some(b));
                    },
                    _ => {
                        proof {
                            assert(false);
                        }
                    },
                }
            },
        }
        proof {
            assert(final(self).cells() =~= old_cells.push(cell));
        }
    }

    /// Appends a null, whatever the storage type.
    pub fn append_null(&mut self)
        ensures
            final(self).dtype() == old(self).dtype(),
            final(self).cells() == old(self).cells().push(CellValue::Missing),
    {
        let ghost old_cells = old(self).cells();
        match self {
            Column::Utf8(vec) => {
                vec.push(None);
            },
            Column::Int16(vec) => {
                vec.push(None);
            },
            Column::Int32(vec) => {
                vec.push(None);
            },
            Column::Float32(vec) => {
                vec.push(None);
            },
            Column::Float64(vec) => {
                vec.push(None);
            },
        }
        proof {
            assert(final(self).cells() =~= old_cells.push(CellValue::Missing));
        }
    }
}

} // verus!

//! Columnar assembly of row-major value streams produced by a statistical-file
//! reader: schema construction from variable declarations, per-column typed
//! buffers with missing-value handling, and chunk-based batch flushing.

use vstd::prelude::*;

pub mod batch;
pub mod column;
pub mod data;
pub mod formats;
pub mod normalize;
pub mod rs;
pub mod schema;
pub mod time;

verus! {

/// Semantic storage type of one column.
#[derive(Clone, Copy, Debug, PartialEq, Eq, Structural)]
pub enum DataType {
    Utf8,
    Int16,
    Int32,
    Float32,
    Float64,
}

/// A breach of the ordering or typing contract the event source owes:
/// events in the wrong phase or out of order, a value whose runtime type
/// disagrees with its column, or an unusable declared variable count.
#[derive(Clone, Copy, Debug, PartialEq, Eq, Structural)]
pub enum SourceFault {
    /// An event arrived in a phase that does not accept it.
    EventOutOfPhase,
    /// A variable declaration arrived out of index order.
    VariableOutOfOrder { expected_index: i32, found_index: i32 },
    /// A value arrived outside row-major order.
    ValueOutOfOrder { expected_row: i64, expected_var: usize, found_row: i32, found_var: i32 },
    /// A present value's runtime type disagrees with its column's storage type.
    ValueTypeMismatch { expected: DataType, found: DataType },
    /// The declared variable count is negative.
    InvalidVariableCount { declared: i32 },
    /// The stream ended in the middle of a row.
    IncompleteRow,
}

/// A fatal assembly error. Every variant aborts the parse; batches already
/// handed out before the error remain valid.
#[derive(Clone, Copy, Debug, PartialEq, Eq, Structural)]
pub enum ReadStatError {
    /// The event source broke its ordering or typing contract.
    SourceContractViolation(SourceFault),
    /// A field name was redeclared with a conflicting storage type; the
    /// payload is the storage type already on record.
    SchemaConflict { existing: DataType },
}

} // verus!

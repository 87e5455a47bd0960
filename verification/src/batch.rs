//! One immutable, fully materialized columnar chunk.

use vstd::prelude::*;

use crate::column::Column;
use crate::schema::Schema;

verus! {

/// A finished batch: a snapshot of the schema, one finished column per
/// declared variable in declaration order, and the row count every column
/// agrees on. Produced once per flush and never altered after.
#[derive(Clone, Debug, PartialEq)]
pub struct ReadStatBatch {
    pub schema: Schema,
    pub columns: Vec<Column>,
    pub num_rows: usize,
}

impl ReadStatBatch {
    /// Every column holds exactly `num_rows` cells.
    pub open spec fn wf(self) -> bool {
        forall|i: int|
            0 <= i < self.columns@.len() ==> (#[trigger] self.columns@[i]).cells().len()
                == self.num_rows
    }

    /// How many columns the batch holds.
    pub fn num_columns(&self) -> (n: usize)
        ensures
            n == self.columns@.len(),
    {
        self.columns.len()
    }
}

} // verus!

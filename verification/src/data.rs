//! The assembly session: a state machine consuming a push-driven stream of
//! metadata, variable-declaration and value events, building per-column
//! buffers, and handing out finished batches at flush boundaries.
//!
//! The event source owes ordering (metadata first, then declarations in
//! index order, then values in row-major order); breaches are detected and
//! reported as fatal errors rather than corrupting boundaries.

use vstd::prelude::*;

use crate::DataType;
use crate::ReadStatError;
use crate::SourceFault;
use crate::batch::ReadStatBatch;
use crate::column::CellValue;
use crate::column::Column;
use crate::column::spec_cell_of;
use crate::column::spec_value_dtype;
use crate::column::value_dtype;
use crate::rs::ReadStatMetadata;
use crate::rs::ReadStatMetadataEvent;
use crate::rs::ReadStatVar;
use crate::rs::ReadStatVarIndexAndName;
use crate::rs::ReadStatVarMetadata;
use crate::rs::ReadStatVarType;
use crate::rs::ReadStatVarTypeClass;
use crate::rs::compress_from_code;
use crate::rs::endian_from_code;
use crate::rs::spec_compress_from_code;
use crate::rs::spec_endian_from_code;
use crate::rs::spec_var_dt;
use crate::rs::var_dt;
use crate::schema::Field;
use crate::schema::Schema;
use crate::formats::match_var_format;
use crate::formats::spec_format_class;
use crate::time::datetime_display_of;
use crate::time::TIMESTAMP_SECS_MAX;
use crate::time::timestamp_display;

verus! {

/// Where the session stands in the event protocol.
#[derive(Clone, Copy, Debug, PartialEq, Eq, Structural)]
pub enum ReadStatPhase {
    AwaitingMetadata,
    AwaitingVariables,
    ReceivingValues,
    Draining,
    Done,
}

/// Flush policy: bounded streaming emits a batch every `chunk_rows` rows and
/// at the last row; full buffering emits a single batch at the last row.
#[derive(Clone, Copy, Debug, PartialEq, Eq, Structural)]
pub enum Reader {
    Stream,
    Mem,
}

/// Sum of a sequence of row counts.
pub open spec fn sum_rows(s: Seq<int>) -> int
    decreases s.len(),
{
    if s.len() == 0 {
        0
    } else {
        sum_rows(s.drop_last()) + s.last()
    }
}

proof fn lemma_sum_rows_push(s: Seq<int>, x: int)
    ensures
        sum_rows(s.push(x)) == sum_rows(s) + x,
{
    let t = s.push(x);
    assert(t.drop_last() =~= s);
    assert(t.last() == x);
}

proof fn lemma_sum_rows_nonneg(s: Seq<int>)
    requires
        forall|k: int| 0 <= k < s.len() ==> s[k] > 0,
    ensures
        sum_rows(s) >= 0,
    decreases s.len(),
{
    if s.len() > 0 {
        lemma_sum_rows_nonneg(s.drop_last());
    }
}

/// A sum of positive entries vanishes only when there are none.
proof fn lemma_sum_rows_zero_means_empty(s: Seq<int>)
    requires
        forall|k: int| 0 <= k < s.len() ==> s[k] > 0,
        sum_rows(s) == 0,
    ensures
        s.len() == 0,
{
    if s.len() > 0 {
        lemma_sum_rows_nonneg(s.drop_last());
    }
}

/// Registry/schema agreement depends only on the variable registry and the
/// schema: it carries over between any two states that share them.
proof fn lemma_vars_wf_carries(a: ReadStatData, b: ReadStatData)
    requires
        a.vars_wf(),
        b.vars == a.vars,
        b.schema == a.schema,
    ensures
        b.vars_wf(),
{
    assert forall|j: int| 0 <= j < b.schema.model().len() implies exists|i: int|
        0 <= i < b.vars@.len() && (#[trigger] b.schema.model()[j]).0 == b.vars@[i].0.var_name@
            && b.schema.model()[j].1 == spec_var_dt(b.vars@[i].1.var_type) by {
        let wi = choose|i: int|
            0 <= i < a.vars@.len() && (#[trigger] a.schema.model()[j]).0 == a.vars@[i].0.var_name@
                && a.schema.model()[j].1 == spec_var_dt(a.vars@[i].1.var_type);
        assert(0 <= wi < b.vars@.len() && b.schema.model()[j].0 == b.vars@[wi].0.var_name@
            && b.schema.model()[j].1 == spec_var_dt(b.vars@[wi].1.var_type));
    }
}

/// The cell a value event is stored as: its typed payload, or a null when
/// the event is flagged missing.
pub open spec fn spec_event_cell(value: Option<ReadStatVar>) -> CellValue {
    match value {
        Some(v) => spec_cell_of(v),
        None => CellValue::Missing,
    }
}

/// Whether a value event may enter a column of storage type `d`: a missing
/// value always may; a present value must match the storage type.
pub open spec fn spec_value_ok(value: Option<ReadStatVar>, d: DataType) -> bool {
    match value {
        Some(v) => spec_value_dtype(v) == d,
        None => true,
    }
}

/// Whether completing row `obs` triggers a flush under the given policy.
pub open spec fn spec_should_flush(reader: Reader, chunk_rows: int, obs: int, rc: int) -> bool {
    match reader {
        Reader::Stream => (obs + 1) % chunk_rows == 0 || (rc >= 0 && obs == rc - 1),
        Reader::Mem => rc >= 0 && obs == rc - 1,
    }
}

/// The assembly session. Owns the captured metadata, the variable registry,
/// the schema, and one column buffer per declared variable; tracks the
/// expected next (row, variable) position to detect boundaries and breaches.
pub struct ReadStatData {
    pub reader: Reader,
    pub chunk_rows: usize,
    pub phase: ReadStatPhase,
    pub metadata: Option<ReadStatMetadata>,
    pub vars: Vec<(ReadStatVarIndexAndName, ReadStatVarMetadata)>,
    pub schema: Schema,
    pub cols: Vec<Column>,
    pub next_row: i64,
    pub next_var: usize,
    /// Rows of each batch handed out so far, in order.
    pub batch_rows: Ghost<Seq<int>>,
}

impl ReadStatData {
    /// Declared row count, once metadata is captured.
    pub open spec fn row_total(self) -> int {
        self.metadata->Some_0.row_count as int
    }

    /// Declared variable count, once metadata is captured.
    pub open spec fn var_total(self) -> int {
        self.metadata->Some_0.var_count as int
    }

    /// Rows handed out across all batches so far.
    pub open spec fn flushed_rows(self) -> int {
        sum_rows(self.batch_rows@)
    }

    /// No two declared variables share a name.
    pub open spec fn vars_names_distinct(self) -> bool {
        forall|i: int, j: int|
            0 <= i < j < self.vars@.len() ==> self.vars@[i].0.var_name@ != self.vars@[
                j
            ].0.var_name@
    }

    /// The variable registry and the schema agree: indices are contiguous,
    /// schema names are unique, every schema field comes from a declared
    /// variable, and under distinct declared names the schema lists exactly
    /// one field per variable, in declaration order, with the mapped type.
    pub open spec fn vars_wf(self) -> bool {
        &&& forall|i: int|
            0 <= i < self.vars@.len() ==> (#[trigger] self.vars@[i]).0.var_index == i
        &&& self.schema.names_distinct()
        &&& forall|j: int|
            0 <= j < self.schema.model().len() ==> exists|i: int|
                0 <= i < self.vars@.len() && (#[trigger] self.schema.model()[j]).0
                    == self.vars@[i].0.var_name@ && self.schema.model()[j].1 == spec_var_dt(
                    self.vars@[i].1.var_type,
                )
        &&& (self.vars_names_distinct() ==> self.schema.model() == Seq::new(
            self.vars@.len(),
            |i: int|
                (self.vars@[i].0.var_name@, spec_var_dt(self.vars@[i].1.var_type)),
        ))
    }

    /// One column buffer per declared variable, of the mapped storage type.
    pub open spec fn cols_wf(self) -> bool {
        &&& self.cols@.len() == self.vars@.len()
        &&& forall|i: int|
            0 <= i < self.cols@.len() ==> (#[trigger] self.cols@[i]).dtype() == spec_var_dt(
                self.vars@[i].1.var_type,
            )
    }

    /// Every column buffer is empty.
    pub open spec fn cols_empty(self) -> bool {
        forall|i: int| 0 <= i < self.cols@.len() ==> (#[trigger] self.cols@[i]).cells().len() == 0
    }

    /// Every batch handed out so far held at least one row.
    pub open spec fn batches_positive(self) -> bool {
        forall|k: int| 0 <= k < self.batch_rows@.len() ==> self.batch_rows@[k] > 0
    }

    /// Accounting while values stream in: for every column, the rows already
    /// handed out plus the cells still buffered equal the values delivered
    /// to that column so far.
    pub open spec fn conservation(self) -> bool {
        forall|i: int|
            0 <= i < self.cols@.len() ==> (#[trigger] self.cols@[i]).cells().len() as int
                == self.next_row - self.flushed_rows() + (
            if i < self.next_var {
                1int
            } else {
                0int
            })
    }

    /// The session invariant, by phase.
    pub open spec fn wf(self) -> bool {
        &&& self.chunk_rows >= 1
        &&& match self.phase {
            ReadStatPhase::AwaitingMetadata => {
                &&& self.metadata is None
                &&& self.vars@.len() == 0
                &&& self.schema.model().len() == 0
                &&& self.schema.names_distinct()
                &&& self.cols@.len() == 0
                &&& self.batch_rows@.len() == 0
                &&& self.next_row == 0
                &&& self.next_var == 0
            },
            ReadStatPhase::AwaitingVariables => {
                &&& self.metadata matches Some(m) && m.var_count > 0 && self.vars@.len() < m.var_count
                &&& self.vars_wf()
                &&& self.cols_wf()
                &&& self.cols_empty()
                &&& self.batch_rows@.len() == 0
                &&& self.next_row == 0
                &&& self.next_var == 0
            },
            ReadStatPhase::ReceivingValues => {
                &&& self.metadata matches Some(m) && m.var_count > 0 && m.row_count != 0
                    && self.vars@.len() == m.var_count
                &&& self.vars_wf()
                &&& self.cols_wf()
                &&& self.next_var < self.vars@.len()
                &&& 0 <= self.flushed_rows() <= self.next_row
                &&& self.row_total() > 0 ==> self.next_row < self.row_total()
                &&& self.conservation()
                &&& self.batches_positive()
            },
            ReadStatPhase::Draining => {
                &&& self.metadata matches Some(m) && self.vars@.len() == m.var_count
                &&& self.vars_wf()
                &&& self.next_var == 0
                &&& self.flushed_rows() == self.next_row
                &&& self.next_row == (
                if self.var_total() > 0 && self.row_total() > 0 {
                    self.row_total()
                } else {
                    0int
                })
                &&& (self.cols@.len() == 0 || (self.cols_wf() && self.cols_empty()))
                &&& self.batches_positive()
            },
            ReadStatPhase::Done => {
                &&& self.vars_wf()
                &&& self.next_var == 0
                &&& 0 <= self.next_row
                &&& self.flushed_rows() == self.next_row
                &&& (self.cols@.len() == 0 || (self.cols_wf() && self.cols_empty()))
                &&& self.batches_positive()
            },
        }
    }

    /// The value expected next completes its row.
    pub open spec fn row_completes_next(self) -> bool {
        self.next_var + 1 == self.vars@.len()
    }

    /// The value expected next completes its row and the row triggers a
    /// flush under the session's policy.
    pub open spec fn flushes_next(self) -> bool {
        self.row_completes_next() && spec_should_flush(
            self.reader,
            self.chunk_rows as int,
            self.next_row as int,
            self.row_total(),
        )
    }

    /// The row holding the value expected next is the file's last.
    pub open spec fn last_row_next(self) -> bool {
        self.row_total() >= 0 && self.next_row == self.row_total() - 1
    }

    /// A fresh session under the given flush policy and chunk size.
    pub fn new(reader: Reader, chunk_rows: usize) -> (d: ReadStatData)
        requires
            chunk_rows >= 1,
        ensures
            d.wf(),
            d.reader == reader,
            d.chunk_rows == chunk_rows,
            d.phase is AwaitingMetadata,
            d.metadata is None,
            d.vars@.len() == 0,
            d.schema.model().len() == 0,
            d.cols@.len() == 0,
            d.batch_rows@ == Seq::<int>::empty(),
    {
        ReadStatData {
            reader,
            chunk_rows,
            phase: ReadStatPhase::AwaitingMetadata,
            metadata: None,
            vars: Vec::new(),
            schema: Schema::new(),
            cols: Vec::new(),
            next_row: 0,
            next_var: 0,
            batch_rows: Ghost(Seq::empty()),
        }
    }

    /// Captures file-level metadata, exactly once, before any declaration.
    /// Enum codes are decoded and the two epoch-second instants rendered as
    /// calendar text (empty if out of calendar range). A negative declared
    /// variable count is unusable and rejected; a declared variable count of
    /// zero means no declarations or values can follow, so the session skips
    /// straight to draining.
    pub fn handle_metadata(&mut self, ev: ReadStatMetadataEvent) -> (r: Result<(), ReadStatError>)
        requires
            old(self).wf(),
        ensures
            final(self).wf(),
            r is Ok <==> old(self).phase is AwaitingMetadata && ev.var_count >= 0,
            r is Err ==> *final(self) == *old(self),
            !(old(self).phase is AwaitingMetadata) ==> (r matches Err(e) && e
                == ReadStatError::SourceContractViolation(SourceFault::EventOutOfPhase)),
            old(self).phase is AwaitingMetadata && ev.var_count < 0 ==> (r matches Err(e) && e
                == ReadStatError::SourceContractViolation(
                SourceFault::InvalidVariableCount { declared: ev.var_count },
            )),
            r is Ok ==> {
                &&& final(self).metadata matches Some(m) && {
                    &&& m.row_count == ev.row_count
                    &&& m.var_count == ev.var_count
                    &&& m.table_name == ev.table_name
                    &&& m.file_label == ev.file_label
                    &&& m.file_encoding == ev.file_encoding
                    &&& m.version == ev.version
                    &&& m.is64bit == ev.is64bit
                    &&& (m.creation_time@ == datetime_display_of(ev.creation_time)
                        || m.creation_time@ == Seq::<char>::empty())
                    &&& (0 <= ev.creation_time <= TIMESTAMP_SECS_MAX ==> m.creation_time@
                        == datetime_display_of(ev.creation_time))
                    &&& (m.modified_time@ == datetime_display_of(ev.modified_time)
                        || m.modified_time@ == Seq::<char>::empty())
                    &&& (0 <= ev.modified_time <= TIMESTAMP_SECS_MAX ==> m.modified_time@
                        == datetime_display_of(ev.modified_time))
                    &&& m.compression == spec_compress_from_code(ev.compression)
                    &&& m.endianness == spec_endian_from_code(ev.endianness)
                }
                &&& final(self).phase == (
                if ev.var_count == 0 {
                    ReadStatPhase::Draining
                } else {
                    ReadStatPhase::AwaitingVariables
                })
                &&& final(self).vars == old(self).vars
                &&& final(self).schema == old(self).schema
                &&& final(self).cols@.len() == 0
                &&& final(self).batch_rows@ == old(self).batch_rows@
                &&& final(self).next_row == 0
                &&& final(self).next_var == 0
                &&& final(self).reader == old(self).reader
                &&& final(self).chunk_rows == old(self).chunk_rows
            },
    {
        match self.phase {
            ReadStatPhase::AwaitingMetadata => (),
            _ => {
                return Err(ReadStatError::SourceContractViolation(SourceFault::EventOutOfPhase));
            },
        }
        if ev.var_count < 0 {
            return Err(
                ReadStatError::SourceContractViolation(
                    SourceFault::InvalidVariableCount { declared: ev.var_count },
                ),
            );
        }
        let ReadStatMetadataEvent {
            row_count,
            var_count,
            table_name,
            file_label,
            file_encoding,
            version,
            is64bit,
            creation_time,
            modified_time,
            compression,
            endianness,
        } = ev;
        let md = ReadStatMetadata {
            row_count,
            var_count,
            table_name,
            file_label,
            file_encoding,
            version,
            is64bit,
            creation_time: timestamp_display(creation_time),
            modified_time: timestamp_display(modified_time),
            compression: compress_from_code(compression),
            endianness: endian_from_code(endianness),
        };
        self.metadata = Some(md);
        self.cols = Vec::with_capacity(var_count as usize);
        self.phase = if var_count == 0 {
            ReadStatPhase::Draining
        } else {
            ReadStatPhase::AwaitingVariables
        };
        proof {
            assert(self.schema.model() =~= Seq::new(
                self.vars@.len(),
                |i: int| (self.vars@[i].0.var_name@, spec_var_dt(self.vars@[i].1.var_type)),
            ));
        }
        Ok(())
    }

    /// Registers one variable declaration. Declarations arrive in strict
    /// index order `0..var_count`. The display format is classified, the
    /// schema gains a field under merge semantics (an identical
    /// redeclaration of a name is a no-op, a conflicting one is fatal), and
    /// an empty column buffer of the mapped storage type is allocated with
    /// capacity the smaller of the chunk size and the declared row count.
    /// Once the last declaration lands the session starts receiving values,
    /// or drains at once when no data rows were declared.
    pub fn handle_variable(
        &mut self,
        index: i32,
        var_type: ReadStatVarType,
        var_type_class: ReadStatVarTypeClass,
        var_name: String,
        var_label: String,
        var_format: String,
    ) -> (r: Result<(), ReadStatError>)
        requires
            old(self).wf(),
        ensures
            final(self).wf(),
            r is Err ==> *final(self) == *old(self),
            !(old(self).phase is AwaitingVariables) ==> (r matches Err(e) && e
                == ReadStatError::SourceContractViolation(SourceFault::EventOutOfPhase)),
            old(self).phase is AwaitingVariables && index as int != old(self).vars@.len() as int
                ==> (r matches Err(e) && e == ReadStatError::SourceContractViolation(
                SourceFault::VariableOutOfOrder {
                    expected_index: old(self).vars@.len() as i32,
                    found_index: index,
                },
            )),
            old(self).phase is AwaitingVariables && index as int == old(self).vars@.len() as int
                && (exists|j: int|
                0 <= j < old(self).schema.model().len() && (#[trigger] old(self).schema.model()[
                    j
                ]).0 == var_name@ && old(self).schema.model()[j].1 != spec_var_dt(var_type)) ==> (
            r matches Err(e) && (exists|j: int|
                0 <= j < old(self).schema.model().len() && (#[trigger] old(self).schema.model()[
                    j
                ]).0 == var_name@ && e == ReadStatError::SchemaConflict {
                    existing: old(self).schema.model()[j].1,
                })),
            r is Ok <==> (old(self).phase is AwaitingVariables && index as int == old(
                self,
            ).vars@.len() as int && !(exists|j: int|
                0 <= j < old(self).schema.model().len() && (#[trigger] old(self).schema.model()[
                    j
                ]).0 == var_name@ && old(self).schema.model()[j].1 != spec_var_dt(var_type))),
            r is Ok ==> {
                &&& final(self).vars@ == old(self).vars@.push(
                    (
                        (ReadStatVarIndexAndName { var_index: index, var_name: var_name }),
                        (ReadStatVarMetadata {
                            var_type,
                            var_type_class,
                            var_label,
                            var_format,
                            var_format_class: spec_format_class(var_format@),
                        }),
                    ),
                )
                &&& final(self).schema.model() == (
                if old(self).schema.has_field_name(var_name@) {
                    old(self).schema.model()
                } else {
                    old(self).schema.model().push((var_name@, spec_var_dt(var_type)))
                })
                &&& final(self).cols@.len() == old(self).cols@.len() + 1
                &&& forall|i: int|
                    0 <= i < old(self).cols@.len() ==> final(self).cols@[i] == old(self).cols@[i]
                &&& final(self).cols@.last().dtype() == spec_var_dt(var_type)
                &&& final(self).cols@.last().cells().len() == 0
                &&& final(self).phase == (
                if old(self).vars@.len() + 1 == old(self).var_total() {
                    if old(self).row_total() == 0 {
                        ReadStatPhase::Draining
                    } else {
                        ReadStatPhase::ReceivingValues
                    }
                } else {
                    ReadStatPhase::AwaitingVariables
                })
                &&& final(self).metadata == old(self).metadata
                &&& final(self).batch_rows@ == old(self).batch_rows@
                &&& final(self).next_row == 0
                &&& final(self).next_var == 0
                &&& final(self).reader == old(self).reader
                &&& final(self).chunk_rows == old(self).chunk_rows
            },
    {
        match self.phase {
            ReadStatPhase::AwaitingVariables => (),
            _ => {
                return Err(ReadStatError::SourceContractViolation(SourceFault::EventOutOfPhase));
            },
        }
        let expected = self.vars.len();
        proof {
            assert(expected <= i32::MAX as usize);
        }
        if index < 0 || index as usize != expected {
            return Err(
                ReadStatError::SourceContractViolation(
                    SourceFault::VariableOutOfOrder { expected_index: expected as i32, found_index: index },
                ),
            );
        }
        let rc = match &self.metadata {
            Some(m) => m.row_count,
            None => {
                proof {
                    assert(false);
                }
                0
            },
        };
        let cap = if rc >= 0 && (rc as usize) < self.chunk_rows {
            rc as usize
        } else {
            self.chunk_rows
        };
        let var_format_class = match_var_format(var_format.as_str());
        let dt = var_dt(var_type);
        let field = Field::new(var_name.clone(), dt);
        match self.schema.try_push_field(field) {
            Err(e) => {
                return Err(e);
            },
            Ok(()) => (),
        }
        let pair = (
            ReadStatVarIndexAndName::new(index, var_name),
            ReadStatVarMetadata::new(var_type, var_type_class, var_label, var_format,
                var_format_class),
        );
        self.vars.push(pair);
        self.cols.push(Column::new(dt, cap));
        let vc = match &self.metadata {
            Some(m) => m.var_count,
            None => {
                proof {
                    assert(false);
                }
                0
            },
        };
        if self.vars.len() == vc as usize {
            self.phase = if rc == 0 {
                ReadStatPhase::Draining
            } else {
                ReadStatPhase::ReceivingValues
            };
        }
        proof {
            let ov = old(self).vars@;
            let nv = self.vars@;
            let os = old(self).schema.model();
            let ns = self.schema.model();
            assert forall|j: int| 0 <= j < ns.len() implies exists|i: int|
                0 <= i < nv.len() && (#[trigger] ns[j]).0 == nv[i].0.var_name@ && ns[j].1
                    == spec_var_dt(nv[i].1.var_type) by {
                if j < os.len() {
                    let wi = choose|i: int|
                        0 <= i < ov.len() && (#[trigger] os[j]).0 == ov[i].0.var_name@ && os[j].1
                            == spec_var_dt(ov[i].1.var_type);
                    assert(nv[wi] == ov[wi]);
                    assert(ns[j] == os[j]);
                } else {
                    assert(ns[j].0 == nv[ov.len() as int].0.var_name@ && ns[j].1 == spec_var_dt(
                        nv[ov.len() as int].1.var_type,
                    ));
                }
            }
            if self.vars_names_distinct() {
                assert forall|i: int, j: int| 0 <= i < j < ov.len() implies ov[i].0.var_name@ != ov[
                    j
                ].0.var_name@ by {
                    assert(nv[i] == ov[i]);
                    assert(nv[j] == ov[j]);
                    assert(nv[i].0.var_name@ != nv[j].0.var_name@);
                }
                assert(old(self).vars_names_distinct());
                assert(os == Seq::new(
                    ov.len(),
                    |i: int| (ov[i].0.var_name@, spec_var_dt(ov[i].1.var_type)),
                ));
                if old(self).schema.has_field_name(var_name@) {
                    let wj = choose|j: int|
                        0 <= j < os.len() && #[trigger] os[j].0 == var_name@;
                    let wi = choose|i: int|
                        0 <= i < ov.len() && (#[trigger] os[wj]).0 == ov[i].0.var_name@ && os[
                            wj
                        ].1 == spec_var_dt(ov[i].1.var_type);
                    assert(nv[wi].0.var_name@ == var_name@);
                    assert(nv[nv.len() - 1].0.var_name@ == var_name@);
                    assert(false);
                }
                assert(ns =~= Seq::new(
                    nv.len(),
                    |i: int| (nv[i].0.var_name@, spec_var_dt(nv[i].1.var_type)),
                ));
            }
        }
        Ok(())
    }

    /// Finishes every column buffer into a batch: a snapshot of the schema,
    /// the finished columns in declaration order, and the row count they all
    /// agree on. Fresh empty buffers are allocated unless this flush is the
    /// final one.
    #[verifier::loop_isolation(false)]
    fn flush_batch(&mut self, repopulate: bool) -> (b: ReadStatBatch)
        requires
            old(self).chunk_rows >= 1,
            old(self).metadata is Some,
            old(self).cols@.len() == old(self).vars@.len(),
            old(self).cols@.len() > 0,
            forall|i: int|
                0 <= i < old(self).cols@.len() ==> (#[trigger] old(self).cols@[i]).dtype()
                    == spec_var_dt(old(self).vars@[i].1.var_type),
            forall|i: int|
                0 <= i < old(self).cols@.len() ==> (#[trigger] old(self).cols@[i]).cells().len()
                    == old(self).cols@[0].cells().len(),
        ensures
            b.schema.model() == old(self).schema.model(),
            b.columns@ == old(self).cols@,
            b.num_rows == old(self).cols@[0].cells().len(),
            b.wf(),
            final(self).batch_rows@ == old(self).batch_rows@.push(b.num_rows as int),
            final(self).flushed_rows() == old(self).flushed_rows() + b.num_rows,
            repopulate ==> final(self).cols@.len() == old(self).cols@.len()
                && final(self).cols_empty() && (forall|i: int|
                0 <= i < final(self).cols@.len() ==> (#[trigger] final(self).cols@[i]).dtype()
                    == spec_var_dt(old(self).vars@[i].1.var_type)),
            !repopulate ==> final(self).cols@.len() == 0,
            final(self).phase == old(self).phase,
            final(self).metadata == old(self).metadata,
            final(self).vars == old(self).vars,
            final(self).schema == old(self).schema,
            final(self).next_row == old(self).next_row,
            final(self).next_var == old(self).next_var,
            final(self).reader == old(self).reader,
            final(self).chunk_rows == old(self).chunk_rows,
    {
        let n = self.cols[0].len();
        let mut arrays: Vec<Column> = Vec::new();
        core::mem::swap(&mut self.cols, &mut arrays);
        if repopulate {
            let rc = match &self.metadata {
                Some(m) => m.row_count,
                None => {
                    proof {
                        assert(false);
                    }
                    0
                },
            };
            let cap = if rc >= 0 && (rc as usize) < self.chunk_rows {
                rc as usize
            } else {
                self.chunk_rows
            };
            let total = self.vars.len();
            let mut i: usize = 0;
            while i < total
                invariant
                    i <= total,
                    total == self.vars@.len(),
                    self.vars == old(self).vars,
                    self.schema == old(self).schema,
                    self.metadata == old(self).metadata,
                    self.batch_rows == old(self).batch_rows,
                    self.next_row == old(self).next_row,
                    self.next_var == old(self).next_var,
                    self.phase == old(self).phase,
                    self.reader == old(self).reader,
                    self.chunk_rows == old(self).chunk_rows,
                    self.cols@.len() == i,
                    forall|j: int|
                        0 <= j < i ==> (#[trigger] self.cols@[j]).dtype() == spec_var_dt(
                            self.vars@[j].1.var_type,
                        ),
                    forall|j: int| 0 <= j < i ==> (#[trigger] self.cols@[j]).cells().len() == 0,
                decreases total - i,
            {
                let dt = var_dt(self.vars[i].1.var_type);
                self.cols.push(Column::new(dt, cap));
                i += 1;
            }
        }
        let b = ReadStatBatch { schema: self.schema.duplicate(), columns: arrays, num_rows: n };
        proof {
            lemma_sum_rows_push(self.batch_rows@, n as int);
        }
        self.batch_rows = Ghost(self.batch_rows@.push(n as int));
        b
    }

    /// Consumes one value event at row-major position (`obs_index`,
    /// `var_index`). A missing value is appended as a null at exactly that
    /// position, whatever the column's type; a present value must match its
    /// column's storage type. When the event completes a row the flush
    /// policy is evaluated, and a finished batch is handed back at a chunk
    /// boundary or at the file's last row; after the last row the session
    /// drains. Events outside row-major order or in the wrong phase are
    /// fatal.
    pub fn handle_value(
        &mut self,
        obs_index: i32,
        var_index: i32,
        value: Option<ReadStatVar>,
    ) -> (r: Result<Option<ReadStatBatch>, ReadStatError>)
        requires
            old(self).wf(),
        ensures
            final(self).wf(),
            r is Err ==> *final(self) == *old(self),
            !(old(self).phase is ReceivingValues) ==> (r matches Err(e) && e
                == ReadStatError::SourceContractViolation(SourceFault::EventOutOfPhase)),
            old(self).phase is ReceivingValues && !(obs_index as int == old(self).next_row as int
                && var_index as int == old(self).next_var as int) ==> (r matches Err(e) && e
                == ReadStatError::SourceContractViolation(
                SourceFault::ValueOutOfOrder {
                    expected_row: old(self).next_row,
                    expected_var: old(self).next_var,
                    found_row: obs_index,
                    found_var: var_index,
                },
            )),
            old(self).phase is ReceivingValues && obs_index as int == old(self).next_row as int
                && var_index as int == old(self).next_var as int && !spec_value_ok(
                value,
                old(self).cols@[old(self).next_var as int].dtype(),
            ) ==> (value matches Some(v) && r matches Err(e) && e
                == ReadStatError::SourceContractViolation(
                SourceFault::ValueTypeMismatch {
                    expected: old(self).cols@[old(self).next_var as int].dtype(),
                    found: spec_value_dtype(v),
                },
            )),
            r is Ok <==> (old(self).phase is ReceivingValues && obs_index as int == old(
                self,
            ).next_row as int && var_index as int == old(self).next_var as int && spec_value_ok(
                value,
                old(self).cols@[old(self).next_var as int].dtype(),
            )),
            r is Ok ==> {
                &&& final(self).metadata == old(self).metadata
                &&& final(self).vars == old(self).vars
                &&& final(self).schema == old(self).schema
                &&& final(self).reader == old(self).reader
                &&& final(self).chunk_rows == old(self).chunk_rows
                &&& final(self).next_row as int == (
                if old(self).row_completes_next() {
                    old(self).next_row + 1
                } else {
                    old(self).next_row as int
                })
                &&& final(self).next_var == (
                if old(self).row_completes_next() {
                    0usize
                } else {
                    (old(self).next_var + 1) as usize
                })
                &&& final(self).phase == (
                if old(self).flushes_next() && old(self).last_row_next() {
                    ReadStatPhase::Draining
                } else {
                    ReadStatPhase::ReceivingValues
                })
            },
            r matches Ok(b_opt) ==> (b_opt is Some <==> old(self).flushes_next()),
            r matches Ok(Some(b)) ==> {
                &&& b.schema.model() == old(self).schema.model()
                &&& b.columns@.len() == old(self).cols@.len()
                &&& forall|j: int|
                    0 <= j < old(self).cols@.len() && j != old(self).next_var as int
                        ==> b.columns@[j] == old(self).cols@[j]
                &&& b.columns@[old(self).next_var as int].cells() == old(self).cols@[old(
                    self,
                ).next_var as int].cells().push(spec_event_cell(value))
                &&& b.columns@[old(self).next_var as int].dtype() == old(self).cols@[old(
                    self,
                ).next_var as int].dtype()
                &&& b.num_rows as int == old(self).next_row + 1 - old(self).flushed_rows()
                &&& b.wf()
                &&& final(self).batch_rows@ == old(self).batch_rows@.push(b.num_rows as int)
                &&& (old(self).last_row_next() ==> final(self).cols@.len() == 0)
                &&& (!old(self).last_row_next() ==> final(self).cols@.len() == old(
                    self,
                ).cols@.len() && final(self).cols_empty())
            },
            r matches Ok(None) ==> {
                &&& final(self).batch_rows@ == old(self).batch_rows@
                &&& final(self).cols@.len() == old(self).cols@.len()
                &&& forall|j: int|
                    0 <= j < old(self).cols@.len() && j != old(self).next_var as int
                        ==> final(self).cols@[j] == old(self).cols@[j]
                &&& final(self).cols@[old(self).next_var as int].cells() == old(self).cols@[old(
                    self,
                ).next_var as int].cells().push(spec_event_cell(value))
                &&& final(self).cols@[old(self).next_var as int].dtype() == old(self).cols@[old(
                    self,
                ).next_var as int].dtype()
            },
    {
        match self.phase {
            ReadStatPhase::ReceivingValues => (),
            _ => {
                return Err(ReadStatError::SourceContractViolation(SourceFault::EventOutOfPhase));
            },
        }
        if obs_index as i64 != self.next_row || var_index < 0 || (var_index as usize)
            != self.next_var {
            return Err(
                ReadStatError::SourceContractViolation(
                    SourceFault::ValueOutOfOrder {
                        expected_row: self.next_row,
                        expected_var: self.next_var,
                        found_row: obs_index,
                        found_var: var_index,
                    },
                ),
            );
        }
        let i = self.next_var;
        let ghost gv = value;
        match &value {
            Some(v) => {
                let d = value_dtype(v);
                let cd = self.cols[i].data_type();
                if d != cd {
                    return Err(
                        ReadStatError::SourceContractViolation(
                            SourceFault::ValueTypeMismatch { expected: cd, found: d },
                        ),
                    );
                }
            },
            None => (),
        }
        match value {
            Some(v) => {
                let col = &mut self.cols[i];
                col.append_value(v);
            },
            None => {
                let col = &mut self.cols[i];
                col.append_null();
            },
        }
        proof {
            assert(self.cols@ == old(self).cols@.update(
                i as int,
                self.cols@[i as int],
            ));
            assert(self.cols@[i as int].cells() == old(self).cols@[i as int].cells().push(
                spec_event_cell(gv),
            ));
        }
        let vc = self.vars.len();
        if i + 1 < vc {
            self.next_var = i + 1;
            return Ok(None);
        }
        // The row is complete: advance the cursor and evaluate the policy.
        self.next_var = 0;
        self.next_row = self.next_row + 1;
        let rc = match &self.metadata {
            Some(m) => m.row_count,
            None => {
                proof {
                    assert(false);
                }
                0
            },
        };
        let is_last = rc >= 0 && obs_index == rc - 1;
        let flush_now = match self.reader {
            Reader::Stream => (obs_index as u64 + 1) % (self.chunk_rows as u64) == 0 || is_last,
            Reader::Mem => is_last,
        };
        if !flush_now {
            return Ok(None);
        }
        proof {
            assert forall|j: int| 0 <= j < self.cols@.len() implies (#[trigger] self.cols@[
                j
            ]).cells().len() == self.cols@[0].cells().len() by {
                assert(old(self).cols@[j].cells().len() as int == old(self).next_row - old(
                    self,
                ).flushed_rows() + (
                if j < old(self).next_var {
                    1int
                } else {
                    0int
                }));
            }
        }
        let b = self.flush_batch(!is_last);
        proof {
            assert(b.num_rows as int >= 1);
            assert forall|k: int| 0 <= k < self.batch_rows@.len() implies self.batch_rows@[k]
                > 0 by {
                if k < self.batch_rows@.len() - 1 {
                    assert(old(self).batch_rows@[k] > 0);
                }
            }
        }
        if is_last {
            self.phase = ReadStatPhase::Draining;
        }
        Ok(Some(b))
    }

    /// Ends the stream. From `Draining` — every declared row already
    /// consumed and flushed — this is the final acknowledgement and yields
    /// nothing. From `ReceivingValues` — a source whose declared row count
    /// was unknown, or one that stopped early — fully buffered rows, if
    /// any, are flushed as one final batch; ending in the middle of a row
    /// is a fatal breach and leaves the session as it was. Any other phase
    /// is out of order.
    pub fn finish(&mut self) -> (r: Result<Option<ReadStatBatch>, ReadStatError>)
        requires
            old(self).wf(),
        ensures
            final(self).wf(),
            r is Err ==> *final(self) == *old(self),
            !(old(self).phase is ReceivingValues || old(self).phase is Draining) ==> (r matches Err(
                e,
            ) && e == ReadStatError::SourceContractViolation(SourceFault::EventOutOfPhase)),
            old(self).phase is ReceivingValues && old(self).next_var != 0 ==> (r matches Err(e)
                && e == ReadStatError::SourceContractViolation(SourceFault::IncompleteRow)),
            r is Ok <==> ((old(self).phase is ReceivingValues && old(self).next_var == 0) || old(
                self,
            ).phase is Draining),
            r is Ok ==> {
                &&& final(self).phase is Done
                &&& final(self).metadata == old(self).metadata
                &&& final(self).vars == old(self).vars
                &&& final(self).schema == old(self).schema
                &&& final(self).next_row == old(self).next_row
                &&& final(self).next_var == 0
                &&& final(self).reader == old(self).reader
                &&& final(self).chunk_rows == old(self).chunk_rows
            },
            old(self).phase is Draining ==> (r matches Ok(b_opt) && b_opt is None
                && final(self).batch_rows@ == old(self).batch_rows@
                && final(self).cols == old(self).cols),
            old(self).phase is ReceivingValues && old(self).next_var == 0 ==> (r matches Ok(b_opt)
                && (b_opt is Some <==> old(self).next_row > old(self).flushed_rows())),
            r matches Ok(Some(b)) ==> {
                &&& b.schema.model() == old(self).schema.model()
                &&& b.columns@ == old(self).cols@
                &&& b.num_rows as int == old(self).next_row - old(self).flushed_rows()
                &&& b.wf()
                &&& final(self).batch_rows@ == old(self).batch_rows@.push(b.num_rows as int)
                &&& final(self).cols@.len() == 0
            },
            old(self).phase is ReceivingValues && old(self).next_var == 0 && old(self).next_row
                == old(self).flushed_rows() ==> (r matches Ok(b_opt) && b_opt is None
                && final(self).batch_rows@ == old(self).batch_rows@
                && final(self).cols == old(self).cols),
    {
        match self.phase {
            ReadStatPhase::Draining => {
                self.phase = ReadStatPhase::Done;
                return Ok(None);
            },
            ReadStatPhase::ReceivingValues => (),
            _ => {
                return Err(ReadStatError::SourceContractViolation(SourceFault::EventOutOfPhase));
            },
        }
        if self.next_var != 0 {
            return Err(ReadStatError::SourceContractViolation(SourceFault::IncompleteRow));
        }
        let buffered = self.cols[0].len();
        proof {
            assert(self.cols@[0].cells().len() as int == self.next_row - self.flushed_rows());
            assert forall|j: int| 0 <= j < self.cols@.len() implies (#[trigger] self.cols@[
                j
            ]).cells().len() == self.cols@[0].cells().len() by {
                assert(self.cols@[j].cells().len() as int == self.next_row - self.flushed_rows());
            }
        }
        if buffered == 0 {
            self.phase = ReadStatPhase::Done;
            proof {
                lemma_vars_wf_carries(*old(self), *self);
            }
            return Ok(None);
        }
        let b = self.flush_batch(false);
        self.phase = ReadStatPhase::Done;
        proof {
            lemma_vars_wf_carries(*old(self), *self);
            assert(b.num_rows as int >= 1);
            assert forall|k: int| 0 <= k < self.batch_rows@.len() implies self.batch_rows@[k]
                > 0 by {
                if k < self.batch_rows@.len() - 1 {
                    assert(old(self).batch_rows@[k] > 0);
                }
            }
        }
        Ok(Some(b))
    }
}

/// Schema/declaration correspondence: as long as no two variables were
/// declared under one name, the schema holds exactly one field per declared
/// variable, in declaration order, typed by the documented storage mapping;
/// and once the declaration phase is over, the field count equals the
/// declared variable count.
pub proof fn lemma_schema_matches_declarations(d: ReadStatData)
    requires
        d.wf(),
        d.vars_names_distinct(),
    ensures
        d.schema.model().len() == d.vars@.len(),
        forall|i: int|
            0 <= i < d.vars@.len() ==> d.schema.model()[i] == (
                d.vars@[i].0.var_name@,
                spec_var_dt(d.vars@[i].1.var_type),
            ),
        d.phase is ReceivingValues || d.phase is Draining ==> d.vars@.len() as int == d.var_total(),
{
}

/// Value conservation, while values stream in: for every column, the rows
/// already handed out in batches plus the cells still buffered equal the
/// values delivered to that column, null or not, so no cell is dropped or
/// duplicated on the way to a batch.
pub proof fn lemma_column_conservation(d: ReadStatData, i: int)
    requires
        d.wf(),
        d.phase is ReceivingValues,
        0 <= i < d.cols@.len(),
    ensures
        d.flushed_rows() + d.cols@[i].cells().len() == d.next_row + (
        if i < d.next_var as int {
            1int
        } else {
            0int
        }),
{
}

/// Total accounting: once the session drains — every declared row consumed —
/// the rows of all batches handed out sum to exactly the declared row count.
/// Together with each batch's well-formedness (every column of a batch holds
/// exactly `num_rows` cells), the values per column across all batches equal
/// the declared row count.
pub proof fn lemma_all_rows_flushed(d: ReadStatData)
    requires
        d.wf(),
        d.phase is Draining,
        d.var_total() > 0,
        d.row_total() >= 0,
    ensures
        sum_rows(d.batch_rows@) == d.row_total(),
{
}

/// A declared row count of zero produces data-free output: once the
/// declaration phase completes and the session drains, not one batch has
/// been handed out and every column buffer is empty — while the schema,
/// proved elsewhere, covers every declared variable.
pub proof fn lemma_zero_rows_no_batches(d: ReadStatData)
    requires
        d.wf(),
        d.phase is Draining,
        d.row_total() == 0,
    ensures
        d.batch_rows@.len() == 0,
        d.cols_empty(),
{
    lemma_sum_rows_zero_means_empty(d.batch_rows@);
}

} // verus!

use vstd::prelude::*;
use std::sync::Arc;
use arrow_array::{
    ArrayRef, Int64Array, RecordBatch, StringArray, TimestampNanosecondArray, UInt32Array, UInt64Array,
    UInt8Array,
};
use arrow_schema::{ArrowError, DataType, Field, Schema, TimeUnit};
use crate::import::contract::opt_text;

verus! {

/// An Arrow record batch (`arrow_array::RecordBatch`), a columnar batch of
/// rows. Verus refuses the declaration of the Arrow type itself, so the batch
/// is held in this struct, which Verus does not look into.
#[verifier::external_body]
pub struct TraceBatch {
    pub batch: RecordBatch,
}

/// `arrow_schema::Schema`, the column names and types of a batch.
#[verifier::external_type_specification]
#[verifier::external_body]
pub struct ExSchema(Schema);

/// `arrow_schema::ArrowError`.
#[verifier::external_type_specification]
#[verifier::external_body]
pub struct ExArrowError(ArrowError);

/// Event-type values of the `event_type` column.
pub const EVENT_PROCESS_CREATE: u8 = 1;
pub const EVENT_PROCESS_EXIT: u8 = 2;
pub const EVENT_THREAD_CREATE: u8 = 3;
pub const EVENT_THREAD_EXIT: u8 = 4;
pub const EVENT_STACK_SAMPLE: u8 = 5;
pub const EVENT_CONTEXT_SWITCH: u8 = 6;
pub const EVENT_FILE_READ: u8 = 7;
pub const EVENT_FILE_WRITE: u8 = 8;
pub const EVENT_SYSCALL_ENTER: u8 = 9;
pub const EVENT_SYSCALL_EXIT: u8 = 10;
pub const EVENT_MODULE_LOAD: u8 = 11;
pub const EVENT_MODULE_UNLOAD: u8 = 12;

/// The column types of normalized trace batches.
#[derive(Debug, Clone, Copy, PartialEq, Eq, Structural)]
pub enum TraceColumnType {
    /// Nanosecond timestamps without time zone.
    TimestampNs,
    UInt8,
    UInt32,
    UInt64,
    Int64,
    Utf8,
}

/// One column of a schema: its name, type and whether it may hold nulls.
#[derive(Debug, Clone, Copy)]
pub struct FieldSpec {
    pub name: &'static str,
    pub data_type: TraceColumnType,
    pub nullable: bool,
}

/// A column description with its name as a sequence.
pub open spec fn field_view(f: FieldSpec) -> (Seq<char>, TraceColumnType, bool) {
    (f.name@, f.data_type, f.nullable)
}

/// The columns of normalized trace batches: timestamp, event type, process,
/// thread and stack ids, then three optional auxiliary numbers and an
/// optional name.
pub open spec fn trace_fields() -> Seq<(Seq<char>, TraceColumnType, bool)> {
    seq![
        ("timestamp_ns"@, TraceColumnType::TimestampNs, false),
        ("event_type"@, TraceColumnType::UInt8, false),
        ("pid"@, TraceColumnType::UInt32, false),
        ("tid"@, TraceColumnType::UInt32, false),
        ("stack_id"@, TraceColumnType::UInt32, false),
        ("aux_u64"@, TraceColumnType::UInt64, true),
        ("aux_i64"@, TraceColumnType::Int64, true),
        ("aux_u32"@, TraceColumnType::UInt32, true),
        ("name"@, TraceColumnType::Utf8, true),
    ]
}

/// The columns of normalized trace batches.
pub fn trace_field_specs() -> (v: Vec<FieldSpec>)
    ensures
        v@.map_values(|f: FieldSpec| field_view(f)) == trace_fields(),
{
    let v = vec![
        FieldSpec { name: "timestamp_ns", data_type: TraceColumnType::TimestampNs, nullable: false },
        FieldSpec { name: "event_type", data_type: TraceColumnType::UInt8, nullable: false },
        FieldSpec { name: "pid", data_type: TraceColumnType::UInt32, nullable: false },
        FieldSpec { name: "tid", data_type: TraceColumnType::UInt32, nullable: false },
        FieldSpec { name: "stack_id", data_type: TraceColumnType::UInt32, nullable: false },
        FieldSpec { name: "aux_u64", data_type: TraceColumnType::UInt64, nullable: true },
        FieldSpec { name: "aux_i64", data_type: TraceColumnType::Int64, nullable: true },
        FieldSpec { name: "aux_u32", data_type: TraceColumnType::UInt32, nullable: true },
        FieldSpec { name: "name", data_type: TraceColumnType::Utf8, nullable: true },
    ];
    assert(v@.map_values(|f: FieldSpec| field_view(f)) =~= trace_fields());
    v
}

/// The Arrow schema `Schema::new` builds from these columns.
pub uninterp spec fn schema_of(fields: Seq<(Seq<char>, TraceColumnType, bool)>) -> Arc<Schema>;

/// `Schema::new` over one `Field::new(name, data_type, nullable)` per column,
/// shared behind an `Arc`; the schema depends on the columns alone.
#[verifier::external_body]
fn schema_from_fields(fields: &Vec<FieldSpec>) -> (s: Arc<Schema>)
    ensures
        s == schema_of(fields@.map_values(|f: FieldSpec| field_view(f))),
{
    let to_type = |t: TraceColumnType| match t {
        TraceColumnType::TimestampNs => DataType::Timestamp(TimeUnit::Nanosecond, None),
        TraceColumnType::UInt8 => DataType::UInt8,
        TraceColumnType::UInt32 => DataType::UInt32,
        TraceColumnType::UInt64 => DataType::UInt64,
        TraceColumnType::Int64 => DataType::Int64,
        TraceColumnType::Utf8 => DataType::Utf8,
    };
    Arc::new(Schema::new(fields.iter().map(|f| Field::new(f.name, to_type(f.data_type), f.nullable)).collect::<Vec<Field>>()))
}

/// The canonical Arrow schema of normalized trace events.
pub fn trace_schema() -> (s: Arc<Schema>)
    ensures
        s == schema_of(trace_fields()),
{
    let fields = trace_field_specs();
    schema_from_fields(&fields)
}

/// Why a batch could not be built.
#[derive(Debug)]
pub enum NormalizerError {
    /// Arrow refused the columns (they do not fit the schema).
    Arrow(ArrowError),
}

/// The buffered columns of one batch.
pub struct TraceColumns {
    pub timestamp_ns: Vec<i64>,
    pub event_type: Vec<u8>,
    pub pid: Vec<u32>,
    pub tid: Vec<u32>,
    pub stack_id: Vec<u32>,
    pub aux_u64: Vec<Option<u64>>,
    pub aux_i64: Vec<Option<i64>>,
    pub aux_u32: Vec<Option<u32>>,
    pub name: Vec<Option<String>>,
}

/// One buffered row, its name as a sequence.
pub type TraceRow = (i64, u8, u32, u32, u32, Option<u64>, Option<i64>, Option<u32>, Option<Seq<char>>);

/// The rows the columns hold, one per entry of the `event_type` column.
pub open spec fn columns_rows(c: TraceColumns) -> Seq<TraceRow> {
    Seq::new(
        c.event_type@.len(),
        |i: int|
            (c.timestamp_ns@[i], c.event_type@[i], c.pid@[i], c.tid@[i], c.stack_id@[i], c.aux_u64@[i],
            c.aux_i64@[i], c.aux_u32@[i], opt_text(c.name@[i])),
    )
}

/// Whether every column holds one value per row.
pub open spec fn columns_aligned(c: TraceColumns) -> bool {
    let n = c.event_type@.len();
    &&& c.timestamp_ns@.len() == n
    &&& c.pid@.len() == n
    &&& c.tid@.len() == n
    &&& c.stack_id@.len() == n
    &&& c.aux_u64@.len() == n
    &&& c.aux_i64@.len() == n
    &&& c.aux_u32@.len() == n
    &&& c.name@.len() == n
}

/// The UTF-8 bytes an optional name takes.
pub open spec fn name_bytes(n: Option<Seq<char>>) -> nat {
    match n {
        Some(s) => vstd::utf8::encode_utf8(s).len(),
        None => 0,
    }
}

/// The UTF-8 bytes the names of `rows` take together.
pub open spec fn rows_name_bytes(rows: Seq<TraceRow>) -> nat
    decreases rows.len(),
{
    if rows.len() == 0 {
        0
    } else {
        rows_name_bytes(rows.drop_last()) + name_bytes(rows.last().8)
    }
}

/// The UTF-8 bytes the names of a name column take together.
pub open spec fn name_column_bytes(names: Seq<Option<String>>) -> nat
    decreases names.len(),
{
    if names.len() == 0 {
        0
    } else {
        name_column_bytes(names.drop_last()) + name_bytes(opt_text(names.last()))
    }
}

/// An optional borrowed name as a sequence.
pub open spec fn name_view(n: Option<&str>) -> Option<Seq<char>> {
    match n {
        Some(s) => Some(s@),
        None => None,
    }
}

/// The largest number of bytes an Arrow string column (32-bit offsets) holds.
pub const MAX_NAME_COLUMN_BYTES: u64 = 0x7fff_ffff;

/// The rows an Arrow batch built from trace columns holds, in order.
pub uninterp spec fn batch_rows(b: TraceBatch) -> Seq<TraceRow>;

/// `RecordBatch::try_new` over the schema and the nine columns, each turned
/// into the matching Arrow array (`TimestampNanosecondArray`, `UInt8Array`,
/// `UInt32Array`, `UInt64Array`, `Int64Array`, `StringArray`). The string
/// array panics when its values pass `i32::MAX` bytes, which `requires` rules
/// out. Arrow accepts the columns when they are of equal length and the schema
/// is the trace schema (same count, types and nullability); a batch it
/// builds holds exactly the rows of the columns.
#[verifier::external_body]
fn record_batch_from_columns(schema: &Arc<Schema>, c: TraceColumns) -> (r: Result<TraceBatch, ArrowError>)
    requires
        name_column_bytes(c.name@) <= MAX_NAME_COLUMN_BYTES,
    ensures
        *schema == schema_of(trace_fields()) && columns_aligned(c) ==> r is Ok,
        r matches Ok(b) ==> batch_rows(b) == columns_rows(c),
{
    let columns: Vec<ArrayRef> = vec![
        Arc::new(TimestampNanosecondArray::from(c.timestamp_ns)),
        Arc::new(UInt8Array::from(c.event_type)),
        Arc::new(UInt32Array::from(c.pid)),
        Arc::new(UInt32Array::from(c.tid)),
        Arc::new(UInt32Array::from(c.stack_id)),
        Arc::new(UInt64Array::from(c.aux_u64)),
        Arc::new(Int64Array::from(c.aux_i64)),
        Arc::new(UInt32Array::from(c.aux_u32)),
        Arc::new(StringArray::from(c.name)),
    ];
    RecordBatch::try_new(schema.clone(), columns).map(|batch| TraceBatch { batch })
}

proof fn lemma_name_bytes_agree(names: Seq<Option<String>>, rows: Seq<TraceRow>)
    requires
        names.len() == rows.len(),
        forall|i: int| 0 <= i < rows.len() ==> (#[trigger] rows[i]).8 == opt_text(names[i]),
    ensures
        name_column_bytes(names) == rows_name_bytes(rows),
    decreases rows.len(),
{
    if rows.len() > 0 {
        let n2 = names.drop_last();
        let r2 = rows.drop_last();
        assert forall|i: int| 0 <= i < r2.len() implies (#[trigger] r2[i]).8 == opt_text(n2[i]) by {
            assert(r2[i] == rows[i]);
        }
        lemma_name_bytes_agree(n2, r2);
        assert(rows.last() == rows[rows.len() - 1]);
    }
}

/// Accumulates rows and emits Arrow record batches of `batch_size` rows.
pub struct BatchBuilder {
    schema: Arc<Schema>,
    batch_size: usize,
    cols: TraceColumns,
}

impl BatchBuilder {
    pub closed spec fn schema(&self) -> Arc<Schema> {
        self.schema
    }

    pub closed spec fn batch_size(&self) -> nat {
        self.batch_size as nat
    }

    /// The buffered rows, in order.
    pub closed spec fn rows(&self) -> Seq<TraceRow> {
        columns_rows(self.cols)
    }

    /// Every column holds one value per buffered row, and the buffered names
    /// fit one Arrow string column.
    pub closed spec fn wf(&self) -> bool {
        &&& self.batch_size >= 1
        &&& columns_aligned(self.cols)
        &&& rows_name_bytes(self.rows()) <= MAX_NAME_COLUMN_BYTES
    }

    fn empty_columns() -> (c: TraceColumns)
        ensures
            c.timestamp_ns@.len() == 0 && c.event_type@.len() == 0 && c.pid@.len() == 0 && c.tid@.len() == 0
                && c.stack_id@.len() == 0 && c.aux_u64@.len() == 0 && c.aux_i64@.len() == 0
                && c.aux_u32@.len() == 0 && c.name@.len() == 0,
    {
        TraceColumns {
            timestamp_ns: Vec::new(),
            event_type: Vec::new(),
            pid: Vec::new(),
            tid: Vec::new(),
            stack_id: Vec::new(),
            aux_u64: Vec::new(),
            aux_i64: Vec::new(),
            aux_u32: Vec::new(),
            name: Vec::new(),
        }
    }

    /// A builder for batches of `batch_size` rows (at least one) under `schema`.
    pub fn new(schema: Arc<Schema>, batch_size: usize) -> (b: BatchBuilder)
        ensures
            b.wf(),
            b.schema() == schema,
            b.batch_size() == if batch_size >= 1 { batch_size as nat } else { 1 },
            b.rows().len() == 0,
    {
        let batch_size = if batch_size >= 1 { batch_size } else { 1 };
        BatchBuilder { schema, batch_size, cols: Self::empty_columns() }
    }

    /// The number of buffered rows.
    pub fn len(&self) -> (n: usize)
        requires
            self.wf(),
        ensures
            n == self.rows().len(),
    {
        self.cols.event_type.len()
    }

    /// Whether no row is buffered.
    pub fn is_empty(&self) -> (b: bool)
        requires
            self.wf(),
        ensures
            b == (self.rows().len() == 0),
    {
        self.len() == 0
    }

    /// Turns the buffered rows into a batch; the buffer is empty afterwards,
    /// whatever Arrow answered.
    fn finish_batch(&mut self) -> (r: Result<TraceBatch, NormalizerError>)
        requires
            old(self).wf(),
        ensures
            final(self).wf(),
            final(self).rows().len() == 0,
            final(self).schema() == old(self).schema(),
            final(self).batch_size() == old(self).batch_size(),
            old(self).schema() == schema_of(trace_fields()) ==> r is Ok,
            r matches Ok(b) ==> batch_rows(b) == old(self).rows(),
    {
        proof {
            lemma_name_bytes_agree(self.cols.name@, self.rows());
        }
        let mut cols = Self::empty_columns();
        std::mem::swap(&mut cols, &mut self.cols);
        assert(rows_name_bytes(self.rows()) == 0);
        match record_batch_from_columns(&self.schema, cols) {
            Ok(b) => Ok(b),
            Err(e) => Err(NormalizerError::Arrow(e)),
        }
    }

    /// Buffers one row; once `batch_size` rows are buffered they are turned
    /// into a batch and the buffer is emptied.
    pub fn append(
        &mut self,
        timestamp_ns: i64,
        event_type: u8,
        pid: u32,
        tid: u32,
        stack_id: u32,
        aux_u64: Option<u64>,
        aux_i64: Option<i64>,
        aux_u32: Option<u32>,
        name: Option<&str>,
    ) -> (r: Result<Option<TraceBatch>, NormalizerError>)
        requires
            old(self).wf(),
            rows_name_bytes(old(self).rows()) + name_bytes(name_view(name)) <= MAX_NAME_COLUMN_BYTES,
        ensures
            final(self).wf(),
            final(self).schema() == old(self).schema(),
            final(self).batch_size() == old(self).batch_size(),
            ({
                let row: TraceRow = (timestamp_ns, event_type, pid, tid, stack_id, aux_u64, aux_i64, aux_u32,
                    name_view(name));
                let all = old(self).rows().push(row);
                if all.len() >= old(self).batch_size() {
                    &&& final(self).rows().len() == 0
                    &&& !(r matches Ok(None))
                    &&& old(self).schema() == schema_of(trace_fields()) ==> r is Ok
                    &&& r matches Ok(Some(b)) ==> batch_rows(b) == all
                } else {
                    final(self).rows() == all && r matches Ok(None)
                }
            }),
    {
        let ghost old_rows = self.rows();
        self.cols.timestamp_ns.push(timestamp_ns);
        self.cols.event_type.push(event_type);
        self.cols.pid.push(pid);
        self.cols.tid.push(tid);
        self.cols.stack_id.push(stack_id);
        self.cols.aux_u64.push(aux_u64);
        self.cols.aux_i64.push(aux_i64);
        self.cols.aux_u32.push(aux_u32);
        let owned = match name {
            Some(s) => Some(String::from_str(s)),
            None => None,
        };
        self.cols.name.push(owned);
        let ghost row: TraceRow = (timestamp_ns, event_type, pid, tid, stack_id, aux_u64, aux_i64, aux_u32,
            name_view(name));
        assert(self.rows() =~= old_rows.push(row));
        assert(self.rows().drop_last() =~= old_rows);
        if self.cols.event_type.len() >= self.batch_size {
            match self.finish_batch() {
                Ok(b) => Ok(Some(b)),
                Err(e) => Err(e),
            }
        } else {
            Ok(None)
        }
    }

    /// Turns any buffered rows into a batch; `None` when no row is buffered.
    pub fn flush(&mut self) -> (r: Result<Option<TraceBatch>, NormalizerError>)
        requires
            old(self).wf(),
        ensures
            final(self).wf(),
            final(self).rows().len() == 0,
            final(self).schema() == old(self).schema(),
            final(self).batch_size() == old(self).batch_size(),
            old(self).rows().len() == 0 <==> r matches Ok(None),
            old(self).rows().len() > 0 && old(self).schema() == schema_of(trace_fields()) ==> r matches Ok(Some(_)),
            r matches Ok(Some(b)) ==> batch_rows(b) == old(self).rows(),
    {
        if self.cols.event_type.len() == 0 {
            return Ok(None);
        }
        match self.finish_batch() {
            Ok(b) => Ok(Some(b)),
            Err(e) => Err(e),
        }
    }
}

} // verus!

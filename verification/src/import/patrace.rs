//! Re-emitting the tables of a Process Analyzer container (.patrace) as events.
//!
//! A container table arrives as a batch of typed columns (see [`ColumnBatch`]);
//! each table kind has a fixed column layout that is checked before its rows are
//! turned into [`TraceEvent`]s.

use vstd::prelude::*;

use crate::text::{decimal, u64_to_decimal};
use crate::trace_event::{
    CpuSampleEvent, ProcessInfoEvent, SchedulingEvent, SchedulingEventType, StackEntryEvent,
    ThreadInfoEvent, TraceEvent,
};

verus! {

/// The tables a container holds.
#[derive(Debug, Clone, Copy, PartialEq, Eq, Structural)]
pub enum TableKind {
    CpuSamples,
    Scheduling,
    Processes,
    Threads,
    Stacks,
    Frames,
    DiskIo,
    FileIo,
    Memory,
    Network,
}

/// The element type of a column.
#[derive(Debug, Clone, Copy, PartialEq, Eq, Structural)]
pub enum ColumnType {
    Int64,
    UInt32,
    UInt64,
    UInt8,
    Int32,
    Utf8,
    Other,
}

/// The values of a column (the slot value is kept for null rows too).
#[derive(Debug, Clone)]
pub enum ColumnValues {
    Int64(Vec<i64>),
    UInt32(Vec<u32>),
    UInt64(Vec<u64>),
    UInt8(Vec<u8>),
    Int32(Vec<i32>),
    Utf8(Vec<String>),
    /// A column of a type the decoder does not read.
    Other,
}

/// A column: its values and, per row, whether the row is null.
#[derive(Debug, Clone)]
pub struct Column {
    pub values: ColumnValues,
    pub nulls: Vec<bool>,
}

/// A record batch: `num_rows` rows of typed columns.
#[derive(Debug, Clone)]
pub struct ColumnBatch {
    pub num_rows: usize,
    pub columns: Vec<Column>,
}

impl Column {
    pub open spec fn ty(&self) -> ColumnType {
        match self.values {
            ColumnValues::Int64(_) => ColumnType::Int64,
            ColumnValues::UInt32(_) => ColumnType::UInt32,
            ColumnValues::UInt64(_) => ColumnType::UInt64,
            ColumnValues::UInt8(_) => ColumnType::UInt8,
            ColumnValues::Int32(_) => ColumnType::Int32,
            ColumnValues::Utf8(_) => ColumnType::Utf8,
            ColumnValues::Other => ColumnType::Other,
        }
    }

    /// Every row has a null flag and, for a typed column, a value.
    pub open spec fn has_rows(&self, n: nat) -> bool {
        &&& self.nulls@.len() == n
        &&& match self.values {
            ColumnValues::Int64(v) => v@.len() == n,
            ColumnValues::UInt32(v) => v@.len() == n,
            ColumnValues::UInt64(v) => v@.len() == n,
            ColumnValues::UInt8(v) => v@.len() == n,
            ColumnValues::Int32(v) => v@.len() == n,
            ColumnValues::Utf8(v) => v@.len() == n,
            ColumnValues::Other => true,
        }
    }

    pub fn column_type(&self) -> (t: ColumnType)
        ensures
            t == self.ty(),
    {
        match &self.values {
            ColumnValues::Int64(_) => ColumnType::Int64,
            ColumnValues::UInt32(_) => ColumnType::UInt32,
            ColumnValues::UInt64(_) => ColumnType::UInt64,
            ColumnValues::UInt8(_) => ColumnType::UInt8,
            ColumnValues::Int32(_) => ColumnType::Int32,
            ColumnValues::Utf8(_) => ColumnType::Utf8,
            ColumnValues::Other => ColumnType::Other,
        }
    }
}

impl ColumnBatch {
    /// All columns have `num_rows` rows.
    pub open spec fn wf(&self) -> bool {
        forall|c: int| 0 <= c < self.columns@.len() ==> #[trigger] self.columns@[c].has_rows(
            self.num_rows as nat,
        )
    }
}

pub open spec fn i64_at(c: Column, i: int) -> i64 {
    match c.values {
        ColumnValues::Int64(v) => v@[i],
        _ => 0,
    }
}

pub open spec fn u32_at(c: Column, i: int) -> u32 {
    match c.values {
        ColumnValues::UInt32(v) => v@[i],
        _ => 0,
    }
}

pub open spec fn u64_at(c: Column, i: int) -> u64 {
    match c.values {
        ColumnValues::UInt64(v) => v@[i],
        _ => 0,
    }
}

pub open spec fn u8_at(c: Column, i: int) -> u8 {
    match c.values {
        ColumnValues::UInt8(v) => v@[i],
        _ => 0,
    }
}

pub open spec fn i32_at(c: Column, i: int) -> i32 {
    match c.values {
        ColumnValues::Int32(v) => v@[i],
        _ => 0,
    }
}

pub open spec fn str_at(c: Column, i: int) -> Seq<char> {
    match c.values {
        ColumnValues::Utf8(v) => v@[i]@,
        _ => Seq::empty(),
    }
}

/// A value, or `None` when the row is null.
pub open spec fn nullable<T>(c: Column, i: int, v: T) -> Option<T> {
    if c.nulls@[i] {
        None
    } else {
        Some(v)
    }
}

/// The column layout of each decoded table, in column order.
pub open spec fn expected_types(kind: TableKind) -> Seq<ColumnType> {
    match kind {
        TableKind::CpuSamples => seq![
            ColumnType::Int64,
            ColumnType::UInt32,
            ColumnType::UInt32,
            ColumnType::UInt32,
            ColumnType::UInt64,
            ColumnType::UInt64,
        ],
        TableKind::Scheduling => seq![
            ColumnType::Int64,
            ColumnType::UInt32,
            ColumnType::UInt32,
            ColumnType::UInt32,
            ColumnType::UInt8,
            ColumnType::UInt8,
            ColumnType::UInt32,
            ColumnType::UInt32,
            ColumnType::UInt64,
        ],
        TableKind::Processes => seq![
            ColumnType::UInt32,
            ColumnType::UInt32,
            ColumnType::Utf8,
            ColumnType::Utf8,
            ColumnType::Int64,
            ColumnType::Int64,
            ColumnType::Int32,
        ],
        TableKind::Threads => seq![
            ColumnType::UInt32,
            ColumnType::UInt32,
            ColumnType::Utf8,
            ColumnType::Int64,
            ColumnType::Int64,
        ],
        TableKind::Stacks => seq![ColumnType::UInt64, ColumnType::UInt32, ColumnType::UInt64],
        _ => Seq::empty(),
    }
}

/// The outcome of checking the column layout in order.
pub enum ColumnCheck {
    Valid,
    /// Column `i` has the wrong type.
    Mismatch(nat),
    /// The batch has too few columns (reading the missing one would fail).
    Missing,
}

/// Check the columns of `cols` against `exp` from index `i` on, stopping at the
/// first one that is wrong.
pub open spec fn check_columns(cols: Seq<Column>, exp: Seq<ColumnType>, i: nat) -> ColumnCheck
    decreases exp.len() - i,
{
    if i >= exp.len() {
        ColumnCheck::Valid
    } else if i >= cols.len() {
        ColumnCheck::Missing
    } else if cols[i as int].ty() != exp[i as int] {
        ColumnCheck::Mismatch(i)
    } else {
        check_columns(cols, exp, i + 1)
    }
}

/// The name of a column type in error messages.
pub open spec fn column_type_text(t: ColumnType) -> Seq<char> {
    match t {
        ColumnType::Int64 => "Int64"@,
        ColumnType::UInt32 => "UInt32"@,
        ColumnType::UInt64 => "UInt64"@,
        ColumnType::UInt8 => "UInt8"@,
        ColumnType::Int32 => "Int32"@,
        ColumnType::Utf8 => "Utf8"@,
        ColumnType::Other => "Other"@,
    }
}

fn column_type_label(t: ColumnType) -> (s: &'static str)
    ensures
        s@ == column_type_text(t),
{
    match t {
        ColumnType::Int64 => "Int64",
        ColumnType::UInt32 => "UInt32",
        ColumnType::UInt64 => "UInt64",
        ColumnType::UInt8 => "UInt8",
        ColumnType::Int32 => "Int32",
        ColumnType::Utf8 => "Utf8",
        ColumnType::Other => "Other",
    }
}

fn expected_types_of(kind: TableKind) -> (v: Vec<ColumnType>)
    ensures
        v@ == expected_types(kind),
{
    let v = match kind {
        TableKind::CpuSamples => vec![
            ColumnType::Int64,
            ColumnType::UInt32,
            ColumnType::UInt32,
            ColumnType::UInt32,
            ColumnType::UInt64,
            ColumnType::UInt64,
        ],
        TableKind::Scheduling => vec![
            ColumnType::Int64,
            ColumnType::UInt32,
            ColumnType::UInt32,
            ColumnType::UInt32,
            ColumnType::UInt8,
            ColumnType::UInt8,
            ColumnType::UInt32,
            ColumnType::UInt32,
            ColumnType::UInt64,
        ],
        TableKind::Processes => vec![
            ColumnType::UInt32,
            ColumnType::UInt32,
            ColumnType::Utf8,
            ColumnType::Utf8,
            ColumnType::Int64,
            ColumnType::Int64,
            ColumnType::Int32,
        ],
        TableKind::Threads => vec![
            ColumnType::UInt32,
            ColumnType::UInt32,
            ColumnType::Utf8,
            ColumnType::Int64,
            ColumnType::Int64,
        ],
        TableKind::Stacks => vec![ColumnType::UInt64, ColumnType::UInt32, ColumnType::UInt64],
        _ => Vec::new(),
    };
    assert(v@ =~= expected_types(kind));
    v
}

/// Whether the batch has too few columns for the table's layout, before any
/// column of the wrong type: decoding such a batch would read past its last
/// column.
pub fn columns_missing(kind: TableKind, batch: &ColumnBatch) -> (b: bool)
    ensures
        b == (check_columns(batch.columns@, expected_types(kind), 0) is Missing),
{
    let exp = expected_types_of(kind);
    let mut i: usize = 0;
    while i < exp.len()
        invariant
            exp@ == expected_types(kind),
            0 <= i <= exp@.len(),
            check_columns(batch.columns@, exp@, 0) == check_columns(batch.columns@, exp@, i as nat),
        decreases exp@.len() - i,
    {
        if i >= batch.columns.len() {
            return true;
        }
        if batch.columns[i].column_type() != exp[i] {
            return false;
        }
        i = i + 1;
    }
    false
}

/// The message for column `i` not having type `t`.
pub open spec fn mismatch_message(i: nat, t: ColumnType) -> Seq<char> {
    "column "@ + decimal(i) + " not "@ + column_type_text(t)
}

/// Check the layout; `Err` names the first column of the wrong type.
fn check_layout(kind: TableKind, batch: &ColumnBatch) -> (r: Result<(), String>)
    requires
        !(check_columns(batch.columns@, expected_types(kind), 0) is Missing),
    ensures
        match check_columns(batch.columns@, expected_types(kind), 0) {
            ColumnCheck::Mismatch(i) => r matches Err(m) && m@ == mismatch_message(
                i,
                expected_types(kind)[i as int],
            ),
            _ => r is Ok,
        },
{
    let exp = expected_types_of(kind);
    let mut i: usize = 0;
    while i < exp.len()
        invariant
            exp@ == expected_types(kind),
            i <= exp@.len(),
            check_columns(batch.columns@, exp@, i as nat) == check_columns(
                batch.columns@,
                exp@,
                0,
            ),
            !(check_columns(batch.columns@, exp@, 0) is Missing),
        decreases exp@.len() - i,
    {
        assert(i < batch.columns@.len());
        if batch.columns[i].column_type() != exp[i] {
            let mut m = String::from_str("column ");
            let n = u64_to_decimal(i as u64);
            m.append(n.as_str());
            m.append(" not ");
            m.append(column_type_label(exp[i]));
            return Err(m);
        }
        i = i + 1;
    }
    Ok(())
}

/// Whether event `e` is row `i` of a table of `kind` in `b`.
pub open spec fn row_event(kind: TableKind, b: ColumnBatch, i: int, e: TraceEvent) -> bool {
    let c = b.columns@;
    match kind {
        TableKind::CpuSamples => e matches TraceEvent::CpuSample(x) && x.timestamp_ns == i64_at(
            c[0],
            i,
        ) && x.process_id == u32_at(c[1], i) && x.thread_id == u32_at(c[2], i) && x.cpu_id
            == u32_at(c[3], i) && x.sample_weight == u64_at(c[4], i) && x.stack_id == nullable(
            c[5],
            i,
            u64_at(c[5], i),
        ),
        TableKind::Scheduling => e matches TraceEvent::Scheduling(x) && x.timestamp_ns == i64_at(
            c[0],
            i,
        ) && x.process_id == u32_at(c[1], i) && x.thread_id == u32_at(c[2], i) && x.cpu_id
            == u32_at(c[3], i) && x.event_type == sched_type(u8_at(c[4], i)) && x.prev_state
            == nullable(c[5], i, u8_at(c[5], i)) && x.next_process_id == nullable(
            c[6],
            i,
            u32_at(c[6], i),
        ) && x.next_thread_id == nullable(c[7], i, u32_at(c[7], i)) && x.duration_ns == nullable(
            c[8],
            i,
            u64_at(c[8], i),
        ),
        TableKind::Processes => e matches TraceEvent::Process(x) && x.process_id == u32_at(c[0], i)
            && x.parent_process_id == nullable(c[1], i, u32_at(c[1], i)) && x.name@ == str_at(
            c[2],
            i,
        ) && (if c[3].nulls@[i] {
            x.cmdline is None
        } else {
            x.cmdline matches Some(s) && s@ == str_at(c[3], i)
        }) && x.start_time_ns == i64_at(c[4], i) && x.exit_time_ns == nullable(
            c[5],
            i,
            i64_at(c[5], i),
        ) && x.exit_code == nullable(c[6], i, i32_at(c[6], i)),
        TableKind::Threads => e matches TraceEvent::Thread(x) && x.thread_id == u32_at(c[0], i)
            && x.process_id == u32_at(c[1], i) && (if c[2].nulls@[i] {
            x.name is None
        } else {
            x.name matches Some(s) && s@ == str_at(c[2], i)
        }) && x.start_time_ns == i64_at(c[3], i) && x.exit_time_ns == nullable(
            c[4],
            i,
            i64_at(c[4], i),
        ),
        TableKind::Stacks => e matches TraceEvent::StackEntry(x) && x.stack_id == u64_at(c[0], i)
            && x.depth == u32_at(c[1], i) && x.frame_id == u64_at(c[2], i),
        _ => false,
    }
}

/// The scheduling event type stored as `u8` (unknown codes read as a switch in).
pub open spec fn sched_type(code: u8) -> SchedulingEventType {
    if code == 0 {
        SchedulingEventType::ContextSwitchOut
    } else if code == 1 {
        SchedulingEventType::ContextSwitchIn
    } else if code == 2 {
        SchedulingEventType::Wakeup
    } else if code == 3 {
        SchedulingEventType::Migration
    } else {
        SchedulingEventType::ContextSwitchIn
    }
}

/// Whether rows of `kind` are decoded (the remaining domains emit nothing yet).
pub open spec fn decoded_kind(kind: TableKind) -> bool {
    expected_types(kind).len() > 0
}

/// The typed accessors a decoding loop needs: column `j` has the expected type
/// and `num_rows` rows.
pub open spec fn layout_ok(kind: TableKind, b: ColumnBatch) -> bool {
    &&& b.wf()
    &&& b.columns@.len() >= expected_types(kind).len()
    &&& forall|j: int|
        0 <= j < expected_types(kind).len() ==> #[trigger] b.columns@[j].ty()
            == expected_types(kind)[j]
}

proof fn lemma_valid_layout(kind: TableKind, b: ColumnBatch, i: nat)
    requires
        b.wf(),
        i <= expected_types(kind).len(),
        check_columns(b.columns@, expected_types(kind), i) is Valid,
        forall|j: int| 0 <= j < i ==> #[trigger] b.columns@[j].ty() == expected_types(kind)[j],
        i <= b.columns@.len(),
    ensures
        layout_ok(kind, b),
    decreases expected_types(kind).len() - i,
{
    if i < expected_types(kind).len() {
        lemma_valid_layout(kind, b, i + 1);
    }
}

fn get_i64(c: &Column, i: usize) -> (v: i64)
    requires
        c.ty() == ColumnType::Int64,
        c.has_rows(c.nulls@.len()),
        i < c.nulls@.len(),
    ensures
        v == i64_at(*c, i as int),
{
    match &c.values {
        ColumnValues::Int64(v) => v[i],
        _ => 0,
    }
}

fn get_u32(c: &Column, i: usize) -> (v: u32)
    requires
        c.ty() == ColumnType::UInt32,
        c.has_rows(c.nulls@.len()),
        i < c.nulls@.len(),
    ensures
        v == u32_at(*c, i as int),
{
    match &c.values {
        ColumnValues::UInt32(v) => v[i],
        _ => 0,
    }
}

fn get_u64(c: &Column, i: usize) -> (v: u64)
    requires
        c.ty() == ColumnType::UInt64,
        c.has_rows(c.nulls@.len()),
        i < c.nulls@.len(),
    ensures
        v == u64_at(*c, i as int),
{
    match &c.values {
        ColumnValues::UInt64(v) => v[i],
        _ => 0,
    }
}

fn get_u8(c: &Column, i: usize) -> (v: u8)
    requires
        c.ty() == ColumnType::UInt8,
        c.has_rows(c.nulls@.len()),
        i < c.nulls@.len(),
    ensures
        v == u8_at(*c, i as int),
{
    match &c.values {
        ColumnValues::UInt8(v) => v[i],
        _ => 0,
    }
}

fn get_i32(c: &Column, i: usize) -> (v: i32)
    requires
        c.ty() == ColumnType::Int32,
        c.has_rows(c.nulls@.len()),
        i < c.nulls@.len(),
    ensures
        v == i32_at(*c, i as int),
{
    match &c.values {
        ColumnValues::Int32(v) => v[i],
        _ => 0,
    }
}

fn get_str(c: &Column, i: usize) -> (v: String)
    requires
        c.ty() == ColumnType::Utf8,
        c.has_rows(c.nulls@.len()),
        i < c.nulls@.len(),
    ensures
        v@ == str_at(*c, i as int),
{
    match &c.values {
        ColumnValues::Utf8(v) => v[i].clone(),
        _ => String::new(),
    }
}

fn sched_type_of(code: u8) -> (t: SchedulingEventType)
    ensures
        t == sched_type(code),
{
    match code {
        0 => SchedulingEventType::ContextSwitchOut,
        1 => SchedulingEventType::ContextSwitchIn,
        2 => SchedulingEventType::Wakeup,
        3 => SchedulingEventType::Migration,
        _ => SchedulingEventType::ContextSwitchIn,
    }
}

proof fn lemma_column_rows(b: ColumnBatch, j: int)
    requires
        b.wf(),
        0 <= j < b.columns@.len(),
    ensures
        b.columns@[j].has_rows(b.num_rows as nat),
        b.columns@[j].nulls@.len() == b.num_rows,
{
    assert(b.columns@[j].has_rows(b.num_rows as nat));
}

fn decode_row(kind: TableKind, b: &ColumnBatch, i: usize) -> (e: TraceEvent)
    requires
        layout_ok(kind, *b),
        decoded_kind(kind),
        i < b.num_rows,
    ensures
        row_event(kind, *b, i as int, e),
{
    let c = &b.columns;
    let n = b.num_rows;
    proof {
        let len = expected_types(kind).len();
        if 0 < len {
            lemma_column_rows(*b, 0);
        }
        if 1 < len {
            lemma_column_rows(*b, 1);
        }
        if 2 < len {
            lemma_column_rows(*b, 2);
        }
        if 3 < len {
            lemma_column_rows(*b, 3);
        }
        if 4 < len {
            lemma_column_rows(*b, 4);
        }
        if 5 < len {
            lemma_column_rows(*b, 5);
        }
        if 6 < len {
            lemma_column_rows(*b, 6);
        }
        if 7 < len {
            lemma_column_rows(*b, 7);
        }
        if 8 < len {
            lemma_column_rows(*b, 8);
        }
        assert forall|j: int| 0 <= j < len implies #[trigger] c@[j].ty() == expected_types(
            kind,
        )[j] by {}
    }
    match kind {
        TableKind::CpuSamples => {
            let sid = if c[5].nulls[i] {
                None
            } else {
                Some(get_u64(&c[5], i))
            };
            TraceEvent::CpuSample(
                CpuSampleEvent {
                    timestamp_ns: get_i64(&c[0], i),
                    process_id: get_u32(&c[1], i),
                    thread_id: get_u32(&c[2], i),
                    cpu_id: get_u32(&c[3], i),
                    sample_weight: get_u64(&c[4], i),
                    stack_id: sid,
                },
            )
        },
        TableKind::Scheduling => {
            let prev_state = if c[5].nulls[i] {
                None
            } else {
                Some(get_u8(&c[5], i))
            };
            let next_process_id = if c[6].nulls[i] {
                None
            } else {
                Some(get_u32(&c[6], i))
            };
            let next_thread_id = if c[7].nulls[i] {
                None
            } else {
                Some(get_u32(&c[7], i))
            };
            let duration_ns = if c[8].nulls[i] {
                None
            } else {
                Some(get_u64(&c[8], i))
            };
            TraceEvent::Scheduling(
                SchedulingEvent {
                    timestamp_ns: get_i64(&c[0], i),
                    process_id: get_u32(&c[1], i),
                    thread_id: get_u32(&c[2], i),
                    cpu_id: get_u32(&c[3], i),
                    event_type: sched_type_of(get_u8(&c[4], i)),
                    prev_state,
                    next_process_id,
                    next_thread_id,
                    duration_ns,
                },
            )
        },
        TableKind::Processes => {
            let parent_process_id = if c[1].nulls[i] {
                None
            } else {
                Some(get_u32(&c[1], i))
            };
            let cmdline = if c[3].nulls[i] {
                None
            } else {
                Some(get_str(&c[3], i))
            };
            let exit_time_ns = if c[5].nulls[i] {
                None
            } else {
                Some(get_i64(&c[5], i))
            };
            let exit_code = if c[6].nulls[i] {
                None
            } else {
                Some(get_i32(&c[6], i))
            };
            TraceEvent::Process(
                ProcessInfoEvent {
                    process_id: get_u32(&c[0], i),
                    parent_process_id,
                    name: get_str(&c[2], i),
                    cmdline,
                    start_time_ns: get_i64(&c[4], i),
                    exit_time_ns,
                    exit_code,
                },
            )
        },
        TableKind::Threads => {
            let name = if c[2].nulls[i] {
                None
            } else {
                Some(get_str(&c[2], i))
            };
            let exit_time_ns = if c[4].nulls[i] {
                None
            } else {
                Some(get_i64(&c[4], i))
            };
            TraceEvent::Thread(
                ThreadInfoEvent {
                    thread_id: get_u32(&c[0], i),
                    process_id: get_u32(&c[1], i),
                    name,
                    start_time_ns: get_i64(&c[3], i),
                    exit_time_ns,
                },
            )
        },
        _ => {
            TraceEvent::StackEntry(
                StackEntryEvent {
                    stack_id: get_u64(&c[0], i),
                    depth: get_u32(&c[1], i),
                    frame_id: get_u64(&c[2], i),
                },
            )
        },
    }
}

/// Turn a batch of a container table into events, one per row. A column of the
/// wrong type is an error naming it; tables without a decoder yield no events.
pub fn decode_batch(kind: TableKind, batch: &ColumnBatch) -> (r: Result<Vec<TraceEvent>, String>)
    requires
        batch.wf(),
        !(check_columns(batch.columns@, expected_types(kind), 0) is Missing),
    ensures
        match check_columns(batch.columns@, expected_types(kind), 0) {
            ColumnCheck::Mismatch(i) => r matches Err(m) && m@ == mismatch_message(
                i,
                expected_types(kind)[i as int],
            ),
            _ => r matches Ok(v) && v@.len() == (if decoded_kind(kind) {
                batch.num_rows as nat
            } else {
                0
            }) && forall|i: int| 0 <= i < v@.len() ==> row_event(kind, *batch, i, #[trigger] v@[i]),
        },
{
    match check_layout(kind, batch) {
        Err(m) => return Err(m),
        Ok(()) => {},
    }
    let mut out: Vec<TraceEvent> = Vec::new();
    if !matches!(kind, TableKind::CpuSamples | TableKind::Scheduling | TableKind::Processes | TableKind::Threads | TableKind::Stacks) {
        return Ok(out);
    }
    proof {
        lemma_valid_layout(kind, *batch, 0);
    }
    let n = batch.num_rows;
    let mut i: usize = 0;
    while i < n
        invariant
            layout_ok(kind, *batch),
            decoded_kind(kind),
            n == batch.num_rows,
            i <= n,
            out@.len() == i,
            forall|j: int| 0 <= j < i ==> row_event(kind, *batch, j, #[trigger] out@[j]),
        decreases n - i,
    {
        let e = decode_row(kind, batch, i);
        out.push(e);
        i = i + 1;
    }
    Ok(out)
}

/// Law: a decoded scheduling row carries the switch direction stored in its
/// `event_type` column: code 0 is a switch out, 1 a switch in, 2 a wakeup and
/// 3 a migration; any other code reads as a switch in.
pub proof fn law_scheduling_codes(b: ColumnBatch, i: int, e: TraceEvent)
    requires
        row_event(TableKind::Scheduling, b, i, e),
    ensures
        e matches TraceEvent::Scheduling(x) && ({
            let code = u8_at(b.columns@[4], i);
            &&& code == 0 ==> x.event_type == SchedulingEventType::ContextSwitchOut
            &&& code == 1 ==> x.event_type == SchedulingEventType::ContextSwitchIn
            &&& code == 2 ==> x.event_type == SchedulingEventType::Wakeup
            &&& code == 3 ==> x.event_type == SchedulingEventType::Migration
            &&& code > 3 ==> x.event_type == SchedulingEventType::ContextSwitchIn
        }),
{
}

} // verus!

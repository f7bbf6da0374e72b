use arrow_array::cast::AsArray;
use arrow_array::types::{TimestampNanosecondType, UInt32Type};
use arrow_array::Array;
use process_analyzer::normalizer::batch::{trace_field_specs, trace_schema, BatchBuilder, TraceColumnType};

#[test]
fn schema_has_the_nine_trace_columns() {
    let schema = trace_schema();
    let names: Vec<&str> = schema.fields().iter().map(|f| f.name().as_str()).collect();
    assert_eq!(names, vec!["timestamp_ns", "event_type", "pid", "tid", "stack_id", "aux_u64", "aux_i64", "aux_u32", "name"]);
    assert!(!schema.field(0).is_nullable());
    assert!(schema.field(8).is_nullable());
    let specs = trace_field_specs();
    assert_eq!(specs[0].data_type, TraceColumnType::TimestampNs);
    assert_eq!(specs[8].data_type, TraceColumnType::Utf8);
}

#[test]
fn builder_emits_full_batches() {
    let mut b = BatchBuilder::new(trace_schema(), 2);
    assert!(b.is_empty());
    assert!(b.append(1, 5, 10, 11, 0, None, None, None, None).unwrap().is_none());
    assert_eq!(b.len(), 1);
    let batch = b.append(2, 5, 10, 11, 0, Some(4096), Some(-1), Some(3), Some("x")).unwrap().expect("full batch");
    assert_eq!(batch.batch.num_rows(), 2);
    assert_eq!(batch.batch.num_columns(), 9);
    assert!(b.is_empty());
    let name_col = batch.batch.column(8);
    assert!(name_col.is_null(0));
    assert!(!name_col.is_null(1));
}

#[test]
fn flush_emits_the_remainder_once() {
    let mut b = BatchBuilder::new(trace_schema(), 0);
    assert!(b.flush().unwrap().is_none());
    let mut b = BatchBuilder::new(trace_schema(), 10);
    b.append(1, 1, 1, 1, 0, None, None, None, Some("p")).unwrap();
    b.append(2, 2, 1, 1, 0, None, None, None, None).unwrap();
    let batch = b.flush().unwrap().expect("rows buffered");
    assert_eq!(batch.batch.num_rows(), 2);
    assert!(b.flush().unwrap().is_none());
}

#[test]
fn zero_batch_size_means_one_row_per_batch() {
    let mut b = BatchBuilder::new(trace_schema(), 0);
    let batch = b.append(1, 1, 1, 1, 0, None, None, None, None).unwrap().expect("batch of one");
    assert_eq!(batch.batch.num_rows(), 1);
}

#[test]
fn emitted_batch_holds_the_buffered_rows() {
    let mut b = BatchBuilder::new(trace_schema(), 3);
    b.append(10, 5, 1, 2, 7, None, None, None, Some("a")).unwrap();
    b.append(20, 6, 3, 4, 0, None, None, Some(9), None).unwrap();
    let batch = b.flush().unwrap().expect("rows buffered").batch;
    let ts = batch.column(0).as_primitive::<TimestampNanosecondType>();
    assert_eq!(ts.values().to_vec(), vec![10, 20]);
    let pid = batch.column(2).as_primitive::<UInt32Type>();
    assert_eq!(pid.values().to_vec(), vec![1, 3]);
    let aux = batch.column(7).as_primitive::<UInt32Type>();
    assert!(aux.is_null(0));
    assert_eq!(aux.value(1), 9);
    assert_eq!(batch.column(8).as_string::<i32>().value(0), "a");
}

use arrow_array::{Int32Array, RecordBatch, RecordBatchOptions};
use arrow_schema::{DataType, Field, Schema};
use databricks_adbc::result::batch::{all_batches_conform, conforms, field_types};
use databricks_adbc::result::{Batch, ResultSet};
use std::sync::Arc;

fn schema_of(types: Vec<DataType>) -> Arc<Schema> {
    Arc::new(Schema::new(
        types
            .into_iter()
            .enumerate()
            .map(|(i, t)| Field::new(format!("c{i}"), t, true))
            .collect::<Vec<_>>(),
    ))
}

fn batch(values: Vec<i32>) -> Batch {
    Batch {
        record: RecordBatch::try_new(
            schema_of(vec![DataType::Int32]),
            vec![Arc::new(Int32Array::from(values))],
        )
        .unwrap(),
    }
}

fn rows_only(rows: usize) -> Batch {
    Batch {
        record: RecordBatch::try_new_with_options(
            Arc::new(Schema::empty()),
            vec![],
            &RecordBatchOptions::new().with_row_count(Some(rows)),
        )
        .unwrap(),
    }
}

#[test]
fn test_empty_result_set() {
    let mut rs = ResultSet::empty();
    assert!(rs.schema().is_none());
    assert_eq!(rs.batch_count(), 0);
    assert_eq!(rs.row_count(), 0);
    assert!(rs.next_batch().unwrap().is_none());
}

#[test]
fn test_result_set_close() {
    let mut rs = ResultSet::empty();
    assert!(rs.close().is_ok());
}

#[test]
fn result_set_gives_its_batches_in_order() {
    let mut rs = ResultSet::new(
        schema_of(vec![DataType::Int32]),
        vec![batch(vec![1, 2, 3]), batch(vec![]), batch(vec![4, 5])],
    );
    assert!(rs.schema().is_some());
    assert_eq!(rs.batch_count(), 3);
    assert_eq!(rs.row_count(), 5);
    assert_eq!(rs.next_batch().unwrap().unwrap().record.num_rows(), 3);
    assert_eq!(rs.next_batch().unwrap().unwrap().record.num_rows(), 0);
    assert_eq!(rs.next_batch().unwrap().unwrap().record.num_rows(), 2);
    assert!(rs.next_batch().unwrap().is_none());
    assert!(rs.next_batch().unwrap().is_none());
    rs.reset();
    assert_eq!(rs.next_batch().unwrap().unwrap().record.num_rows(), 3);
    assert_eq!(rs.batch_count(), 3);
    assert!(rs.close().is_ok());
    assert_eq!(rs.batch_count(), 0);
    assert_eq!(rs.row_count(), 0);
    assert!(rs.next_batch().unwrap().is_none());
    assert!(rs.schema().is_some());
    assert!(rs.close().is_ok());
    assert_eq!(rs.batch_count(), 0);
}

#[test]
fn row_count_stops_at_the_largest_number() {
    let rs = ResultSet::new(
        Arc::new(Schema::empty()),
        vec![rows_only(usize::MAX - 1), rows_only(5), rows_only(1)],
    );
    assert_eq!(rs.row_count(), usize::MAX);
    let rs = ResultSet::new(
        Arc::new(Schema::empty()),
        vec![rows_only(usize::MAX - 6), rows_only(5), rows_only(1)],
    );
    assert_eq!(rs.row_count(), usize::MAX);
    let rs = ResultSet::new(
        Arc::new(Schema::empty()),
        vec![rows_only(usize::MAX - 7), rows_only(5), rows_only(1)],
    );
    assert_eq!(rs.row_count(), usize::MAX - 1);
}

#[test]
fn default_result_set_is_empty() {
    let rs = ResultSet::default();
    assert_eq!(rs.batch_count(), 0);
    assert!(rs.schema().is_none());
}

#[test]
fn field_types_are_named_as_arrow_displays_them() {
    let schema = schema_of(vec![
        DataType::Int32,
        DataType::Utf8,
        DataType::List(Arc::new(Field::new_list_field(DataType::Int64, true))),
    ]);
    assert_eq!(field_types(&schema), vec!["Int32", "Utf8", "List(Int64)"]);
    assert_eq!(field_types(&Schema::empty()), Vec::<String>::new());
}

#[test]
fn batch_conforms_where_count_and_types_match() {
    let int32 = vec!["Int32".to_string()];
    assert!(conforms(&batch(vec![1]), &int32));
    assert!(!conforms(&batch(vec![1]), &vec!["Int64".to_string()]));
    assert!(!conforms(&batch(vec![1]), &vec![]));
    assert!(!conforms(
        &batch(vec![1]),
        &vec!["Int32".to_string(), "Int32".to_string()]
    ));
    assert!(conforms(&rows_only(3), &vec![]));
    assert!(!conforms(&rows_only(3), &int32));
    assert!(all_batches_conform(&vec![], &int32));
    assert!(all_batches_conform(&vec![batch(vec![1]), batch(vec![])], &int32));
    assert!(!all_batches_conform(
        &vec![batch(vec![1]), rows_only(1), batch(vec![2])],
        &int32
    ));
}

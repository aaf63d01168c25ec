use arrow_array::{Int32Array, RecordBatch, StringArray};
use arrow_schema::{DataType, Field, Schema};
use databricks_adbc::error::Stage;
use databricks_adbc::reader::cloudfetch::{
    CloudFetchConfig, CloudFetchLink, CloudFetchReader, FetchAction, FetchOutcome, StreamEvent,
};
use databricks_adbc::reader::{ChunkState, Phase};
use databricks_adbc::result::Batch;
use databricks_adbc::Status;
use std::sync::Arc;

fn int_schema() -> Arc<Schema> {
    Arc::new(Schema::new(vec![Field::new("n", DataType::Int32, false)]))
}

fn batch(values: Vec<i32>) -> Batch {
    Batch {
        record: RecordBatch::try_new(int_schema(), vec![Arc::new(Int32Array::from(values))])
            .unwrap(),
    }
}

fn text_batch(values: Vec<&str>) -> Batch {
    let schema = Arc::new(Schema::new(vec![Field::new("n", DataType::Utf8, false)]));
    Batch {
        record: RecordBatch::try_new(schema, vec![Arc::new(StringArray::from(values))]).unwrap(),
    }
}

fn first_value(batch: &Batch) -> i32 {
    batch
        .record
        .column(0)
        .as_any()
        .downcast_ref::<Int32Array>()
        .unwrap()
        .value(0)
}

fn link(index: u64, size: u64) -> CloudFetchLink {
    CloudFetchLink {
        url: format!("https://store.example/chunk/{index}"),
        offset: index * size,
        size,
        sequence_index: index,
        row_count: 1,
        expires_at: None,
    }
}

fn links(count: u64, size: u64) -> Vec<CloudFetchLink> {
    (0..count).map(|i| link(i, size)).collect()
}

fn config(parallel_downloads: usize, prefetch_count: usize, max_buffer_size: usize) -> CloudFetchConfig {
    CloudFetchConfig {
        parallel_downloads,
        prefetch_count,
        max_buffer_size,
    }
}

fn body(size: u64, batches: Vec<Batch>) -> FetchOutcome {
    FetchOutcome::Body {
        byte_count: size,
        batches,
        decoded_bytes: size,
    }
}

fn fetch_position(action: Option<FetchAction>) -> usize {
    match action {
        Some(FetchAction::Fetch { position, .. }) => position,
        other => panic!("expected a fetch, got {other:?}"),
    }
}

#[test]
fn test_cloudfetch_config_default() {
    let config = CloudFetchConfig::default();
    assert_eq!(config.parallel_downloads, 3);
    assert_eq!(config.prefetch_count, 2);
    assert_eq!(config.max_buffer_size, 200 * 1024 * 1024);
}

#[test]
fn test_cloudfetch_reader_empty_links_returns_none() {
    let mut reader = CloudFetchReader::new(CloudFetchConfig::default(), vec![]);
    assert_eq!(reader.link_count(), 0);
    // When there are no links, next_batch should return Ok(None) immediately
    assert!(reader.next_batch().unwrap().is_none());
}

#[test]
fn empty_link_list_ends_at_once_without_a_fetch() {
    let mut reader = CloudFetchReader::new(CloudFetchConfig::default(), vec![]);
    assert!(reader.is_finished());
    assert!(reader.start_next(0).is_none());
    assert_eq!(reader.in_flight(), 0);
    assert_eq!(reader.buffered_bytes(), 0);
    assert!(reader.next_batch().unwrap().is_none());
    assert!(reader.is_finished());
    assert_eq!(reader.phase(), Phase::Open);
}

#[test]
fn five_chunks_two_downloads_one_prefetch_come_in_order() {
    let mut reader = CloudFetchReader::new(config(2, 1, 1 << 20), links(5, 10));
    let mut active: Vec<usize> = Vec::new();
    let mut most_active = 0;
    let mut started = 0;
    let mut delivered: Vec<i32> = Vec::new();
    let mut rounds = 0;
    while !reader.is_finished() {
        rounds += 1;
        assert!(rounds < 100);
        while let Some(action) = reader.start_next(0) {
            active.push(fetch_position(Some(action)));
            started += 1;
        }
        most_active = most_active.max(active.len());
        assert_eq!(reader.in_flight(), active.len());
        assert!(reader.in_flight() <= 2);
        // the fetch that started last completes first
        if let Some(position) = active.pop() {
            let action = reader.on_outcome(position, body(10, vec![batch(vec![position as i32])]), 0);
            assert!(action.is_none());
        }
        while let Some(batch) = reader.next_batch().unwrap() {
            assert_eq!(batch.record.num_rows(), 1);
            delivered.push(first_value(&batch));
        }
    }
    assert_eq!(delivered, vec![0, 1, 2, 3, 4]);
    assert_eq!(started, 5);
    assert_eq!(most_active, 2);
    assert!(reader.next_batch().unwrap().is_none());
}

#[test]
fn later_chunk_is_held_until_the_earlier_is_there() {
    let mut reader = CloudFetchReader::new(config(3, 2, 1 << 20), links(3, 4));
    assert_eq!(fetch_position(reader.start_next(0)), 0);
    assert_eq!(fetch_position(reader.start_next(0)), 1);
    assert_eq!(fetch_position(reader.start_next(0)), 2);
    assert!(reader.start_next(0).is_none());
    reader.on_outcome(2, body(4, vec![batch(vec![2])]), 0);
    reader.on_outcome(1, body(4, vec![batch(vec![1])]), 0);
    assert!(reader.next_batch().unwrap().is_none());
    assert!(!reader.is_finished());
    assert_eq!(reader.next_position(), 0);
    assert_eq!(reader.in_flight(), 1);
    assert_eq!(reader.buffered_bytes(), 12);
    reader.on_outcome(0, body(4, vec![batch(vec![0])]), 0);
    assert_eq!(first_value(&reader.next_batch().unwrap().unwrap()), 0);
    assert_eq!(reader.buffered_bytes(), 8);
    assert_eq!(first_value(&reader.next_batch().unwrap().unwrap()), 1);
    assert_eq!(first_value(&reader.next_batch().unwrap().unwrap()), 2);
    assert!(reader.next_batch().unwrap().is_none());
    assert!(reader.is_finished());
    assert_eq!(reader.buffered_bytes(), 0);
}

#[test]
fn chunk_two_fails_all_retries_after_chunks_zero_and_one() {
    let mut reader = CloudFetchReader::new(config(3, 2, 1 << 20), links(5, 8));
    for expected in 0..3 {
        assert_eq!(fetch_position(reader.start_next(0)), expected);
    }
    // chunk 2 fails before the chunks in front of it are there
    match reader.on_outcome(2, FetchOutcome::Network, 0) {
        Some(FetchAction::Fetch {
            position, delay_ms, ..
        }) => {
            assert_eq!(position, 2);
            assert_eq!(delay_ms, 100);
        }
        other => panic!("expected a retry, got {other:?}"),
    }
    match reader.on_outcome(2, FetchOutcome::Http { status: 503 }, 0) {
        Some(FetchAction::Fetch {
            position, delay_ms, ..
        }) => {
            assert_eq!(position, 2);
            assert_eq!(delay_ms, 200);
        }
        other => panic!("expected a retry, got {other:?}"),
    }
    assert!(reader.on_outcome(2, FetchOutcome::Network, 0).is_none());
    assert!(reader.start_next(0).is_none());
    reader.on_outcome(1, body(8, vec![batch(vec![1])]), 0);
    assert!(reader.next_batch().unwrap().is_none());
    reader.on_outcome(0, body(8, vec![batch(vec![0])]), 0);
    assert_eq!(first_value(&reader.next_batch().unwrap().unwrap()), 0);
    assert_eq!(first_value(&reader.next_batch().unwrap().unwrap()), 1);
    for _ in 0..3 {
        let error = reader.next_batch().unwrap_err();
        assert_eq!(error.status(), Status::Transient);
        assert_eq!(error.stage(), Some(Stage::Fetch));
        assert_eq!(error.chunk(), Some(2));
        assert_eq!(error.message_text(), "chunk fetch failed on every attempt");
    }
    assert!(reader.start_next(0).is_none());
    assert!(!reader.is_finished());
    assert_eq!(reader.in_flight(), 0);
}

#[test]
fn unauthorized_once_refreshes_the_credential_once() {
    let mut reader = CloudFetchReader::new(config(1, 0, 1 << 20), links(1, 5));
    let mut credential_refreshes = 0;
    let mut fetches = 0;
    let mut action = reader.start_next(0);
    let mut answers = vec![
        FetchOutcome::Http { status: 401 },
        body(5, vec![batch(vec![42])]),
    ]
    .into_iter();
    while let Some(step) = action {
        action = match step {
            FetchAction::Fetch {
                position, delay_ms, ..
            } => {
                fetches += 1;
                assert_eq!(delay_ms, 0);
                reader.on_outcome(position, answers.next().unwrap(), 0)
            }
            FetchAction::RefreshCredential { position } => {
                credential_refreshes += 1;
                reader.on_credential_refreshed(position)
            }
            FetchAction::RefreshLinks { .. } => panic!("no link refresh expected"),
        };
    }
    assert_eq!(credential_refreshes, 1);
    assert_eq!(fetches, 2);
    assert_eq!(first_value(&reader.next_batch().unwrap().unwrap()), 42);
    assert!(reader.next_batch().unwrap().is_none());
    assert!(reader.is_finished());
}

#[test]
fn unauthorized_twice_is_an_auth_failure() {
    let mut reader = CloudFetchReader::new(config(1, 0, 1 << 20), links(1, 5));
    assert_eq!(fetch_position(reader.start_next(0)), 0);
    assert!(matches!(
        reader.on_outcome(0, FetchOutcome::Http { status: 401 }, 0),
        Some(FetchAction::RefreshCredential { position: 0 })
    ));
    // a second report of a fresh credential is ignored once the fetch runs
    assert_eq!(fetch_position(reader.on_credential_refreshed(0)), 0);
    assert!(reader.on_credential_refreshed(0).is_none());
    assert!(reader
        .on_outcome(0, FetchOutcome::Http { status: 401 }, 0)
        .is_none());
    let error = reader.next_batch().unwrap_err();
    assert_eq!(error.status(), Status::AuthFailure);
    assert_eq!(
        error.message_text(),
        "credential rejected after it was refreshed"
    );
    assert_eq!(error.chunk(), Some(0));
}

#[test]
fn credential_that_cannot_be_refreshed_fails_the_chunk() {
    let mut reader = CloudFetchReader::new(config(1, 0, 1 << 20), links(2, 5));
    reader.start_next(0);
    reader.on_outcome(0, FetchOutcome::Http { status: 401 }, 0);
    reader.on_credential_failed(0);
    let error = reader.next_batch().unwrap_err();
    assert_eq!(error.status(), Status::AuthFailure);
    assert_eq!(error.message_text(), "no fresh credential could be had");
}

#[test]
fn forbidden_and_other_statuses_are_not_retried() {
    for (status, expected, message) in [
        (403u16, Status::AuthFailure, "access to the chunk was denied"),
        (404, Status::Unknown, "chunk fetch was refused"),
        (400, Status::Unknown, "chunk fetch was refused"),
        (301, Status::Unknown, "chunk fetch was refused"),
        (600, Status::Unknown, "chunk fetch was refused"),
    ] {
        let mut reader = CloudFetchReader::new(config(1, 0, 1 << 20), links(1, 5));
        reader.start_next(0);
        assert!(reader
            .on_outcome(0, FetchOutcome::Http { status }, 0)
            .is_none());
        let error = reader.next_batch().unwrap_err();
        assert_eq!(error.status(), expected);
        assert_eq!(error.message_text(), message);
        assert_eq!(error.stage(), Some(Stage::Fetch));
    }
}

#[test]
fn server_errors_are_retried_up_to_the_ceiling() {
    for status in [500u16, 502, 599] {
        let mut reader =
            CloudFetchReader::with_policy(config(1, 0, 1 << 20), links(1, 5), 5, None);
        reader.start_next(0);
        let mut delays = Vec::new();
        while let Some(FetchAction::Fetch { delay_ms, .. }) =
            reader.on_outcome(0, FetchOutcome::Http { status }, 0)
        {
            delays.push(delay_ms);
        }
        assert_eq!(delays, vec![100, 200, 400, 800]);
        assert_eq!(reader.next_batch().unwrap_err().status(), Status::Transient);
    }
}

#[test]
fn retry_delay_stops_at_the_cap() {
    let mut reader = CloudFetchReader::with_policy(config(1, 0, 1 << 20), links(1, 5), 12, None);
    reader.start_next(0);
    let mut delays = Vec::new();
    while let Some(FetchAction::Fetch { delay_ms, .. }) =
        reader.on_outcome(0, FetchOutcome::Network, 0)
    {
        delays.push(delay_ms);
    }
    assert_eq!(
        delays,
        vec![100, 200, 400, 800, 1600, 3200, 6400, 10_000, 10_000, 10_000, 10_000]
    );
}

#[test]
fn a_single_attempt_means_no_retry() {
    let mut reader = CloudFetchReader::with_policy(config(1, 0, 1 << 20), links(1, 5), 1, None);
    reader.start_next(0);
    assert!(reader.on_outcome(0, FetchOutcome::Network, 0).is_none());
    assert_eq!(reader.next_batch().unwrap_err().status(), Status::Transient);
}

#[test]
fn expired_link_is_refreshed_once_and_not_for_each_retry() {
    let mut list = links(1, 5);
    list[0].expires_at = Some(1_000);
    let mut reader = CloudFetchReader::with_policy(config(1, 0, 1 << 20), list, 4, None);
    let mut link_refreshes = 0;
    let mut fetched_from = Vec::new();
    let mut action = reader.start_next(2_000);
    // the fresh link has expired as well: it is used as it is
    let fresh = vec![
        CloudFetchLink {
            url: "https://store.example/other".to_string(),
            offset: 0,
            size: 5,
            sequence_index: 7,
            row_count: 1,
            expires_at: None,
        },
        CloudFetchLink {
            url: "https://store.example/fresh/0".to_string(),
            offset: 0,
            size: 5,
            sequence_index: 0,
            row_count: 1,
            expires_at: Some(1_500),
        },
    ];
    while let Some(step) = action {
        action = match step {
            FetchAction::RefreshLinks { position } => {
                link_refreshes += 1;
                reader.on_links_refreshed(position, &fresh)
            }
            FetchAction::Fetch { position, link, .. } => {
                fetched_from.push(link.url);
                reader.on_outcome(position, FetchOutcome::Network, 3_000)
            }
            FetchAction::RefreshCredential { .. } => panic!("no credential refresh expected"),
        };
    }
    assert_eq!(link_refreshes, 1);
    assert_eq!(fetched_from.len(), 4);
    assert!(fetched_from
        .iter()
        .all(|url| url == "https://store.example/fresh/0"));
    assert_eq!(reader.next_batch().unwrap_err().status(), Status::Transient);
}

#[test]
fn link_that_expires_between_attempts_is_refreshed_before_the_retry() {
    let mut list = links(1, 5);
    list[0].expires_at = Some(1_000);
    let mut reader = CloudFetchReader::new(config(1, 0, 1 << 20), list);
    // valid at the instant of expiry itself
    assert_eq!(fetch_position(reader.start_next(1_000)), 0);
    assert!(matches!(
        reader.on_outcome(0, FetchOutcome::Network, 1_001),
        Some(FetchAction::RefreshLinks { position: 0 })
    ));
    // an outcome for a chunk that waits for a link changes nothing
    assert!(reader.on_outcome(0, FetchOutcome::Network, 1_001).is_none());
    let fresh = vec![link(0, 5)];
    match reader.on_links_refreshed(0, &fresh) {
        Some(FetchAction::Fetch {
            position,
            link,
            delay_ms,
        }) => {
            assert_eq!(position, 0);
            assert_eq!(link.url, "https://store.example/chunk/0");
            assert_eq!(link.expires_at, None);
            assert_eq!(delay_ms, 0);
        }
        other => panic!("expected a fetch, got {other:?}"),
    }
    reader.on_outcome(0, body(5, vec![batch(vec![9])]), 1_002);
    assert_eq!(first_value(&reader.next_batch().unwrap().unwrap()), 9);
}

#[test]
fn refresh_without_a_link_for_the_chunk_fails_it() {
    let mut list = links(2, 5);
    list[1].expires_at = Some(10);
    let mut reader = CloudFetchReader::new(config(2, 1, 1 << 20), list);
    assert_eq!(fetch_position(reader.start_next(50)), 0);
    assert!(matches!(
        reader.start_next(50),
        Some(FetchAction::RefreshLinks { position: 1 })
    ));
    let fresh = vec![link(0, 5), link(2, 5)];
    assert!(reader.on_links_refreshed(1, &fresh).is_none());
    reader.on_outcome(0, body(5, vec![batch(vec![0])]), 50);
    assert_eq!(first_value(&reader.next_batch().unwrap().unwrap()), 0);
    let error = reader.next_batch().unwrap_err();
    assert_eq!(error.status(), Status::DataIntegrity);
    assert_eq!(
        error.message_text(),
        "the refreshed links hold none for the chunk"
    );
    assert_eq!(error.chunk(), Some(1));
}

#[test]
fn failed_refresh_fails_the_chunk_with_the_given_error() {
    let mut list = links(1, 5);
    list[0].expires_at = Some(10);
    let mut reader = CloudFetchReader::new(config(1, 0, 1 << 20), list);
    reader.start_next(11);
    reader.on_refresh_failed(
        0,
        databricks_adbc::DatabricksErrorHelper::io().message("warehouse unreachable"),
    );
    let error = reader.next_batch().unwrap_err();
    assert_eq!(error.status(), Status::Transient);
    assert_eq!(error.message_text(), "warehouse unreachable");
}

#[test]
fn short_chunk_is_a_data_integrity_failure() {
    let mut reader = CloudFetchReader::new(config(1, 0, 1 << 20), links(1, 5));
    reader.start_next(0);
    assert!(reader
        .on_outcome(
            0,
            FetchOutcome::Body {
                byte_count: 4,
                batches: vec![batch(vec![1])],
                decoded_bytes: 4
            },
            0
        )
        .is_none());
    let error = reader.next_batch().unwrap_err();
    assert_eq!(error.status(), Status::DataIntegrity);
    assert_eq!(error.stage(), Some(Stage::Fetch));
    assert_eq!(
        error.message_text(),
        "chunk length differs from the length its link announces"
    );
}

#[test]
fn undecodable_chunk_is_a_data_integrity_failure() {
    let mut reader = CloudFetchReader::new(config(1, 0, 1 << 20), links(1, 5));
    reader.start_next(0);
    reader.on_outcome(0, FetchOutcome::Undecodable { byte_count: 5 }, 0);
    let error = reader.next_batch().unwrap_err();
    assert_eq!(error.status(), Status::DataIntegrity);
    assert_eq!(error.stage(), Some(Stage::Decode));
    assert_eq!(error.message_text(), "chunk is not a columnar stream");

    let mut reader = CloudFetchReader::new(config(1, 0, 1 << 20), links(1, 5));
    reader.start_next(0);
    reader.on_outcome(0, FetchOutcome::Undecodable { byte_count: 6 }, 0);
    let error = reader.next_batch().unwrap_err();
    assert_eq!(error.stage(), Some(Stage::Fetch));
}

#[test]
fn batch_of_another_schema_is_a_data_integrity_failure() {
    let mut reader =
        CloudFetchReader::with_policy(config(1, 0, 1 << 20), links(2, 5), 3, Some(int_schema()));
    assert!(reader.schema().is_some());
    reader.start_next(0);
    reader.on_outcome(0, body(5, vec![batch(vec![1]), batch(vec![2])]), 0);
    assert_eq!(first_value(&reader.next_batch().unwrap().unwrap()), 1);
    assert_eq!(first_value(&reader.next_batch().unwrap().unwrap()), 2);
    reader.start_next(0);
    reader.on_outcome(1, body(5, vec![batch(vec![3]), text_batch(vec!["x"])]), 0);
    let error = reader.next_batch().unwrap_err();
    assert_eq!(error.status(), Status::DataIntegrity);
    assert_eq!(error.stage(), Some(Stage::Decode));
    assert_eq!(error.chunk(), Some(1));
    assert_eq!(
        error.message_text(),
        "batch does not match the result schema"
    );
}

#[test]
fn reader_without_schema_takes_any_batch() {
    let mut reader = CloudFetchReader::new(config(1, 0, 1 << 20), links(1, 5));
    assert!(reader.schema().is_none());
    reader.start_next(0);
    reader.on_outcome(0, body(5, vec![text_batch(vec!["x"])]), 0);
    assert!(reader.next_batch().unwrap().is_some());
}

#[test]
fn memory_budget_holds_back_admission() {
    let mut reader = CloudFetchReader::new(config(4, 4, 10), links(3, 6));
    assert_eq!(fetch_position(reader.start_next(0)), 0);
    // 6 + 6 bytes are over the budget of 10
    assert!(reader.start_next(0).is_none());
    assert_eq!(reader.buffered_bytes(), 6);
    // after the decode the chunk takes 3 bytes, so that the next one fits
    reader.on_outcome(
        0,
        FetchOutcome::Body {
            byte_count: 6,
            batches: vec![batch(vec![0])],
            decoded_bytes: 3,
        },
        0,
    );
    assert_eq!(reader.buffered_bytes(), 3);
    assert_eq!(fetch_position(reader.start_next(0)), 1);
    assert_eq!(reader.buffered_bytes(), 9);
    assert!(reader.start_next(0).is_none());
    assert_eq!(first_value(&reader.next_batch().unwrap().unwrap()), 0);
    assert_eq!(reader.buffered_bytes(), 6);
    assert!(reader.start_next(0).is_none());
    // decoded larger than what is left of the budget
    reader.on_outcome(
        1,
        FetchOutcome::Body {
            byte_count: 6,
            batches: vec![batch(vec![1])],
            decoded_bytes: 11,
        },
        0,
    );
    let error = reader.next_batch().unwrap_err();
    assert_eq!(error.status(), Status::DataIntegrity);
    assert_eq!(
        error.message_text(),
        "decoded chunk does not fit the buffer budget"
    );
    assert_eq!(reader.buffered_bytes(), 0);
}

#[test]
fn chunk_larger_than_the_budget_fails_the_stream_at_it() {
    let mut list = links(3, 4);
    list[1].size = 50;
    let mut reader = CloudFetchReader::new(config(2, 2, 10), list);
    assert_eq!(fetch_position(reader.start_next(0)), 0);
    assert!(reader.start_next(0).is_none());
    reader.on_outcome(0, body(4, vec![batch(vec![0])]), 0);
    assert_eq!(first_value(&reader.next_batch().unwrap().unwrap()), 0);
    assert!(reader.next_batch().unwrap().is_none());
    assert!(reader.start_next(0).is_none());
    let error = reader.next_batch().unwrap_err();
    assert_eq!(error.status(), Status::InvalidArgument);
    assert_eq!(error.chunk(), Some(1));
    assert_eq!(
        error.message_text(),
        "the configuration admits no download of the chunk"
    );
}

#[test]
fn no_download_slot_fails_the_stream() {
    let mut reader = CloudFetchReader::new(config(0, 2, 100), links(2, 4));
    assert!(reader.start_next(0).is_none());
    assert_eq!(
        reader.next_batch().unwrap_err().status(),
        Status::InvalidArgument
    );
    assert_eq!(reader.in_flight(), 0);
}

#[test]
fn links_out_of_order_fail_the_first_pull() {
    for list in [
        vec![link(1, 4), link(0, 4)],
        vec![link(0, 4), link(0, 4)],
        vec![link(0, 4), link(2, 4), link(1, 4)],
    ] {
        let mut reader = CloudFetchReader::new(CloudFetchConfig::default(), list);
        assert!(reader.start_next(0).is_none());
        let error = reader.next_batch().unwrap_err();
        assert_eq!(error.status(), Status::InvalidArgument);
        assert_eq!(
            error.message_text(),
            "chunk links are not in ascending sequence order"
        );
        assert!(!reader.is_finished());
    }
}

#[test]
fn links_with_gaps_are_in_order() {
    let list = vec![link(3, 4), link(10, 4), link(11, 4)];
    let mut reader = CloudFetchReader::new(CloudFetchConfig::default(), list);
    assert_eq!(reader.link_count(), 3);
    match reader.start_next(0) {
        Some(FetchAction::Fetch { position, link, .. }) => {
            assert_eq!(position, 0);
            assert_eq!(link.sequence_index, 3);
        }
        other => panic!("expected a fetch, got {other:?}"),
    }
    reader.on_outcome(0, FetchOutcome::Http { status: 403 }, 0);
    assert_eq!(reader.next_batch().unwrap_err().chunk(), Some(3));
}

#[test]
fn cancelled_stream_gives_the_cancellation_error_and_starts_nothing() {
    let mut reader = CloudFetchReader::new(config(2, 2, 1 << 20), links(4, 4));
    reader.start_next(0);
    reader.start_next(0);
    reader.on_outcome(0, body(4, vec![batch(vec![0]), batch(vec![10])]), 0);
    assert_eq!(first_value(&reader.next_batch().unwrap().unwrap()), 0);
    reader.cancel();
    assert_eq!(reader.phase(), Phase::Cancelled);
    let error = reader.next_batch().unwrap_err();
    assert_eq!(error.status(), Status::Cancelled);
    assert_eq!(error.message_text(), "the result stream was cancelled");
    assert!(reader.start_next(0).is_none());
    assert!(reader.on_outcome(1, FetchOutcome::Network, 0).is_none());
    assert!(reader
        .on_outcome(1, body(4, vec![batch(vec![1])]), 0)
        .is_none());
    assert!(reader.on_credential_refreshed(1).is_none());
    assert!(reader.on_links_refreshed(1, &links(4, 4)).is_none());
    assert_eq!(reader.in_flight(), 0);
    assert_eq!(reader.buffered_bytes(), 0);
    assert_eq!(reader.next_batch().unwrap_err().status(), Status::Cancelled);
    assert!(!reader.is_finished());
    reader.cancel();
    assert_eq!(reader.phase(), Phase::Cancelled);
}

#[test]
fn closing_twice_is_closing_once() {
    let mut reader = CloudFetchReader::new(config(2, 2, 1 << 20), links(3, 4));
    reader.start_next(0);
    reader.on_outcome(0, body(4, vec![batch(vec![0])]), 0);
    assert!(reader.close().is_ok());
    assert_eq!(reader.phase(), Phase::Closed);
    assert!(reader.is_finished());
    assert!(reader.next_batch().unwrap().is_none());
    assert!(reader.start_next(0).is_none());
    assert_eq!(reader.buffered_bytes(), 0);
    assert!(reader.close().is_ok());
    assert_eq!(reader.phase(), Phase::Closed);
    assert!(reader.is_finished());
    assert!(reader.next_batch().unwrap().is_none());
    assert_eq!(reader.next_position(), 0);
    // closing from the failure path and after a cancellation
    let mut failed = CloudFetchReader::new(config(1, 0, 1 << 20), links(1, 4));
    failed.start_next(0);
    failed.on_outcome(0, FetchOutcome::Http { status: 404 }, 0);
    assert!(failed.next_batch().is_err());
    assert!(failed.close().is_ok());
    assert!(failed.close().is_ok());
    assert!(failed.next_batch().unwrap().is_none());
    let mut cancelled = CloudFetchReader::new(config(1, 0, 1 << 20), links(1, 4));
    cancelled.cancel();
    assert!(cancelled.close().is_ok());
    cancelled.cancel();
    assert_eq!(cancelled.phase(), Phase::Closed);
}

#[test]
fn chunk_without_batches_is_passed_over() {
    let mut reader = CloudFetchReader::new(config(3, 2, 1 << 20), links(3, 4));
    for _ in 0..3 {
        reader.start_next(0);
    }
    reader.on_outcome(0, body(4, vec![]), 0);
    reader.on_outcome(1, body(4, vec![]), 0);
    reader.on_outcome(2, body(4, vec![batch(vec![2]), batch(vec![20])]), 0);
    assert_eq!(first_value(&reader.next_batch().unwrap().unwrap()), 2);
    assert_eq!(reader.next_position(), 2);
    assert_eq!(first_value(&reader.next_batch().unwrap().unwrap()), 20);
    assert_eq!(reader.next_position(), 3);
    assert!(reader.next_batch().unwrap().is_none());
    assert!(reader.is_finished());
}

#[test]
fn outcome_for_a_chunk_outside_the_window_changes_nothing() {
    let mut reader = CloudFetchReader::new(config(1, 0, 1 << 20), links(2, 4));
    assert!(reader
        .on_outcome(0, body(4, vec![batch(vec![0])]), 0)
        .is_none());
    assert!(reader.on_outcome(7, FetchOutcome::Network, 0).is_none());
    reader.on_credential_failed(0);
    reader.on_refresh_failed(0, databricks_adbc::DatabricksErrorHelper::unknown());
    assert!(reader.next_batch().unwrap().is_none());
    assert_eq!(fetch_position(reader.start_next(0)), 0);
    reader.on_outcome(0, body(4, vec![batch(vec![0])]), 0);
    // a second outcome for a decoded chunk is ignored
    assert!(reader.on_outcome(0, FetchOutcome::Network, 0).is_none());
    assert_eq!(first_value(&reader.next_batch().unwrap().unwrap()), 0);
    // an outcome for a delivered chunk is ignored
    assert!(reader.on_outcome(0, FetchOutcome::Network, 0).is_none());
    assert_eq!(fetch_position(reader.start_next(0)), 1);
}

#[test]
fn events_can_be_handed_over_as_values() {
    let mut reader = CloudFetchReader::new(config(1, 1, 1 << 20), links(2, 4));
    let action = reader.handle(StreamEvent::StartNext { now: 0 });
    assert_eq!(fetch_position(action), 0);
    assert!(matches!(
        reader.handle(StreamEvent::Outcome {
            position: 0,
            outcome: FetchOutcome::Http { status: 401 },
            now: 0
        }),
        Some(FetchAction::RefreshCredential { position: 0 })
    ));
    assert_eq!(
        fetch_position(reader.handle(StreamEvent::CredentialRefreshed { position: 0 })),
        0
    );
    assert!(reader
        .handle(StreamEvent::Outcome {
            position: 0,
            outcome: body(4, vec![batch(vec![5])]),
            now: 0
        })
        .is_none());
    assert_eq!(first_value(&reader.next_batch().unwrap().unwrap()), 5);
    assert_eq!(reader.config().parallel_downloads, 1);
}

#[test]
fn prefetch_count_bounds_the_window() {
    let mut reader = CloudFetchReader::new(config(8, 2, 1 << 20), links(6, 4));
    for expected in 0..3 {
        assert_eq!(fetch_position(reader.start_next(0)), expected);
    }
    assert!(reader.start_next(0).is_none());
    assert_eq!(reader.in_flight(), 3);
    reader.on_outcome(1, body(4, vec![batch(vec![1])]), 0);
    reader.on_outcome(2, body(4, vec![batch(vec![2])]), 0);
    // two chunks are held ahead of chunk 0: nothing more is started
    assert!(reader.start_next(0).is_none());
    assert_eq!(reader.in_flight(), 1);
    reader.on_outcome(0, body(4, vec![batch(vec![0])]), 0);
    assert!(reader.start_next(0).is_none());
    assert_eq!(first_value(&reader.next_batch().unwrap().unwrap()), 0);
    assert_eq!(fetch_position(reader.start_next(0)), 3);
    assert!(reader.start_next(0).is_none());
}

#[test]
fn chunks_of_the_window_can_be_looked_at() {
    let mut reader = CloudFetchReader::new(config(2, 1, 1 << 20), links(3, 4));
    assert!(reader.chunk(0).is_none());
    reader.start_next(0);
    reader.start_next(0);
    let chunk = reader.chunk(0).unwrap();
    assert_eq!(chunk.state(), ChunkState::Fetching);
    assert_eq!(chunk.attempt_count(), 1);
    assert_eq!(chunk.link().sequence_index, 0);
    assert_eq!(chunk.bytes(), 4);
    assert_eq!(chunk.batch_count(), 0);
    assert!(reader.chunk(2).is_none());
    reader.on_outcome(1, FetchOutcome::Http { status: 401 }, 0);
    assert_eq!(reader.chunk(1).unwrap().state(), ChunkState::AwaitingCredential);
    reader.on_outcome(0, FetchOutcome::Network, 0);
    assert_eq!(reader.chunk(0).unwrap().attempt_count(), 2);
    reader.on_outcome(
        0,
        FetchOutcome::Body {
            byte_count: 4,
            batches: vec![batch(vec![0]), batch(vec![1])],
            decoded_bytes: 9,
        },
        0,
    );
    let chunk = reader.chunk(0).unwrap();
    assert_eq!(chunk.state(), ChunkState::Decoded);
    assert_eq!(chunk.batch_count(), 2);
    assert_eq!(chunk.bytes(), 9);
    reader.next_batch().unwrap();
    assert_eq!(reader.chunk(0).unwrap().batch_count(), 1);
    reader.next_batch().unwrap();
    assert!(reader.chunk(0).is_none());
    reader.on_credential_failed(1);
    assert_eq!(reader.chunk(1).unwrap().state(), ChunkState::Failed);
    assert_eq!(reader.chunk(1).unwrap().bytes(), 0);
    reader.cancel();
    assert!(reader.chunk(1).is_none());
}

use arrow_array::{Int32Array, RecordBatch};
use arrow_schema::{DataType, Field, Schema};
use databricks_adbc::error::Stage;
use databricks_adbc::options::{OptionStatement, OptionValue};
use databricks_adbc::reader::cloudfetch::{
    CloudFetchConfig, CloudFetchLink, FetchAction, FetchOutcome, StreamEvent,
};
use databricks_adbc::reader::retry::{backoff_ms, classify_status, is_expired, FailureClass};
use databricks_adbc::result::Batch;
use databricks_adbc::statement::{
    Endpoint, PollResponse, QueryStatus, StatementAction, StatementState,
};
use databricks_adbc::{DatabricksErrorHelper, Statement, Status};
use std::sync::Arc;

fn endpoint() -> Endpoint {
    Endpoint {
        uri: "https://example.databricks.com".to_string(),
        http_path: "/sql/1.0/warehouses/abc123".to_string(),
        access_token: "dapi".to_string(),
    }
}

fn attached() -> Statement {
    Statement::with_endpoint(
        Some(endpoint()),
        CloudFetchConfig {
            parallel_downloads: 2,
            prefetch_count: 1,
            max_buffer_size: 1 << 20,
        },
    )
}

fn schema() -> Arc<Schema> {
    Arc::new(Schema::new(vec![Field::new("n", DataType::Int32, false)]))
}

fn batch(value: i32) -> Batch {
    Batch {
        record: RecordBatch::try_new(schema(), vec![Arc::new(Int32Array::from(vec![value]))])
            .unwrap(),
    }
}

fn link(index: u64) -> CloudFetchLink {
    CloudFetchLink {
        url: format!("https://store.example/{index}"),
        offset: index * 4,
        size: 4,
        sequence_index: index,
        row_count: 1,
        expires_at: None,
    }
}

fn ticket_of(actions: &[StatementAction]) -> u64 {
    match actions.last() {
        Some(StatementAction::Submit { ticket, .. }) => *ticket,
        other => panic!("expected a submission, got {other:?}"),
    }
}

fn polling(query_id: &str) -> Statement {
    let mut statement = attached();
    statement.set_sql_query("SELECT 1").unwrap();
    let ticket = ticket_of(&statement.execute().unwrap());
    statement.on_submitted(ticket, query_id.to_string());
    statement
}

fn succeeded(links: u64) -> Statement {
    let mut statement = polling("q");
    statement.on_poll(
        "q",
        PollResponse::Succeeded {
            schema: schema(),
            links: (0..links).map(link).collect(),
        },
        0,
    );
    statement
}

#[test]
fn test_statement_set_query() {
    let mut stmt = Statement::new();
    stmt.set_sql_query("SELECT 1").unwrap();
    assert_eq!(stmt.sql_query(), Some("SELECT 1"));
}

#[test]
fn test_statement_execute() {
    let mut stmt = Statement::new();
    stmt.set_sql_query("SELECT 1").unwrap();
    // Should fail: a statement that belongs to no connection cannot execute
    let result = stmt.execute();
    assert!(result.is_err());
}

#[test]
fn new_statement_is_idle() {
    let statement = Statement::new();
    assert_eq!(statement.state(), StatementState::Idle);
    assert_eq!(statement.sql_query(), None);
    assert!(statement.handle().is_none());
    assert!(statement.failure().is_none());
    assert!(statement.endpoint().is_none());
    assert!(statement.result_schema().is_none());
    assert!(!statement.is_finished());
}

#[test]
fn execute_needs_an_endpoint_and_a_query() {
    let mut detached = Statement::new();
    detached.set_sql_query("SELECT 1").unwrap();
    let error = detached.execute().unwrap_err();
    assert_eq!(error.status(), Status::InvalidArgument);
    assert_eq!(
        error.message_text(),
        "the statement has no endpoint to submit to"
    );
    assert_eq!(detached.state(), StatementState::Prepared);
    let mut statement = attached();
    let error = statement.execute().unwrap_err();
    assert_eq!(error.status(), Status::InvalidArgument);
    assert_eq!(error.message_text(), "the statement has no SQL query");
    assert_eq!(statement.state(), StatementState::Idle);
}

#[test]
fn statement_runs_from_submission_to_result() {
    let mut statement = attached();
    statement.set_sql_query("SELECT 42").unwrap();
    assert_eq!(statement.state(), StatementState::Prepared);
    let actions = statement.execute().unwrap();
    assert_eq!(actions.len(), 1);
    assert!(
        matches!(&actions[0], StatementAction::Submit { sql, ticket } if sql == "SELECT 42" && *ticket == 1)
    );
    assert_eq!(statement.state(), StatementState::Submitted);
    assert!(statement.handle().is_none());

    match statement.on_submitted(1, "query-1".to_string()) {
        Some(StatementAction::Poll { query_id, wait_ms }) => {
            assert_eq!(query_id, "query-1");
            assert_eq!(wait_ms, 0);
        }
        other => panic!("expected a poll, got {other:?}"),
    }
    assert_eq!(statement.state(), StatementState::Polling);
    assert_eq!(statement.handle().unwrap().query_id(), "query-1");
    assert_eq!(statement.handle().unwrap().status(), QueryStatus::Pending);
    assert!(statement.handle().unwrap().result_schema().is_none());

    // entropy 0 gives half the interval, the largest entropy all of it
    let mut waits = Vec::new();
    for (response, entropy) in [
        (PollResponse::Pending, 0u64),
        (PollResponse::Running, 0),
        (PollResponse::Running, 1_000),
        (PollResponse::Running, 7),
        (PollResponse::Running, 0),
        (PollResponse::Running, 5_000),
        (PollResponse::Running, 0),
    ] {
        match statement.on_poll("query-1", response, entropy) {
            Some(StatementAction::Poll { query_id, wait_ms }) => {
                assert_eq!(query_id, "query-1");
                waits.push(wait_ms);
            }
            other => panic!("expected a poll, got {other:?}"),
        }
        assert_eq!(statement.state(), StatementState::Polling);
    }
    assert_eq!(waits, vec![250, 500, 1_000 + 1_000, 2_000 + 7, 4_000, 10_000, 5_000]);
    assert_eq!(statement.handle().unwrap().status(), QueryStatus::Running);
    assert!(statement.result_schema().is_none());
    assert_eq!(
        statement.next_batch().unwrap_err().status(),
        Status::InvalidArgument
    );

    // a response for another query changes nothing
    assert!(statement
        .on_poll("query-0", PollResponse::Cancelled, 0)
        .is_none());
    assert_eq!(statement.state(), StatementState::Polling);
    assert!(statement
        .on_poll(
            "query-1",
            PollResponse::Succeeded {
                schema: schema(),
                links: vec![link(0), link(1)],
            },
            0
        )
        .is_none());
    assert_eq!(statement.state(), StatementState::Succeeded);
    assert_eq!(statement.handle().unwrap().status(), QueryStatus::Succeeded);
    // the schema is there before any batch is pulled
    assert_eq!(statement.result_schema().unwrap().fields().len(), 1);
    assert!(statement.next_batch().unwrap().is_none());
    assert!(!statement.is_finished());

    let mut started = Vec::new();
    while let Some(FetchAction::Fetch { position, .. }) =
        statement.on_stream_event(StreamEvent::StartNext { now: 0 })
    {
        started.push(position);
    }
    assert_eq!(started, vec![0, 1]);
    for position in [1usize, 0] {
        statement.on_stream_event(StreamEvent::Outcome {
            position,
            outcome: FetchOutcome::Body {
                byte_count: 4,
                batches: vec![batch(position as i32)],
                decoded_bytes: 4,
            },
            now: 0,
        });
    }
    assert_eq!(statement.next_batch().unwrap().unwrap().record.num_rows(), 1);
    assert!(statement.next_batch().unwrap().is_some());
    assert!(statement.next_batch().unwrap().is_none());
    assert!(statement.is_finished());
    assert_eq!(statement.state(), StatementState::Succeeded);
}

#[test]
fn failed_query_carries_the_message_of_the_warehouse() {
    let mut statement = polling("q");
    assert!(statement
        .on_poll(
            "q",
            PollResponse::Failed {
                message: "TABLE_OR_VIEW_NOT_FOUND: t".to_string()
            },
            0
        )
        .is_none());
    assert_eq!(statement.state(), StatementState::Failed);
    assert_eq!(statement.handle().unwrap().status(), QueryStatus::Failed);
    let failure = statement.failure().unwrap();
    assert_eq!(failure.status(), Status::RemoteQueryFailed);
    assert_eq!(failure.message_text(), "TABLE_OR_VIEW_NOT_FOUND: t");
    assert_eq!(failure.stage(), Some(Stage::Poll));
    let error = statement.next_batch().unwrap_err();
    assert_eq!(error.status(), Status::RemoteQueryFailed);
    assert_eq!(error.message_text(), "TABLE_OR_VIEW_NOT_FOUND: t");
    // a failed statement can be given a new query
    statement.set_sql_query("SELECT 2").unwrap();
    assert_eq!(statement.state(), StatementState::Prepared);
    assert!(statement.failure().is_none());
    assert!(statement.handle().is_none());
}

#[test]
fn query_cancelled_at_the_warehouse_is_a_cancellation() {
    let mut statement = polling("q");
    assert!(statement.on_poll("q", PollResponse::Cancelled, 0).is_none());
    assert_eq!(statement.state(), StatementState::Cancelled);
    assert_eq!(statement.handle().unwrap().status(), QueryStatus::Cancelled);
    let error = statement.next_batch().unwrap_err();
    assert_eq!(error.status(), Status::Cancelled);
    assert_eq!(error.message_text(), "the query was cancelled");
}

#[test]
fn failed_poll_and_failed_submit_fail_the_statement() {
    let mut statement = polling("q");
    statement.on_poll_failed("p", DatabricksErrorHelper::io().message("connection reset"));
    assert_eq!(statement.state(), StatementState::Polling);
    statement.on_poll_failed("q", DatabricksErrorHelper::io().message("connection reset"));
    assert_eq!(statement.state(), StatementState::Failed);
    let failure = statement.failure().unwrap();
    assert_eq!(failure.status(), Status::Transient);
    assert_eq!(failure.message_text(), "connection reset");
    assert_eq!(failure.stage(), Some(Stage::Poll));
    // later responses change nothing
    assert!(statement.on_poll("q", PollResponse::Running, 0).is_none());
    assert_eq!(statement.state(), StatementState::Failed);

    let mut statement = attached();
    statement.set_sql_query("SELECT 1").unwrap();
    let ticket = ticket_of(&statement.execute().unwrap());
    statement.on_submit_failed(
        ticket + 1,
        DatabricksErrorHelper::auth_failure().message("bad token"),
    );
    assert_eq!(statement.state(), StatementState::Submitted);
    statement.on_submit_failed(
        ticket,
        DatabricksErrorHelper::auth_failure().message("bad token"),
    );
    assert_eq!(statement.state(), StatementState::Failed);
    let failure = statement.failure().unwrap();
    assert_eq!(failure.status(), Status::AuthFailure);
    assert_eq!(failure.stage(), Some(Stage::Submit));
    // a query that comes back for a statement that does not wait is cancelled
    assert!(matches!(
        statement.on_submitted(ticket, "late".to_string()),
        Some(StatementAction::Cancel { query_id }) if query_id == "late"
    ));
    assert_eq!(statement.state(), StatementState::Failed);
}

#[test]
fn cancel_during_polling_cancels_at_the_warehouse() {
    let mut statement = polling("query-9");
    match statement.cancel() {
        Some(StatementAction::Cancel { query_id }) => assert_eq!(query_id, "query-9"),
        other => panic!("expected a cancel, got {other:?}"),
    }
    assert_eq!(statement.state(), StatementState::Cancelled);
    assert_eq!(statement.failure().unwrap().status(), Status::Cancelled);
    // whatever the warehouse says afterwards, the statement stays cancelled
    assert!(statement
        .on_poll(
            "query-9",
            PollResponse::Succeeded {
                schema: schema(),
                links: vec![]
            },
            0
        )
        .is_none());
    assert_eq!(statement.state(), StatementState::Cancelled);
    assert!(statement.cancel().is_none());
    assert_eq!(statement.next_batch().unwrap_err().status(), Status::Cancelled);
}

#[test]
fn cancel_mid_stream_ends_the_stream_with_a_cancellation() {
    let mut statement = succeeded(3);
    let action = statement.on_stream_event(StreamEvent::StartNext { now: 0 });
    assert!(matches!(action, Some(FetchAction::Fetch { position: 0, .. })));
    statement.on_stream_event(StreamEvent::Outcome {
        position: 0,
        outcome: FetchOutcome::Body {
            byte_count: 4,
            batches: vec![batch(0), batch(1)],
            decoded_bytes: 4,
        },
        now: 0,
    });
    assert!(statement.next_batch().unwrap().is_some());
    // the query has finished: there is nothing to cancel at the warehouse
    assert!(statement.cancel().is_none());
    assert_eq!(statement.state(), StatementState::Cancelled);
    let error = statement.next_batch().unwrap_err();
    assert_eq!(error.status(), Status::Cancelled);
    assert!(statement
        .on_stream_event(StreamEvent::StartNext { now: 0 })
        .is_none());
    assert!(statement
        .on_stream_event(StreamEvent::Outcome {
            position: 1,
            outcome: FetchOutcome::Network,
            now: 0
        })
        .is_none());
    assert!(!statement.is_finished());
}

#[test]
fn cancel_during_submission_cancels_once_the_identifier_is_known() {
    let mut statement = attached();
    statement.set_sql_query("SELECT 1").unwrap();
    let first = ticket_of(&statement.execute().unwrap());
    assert!(statement.cancel().is_none());
    assert_eq!(statement.state(), StatementState::Cancelled);
    match statement.on_submitted(first, "orphan".to_string()) {
        Some(StatementAction::Cancel { query_id }) => assert_eq!(query_id, "orphan"),
        other => panic!("expected a cancel, got {other:?}"),
    }
    assert_eq!(statement.state(), StatementState::Cancelled);
    // a new submission gets a new ticket, and the old one is given up
    statement.set_sql_query("SELECT 2").unwrap();
    let second = ticket_of(&statement.execute().unwrap());
    assert_ne!(first, second);
    let third = ticket_of(&statement.execute().unwrap());
    assert_ne!(second, third);
    assert!(matches!(
        statement.on_submitted(second, "given-up".to_string()),
        Some(StatementAction::Cancel { query_id }) if query_id == "given-up"
    ));
    assert_eq!(statement.state(), StatementState::Submitted);
    assert!(matches!(
        statement.on_submitted(third, "kept".to_string()),
        Some(StatementAction::Poll { query_id, wait_ms: 0 }) if query_id == "kept"
    ));
    assert_eq!(statement.state(), StatementState::Polling);
}

#[test]
fn cancel_of_an_idle_statement_leaves_it_cancelled() {
    let mut statement = Statement::new();
    assert!(statement.cancel().is_none());
    assert_eq!(statement.state(), StatementState::Cancelled);
    assert_eq!(statement.next_batch().unwrap_err().status(), Status::Cancelled);
    statement.set_sql_query("SELECT 1").unwrap();
    assert_eq!(statement.state(), StatementState::Prepared);
}

#[test]
fn new_execution_cancels_the_query_that_is_polled() {
    let mut statement = polling("old");
    let actions = statement.execute().unwrap();
    assert_eq!(actions.len(), 2);
    assert!(matches!(&actions[0], StatementAction::Cancel { query_id } if query_id == "old"));
    assert!(matches!(&actions[1], StatementAction::Submit { sql, .. } if sql == "SELECT 1"));
    assert_eq!(statement.state(), StatementState::Submitted);
    assert!(statement.handle().is_none());
    // while the submission is under way, the query text cannot be changed
    let error = statement.set_sql_query("SELECT 3").unwrap_err();
    assert_eq!(error.status(), Status::InvalidArgument);
    assert_eq!(error.message_text(), "the statement is executing a query");
    assert_eq!(statement.sql_query(), Some("SELECT 1"));
    statement.on_submitted(ticket_of(&actions), "new".to_string());
    assert_eq!(statement.handle().unwrap().query_id(), "new");
    // what the query before says is no longer heard
    assert!(statement.on_poll("old", PollResponse::Cancelled, 0).is_none());
    assert_eq!(statement.state(), StatementState::Polling);
    let error = statement.set_sql_query("SELECT 3").unwrap_err();
    assert_eq!(error.message_text(), "the statement is executing a query");
}

#[test]
fn new_execution_lets_go_of_the_old_result() {
    let mut statement = succeeded(1);
    let actions = statement.execute().unwrap();
    assert_eq!(actions.len(), 1);
    assert_eq!(statement.state(), StatementState::Submitted);
    assert!(statement.result_schema().is_none());
    assert!(statement
        .on_stream_event(StreamEvent::StartNext { now: 0 })
        .is_none());
    assert_eq!(
        statement.next_batch().unwrap_err().status(),
        Status::InvalidArgument
    );
}

#[test]
fn close_returns_to_idle() {
    let mut statement = polling("q7");
    match statement.close() {
        Some(StatementAction::Cancel { query_id }) => assert_eq!(query_id, "q7"),
        other => panic!("expected a cancel, got {other:?}"),
    }
    assert_eq!(statement.state(), StatementState::Idle);
    assert_eq!(statement.sql_query(), None);
    assert!(statement.handle().is_none());
    assert!(statement.close().is_none());
    assert_eq!(statement.state(), StatementState::Idle);
    let mut statement = succeeded(2);
    assert!(statement.close().is_none());
    assert_eq!(statement.state(), StatementState::Idle);
    assert!(statement.result_schema().is_none());
    let error = statement.next_batch().unwrap_err();
    assert_eq!(error.status(), Status::InvalidArgument);
    assert_eq!(error.message_text(), "the statement has no result to read");
}

#[test]
fn timeout_cancels_the_query() {
    let mut statement = attached();
    statement.set_timeout_ms(Some(1_000));
    statement.set_sql_query("SELECT 1").unwrap();
    let ticket = ticket_of(&statement.execute().unwrap());
    statement.on_submitted(ticket, "slow".to_string());
    // waits of 500 and 1000 would be 1500 in all
    assert!(matches!(
        statement.on_poll("slow", PollResponse::Running, 250),
        Some(StatementAction::Poll { wait_ms: 500, .. })
    ));
    match statement.on_poll("slow", PollResponse::Running, 500) {
        Some(StatementAction::Cancel { query_id }) => assert_eq!(query_id, "slow"),
        other => panic!("expected a cancel, got {other:?}"),
    }
    assert_eq!(statement.state(), StatementState::Cancelled);
    let failure = statement.failure().unwrap();
    assert_eq!(failure.status(), Status::Cancelled);
    assert_eq!(
        failure.message_text(),
        "the query did not finish within the timeout"
    );
    assert_eq!(failure.stage(), Some(Stage::Poll));
    assert_eq!(statement.next_batch().unwrap_err().status(), Status::Cancelled);
}

#[test]
fn timeout_allows_waits_up_to_the_limit() {
    let mut statement = attached();
    statement.set_timeout_ms(Some(750));
    statement.set_sql_query("SELECT 1").unwrap();
    let ticket = ticket_of(&statement.execute().unwrap());
    statement.on_submitted(ticket, "q".to_string());
    assert!(matches!(
        statement.on_poll("q", PollResponse::Pending, 0),
        Some(StatementAction::Poll { wait_ms: 250, .. })
    ));
    // 250 + 500 is the limit itself
    assert!(matches!(
        statement.on_poll("q", PollResponse::Pending, 0),
        Some(StatementAction::Poll { wait_ms: 500, .. })
    ));
    assert!(matches!(
        statement.on_poll("q", PollResponse::Pending, 0),
        Some(StatementAction::Cancel { .. })
    ));
}

#[test]
fn deadline_cancels_the_stream() {
    let mut statement = succeeded(2);
    statement.set_deadline_ms(Some(1_000));
    assert!(matches!(
        statement.on_stream_event(StreamEvent::StartNext { now: 1_000 }),
        Some(FetchAction::Fetch { position: 0, .. })
    ));
    // events that tell no time pass
    assert!(statement
        .on_stream_event(StreamEvent::CredentialRefreshed { position: 0 })
        .is_none());
    assert_eq!(statement.state(), StatementState::Succeeded);
    assert!(statement
        .on_stream_event(StreamEvent::Outcome {
            position: 0,
            outcome: FetchOutcome::Body {
                byte_count: 4,
                batches: vec![batch(0)],
                decoded_bytes: 4
            },
            now: 1_001,
        })
        .is_none());
    assert_eq!(statement.state(), StatementState::Cancelled);
    let error = statement.next_batch().unwrap_err();
    assert_eq!(error.status(), Status::Cancelled);
    assert_eq!(
        error.message_text(),
        "the result was not read before the deadline"
    );
    assert_eq!(error.stage(), Some(Stage::Fetch));
    assert!(statement
        .on_stream_event(StreamEvent::StartNext { now: 0 })
        .is_none());
    assert!(statement.result_schema().is_some());
}

#[test]
fn responses_out_of_turn_change_nothing() {
    let mut statement = attached();
    assert!(statement.on_poll("x", PollResponse::Running, 0).is_none());
    statement.on_submit_failed(0, DatabricksErrorHelper::unknown());
    statement.on_poll_failed("x", DatabricksErrorHelper::unknown());
    assert_eq!(statement.state(), StatementState::Idle);
    assert!(statement.failure().is_none());
}

#[test]
fn what_a_statement_does_not_support() {
    let mut statement = Statement::new();
    for (error, name) in [
        (statement.set_substrait_plan(&[1]).unwrap_err(), "Substrait plans"),
        (statement.prepare().unwrap_err(), "prepare"),
        (
            statement.get_parameter_schema().unwrap_err(),
            "get_parameter_schema",
        ),
        (statement.bind(batch(1)).unwrap_err(), "bind parameters"),
        (statement.bind_stream(vec![]).unwrap_err(), "bind_stream"),
        (statement.execute_update().unwrap_err(), "execute_update"),
        (statement.execute_schema().unwrap_err(), "execute_schema"),
        (
            statement.execute_partitions().unwrap_err(),
            "execute_partitions",
        ),
    ] {
        assert_eq!(error.status(), Status::NotImplemented);
        assert_eq!(error.message_text(), name);
    }
    assert_eq!(statement.state(), StatementState::Idle);
}

#[test]
fn statement_has_no_options() {
    let mut statement = Statement::new();
    let error = statement
        .set_option(OptionStatement::Incremental, OptionValue::Int(1))
        .unwrap_err();
    assert_eq!(error.status(), Status::InvalidArgument);
    assert_eq!(
        error.message_text(),
        "unknown option: adbc.statement.exec.incremental"
    );
    assert!(statement
        .get_option_string(OptionStatement::Other("a".into()))
        .is_err());
    assert!(statement.get_option_bytes(OptionStatement::Progress).is_err());
    assert!(statement.get_option_int(OptionStatement::MaxProgress).is_err());
    assert!(statement
        .get_option_double(OptionStatement::TargetTable)
        .is_err());
}

#[test]
fn backoff_doubles_up_to_the_cap() {
    assert_eq!(backoff_ms(500, 10_000, 0), 500);
    assert_eq!(backoff_ms(500, 10_000, 1), 1_000);
    assert_eq!(backoff_ms(500, 10_000, 4), 8_000);
    assert_eq!(backoff_ms(500, 10_000, 5), 10_000);
    assert_eq!(backoff_ms(500, 10_000, u64::MAX), 10_000);
    assert_eq!(backoff_ms(20_000, 10_000, 0), 10_000);
    assert_eq!(backoff_ms(0, 10_000, 1_000_000_000_000), 0);
    assert_eq!(backoff_ms(1, u64::MAX, 63), 1 << 63);
    assert_eq!(backoff_ms(1, u64::MAX, 64), u64::MAX);
    assert_eq!(backoff_ms(3, 0, 2), 0);
}

#[test]
fn statuses_fall_into_their_classes() {
    assert_eq!(classify_status(401), FailureClass::Unauthorized);
    assert_eq!(classify_status(403), FailureClass::Forbidden);
    assert_eq!(classify_status(500), FailureClass::Transient);
    assert_eq!(classify_status(599), FailureClass::Transient);
    assert_eq!(classify_status(499), FailureClass::Fatal);
    assert_eq!(classify_status(600), FailureClass::Fatal);
    assert_eq!(classify_status(404), FailureClass::Fatal);
    assert_eq!(classify_status(200), FailureClass::Fatal);
    assert_eq!(classify_status(0), FailureClass::Fatal);
}

#[test]
fn link_is_valid_up_to_its_expiry() {
    assert!(!is_expired(None, u64::MAX));
    assert!(!is_expired(Some(10), 9));
    assert!(!is_expired(Some(10), 10));
    assert!(is_expired(Some(10), 11));
    assert!(is_expired(Some(0), 1));
}

//! Statement implementation for the Databricks ADBC driver.
//!
//! A statement runs one query at a time: it is given SQL text, submits it,
//! polls until the warehouse has finished, and then hands out the result as
//! a stream of batches. The statement decides and keeps the state; the calls
//! to the warehouse are its caller's, who performs each
//! [`StatementAction`] and reports what came of it.

use vstd::prelude::*;
use vstd::string::*;
use std::sync::Arc;
use crate::error::{plain, DatabricksErrorHelper, Error, ErrorView, Stage, Status};
use crate::features::{feature_name, missing, require, Feature};
use crate::options::{text_of, unknown_option, OptionStatement, OptionValue};
use crate::reader::cloudfetch::{
    action_view, pull_view, CloudFetchReader, FetchAction, StreamEvent,
};
use crate::reader::link::{link_views, CloudFetchConfig, CloudFetchLink, LinkView};
use crate::reader::model::{apply, initial, pull_model, ActionView, Op, ReaderModel};
use crate::reader::retry::{least, DEFAULT_MAX_ATTEMPTS};
use crate::result::batch::{schema_field_types, Batch};

verus! {

/// The wait before the second poll of a query, in milliseconds.
pub const POLL_INITIAL_MS: u64 = 500;

/// The longest wait between two polls, before jitter, in milliseconds.
pub const POLL_CAP_MS: u64 = 10_000;

/// What the error says where a statement without an endpoint is executed.
pub const NO_ENDPOINT: &'static str = "the statement has no endpoint to submit to";

/// What the error says where a statement without query text is executed.
pub const NO_QUERY: &'static str = "the statement has no SQL query";

/// What the error says where query text is set while a query is under way.
pub const BUSY: &'static str = "the statement is executing a query";

/// What the error says where a batch is pulled and there is no result.
pub const NO_RESULT: &'static str = "the statement has no result to read";

/// What the error of a cancelled statement says.
pub const STATEMENT_CANCELLED: &'static str = "the query was cancelled";

/// What the error says where the polls of a query ran into the timeout.
pub const TIMED_OUT: &'static str = "the query did not finish within the timeout";

/// What the error says where the result stream ran past its deadline.
pub const PAST_DEADLINE: &'static str = "the result was not read before the deadline";

/// Where a connection submits its queries, and with which credential.
#[derive(Debug)]
pub struct Endpoint {
    pub uri: String,
    pub http_path: String,
    pub access_token: String,
}

/// An endpoint as mathematical data.
pub struct EndpointView {
    pub uri: Seq<char>,
    pub http_path: Seq<char>,
    pub access_token: Seq<char>,
}

impl View for Endpoint {
    type V = EndpointView;

    open spec fn view(&self) -> EndpointView {
        EndpointView {
            uri: self.uri@,
            http_path: self.http_path@,
            access_token: self.access_token@,
        }
    }
}

/// The view of an optional endpoint.
pub open spec fn endpoint_of(endpoint: Option<Endpoint>) -> Option<EndpointView> {
    match endpoint {
        Some(e) => Some(e@),
        None => None,
    }
}

/// What the warehouse says of a query.
#[derive(Clone, Copy, Debug, PartialEq, Eq, Structural)]
pub enum QueryStatus {
    Pending,
    Running,
    Succeeded,
    Failed,
    Cancelled,
}

/// The states of a statement.
#[derive(Clone, Copy, Debug, PartialEq, Eq, Structural)]
pub enum StatementState {
    /// No query text.
    Idle,
    /// Query text is set.
    Prepared,
    /// The query was handed to the warehouse.
    Submitted,
    /// The warehouse runs the query and is asked for its status.
    Polling,
    /// The query has finished and its result can be read.
    Succeeded,
    /// The query has failed.
    Failed,
    /// The query was cancelled, by the user, the warehouse or a timeout.
    Cancelled,
}

/// One query at the warehouse.
#[derive(Debug)]
pub struct QueryHandle {
    query_id: String,
    status: QueryStatus,
    result_schema: Option<Arc<arrow_schema::Schema>>,
}

/// A query handle as mathematical data.
pub struct HandleView {
    pub query_id: Seq<char>,
    pub status: QueryStatus,
    /// The field types of the result schema, known once the query has
    /// succeeded.
    pub result_schema: Option<Seq<Seq<char>>>,
}

impl View for QueryHandle {
    type V = HandleView;

    closed spec fn view(&self) -> HandleView {
        HandleView {
            query_id: self.query_id@,
            status: self.status,
            result_schema: match self.result_schema {
                Some(s) => Some(schema_field_types(*s)),
                None => None,
            },
        }
    }
}

impl QueryHandle {
    /// The identifier that the warehouse gave the query.
    pub fn query_id(&self) -> (id: &str)
        ensures
            id@ == self@.query_id,
    {
        self.query_id.as_str()
    }

    /// What the warehouse last said of the query.
    pub fn status(&self) -> (status: QueryStatus)
        ensures
            status == self@.status,
    {
        self.status
    }

    /// The schema of the result, known once the query has succeeded.
    pub fn result_schema(&self) -> (schema: Option<&Arc<arrow_schema::Schema>>)
        ensures
            match schema {
                Some(s) => self@.result_schema == Some(schema_field_types(**s)),
                None => self@.result_schema is None,
            },
    {
        self.result_schema.as_ref()
    }
}

/// What a poll of the warehouse gave.
#[derive(Debug)]
pub enum PollResponse {
    Pending,
    Running,
    /// The query has finished: the schema of its result and the links to its
    /// chunks, in order.
    Succeeded { schema: Arc<arrow_schema::Schema>, links: Vec<CloudFetchLink> },
    /// The query has failed, with the warehouse's message.
    Failed { message: String },
    Cancelled,
}

/// A poll response as mathematical data.
pub enum PollView {
    Pending,
    Running,
    Succeeded { schema: Seq<Seq<char>>, links: Seq<LinkView> },
    Failed { message: Seq<char> },
    Cancelled,
}

impl View for PollResponse {
    type V = PollView;

    open spec fn view(&self) -> PollView {
        match self {
            PollResponse::Pending => PollView::Pending,
            PollResponse::Running => PollView::Running,
            PollResponse::Succeeded { schema, links } => PollView::Succeeded {
                schema: schema_field_types(**schema),
                links: link_views(links@),
            },
            PollResponse::Failed { message } => PollView::Failed { message: message@ },
            PollResponse::Cancelled => PollView::Cancelled,
        }
    }
}

/// What a statement asks its caller to do at the warehouse.
#[derive(Debug)]
pub enum StatementAction {
    /// Submit `sql` and report the query's identifier, or the failure,
    /// together with `ticket`.
    Submit { sql: String, ticket: u64 },
    /// Wait `wait_ms` milliseconds, then ask for the status of the query and
    /// report it.
    Poll { query_id: String, wait_ms: u64 },
    /// Tell the warehouse to cancel the query. Nothing is reported back: the
    /// statement does not depend on whether the warehouse could be reached.
    Cancel { query_id: String },
}

/// A statement action as mathematical data.
pub enum StatementActionView {
    Submit { sql: Seq<char>, ticket: nat },
    Poll { query_id: Seq<char>, wait_ms: nat },
    Cancel { query_id: Seq<char> },
}

impl View for StatementAction {
    type V = StatementActionView;

    open spec fn view(&self) -> StatementActionView {
        match self {
            StatementAction::Submit { sql, ticket } => StatementActionView::Submit {
                sql: sql@,
                ticket: *ticket as nat,
            },
            StatementAction::Poll { query_id, wait_ms } => StatementActionView::Poll {
                query_id: query_id@,
                wait_ms: *wait_ms as nat,
            },
            StatementAction::Cancel { query_id } => StatementActionView::Cancel {
                query_id: query_id@,
            },
        }
    }
}

/// The action that a statement handed back, as mathematical data.
pub open spec fn step_view(action: Option<StatementAction>) -> Option<StatementActionView> {
    match action {
        Some(a) => Some(a@),
        None => None,
    }
}

/// The actions that a statement handed back, as mathematical data.
pub open spec fn step_views(actions: Seq<StatementAction>) -> Seq<StatementActionView> {
    Seq::new(actions.len(), |i: int| actions[i]@)
}

/// The state of a statement.
pub struct StatementModel {
    /// The SQL text, if one is set.
    pub query: Option<Seq<char>>,
    pub state: StatementState,
    /// The query at the warehouse, from its submission on.
    pub handle: Option<HandleView>,
    /// The result stream, which exists exactly while the state is
    /// `Succeeded`.
    pub stream: Option<ReaderModel>,
    /// Why the statement is `Failed` or `Cancelled`.
    pub failure: Option<ErrorView>,
    /// The endpoint that the statement submits to, if it has one.
    pub endpoint: Option<EndpointView>,
    pub cloudfetch: CloudFetchConfig,
    /// The longest time that the polls of one query may wait in all, if
    /// there is a limit.
    pub timeout_ms: Option<nat>,
    /// The time that the polls of this query were asked to wait so far,
    /// counted where there is a timeout.
    pub waited_ms: nat,
    /// The wait before the next poll, before jitter.
    pub interval_ms: nat,
    /// The instant after which the result stream is given up, in
    /// milliseconds since the epoch, if there is one.
    pub deadline_ms: Option<nat>,
    /// The ticket of the latest submission: what comes back under another
    /// ticket belongs to a query that was given up.
    pub ticket: nat,
}

/// The error of a statement that was cancelled.
pub open spec fn cancelled_error() -> ErrorView {
    plain(Status::Cancelled, STATEMENT_CANCELLED@)
}

/// The error of a statement whose query ran into the timeout.
pub open spec fn timeout_error() -> ErrorView {
    ErrorView {
        status: Status::Cancelled,
        message: TIMED_OUT@,
        context: None,
        stage: Some(Stage::Poll),
        chunk: None,
    }
}

/// The error of a statement whose query the warehouse reports as failed: it
/// carries the warehouse's message as it is.
pub open spec fn remote_error(message: Seq<char>) -> ErrorView {
    ErrorView {
        status: Status::RemoteQueryFailed,
        message,
        context: None,
        stage: Some(Stage::Poll),
        chunk: None,
    }
}

/// A wait of `interval_ms` with jitter: between half of it and all of it,
/// as `entropy` decides.
pub open spec fn jittered(interval_ms: nat, entropy: nat) -> nat {
    interval_ms / 2 + entropy % (interval_ms / 2 + 1)
}

/// A jittered wait is at least half the interval and at most the interval.
pub proof fn lemma_jitter_bounds(interval_ms: nat, entropy: nat)
    ensures
        interval_ms / 2 <= jittered(interval_ms, entropy) <= interval_ms,
{
}

/// A statement without a query, as it is made.
pub open spec fn idle(
    endpoint: Option<EndpointView>,
    cloudfetch: CloudFetchConfig,
    timeout_ms: Option<nat>,
) -> StatementModel {
    StatementModel {
        query: None,
        state: StatementState::Idle,
        handle: None,
        stream: None,
        failure: None,
        endpoint,
        cloudfetch,
        timeout_ms,
        waited_ms: 0,
        interval_ms: POLL_INITIAL_MS as nat,
        deadline_ms: None,
        ticket: 0,
    }
}

/// Whether a query is under way: submitted and not finished.
pub open spec fn executing(s: StatementModel) -> bool {
    s.state is Submitted || s.state is Polling
}

/// Setting the query text: accepted unless a query is under way. The text
/// is kept, and what was left of an earlier query (its handle, its result
/// stream, its failure) is let go.
pub open spec fn set_sql_query_model(s: StatementModel, text: Seq<char>) -> Result<
    StatementModel,
    ErrorView,
> {
    if executing(s) {
        Err(plain(Status::InvalidArgument, BUSY@))
    } else {
        Ok(
            StatementModel {
                query: Some(text),
                state: StatementState::Prepared,
                handle: None,
                stream: None,
                failure: None,
                ..s
            },
        )
    }
}

/// The ticket after `ticket`.
pub open spec fn next_ticket(ticket: nat) -> nat {
    if ticket >= u64::MAX {
        0
    } else {
        ticket + 1
    }
}

/// Execution: the query text is submitted under a new ticket, after the
/// query that is being polled, if there is one, was cancelled at the
/// warehouse; a query whose submission is still under way is given up and
/// cancelled once its identifier is known. It fails where the statement has
/// no endpoint or no query text.
pub open spec fn execute_model(s: StatementModel) -> Result<
    (StatementModel, Seq<StatementActionView>),
    ErrorView,
> {
    if s.endpoint is None {
        Err(plain(Status::InvalidArgument, NO_ENDPOINT@))
    } else if s.query is None {
        Err(plain(Status::InvalidArgument, NO_QUERY@))
    } else {
        let submit = StatementActionView::Submit {
            sql: s.query->Some_0,
            ticket: next_ticket(s.ticket),
        };
        let next = StatementModel {
            state: StatementState::Submitted,
            handle: None,
            stream: None,
            failure: None,
            waited_ms: 0,
            interval_ms: POLL_INITIAL_MS as nat,
            ticket: next_ticket(s.ticket),
            ..s
        };
        if s.state is Polling && s.handle is Some {
            Ok(
                (
                    next,
                    seq![StatementActionView::Cancel { query_id: s.handle->Some_0.query_id }, submit],
                ),
            )
        } else {
            Ok((next, seq![submit]))
        }
    }
}

/// The warehouse has taken the query that was submitted under `ticket` and
/// given it `query_id`. Where that is the submission that the statement
/// waits for, the statement starts to poll, at once. Where it is not (the
/// statement was cancelled or closed meanwhile, or has submitted anew), the
/// query is cancelled at the warehouse.
pub open spec fn submitted_model(s: StatementModel, ticket: nat, query_id: Seq<char>) -> (
    StatementModel,
    Option<StatementActionView>,
) {
    if s.state is Submitted && ticket == s.ticket {
        (
            StatementModel {
                state: StatementState::Polling,
                handle: Some(
                    HandleView { query_id, status: QueryStatus::Pending, result_schema: None },
                ),
                ..s
            },
            Some(StatementActionView::Poll { query_id, wait_ms: 0 }),
        )
    } else {
        (s, Some(StatementActionView::Cancel { query_id }))
    }
}

/// The submission under `ticket` has failed. Where that is the submission
/// that the statement waits for, the statement fails with `error`, placed
/// at the submit stage; else nothing changes.
pub open spec fn submit_failed_model(s: StatementModel, ticket: nat, error: ErrorView)
    -> StatementModel {
    if s.state is Submitted && ticket == s.ticket {
        StatementModel {
            state: StatementState::Failed,
            failure: Some(ErrorView { stage: Some(Stage::Submit), ..error }),
            ..s
        }
    } else {
        s
    }
}

/// The wait before the next poll, and the statement after it has asked for
/// that poll; or, where the wait would pass the timeout, the statement
/// cancelled by the timeout.
pub open spec fn wait_model(s: StatementModel, status: QueryStatus, entropy: nat) -> (
    StatementModel,
    Option<StatementActionView>,
) {
    let handle = s.handle->Some_0;
    let wait = jittered(s.interval_ms, entropy);
    if s.timeout_ms is Some && s.waited_ms + wait > s.timeout_ms->Some_0 {
        (
            StatementModel {
                state: StatementState::Cancelled,
                handle: Some(HandleView { status: QueryStatus::Cancelled, ..handle }),
                failure: Some(timeout_error()),
                ..s
            },
            Some(StatementActionView::Cancel { query_id: handle.query_id }),
        )
    } else {
        (
            StatementModel {
                handle: Some(HandleView { status, ..handle }),
                waited_ms: if s.timeout_ms is Some {
                    s.waited_ms + wait
                } else {
                    s.waited_ms
                },
                interval_ms: least(2 * s.interval_ms, POLL_CAP_MS as nat),
                ..s
            },
            Some(StatementActionView::Poll { query_id: handle.query_id, wait_ms: wait }),
        )
    }
}

/// A poll has come back with `response`. While the query is pending or
/// running the statement polls on, after a wait that doubles up to a cap and
/// is jittered by `entropy`, until the timeout; a finished query opens the
/// result stream over its links; a failed one fails the statement with the
/// warehouse's message; a cancelled one leaves the statement cancelled. A
/// response that comes while the statement does not poll, or that is for
/// another query than the one it polls, changes nothing.
pub open spec fn poll_model(
    s: StatementModel,
    query_id: Seq<char>,
    response: PollView,
    entropy: nat,
) -> (StatementModel, Option<StatementActionView>) {
    if !(s.state is Polling) || s.handle is None || s.handle->Some_0.query_id != query_id {
        (s, None)
    } else {
        let handle = s.handle->Some_0;
        match response {
            PollView::Pending => wait_model(s, QueryStatus::Pending, entropy),
            PollView::Running => wait_model(s, QueryStatus::Running, entropy),
            PollView::Succeeded { schema, links } => (
                StatementModel {
                    state: StatementState::Succeeded,
                    handle: Some(
                        HandleView {
                            status: QueryStatus::Succeeded,
                            result_schema: Some(schema),
                            ..handle
                        },
                    ),
                    stream: Some(
                        initial(s.cloudfetch, links, DEFAULT_MAX_ATTEMPTS as nat, Some(schema)),
                    ),
                    ..s
                },
                None,
            ),
            PollView::Failed { message } => (
                StatementModel {
                    state: StatementState::Failed,
                    handle: Some(HandleView { status: QueryStatus::Failed, ..handle }),
                    failure: Some(remote_error(message)),
                    ..s
                },
                None,
            ),
            PollView::Cancelled => (
                StatementModel {
                    state: StatementState::Cancelled,
                    handle: Some(HandleView { status: QueryStatus::Cancelled, ..handle }),
                    failure: Some(cancelled_error()),
                    ..s
                },
                None,
            ),
        }
    }
}

/// A poll could not be made: the statement fails with `error`, placed at
/// the poll stage.
pub open spec fn poll_failed_model(s: StatementModel, query_id: Seq<char>, error: ErrorView)
    -> StatementModel {
    if !(s.state is Polling) || s.handle is None || s.handle->Some_0.query_id != query_id {
        s
    } else {
        StatementModel {
            state: StatementState::Failed,
            failure: Some(ErrorView { stage: Some(Stage::Poll), ..error }),
            ..s
        }
    }
}

/// Cancellation: unless it has failed or was cancelled before, the
/// statement is cancelled, whatever the warehouse says to it; its result
/// stream is let go, and the query that is being polled is cancelled at the
/// warehouse.
pub open spec fn cancel_model(s: StatementModel) -> (StatementModel, Option<StatementActionView>) {
    if s.state is Failed || s.state is Cancelled {
        (s, None)
    } else {
        (
            StatementModel {
                state: StatementState::Cancelled,
                stream: None,
                failure: Some(cancelled_error()),
                ..s
            },
            if s.state is Polling && s.handle is Some {
                Some(StatementActionView::Cancel { query_id: s.handle->Some_0.query_id })
            } else {
                None
            },
        )
    }
}

/// Closing: the statement is idle again, without query text, handle, result
/// stream or failure, and the query that is being polled is cancelled at the
/// warehouse.
pub open spec fn close_model(s: StatementModel) -> (StatementModel, Option<StatementActionView>) {
    (
        StatementModel {
            query: None,
            state: StatementState::Idle,
            handle: None,
            stream: None,
            failure: None,
            ..s
        },
        if s.state is Polling && s.handle is Some {
            Some(StatementActionView::Cancel { query_id: s.handle->Some_0.query_id })
        } else {
            None
        },
    )
}

/// A pull of the next batch: from the result stream while there is one; the
/// statement's failure where it has failed or was cancelled; an error where
/// there is no result.
pub open spec fn next_batch_model(s: StatementModel) -> (
    StatementModel,
    Result<Option<Batch>, ErrorView>,
) {
    if s.stream is Some {
        (
            StatementModel { stream: Some(pull_model(s.stream->Some_0).0), ..s },
            pull_model(s.stream->Some_0).1,
        )
    } else if s.failure is Some {
        (s, Err(s.failure->Some_0))
    } else {
        (s, Err(plain(Status::InvalidArgument, NO_RESULT@)))
    }
}

/// The error of a statement whose result was not read before the deadline.
pub open spec fn deadline_error() -> ErrorView {
    ErrorView {
        status: Status::Cancelled,
        message: PAST_DEADLINE@,
        context: None,
        stage: Some(Stage::Fetch),
        chunk: None,
    }
}

/// The instant at which an event of the stream happens, where the event
/// tells it.
pub open spec fn event_time(event: Op) -> Option<nat> {
    match event {
        Op::StartNext { now } => Some(now),
        Op::Outcome { now, .. } => Some(now),
        _ => None,
    }
}

/// Whether `event` happens after the deadline of the statement.
pub open spec fn past_deadline(s: StatementModel, event: Op) -> bool {
    s.deadline_ms is Some && event_time(event) is Some && event_time(event)->Some_0
        > s.deadline_ms->Some_0
}

/// An event of the result stream: handed to the stream, while there is one.
/// An event that happens after the deadline cancels the statement instead:
/// a timeout is a cancellation.
pub open spec fn stream_event_model(s: StatementModel, event: Op) -> (
    StatementModel,
    Option<ActionView>,
) {
    if s.stream is None {
        (s, None)
    } else if past_deadline(s, event) {
        (
            StatementModel {
                state: StatementState::Cancelled,
                stream: None,
                failure: Some(deadline_error()),
                ..s
            },
            None,
        )
    } else {
        (
            StatementModel { stream: Some(apply(s.stream->Some_0, event).next), ..s },
            apply(s.stream->Some_0, event).action,
        )
    }
}

/// What holds of every state of a statement: there is a result stream
/// exactly while the query has succeeded, a handle while the query is
/// polled or has succeeded, query text from `Prepared` on, and a failure
/// where the statement has failed or was cancelled.
pub open spec fn statement_wf(s: StatementModel) -> bool {
    &&& s.stream is Some <==> s.state is Succeeded
    &&& s.stream is Some ==> crate::reader::model::wf(s.stream->Some_0)
    &&& s.state is Succeeded ==> s.handle is Some && s.handle->Some_0.status is Succeeded
        && s.handle->Some_0.result_schema is Some
    &&& s.state is Polling ==> s.handle is Some
    &&& s.state is Prepared || s.state is Submitted || s.state is Polling || s.state is Succeeded
        ==> s.query is Some
    &&& s.ticket <= u64::MAX
    &&& s.state is Failed || s.state is Cancelled ==> s.failure is Some
    &&& s.state is Idle || s.state is Prepared ==> s.failure is None && s.handle is None
    &&& s.timeout_ms is Some ==> s.waited_ms <= s.timeout_ms->Some_0
    &&& s.interval_ms <= POLL_CAP_MS
}

/// `Arc::clone`: another pointer to the same schema.
#[verifier::external_body]
fn share_schema(schema: &Arc<arrow_schema::Schema>) -> (shared: Arc<arrow_schema::Schema>)
    ensures
        *shared == **schema,
{
    Arc::clone(schema)
}

/// Represents a SQL statement that can be executed against Databricks.
///
/// A Statement is created from a Connection and is used to execute SQL
/// queries and retrieve results.
#[derive(Debug)]
pub struct Statement {
    query: Option<String>,
    state: StatementState,
    handle: Option<QueryHandle>,
    stream: Option<CloudFetchReader>,
    failure: Option<Error>,
    endpoint: Option<Endpoint>,
    cloudfetch: CloudFetchConfig,
    timeout_ms: Option<u64>,
    waited_ms: u64,
    interval_ms: u64,
    deadline_ms: Option<u64>,
    ticket: u64,
}

impl View for Statement {
    type V = StatementModel;

    closed spec fn view(&self) -> StatementModel {
        StatementModel {
            query: text_of(self.query),
            state: self.state,
            handle: match self.handle {
                Some(h) => Some(h@),
                None => None,
            },
            stream: match self.stream {
                Some(r) => Some(r@),
                None => None,
            },
            failure: match self.failure {
                Some(e) => Some(e@),
                None => None,
            },
            endpoint: endpoint_of(self.endpoint),
            cloudfetch: self.cloudfetch,
            timeout_ms: match self.timeout_ms {
                Some(t) => Some(t as nat),
                None => None,
            },
            waited_ms: self.waited_ms as nat,
            interval_ms: self.interval_ms as nat,
            deadline_ms: match self.deadline_ms {
                Some(t) => Some(t as nat),
                None => None,
            },
            ticket: self.ticket as nat,
        }
    }
}

impl Statement {
    /// Whether this statement is in a state that its operations can leave it
    /// in.
    pub closed spec fn wf(&self) -> bool {
        &&& statement_wf(self@)
        &&& match self.stream {
            Some(r) => r.wf(),
            None => true,
        }
    }

    /// Creates a new Statement that belongs to no connection. It takes query
    /// text, and it cannot execute: it has no endpoint to submit to.
    pub fn new() -> (statement: Self)
        ensures
            statement.wf(),
            statement@ == idle(
                None,
                CloudFetchConfig {
                    parallel_downloads: 3,
                    prefetch_count: 2,
                    max_buffer_size: 209_715_200,
                },
                None,
            ),
    {
        Statement {
            query: None,
            state: StatementState::Idle,
            handle: None,
            stream: None,
            failure: None,
            endpoint: None,
            cloudfetch: CloudFetchConfig::default(),
            timeout_ms: None,
            waited_ms: 0,
            interval_ms: POLL_INITIAL_MS,
            deadline_ms: None,
            ticket: 0,
        }
    }

    /// Creates a statement that submits to `endpoint`, if there is one, and
    /// downloads its results as `cloudfetch` says.
    pub fn with_endpoint(endpoint: Option<Endpoint>, cloudfetch: CloudFetchConfig) -> (statement:
        Self)
        ensures
            statement.wf(),
            statement@ == idle(endpoint_of(endpoint), cloudfetch, None),
    {
        Statement {
            query: None,
            state: StatementState::Idle,
            handle: None,
            stream: None,
            failure: None,
            endpoint,
            cloudfetch,
            timeout_ms: None,
            waited_ms: 0,
            interval_ms: POLL_INITIAL_MS,
            deadline_ms: None,
            ticket: 0,
        }
    }

    /// Sets the longest time that the polls of one query may wait in all, in
    /// milliseconds, or lifts the limit. The time counts from now.
    pub fn set_timeout_ms(&mut self, timeout_ms: Option<u64>)
        requires
            old(self).wf(),
        ensures
            final(self).wf(),
            final(self)@ == (StatementModel {
                timeout_ms: match timeout_ms {
                    Some(t) => Some(t as nat),
                    None => None,
                },
                waited_ms: 0,
                ..old(self)@
            }),
    {
        self.timeout_ms = timeout_ms;
        self.waited_ms = 0;
    }

    /// Sets the instant after which the result stream is given up, in
    /// milliseconds since the epoch, or lifts the limit.
    pub fn set_deadline_ms(&mut self, deadline_ms: Option<u64>)
        requires
            old(self).wf(),
        ensures
            final(self).wf(),
            final(self)@ == (StatementModel {
                deadline_ms: match deadline_ms {
                    Some(t) => Some(t as nat),
                    None => None,
                },
                ..old(self)@
            }),
    {
        self.deadline_ms = deadline_ms;
    }

    /// Returns the current SQL query.
    pub fn sql_query(&self) -> (query: Option<&str>)
        ensures
            match query {
                Some(t) => self@.query == Some(t@),
                None => self@.query is None,
            },
    {
        crate::options::borrow_text(&self.query)
    }

    /// The state of this statement.
    pub fn state(&self) -> (state: StatementState)
        ensures
            state == self@.state,
    {
        self.state
    }

    /// The query at the warehouse, from its submission on.
    pub fn handle(&self) -> (handle: Option<&QueryHandle>)
        ensures
            match handle {
                Some(h) => self@.handle == Some(h@),
                None => self@.handle is None,
            },
    {
        self.handle.as_ref()
    }

    /// Why this statement has failed or was cancelled.
    pub fn failure(&self) -> (failure: Option<&Error>)
        ensures
            match failure {
                Some(e) => self@.failure == Some(e@),
                None => self@.failure is None,
            },
    {
        self.failure.as_ref()
    }

    /// The endpoint that this statement submits to, if it has one.
    pub fn endpoint(&self) -> (endpoint: Option<&Endpoint>)
        ensures
            match endpoint {
                Some(e) => self@.endpoint == Some(e@),
                None => self@.endpoint is None,
            },
    {
        self.endpoint.as_ref()
    }

    /// The schema of the result: known as soon as the query has succeeded,
    /// before any batch is pulled.
    pub fn result_schema(&self) -> (schema: Option<&Arc<arrow_schema::Schema>>)
        requires
            self.wf(),
        ensures
            self@.state is Succeeded ==> schema is Some,
            match schema {
                Some(s) => self@.handle is Some && self@.handle->Some_0.result_schema == Some(
                    schema_field_types(**s),
                ),
                None => self@.handle is None || self@.handle->Some_0.result_schema is None,
            },
    {
        match &self.handle {
            Some(h) => h.result_schema(),
            None => None,
        }
    }

    /// Sets the SQL query to execute. The text is taken unless a query is
    /// under way (`InvalidArgument`); what was left of an earlier query is
    /// let go.
    pub fn set_sql_query(&mut self, query: &str) -> (r: Result<(), Error>)
        requires
            old(self).wf(),
        ensures
            final(self).wf(),
            match set_sql_query_model(old(self)@, query@) {
                Ok(next) => r is Ok && final(self)@ == next,
                Err(e) => r is Err && r->Err_0@ == e && final(self)@ == old(self)@,
            },
    {
        match require(Feature::SqlQuery) {
            Ok(()) => {},
            Err(e) => {
                return Err(e);
            },
        }
        match self.state {
            StatementState::Submitted | StatementState::Polling => {
                return Err(DatabricksErrorHelper::invalid_argument().message(BUSY));
            },
            _ => {},
        }
        self.query = Some(String::from_str(query));
        self.state = StatementState::Prepared;
        self.handle = None;
        self.stream = None;
        self.failure = None;
        Ok(())
    }

    /// Starts the execution of the query and says what to do at the
    /// warehouse: submit the query text under a new ticket, after the
    /// cancellation of the query that is being polled, if there is one.
    /// Fails with `InvalidArgument`, and changes nothing, where the
    /// statement has no endpoint or no query text.
    pub fn execute(&mut self) -> (r: Result<Vec<StatementAction>, Error>)
        requires
            old(self).wf(),
        ensures
            final(self).wf(),
            match execute_model(old(self)@) {
                Ok((next, actions)) => r is Ok && final(self)@ == next && step_views(r->Ok_0@)
                    == actions,
                Err(e) => r is Err && r->Err_0@ == e && final(self)@ == old(self)@,
            },
    {
        match require(Feature::Execute) {
            Ok(()) => {},
            Err(e) => {
                return Err(e);
            },
        }
        if self.endpoint.is_none() {
            return Err(DatabricksErrorHelper::invalid_argument().message(NO_ENDPOINT));
        }
        let sql = match &self.query {
            Some(text) => text.clone(),
            None => {
                return Err(DatabricksErrorHelper::invalid_argument().message(NO_QUERY));
            },
        };
        let mut actions: Vec<StatementAction> = Vec::new();
        match self.state {
            StatementState::Polling => {
                match &self.handle {
                    Some(h) => {
                        actions.push(StatementAction::Cancel { query_id: h.query_id.clone() });
                    },
                    None => {},
                }
            },
            _ => {},
        }
        let ticket = if self.ticket == u64::MAX {
            0
        } else {
            self.ticket + 1
        };
        actions.push(StatementAction::Submit { sql, ticket });
        self.state = StatementState::Submitted;
        self.handle = None;
        self.stream = None;
        self.failure = None;
        self.waited_ms = 0;
        self.interval_ms = POLL_INITIAL_MS;
        self.ticket = ticket;
        proof {
            let expected = execute_model(old(self)@)->Ok_0.1;
            assert(step_views(actions@) =~= expected);
        }
        Ok(actions)
    }

    /// Takes the identifier that the warehouse gave the query that was
    /// submitted under `ticket`, and says what to do next: poll at once,
    /// or, where the statement does not wait for that submission any more,
    /// cancel the query at the warehouse.
    pub fn on_submitted(&mut self, ticket: u64, query_id: String) -> (action: Option<
        StatementAction,
    >)
        requires
            old(self).wf(),
        ensures
            final(self).wf(),
            (final(self)@, step_view(action)) == submitted_model(
                old(self)@,
                ticket as nat,
                query_id@,
            ),
    {
        match self.state {
            StatementState::Submitted => {
                if ticket == self.ticket {
                    self.state = StatementState::Polling;
                    self.handle = Some(
                        QueryHandle {
                            query_id: query_id.clone(),
                            status: QueryStatus::Pending,
                            result_schema: None,
                        },
                    );
                    return Some(StatementAction::Poll { query_id, wait_ms: 0 });
                }
            },
            _ => {},
        }
        Some(StatementAction::Cancel { query_id })
    }

    /// Takes the failure of the submission under `ticket`: where the
    /// statement waits for that submission, it fails with `error`, placed
    /// at the submit stage.
    pub fn on_submit_failed(&mut self, ticket: u64, error: Error)
        requires
            old(self).wf(),
        ensures
            final(self).wf(),
            final(self)@ == submit_failed_model(old(self)@, ticket as nat, error@),
    {
        match self.state {
            StatementState::Submitted => {
                if ticket == self.ticket {
                    self.state = StatementState::Failed;
                    self.failure = Some(error.at_stage(Stage::Submit));
                }
            },
            _ => {},
        }
    }

    /// Polls on, or gives up at the timeout.
    fn wait(&mut self, status: QueryStatus, entropy: u64) -> (action: Option<StatementAction>)
        requires
            old(self).wf(),
            old(self).state is Polling,
            old(self).handle is Some,
        ensures
            final(self).wf(),
            (final(self)@, step_view(action)) == wait_model(old(self)@, status, entropy as nat),
    {
        let half = self.interval_ms / 2;
        let wait = half + entropy % (half + 1);
        let handle = match self.handle.take() {
            Some(h) => h,
            None => {
                return None;
            },
        };
        let query_id = handle.query_id.clone();
        let over = match self.timeout_ms {
            Some(t) => wait > t - self.waited_ms,
            None => false,
        };
        if over {
            self.state = StatementState::Cancelled;
            self.handle = Some(QueryHandle { status: QueryStatus::Cancelled, ..handle });
            self.failure = Some(
                DatabricksErrorHelper::cancelled().message(TIMED_OUT).at_stage(Stage::Poll),
            );
            Some(StatementAction::Cancel { query_id })
        } else {
            self.handle = Some(QueryHandle { status, ..handle });
            if self.timeout_ms.is_some() {
                self.waited_ms = self.waited_ms + wait;
            }
            self.interval_ms = if self.interval_ms >= POLL_CAP_MS - self.interval_ms {
                POLL_CAP_MS
            } else {
                self.interval_ms + self.interval_ms
            };
            Some(StatementAction::Poll { query_id, wait_ms: wait })
        }
    }

    /// Takes what a poll of the query `query_id` gave and says what to do
    /// next. While the query is pending or running: poll again, after a wait
    /// that starts at half a second, doubles up to a cap and is jittered by
    /// `entropy` (any number; a random one spreads the polls); or, where that
    /// wait would pass the timeout, cancel the query, which leaves the
    /// statement cancelled. A finished query opens the result stream; a
    /// failed one fails the statement with the warehouse's message; a
    /// cancelled one leaves the statement cancelled. A response that comes
    /// while the statement does not poll, or that is for another query than
    /// the one it polls, changes nothing.
    pub fn on_poll(&mut self, query_id: &str, response: PollResponse, entropy: u64) -> (action:
        Option<StatementAction>)
        requires
            old(self).wf(),
        ensures
            final(self).wf(),
            (final(self)@, step_view(action)) == poll_model(
                old(self)@,
                query_id@,
                response@,
                entropy as nat,
            ),
    {
        if !self.polls(query_id) {
            return None;
        }
        match response {
            PollResponse::Pending => self.wait(QueryStatus::Pending, entropy),
            PollResponse::Running => self.wait(QueryStatus::Running, entropy),
            PollResponse::Succeeded { schema, links } => {
                let handle = match self.handle.take() {
                    Some(h) => h,
                    None => {
                        return None;
                    },
                };
                let shared = share_schema(&schema);
                self.state = StatementState::Succeeded;
                self.handle = Some(
                    QueryHandle {
                        status: QueryStatus::Succeeded,
                        result_schema: Some(shared),
                        ..handle
                    },
                );
                let reader = CloudFetchReader::with_policy(
                    self.cloudfetch,
                    links,
                    DEFAULT_MAX_ATTEMPTS,
                    Some(schema),
                );
                proof {
                    reader.lemma_wf();
                }
                self.stream = Some(reader);
                None
            },
            PollResponse::Failed { message } => {
                let handle = match self.handle.take() {
                    Some(h) => h,
                    None => {
                        return None;
                    },
                };
                self.state = StatementState::Failed;
                self.handle = Some(QueryHandle { status: QueryStatus::Failed, ..handle });
                self.failure = Some(
                    DatabricksErrorHelper::remote_query_failed().message(
                        message.as_str(),
                    ).at_stage(Stage::Poll),
                );
                None
            },
            PollResponse::Cancelled => {
                let handle = match self.handle.take() {
                    Some(h) => h,
                    None => {
                        return None;
                    },
                };
                self.state = StatementState::Cancelled;
                self.handle = Some(QueryHandle { status: QueryStatus::Cancelled, ..handle });
                self.failure = Some(
                    DatabricksErrorHelper::cancelled().message(STATEMENT_CANCELLED),
                );
                None
            },
        }
    }

    /// Whether the statement polls the query `query_id`.
    fn polls(&self, query_id: &str) -> (yes: bool)
        ensures
            yes == (self@.state is Polling && self@.handle is Some
                && self@.handle->Some_0.query_id == query_id@),
    {
        match self.state {
            StatementState::Polling => {
                match &self.handle {
                    Some(h) => crate::options::text_is(h.query_id.as_str(), query_id),
                    None => false,
                }
            },
            _ => false,
        }
    }

    /// Takes the failure of a poll of the query `query_id`: where the
    /// statement polls that query, it fails with `error`, placed at the poll
    /// stage.
    pub fn on_poll_failed(&mut self, query_id: &str, error: Error)
        requires
            old(self).wf(),
        ensures
            final(self).wf(),
            final(self)@ == poll_failed_model(old(self)@, query_id@, error@),
    {
        if self.polls(query_id) {
            self.state = StatementState::Failed;
            self.failure = Some(error.at_stage(Stage::Poll));
        }
    }

    /// Cancels the statement and says what to do at the warehouse, if
    /// anything: unless it has failed or was cancelled before, the statement
    /// is cancelled from now on, whether or not the warehouse can be told;
    /// its result stream is let go, so that the next pull gives a
    /// `Cancelled` error.
    pub fn cancel(&mut self) -> (action: Option<StatementAction>)
        requires
            old(self).wf(),
        ensures
            final(self).wf(),
            (final(self)@, step_view(action)) == cancel_model(old(self)@),
    {
        match self.state {
            StatementState::Failed | StatementState::Cancelled => {
                return None;
            },
            _ => {},
        }
        let action = self.cancel_remote();
        self.state = StatementState::Cancelled;
        self.stream = None;
        self.failure = Some(DatabricksErrorHelper::cancelled().message(STATEMENT_CANCELLED));
        action
    }

    /// The cancellation of the query that is being polled, if there is one.
    fn cancel_remote(&self) -> (action: Option<StatementAction>)
        ensures
            step_view(action) == (if self@.state is Polling && self@.handle is Some {
                Some(StatementActionView::Cancel { query_id: self@.handle->Some_0.query_id })
            } else {
                None
            }),
    {
        match self.state {
            StatementState::Polling => {
                match &self.handle {
                    Some(h) => Some(StatementAction::Cancel { query_id: h.query_id.clone() }),
                    None => None,
                }
            },
            _ => None,
        }
    }

    /// Closes the statement and says what to do at the warehouse, if
    /// anything: the statement is idle again and holds nothing of its query.
    pub fn close(&mut self) -> (action: Option<StatementAction>)
        requires
            old(self).wf(),
        ensures
            final(self).wf(),
            (final(self)@, step_view(action)) == close_model(old(self)@),
    {
        let action = self.cancel_remote();
        self.query = None;
        self.state = StatementState::Idle;
        self.handle = None;
        self.stream = None;
        self.failure = None;
        action
    }

    /// Pulls the next batch of the result, without waiting: from the result
    /// stream while the query has succeeded (see
    /// [`CloudFetchReader::next_batch`]); the statement's failure where it
    /// has failed or was cancelled; an `InvalidArgument` error where there is
    /// no result.
    pub fn next_batch(&mut self) -> (pulled: Result<Option<Batch>, Error>)
        requires
            old(self).wf(),
        ensures
            final(self).wf(),
            (final(self)@, pull_view(pulled)) == next_batch_model(old(self)@),
    {
        match self.stream.take() {
            Some(reader) => {
                let mut reader = reader;
                let pulled = reader.next_batch();
                proof {
                    reader.lemma_wf();
                }
                self.stream = Some(reader);
                pulled
            },
            None => {
                match &self.failure {
                    Some(e) => Err(e.clone()),
                    None => Err(DatabricksErrorHelper::invalid_argument().message(NO_RESULT)),
                }
            },
        }
    }

    /// Hands an event of the result stream to the stream, and says what to
    /// do next for it, if anything. Without a result stream nothing happens.
    /// An event that happens after the deadline cancels the statement
    /// instead, so that the next pull gives a `Cancelled` error.
    pub fn on_stream_event(&mut self, event: StreamEvent) -> (action: Option<FetchAction>)
        requires
            old(self).wf(),
        ensures
            final(self).wf(),
            (final(self)@, action_view(action)) == stream_event_model(old(self)@, event@),
    {
        let reader = match self.stream.take() {
            Some(reader) => reader,
            None => {
                return None;
            },
        };
        let time = match &event {
            StreamEvent::StartNext { now } => Some(*now),
            StreamEvent::Outcome { now, .. } => Some(*now),
            _ => None,
        };
        let late = match (time, self.deadline_ms) {
            (Some(now), Some(deadline)) => now > deadline,
            _ => false,
        };
        if late {
            self.state = StatementState::Cancelled;
            self.failure = Some(
                DatabricksErrorHelper::cancelled().message(PAST_DEADLINE).at_stage(Stage::Fetch),
            );
            return None;
        }
        let mut reader = reader;
        let action = reader.handle(event);
        proof {
            reader.lemma_wf();
        }
        self.stream = Some(reader);
        action
    }

    /// Whether the result was read to its end.
    pub fn is_finished(&self) -> (done: bool)
        ensures
            done == (self@.stream is Some && crate::reader::model::finished(self@.stream->Some_0)),
    {
        match &self.stream {
            Some(reader) => reader.is_finished(),
            None => false,
        }
    }

    /// Sets an option. A statement has none: every key is rejected.
    pub fn set_option(&mut self, key: OptionStatement, value: OptionValue) -> (r: Result<
        (),
        Error,
    >)
        ensures
            r is Err,
            r->Err_0@ == unknown_option(key.name()),
            *final(self) == *old(self),
    {
        Err(DatabricksErrorHelper::set_unknown_option(key.as_str()))
    }

    /// Reads a text option. A statement has none: every key is rejected.
    pub fn get_option_string(&self, key: OptionStatement) -> (r: Result<String, Error>)
        ensures
            r is Err,
            r->Err_0@ == unknown_option(key.name()),
    {
        Err(DatabricksErrorHelper::get_unknown_option(key.as_str()))
    }

    /// Reads a bytes option. A statement has none: every key is rejected.
    pub fn get_option_bytes(&self, key: OptionStatement) -> (r: Result<Vec<u8>, Error>)
        ensures
            r is Err,
            r->Err_0@ == unknown_option(key.name()),
    {
        Err(DatabricksErrorHelper::get_unknown_option(key.as_str()))
    }

    /// Reads an integer option. A statement has none: every key is rejected.
    pub fn get_option_int(&self, key: OptionStatement) -> (r: Result<i64, Error>)
        ensures
            r is Err,
            r->Err_0@ == unknown_option(key.name()),
    {
        Err(DatabricksErrorHelper::get_unknown_option(key.as_str()))
    }

    /// Reads a double option, as its bit pattern. A statement has none:
    /// every key is rejected.
    pub fn get_option_double(&self, key: OptionStatement) -> (r: Result<u64, Error>)
        ensures
            r is Err,
            r->Err_0@ == unknown_option(key.name()),
    {
        Err(DatabricksErrorHelper::get_unknown_option(key.as_str()))
    }

    /// Substrait plans are not supported.
    pub fn set_substrait_plan(&mut self, plan: &[u8]) -> (r: Result<(), Error>)
        ensures
            r is Err,
            r->Err_0@ == plain(Status::NotImplemented, feature_name(Feature::SubstraitPlan)),
            *final(self) == *old(self),
    {
        Err(missing(Feature::SubstraitPlan))
    }

    /// Prepared statements are not supported.
    pub fn prepare(&mut self) -> (r: Result<(), Error>)
        ensures
            r is Err,
            r->Err_0@ == plain(Status::NotImplemented, feature_name(Feature::Prepare)),
            *final(self) == *old(self),
    {
        Err(missing(Feature::Prepare))
    }

    /// Parameter schemas are not supported.
    pub fn get_parameter_schema(&self) -> (r: Result<Arc<arrow_schema::Schema>, Error>)
        ensures
            r is Err,
            r->Err_0@ == plain(Status::NotImplemented, feature_name(Feature::ParameterSchema)),
    {
        Err(missing(Feature::ParameterSchema))
    }

    /// Bound parameters are not supported.
    pub fn bind(&mut self, batch: Batch) -> (r: Result<(), Error>)
        ensures
            r is Err,
            r->Err_0@ == plain(Status::NotImplemented, feature_name(Feature::Bind)),
            *final(self) == *old(self),
    {
        Err(missing(Feature::Bind))
    }

    /// Bound parameter streams are not supported.
    pub fn bind_stream(&mut self, stream: Vec<Batch>) -> (r: Result<(), Error>)
        ensures
            r is Err,
            r->Err_0@ == plain(Status::NotImplemented, feature_name(Feature::BindStream)),
            *final(self) == *old(self),
    {
        Err(missing(Feature::BindStream))
    }

    /// Updates are not supported.
    pub fn execute_update(&mut self) -> (r: Result<Option<i64>, Error>)
        ensures
            r is Err,
            r->Err_0@ == plain(Status::NotImplemented, feature_name(Feature::ExecuteUpdate)),
            *final(self) == *old(self),
    {
        Err(missing(Feature::ExecuteUpdate))
    }

    /// Execution for the schema alone is not supported.
    pub fn execute_schema(&mut self) -> (r: Result<Arc<arrow_schema::Schema>, Error>)
        ensures
            r is Err,
            r->Err_0@ == plain(Status::NotImplemented, feature_name(Feature::ExecuteSchema)),
            *final(self) == *old(self),
    {
        Err(missing(Feature::ExecuteSchema))
    }

    /// Partitioned execution is not supported.
    pub fn execute_partitions(&mut self) -> (r: Result<Vec<Vec<u8>>, Error>)
        ensures
            r is Err,
            r->Err_0@ == plain(Status::NotImplemented, feature_name(Feature::ExecutePartitions)),
            *final(self) == *old(self),
    {
        Err(missing(Feature::ExecutePartitions))
    }
}

} // verus!

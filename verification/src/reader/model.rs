//! The retrieval scheduler as a transition system.
//!
//! A [`ReaderModel`] is the state of one result stream as mathematical data;
//! each operation of the stream is a function from a state to the next state
//! and to what the operation hands back. The reader in `cloudfetch` computes
//! exactly these functions; the laws in `laws` are proved of them.

use vstd::prelude::*;
use crate::error::{ErrorView, Stage, Status};
use crate::reader::link::{ascending, first_with_index, CloudFetchConfig, LinkView};
use crate::reader::retry::{expired, failure_class, retry_delay, FailureClass};
use crate::result::batch::{all_conform, Batch};

verus! {

/// Where one admitted chunk stands.
#[derive(Clone, Copy, Debug, PartialEq, Eq, Structural)]
pub enum ChunkState {
    /// Pending: the link has expired and a fresh one was asked for.
    AwaitingLink,
    /// Pending: the credential was rejected and a fresh one was asked for.
    AwaitingCredential,
    /// A fetch is under way.
    Fetching,
    /// Fetched and decoded; its batches wait for delivery.
    Decoded,
    /// Failed for good: the stream fails when delivery reaches this chunk.
    Failed,
}

/// Whether a stream still works.
#[derive(Clone, Copy, Debug, PartialEq, Eq, Structural)]
pub enum Phase {
    Open,
    Cancelled,
    Closed,
}

/// One chunk in the active window.
pub struct ChunkModel {
    pub link: LinkView,
    /// How many fetches were started for this chunk.
    pub attempt_count: nat,
    pub state: ChunkState,
    /// Whether a fresh link was asked for, which happens at most once.
    pub link_refreshed: bool,
    /// Whether a fresh credential was asked for, which happens at most once.
    pub credential_refreshed: bool,
    /// The decoded batches that are not delivered yet.
    pub batches: Seq<Batch>,
    /// The bytes that this chunk takes of the buffer budget.
    pub bytes: nat,
    /// Why the chunk failed, if it did.
    pub error: Option<ErrorView>,
}

/// What the scheduler asks its caller to do.
pub enum ActionView {
    /// Download the chunk at `position` from `link`, after `delay_ms`.
    Fetch { position: nat, link: LinkView, delay_ms: nat },
    /// Ask the warehouse for fresh links, for the chunk at `position`.
    RefreshLinks { position: nat },
    /// Ask the auth provider for a fresh credential, for the chunk at
    /// `position`.
    RefreshCredential { position: nat },
}

/// What came of one fetch.
pub enum OutcomeView {
    /// The bytes arrived and were decoded.
    Body { byte_count: nat, batches: Seq<Batch>, decoded_bytes: nat },
    /// The bytes arrived and are no columnar stream.
    Undecodable { byte_count: nat },
    /// The store answered with a status other than success.
    Http { status: u16 },
    /// The store could not be reached, or the connection broke.
    Network,
}

/// The state of one result stream.
pub struct ReaderModel {
    pub config: CloudFetchConfig,
    /// How many fetches a chunk gets before a transient failure is final.
    pub max_attempts: nat,
    /// The field types of the result schema, if batches are held to one.
    pub schema: Option<Seq<Seq<char>>>,
    /// All links of the result, in order.
    pub links: Seq<LinkView>,
    /// Why the stream cannot work at all, if it cannot.
    pub fault: Option<ErrorView>,
    /// The place in `links` of the chunk that is delivered next.
    pub next_deliver: nat,
    /// The admitted chunks: those at `next_deliver` and the places after it.
    pub window: Seq<ChunkModel>,
    pub phase: Phase,
}

/// What the error says where the links of a stream are out of order.
pub const LINKS_OUT_OF_ORDER: &'static str = "chunk links are not in ascending sequence order";

/// What the error says where a chunk has another length than announced.
pub const LENGTH_MISMATCH: &'static str = "chunk length differs from the length its link announces";

/// What the error says where a batch has other columns than the schema.
pub const SCHEMA_MISMATCH: &'static str = "batch does not match the result schema";

/// What the error says where a decoded chunk is larger than the budget
/// leaves room for.
pub const OVER_BUDGET: &'static str = "decoded chunk does not fit the buffer budget";

/// What the error says where the bytes of a chunk cannot be decoded.
pub const NOT_COLUMNAR: &'static str = "chunk is not a columnar stream";

/// What the error says where the store rejects the fresh credential too.
pub const CREDENTIAL_REJECTED: &'static str = "credential rejected after it was refreshed";

/// What the error says where the auth provider gives no fresh credential.
pub const CREDENTIAL_UNAVAILABLE: &'static str = "no fresh credential could be had";

/// What the error says where the store forbids the fetch.
pub const ACCESS_DENIED: &'static str = "access to the chunk was denied";

/// What the error says where the last attempt of a chunk has failed.
pub const RETRIES_EXHAUSTED: &'static str = "chunk fetch failed on every attempt";

/// What the error says where the store answers with a status that no
/// retry can mend.
pub const UNEXPECTED_STATUS: &'static str = "chunk fetch was refused";

/// What the error says where the fresh links hold none for the chunk.
pub const NO_FRESH_LINK: &'static str = "the refreshed links hold none for the chunk";

/// What the error says where a chunk can never be fetched: there is no
/// download slot, or its size is over the budget.
pub const NEVER_ADMISSIBLE: &'static str = "the configuration admits no download of the chunk";

/// What the error of a cancelled stream says.
pub const STREAM_CANCELLED: &'static str = "the result stream was cancelled";

/// The failure of the chunk with this sequence index.
pub open spec fn chunk_error(
    status: Status,
    stage: Stage,
    message: Seq<char>,
    sequence_index: nat,
) -> ErrorView {
    ErrorView { status, message, context: None, stage: Some(stage), chunk: Some(sequence_index) }
}

/// The error that every pull of a cancelled stream returns.
pub open spec fn cancel_error() -> ErrorView {
    ErrorView {
        status: Status::Cancelled,
        message: STREAM_CANCELLED@,
        context: None,
        stage: None,
        chunk: None,
    }
}

/// The error of a stream whose links are out of order.
pub open spec fn order_error() -> ErrorView {
    ErrorView {
        status: Status::InvalidArgument,
        message: LINKS_OUT_OF_ORDER@,
        context: None,
        stage: None,
        chunk: None,
    }
}

/// Whether a chunk holds one of the download slots: it does from its
/// admission until it is decoded or has failed.
pub open spec fn occupies(c: ChunkModel) -> bool {
    c.state is AwaitingLink || c.state is AwaitingCredential || c.state is Fetching
}

/// The sum of `weight` over the chunks of `window`.
pub open spec fn tally(window: Seq<ChunkModel>, weight: spec_fn(ChunkModel) -> nat) -> nat
    decreases window.len(),
{
    if window.len() == 0 {
        0
    } else {
        tally(window.drop_last(), weight) + weight(window.last())
    }
}

/// One for a chunk that holds a download slot, zero for another.
pub open spec fn slot_weight() -> spec_fn(ChunkModel) -> nat {
    |c: ChunkModel|
        if occupies(c) {
            1nat
        } else {
            0nat
        }
}

/// The bytes that a chunk takes of the budget.
pub open spec fn byte_weight() -> spec_fn(ChunkModel) -> nat {
    |c: ChunkModel| c.bytes
}

/// The number of fetches in flight: the chunks of `window` that hold a
/// download slot.
pub open spec fn in_flight(window: Seq<ChunkModel>) -> nat {
    tally(window, slot_weight())
}

/// The bytes that the chunks of `window` take of the buffer budget: for a
/// decoded chunk its decoded size, for one under download the size that its
/// link announces.
pub open spec fn bytes_held(window: Seq<ChunkModel>) -> nat {
    tally(window, byte_weight())
}

/// The place in `links` of the first chunk that is not admitted yet.
pub open spec fn next_admit(m: ReaderModel) -> nat {
    m.next_deliver + m.window.len()
}

/// Whether a chunk has failed: the window then ends with it, and nothing is
/// admitted after it.
pub open spec fn stopped(m: ReaderModel) -> bool {
    m.window.len() > 0 && m.window.last().state is Failed
}

/// The stream of `links` before anything was admitted.
pub open spec fn initial(
    config: CloudFetchConfig,
    links: Seq<LinkView>,
    max_attempts: nat,
    schema: Option<Seq<Seq<char>>>,
) -> ReaderModel {
    ReaderModel {
        config,
        max_attempts,
        schema,
        links,
        fault: if ascending(links) {
            None
        } else {
            Some(order_error())
        },
        next_deliver: 0,
        window: Seq::empty(),
        phase: Phase::Open,
    }
}

/// A chunk as it enters the window at `now`: under download, or, where its
/// link has expired, waiting for a fresh link.
pub open spec fn admitted_chunk(link: LinkView, now: nat) -> ChunkModel {
    if expired(link.expires_at, now) {
        ChunkModel {
            link,
            attempt_count: 0,
            state: ChunkState::AwaitingLink,
            link_refreshed: true,
            credential_refreshed: false,
            batches: Seq::empty(),
            bytes: link.size,
            error: None,
        }
    } else {
        ChunkModel {
            link,
            attempt_count: 1,
            state: ChunkState::Fetching,
            link_refreshed: false,
            credential_refreshed: false,
            batches: Seq::empty(),
            bytes: link.size,
            error: None,
        }
    }
}

/// What is asked for when a chunk enters the window at `now`.
pub open spec fn admission_action(position: nat, link: LinkView, now: nat) -> ActionView {
    if expired(link.expires_at, now) {
        ActionView::RefreshLinks { position }
    } else {
        ActionView::Fetch { position, link, delay_ms: 0 }
    }
}

/// A chunk that has failed with `error`: it holds no batches and no bytes.
pub open spec fn failed_chunk(c: ChunkModel, error: ErrorView) -> ChunkModel {
    ChunkModel { state: ChunkState::Failed, batches: Seq::empty(), bytes: 0, error: Some(error), ..c }
}

/// A chunk that never was under download and has failed with `error`.
pub open spec fn rejected_chunk(link: LinkView, error: ErrorView) -> ChunkModel {
    ChunkModel {
        link,
        attempt_count: 0,
        state: ChunkState::Failed,
        link_refreshed: false,
        credential_refreshed: false,
        batches: Seq::empty(),
        bytes: 0,
        error: Some(error),
    }
}

/// Whether the next link can be admitted now: the stream works, no chunk has
/// failed, a link is left, the window has room within the prefetch count, a
/// download slot is free, and the link's announced size fits the budget.
pub open spec fn may_admit(m: ReaderModel) -> bool {
    &&& m.phase is Open
    &&& m.fault is None
    &&& !stopped(m)
    &&& next_admit(m) < m.links.len()
    &&& m.window.len() <= m.config.prefetch_count
    &&& in_flight(m.window) < m.config.parallel_downloads
    &&& bytes_held(m.window) + m.links[next_admit(m) as int].size <= m.config.max_buffer_size
}

/// Whether the next link can never be admitted: the window is empty, and
/// still there is no download slot or the link's size is over the budget.
pub open spec fn never_admissible(m: ReaderModel) -> bool {
    &&& m.phase is Open
    &&& m.fault is None
    &&& m.window.len() == 0
    &&& next_admit(m) < m.links.len()
    &&& (m.config.parallel_downloads == 0 || m.links[next_admit(m) as int].size
        > m.config.max_buffer_size)
}

/// Admission at `now`: the next link enters the window where it may; where
/// it never can, the stream fails at it.
pub open spec fn admit_model(m: ReaderModel, now: nat) -> (ReaderModel, Option<ActionView>) {
    if may_admit(m) {
        let link = m.links[next_admit(m) as int];
        (
            ReaderModel { window: m.window.push(admitted_chunk(link, now)), ..m },
            Some(admission_action(next_admit(m), link, now)),
        )
    } else if never_admissible(m) {
        let link = m.links[next_admit(m) as int];
        let error = chunk_error(
            Status::InvalidArgument,
            Stage::Fetch,
            NEVER_ADMISSIBLE@,
            link.sequence_index,
        );
        (ReaderModel { window: m.window.push(rejected_chunk(link, error)), ..m }, None)
    } else {
        (m, None)
    }
}

/// Whether the chunk at `position` is in the window of a working stream.
pub open spec fn in_window(m: ReaderModel, position: nat) -> bool {
    m.phase is Open && m.next_deliver <= position < next_admit(m)
}

/// The chunk at `position`.
pub open spec fn chunk_at(m: ReaderModel, position: nat) -> ChunkModel {
    m.window[position - m.next_deliver]
}

/// The stream with the chunk at `position` replaced.
pub open spec fn with_chunk(m: ReaderModel, position: nat, c: ChunkModel) -> ReaderModel {
    ReaderModel { window: m.window.update(position - m.next_deliver, c), ..m }
}

/// The stream failed at `position`: the chunk there has failed, and the
/// chunks after it have left the window.
pub open spec fn fail_at(m: ReaderModel, position: nat, error: ErrorView) -> ReaderModel {
    let i = position - m.next_deliver;
    ReaderModel { window: m.window.subrange(0, i).push(failed_chunk(m.window[i], error)), ..m }
}

/// The chunk under download once more, and the fetch to start for it.
pub open spec fn refetch(m: ReaderModel, position: nat, link: LinkView, delay_ms: nat) -> (
    ReaderModel,
    Option<ActionView>,
) {
    let c = chunk_at(m, position);
    (
        with_chunk(
            m,
            position,
            ChunkModel {
                link,
                state: ChunkState::Fetching,
                attempt_count: c.attempt_count + 1,
                ..c
            },
        ),
        Some(ActionView::Fetch { position, link, delay_ms }),
    )
}

/// A transient failure of the chunk at `position`: tried again after the
/// backoff while attempts are left, with a fresh link first where the link
/// has expired and was not refreshed before; final once the attempts are
/// spent.
pub open spec fn transient_model(m: ReaderModel, position: nat, now: nat) -> (
    ReaderModel,
    Option<ActionView>,
) {
    let c = chunk_at(m, position);
    if c.attempt_count >= m.max_attempts {
        (
            fail_at(
                m,
                position,
                chunk_error(
                    Status::Transient,
                    Stage::Fetch,
                    RETRIES_EXHAUSTED@,
                    c.link.sequence_index,
                ),
            ),
            None,
        )
    } else if expired(c.link.expires_at, now) && !c.link_refreshed {
        (
            with_chunk(
                m,
                position,
                ChunkModel { state: ChunkState::AwaitingLink, link_refreshed: true, ..c },
            ),
            Some(ActionView::RefreshLinks { position }),
        )
    } else {
        refetch(m, position, c.link, retry_delay(c.attempt_count))
    }
}

/// A response status other than success for the chunk at `position`.
pub open spec fn status_model(m: ReaderModel, position: nat, status: u16, now: nat) -> (
    ReaderModel,
    Option<ActionView>,
) {
    let c = chunk_at(m, position);
    match failure_class(status) {
        FailureClass::Unauthorized => if c.credential_refreshed {
            (
                fail_at(
                    m,
                    position,
                    chunk_error(
                        Status::AuthFailure,
                        Stage::Fetch,
                        CREDENTIAL_REJECTED@,
                        c.link.sequence_index,
                    ),
                ),
                None,
            )
        } else {
            (
                with_chunk(
                    m,
                    position,
                    ChunkModel {
                        state: ChunkState::AwaitingCredential,
                        credential_refreshed: true,
                        ..c
                    },
                ),
                Some(ActionView::RefreshCredential { position }),
            )
        },
        FailureClass::Forbidden => (
            fail_at(
                m,
                position,
                chunk_error(
                    Status::AuthFailure,
                    Stage::Fetch,
                    ACCESS_DENIED@,
                    c.link.sequence_index,
                ),
            ),
            None,
        ),
        FailureClass::Transient => transient_model(m, position, now),
        FailureClass::Fatal => (
            fail_at(
                m,
                position,
                chunk_error(
                    Status::Unknown,
                    Stage::Fetch,
                    UNEXPECTED_STATUS@,
                    c.link.sequence_index,
                ),
            ),
            None,
        ),
    }
}

/// The downloaded and decoded chunk at `position`: held for delivery where
/// its length is the announced one, its batches match the result schema and
/// its decoded size fits the budget; a data-integrity failure otherwise.
pub open spec fn body_model(
    m: ReaderModel,
    position: nat,
    byte_count: nat,
    batches: Seq<Batch>,
    decoded_bytes: nat,
) -> ReaderModel {
    let c = chunk_at(m, position);
    if byte_count != c.link.size {
        fail_at(
            m,
            position,
            chunk_error(
                Status::DataIntegrity,
                Stage::Fetch,
                LENGTH_MISMATCH@,
                c.link.sequence_index,
            ),
        )
    } else if m.schema is Some && !all_conform(batches, m.schema->Some_0) {
        fail_at(
            m,
            position,
            chunk_error(
                Status::DataIntegrity,
                Stage::Decode,
                SCHEMA_MISMATCH@,
                c.link.sequence_index,
            ),
        )
    } else if bytes_held(m.window) - c.bytes + decoded_bytes > m.config.max_buffer_size {
        fail_at(
            m,
            position,
            chunk_error(Status::DataIntegrity, Stage::Decode, OVER_BUDGET@, c.link.sequence_index),
        )
    } else {
        with_chunk(
            m,
            position,
            ChunkModel { state: ChunkState::Decoded, batches, bytes: decoded_bytes, ..c },
        )
    }
}

/// The downloaded chunk at `position` that is no columnar stream.
pub open spec fn undecodable_model(m: ReaderModel, position: nat, byte_count: nat) -> ReaderModel {
    let c = chunk_at(m, position);
    if byte_count != c.link.size {
        fail_at(
            m,
            position,
            chunk_error(
                Status::DataIntegrity,
                Stage::Fetch,
                LENGTH_MISMATCH@,
                c.link.sequence_index,
            ),
        )
    } else {
        fail_at(
            m,
            position,
            chunk_error(Status::DataIntegrity, Stage::Decode, NOT_COLUMNAR@, c.link.sequence_index),
        )
    }
}

/// What came of the fetch of the chunk at `position`. An outcome for a chunk
/// that is not under download changes nothing.
pub open spec fn outcome_model(m: ReaderModel, position: nat, outcome: OutcomeView, now: nat) -> (
    ReaderModel,
    Option<ActionView>,
) {
    if !in_window(m, position) || !(chunk_at(m, position).state is Fetching) {
        (m, None)
    } else {
        match outcome {
            OutcomeView::Body { byte_count, batches, decoded_bytes } => (
                body_model(m, position, byte_count, batches, decoded_bytes),
                None,
            ),
            OutcomeView::Undecodable { byte_count } => (
                undecodable_model(m, position, byte_count),
                None,
            ),
            OutcomeView::Http { status } => status_model(m, position, status, now),
            OutcomeView::Network => transient_model(m, position, now),
        }
    }
}

/// Fresh links for the chunk at `position`, which waits for one: the chunk
/// goes under download from the first of them that has its sequence index,
/// and fails where there is none.
pub open spec fn links_refreshed_model(m: ReaderModel, position: nat, fresh: Seq<LinkView>) -> (
    ReaderModel,
    Option<ActionView>,
) {
    if !in_window(m, position) || !(chunk_at(m, position).state is AwaitingLink) {
        (m, None)
    } else {
        let c = chunk_at(m, position);
        match first_with_index(fresh, c.link.sequence_index) {
            Some(i) => refetch(m, position, fresh[i], 0),
            None => (
                fail_at(
                    m,
                    position,
                    chunk_error(
                        Status::DataIntegrity,
                        Stage::Fetch,
                        NO_FRESH_LINK@,
                        c.link.sequence_index,
                    ),
                ),
                None,
            ),
        }
    }
}

/// The warehouse could not give fresh links for the chunk at `position`:
/// the chunk fails with the warehouse's error.
pub open spec fn refresh_failed_model(m: ReaderModel, position: nat, error: ErrorView) -> ReaderModel {
    if !in_window(m, position) || !(chunk_at(m, position).state is AwaitingLink) {
        m
    } else {
        fail_at(m, position, error)
    }
}

/// A fresh credential for the chunk at `position`, which waits for one: the
/// chunk goes under download once more, at once.
pub open spec fn credential_refreshed_model(m: ReaderModel, position: nat) -> (
    ReaderModel,
    Option<ActionView>,
) {
    if !in_window(m, position) || !(chunk_at(m, position).state is AwaitingCredential) {
        (m, None)
    } else {
        refetch(m, position, chunk_at(m, position).link, 0)
    }
}

/// No fresh credential could be had for the chunk at `position`: the chunk
/// fails.
pub open spec fn credential_failed_model(m: ReaderModel, position: nat) -> ReaderModel {
    if !in_window(m, position) || !(chunk_at(m, position).state is AwaitingCredential) {
        m
    } else {
        fail_at(
            m,
            position,
            chunk_error(
                Status::AuthFailure,
                Stage::Fetch,
                CREDENTIAL_UNAVAILABLE@,
                chunk_at(m, position).link.sequence_index,
            ),
        )
    }
}

/// Whether a chunk is decoded and has no batch left to deliver.
pub open spec fn spent(c: ChunkModel) -> bool {
    c.state is Decoded && c.batches.len() == 0
}

/// The stream with the spent chunks at the head of the window let go.
pub open spec fn drop_spent(m: ReaderModel) -> ReaderModel
    decreases m.window.len(),
{
    if m.window.len() > 0 && spent(m.window[0]) {
        drop_spent(
            ReaderModel {
                window: m.window.subrange(1, m.window.len() as int),
                next_deliver: m.next_deliver + 1,
                ..m
            },
        )
    } else {
        m
    }
}

/// The stream after the first batch of its head chunk was delivered: the
/// chunk leaves the window with its last batch.
pub open spec fn after_delivery(m: ReaderModel) -> ReaderModel {
    let c = m.window[0];
    let rest = c.batches.subrange(1, c.batches.len() as int);
    if rest.len() == 0 {
        ReaderModel {
            window: m.window.subrange(1, m.window.len() as int),
            next_deliver: m.next_deliver + 1,
            ..m
        }
    } else {
        ReaderModel { window: m.window.update(0, ChunkModel { batches: rest, ..c }), ..m }
    }
}

/// A pull: the next batch of the chunk that is due, if that chunk is
/// decoded; the chunk's error if it has failed; nothing if it is still
/// under way or if all chunks were delivered. A cancelled stream gives the
/// cancellation error, a closed one nothing.
pub open spec fn pull_model(m: ReaderModel) -> (ReaderModel, Result<Option<Batch>, ErrorView>) {
    if m.phase is Cancelled {
        (m, Err(cancel_error()))
    } else if m.phase is Closed {
        (m, Ok(None))
    } else if m.fault is Some {
        (m, Err(m.fault->Some_0))
    } else {
        let n = drop_spent(m);
        if n.window.len() == 0 {
            (n, Ok(None))
        } else if n.window[0].state is Decoded {
            (after_delivery(n), Ok(Some(n.window[0].batches[0])))
        } else if n.window[0].state is Failed {
            (n, Err(n.window[0].error->Some_0))
        } else {
            (n, Ok(None))
        }
    }
}

/// Cancellation: a working stream lets go of its window and is cancelled.
pub open spec fn cancel_model(m: ReaderModel) -> ReaderModel {
    if m.phase is Open {
        ReaderModel { phase: Phase::Cancelled, window: Seq::empty(), ..m }
    } else {
        m
    }
}

/// Closing: the stream lets go of its window and is closed.
pub open spec fn close_model(m: ReaderModel) -> ReaderModel {
    ReaderModel { phase: Phase::Closed, window: Seq::empty(), ..m }
}

/// Whether the stream has nothing more to give: it is closed, or it works
/// and every chunk was delivered.
pub open spec fn finished(m: ReaderModel) -> bool {
    m.phase is Closed || (m.phase is Open && m.fault is None && m.window.len() == 0
        && m.next_deliver == m.links.len())
}

/// What holds of one chunk of a window.
pub open spec fn chunk_wf(c: ChunkModel) -> bool {
    &&& c.state is Failed <==> c.error is Some
    &&& !(c.state is Decoded) ==> c.batches.len() == 0
    &&& c.state is Failed ==> c.bytes == 0
}

/// One operation on a stream, with what the caller brings to it.
pub enum Op {
    /// The caller asks whether to start the next fetch.
    StartNext { now: nat },
    /// The caller reports what came of a fetch.
    Outcome { position: nat, outcome: OutcomeView, now: nat },
    /// The caller reports fresh links.
    LinksRefreshed { position: nat, fresh: Seq<LinkView> },
    /// The caller reports that no fresh links could be had.
    RefreshFailed { position: nat, error: ErrorView },
    /// The caller reports a fresh credential.
    CredentialRefreshed { position: nat },
    /// The caller reports that no fresh credential could be had.
    CredentialFailed { position: nat },
    /// The caller pulls the next batch.
    Pull,
    /// The caller cancels the stream.
    Cancel,
    /// The caller closes the stream.
    Close,
}

/// What an operation does: the state it leaves, the action it asks for, and,
/// for a pull, what the pull gives.
pub struct Effect {
    pub next: ReaderModel,
    pub action: Option<ActionView>,
    pub pulled: Option<Result<Option<Batch>, ErrorView>>,
}

/// What `op` does in state `m`.
pub open spec fn apply(m: ReaderModel, op: Op) -> Effect {
    match op {
        Op::StartNext { now } => Effect {
            next: admit_model(m, now).0,
            action: admit_model(m, now).1,
            pulled: None,
        },
        Op::Outcome { position, outcome, now } => Effect {
            next: outcome_model(m, position, outcome, now).0,
            action: outcome_model(m, position, outcome, now).1,
            pulled: None,
        },
        Op::LinksRefreshed { position, fresh } => Effect {
            next: links_refreshed_model(m, position, fresh).0,
            action: links_refreshed_model(m, position, fresh).1,
            pulled: None,
        },
        Op::RefreshFailed { position, error } => Effect {
            next: refresh_failed_model(m, position, error),
            action: None,
            pulled: None,
        },
        Op::CredentialRefreshed { position } => Effect {
            next: credential_refreshed_model(m, position).0,
            action: credential_refreshed_model(m, position).1,
            pulled: None,
        },
        Op::CredentialFailed { position } => Effect {
            next: credential_failed_model(m, position),
            action: None,
            pulled: None,
        },
        Op::Pull => Effect { next: pull_model(m).0, action: None, pulled: Some(pull_model(m).1) },
        Op::Cancel => Effect { next: cancel_model(m), action: None, pulled: None },
        Op::Close => Effect { next: close_model(m), action: None, pulled: None },
    }
}

/// Whether a chunk is within its attempts: beyond the `max_attempts` tries
/// that transient failures can use up, a chunk gets its first fetch and one
/// more for each refresh, and a chunk that waits for a refresh has the fetch
/// after it still to come.
pub open spec fn within_attempts(c: ChunkModel, max_attempts: nat) -> bool {
    c.attempt_count + (if c.state is AwaitingLink || c.state is AwaitingCredential {
        1nat
    } else {
        0nat
    }) <= max_attempts + 1 + (if c.link_refreshed {
        1nat
    } else {
        0nat
    }) + (if c.credential_refreshed {
        1nat
    } else {
        0nat
    })
}

/// What holds of every state of a stream: the window follows the links in
/// order and is no longer than the prefetch count allows, no more fetches
/// are in flight than there are download slots, the held bytes are within
/// the budget, and only the last chunk of the window can have failed.
pub open spec fn wf(m: ReaderModel) -> bool {
    &&& m.fault is None ==> ascending(m.links)
    &&& next_admit(m) <= m.links.len()
    &&& m.window.len() <= m.config.prefetch_count + 1
    &&& in_flight(m.window) <= m.config.parallel_downloads
    &&& bytes_held(m.window) <= m.config.max_buffer_size
    &&& forall|i: int|
        0 <= i < m.window.len() ==> {
            &&& chunk_wf(#[trigger] m.window[i])
            &&& within_attempts(m.window[i], m.max_attempts)
            &&& m.window[i].link.sequence_index == m.links[m.next_deliver + i].sequence_index
            &&& (m.window[i].state is Failed ==> i == m.window.len() - 1)
        }
    &&& (!(m.phase is Open) || m.fault is Some) ==> m.window.len() == 0
}

/// A chunk of a well-formed state has had far fewer fetches than can be
/// counted.
pub proof fn lemma_attempts_bounded(m: ReaderModel, position: nat)
    requires
        wf(m),
        in_window(m, position),
    ensures
        chunk_at(m, position).attempt_count <= m.max_attempts + 3,
{
    assert(within_attempts(m.window[position - m.next_deliver], m.max_attempts));
}

} // verus!

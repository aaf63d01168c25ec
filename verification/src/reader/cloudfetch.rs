//! CloudFetch reader for downloading results from cloud storage.
//!
//! CloudFetch retrieves the chunks of a result directly from cloud storage,
//! several at a time, and hands their batches to the caller in the order of
//! the result. The reader here decides; it does not download. It tells its
//! caller which chunk to fetch next ([`CloudFetchReader::start_next`]), is told
//! what came of each fetch ([`CloudFetchReader::on_outcome`]), and gives out
//! the batches in order ([`CloudFetchReader::next_batch`]).

use vstd::prelude::*;
use std::sync::Arc;
use crate::error::{DatabricksErrorHelper, Error, ErrorView, Stage, Status};
use crate::reader::link::{find_link, is_ascending, link_views};
pub use crate::reader::link::{CloudFetchConfig, CloudFetchLink};
use crate::reader::model::{
    admit_model, byte_weight, bytes_held, cancel_model, chunk_at, close_model,
    credential_failed_model, credential_refreshed_model, drop_spent, fail_at, finished,
    in_flight, in_window, initial, links_refreshed_model, may_admit, never_admissible,
    outcome_model, pull_model, refetch, refresh_failed_model, slot_weight, spent, stopped, tally,
    wf, ActionView, ChunkModel, ChunkState, Op, OutcomeView, Phase, ReaderModel, ACCESS_DENIED,
    CREDENTIAL_REJECTED, CREDENTIAL_UNAVAILABLE, LENGTH_MISMATCH, LINKS_OUT_OF_ORDER,
    NEVER_ADMISSIBLE, NOT_COLUMNAR, NO_FRESH_LINK, OVER_BUDGET, RETRIES_EXHAUSTED,
    SCHEMA_MISMATCH, STREAM_CANCELLED, UNEXPECTED_STATUS,
};
use crate::reader::retry::{
    classify_status, is_expired, retry_delay_ms, FailureClass, DEFAULT_MAX_ATTEMPTS,
};
use crate::reader::wellformed::{
    lemma_admit_wf, lemma_credential_failed_wf, lemma_credential_refreshed_wf,
    lemma_drop_spent_wf, lemma_links_refreshed_wf, lemma_outcome_wf, lemma_pull_wf,
    lemma_advance_wf, lemma_refresh_failed_wf, lemma_shutdown_wf, lemma_tally_member,
    lemma_tally_prefix,
};
use crate::result::batch::{all_batches_conform, field_types, schema_field_types, type_names, Batch};

verus! {

/// One chunk in the active window of a reader: made when its link is
/// admitted, gone once its batches are delivered.
#[derive(Debug)]
pub struct InFlightChunk {
    link: CloudFetchLink,
    attempt_count: u64,
    state: ChunkState,
    link_refreshed: bool,
    credential_refreshed: bool,
    batches: Vec<Batch>,
    bytes: u64,
    error: Option<Error>,
}

impl View for InFlightChunk {
    type V = ChunkModel;

    closed spec fn view(&self) -> ChunkModel {
        ChunkModel {
            link: self.link@,
            attempt_count: self.attempt_count as nat,
            state: self.state,
            link_refreshed: self.link_refreshed,
            credential_refreshed: self.credential_refreshed,
            batches: self.batches@,
            bytes: self.bytes as nat,
            error: match self.error {
                Some(e) => Some(e@),
                None => None,
            },
        }
    }
}

impl InFlightChunk {
    /// The link that the chunk is fetched from: the one that the warehouse
    /// issued first, or the fresh one that took its place.
    pub fn link(&self) -> (link: &CloudFetchLink)
        ensures
            link@ == self@.link,
    {
        &self.link
    }

    /// How many fetches were started for the chunk.
    pub fn attempt_count(&self) -> (count: u64)
        ensures
            count == self@.attempt_count,
    {
        self.attempt_count
    }

    /// Where the chunk stands.
    pub fn state(&self) -> (state: ChunkState)
        ensures
            state == self@.state,
    {
        self.state
    }

    /// How many decoded batches of the chunk wait for delivery.
    pub fn batch_count(&self) -> (count: usize)
        ensures
            count == self@.batches.len(),
    {
        self.batches.len()
    }

    /// The bytes that the chunk takes of the buffer budget.
    pub fn bytes(&self) -> (bytes: u64)
        ensures
            bytes == self@.bytes,
    {
        self.bytes
    }
}

/// What the reader asks its caller to do.
#[derive(Debug)]
pub enum FetchAction {
    /// Download the chunk at `position` of the link list from `link`, after
    /// a wait of `delay_ms` milliseconds, and report what came of it.
    Fetch { position: usize, link: CloudFetchLink, delay_ms: u64 },
    /// Ask the warehouse for fresh links and report them for the chunk at
    /// `position`.
    RefreshLinks { position: usize },
    /// Ask the auth provider for a fresh credential and report for the chunk
    /// at `position` whether there is one.
    RefreshCredential { position: usize },
}

impl View for FetchAction {
    type V = ActionView;

    open spec fn view(&self) -> ActionView {
        match self {
            FetchAction::Fetch { position, link, delay_ms } => ActionView::Fetch {
                position: *position as nat,
                link: link@,
                delay_ms: *delay_ms as nat,
            },
            FetchAction::RefreshLinks { position } => ActionView::RefreshLinks {
                position: *position as nat,
            },
            FetchAction::RefreshCredential { position } => ActionView::RefreshCredential {
                position: *position as nat,
            },
        }
    }
}

/// What came of one fetch.
#[derive(Debug)]
pub enum FetchOutcome {
    /// `byte_count` bytes arrived and were decoded into `batches`, which take
    /// `decoded_bytes` bytes of memory.
    Body { byte_count: u64, batches: Vec<Batch>, decoded_bytes: u64 },
    /// `byte_count` bytes arrived and are no columnar stream.
    Undecodable { byte_count: u64 },
    /// The store answered with a status other than success.
    Http { status: u16 },
    /// The store could not be reached, or the connection broke.
    Network,
}

impl View for FetchOutcome {
    type V = OutcomeView;

    open spec fn view(&self) -> OutcomeView {
        match self {
            FetchOutcome::Body { byte_count, batches, decoded_bytes } => OutcomeView::Body {
                byte_count: *byte_count as nat,
                batches: batches@,
                decoded_bytes: *decoded_bytes as nat,
            },
            FetchOutcome::Undecodable { byte_count } => OutcomeView::Undecodable {
                byte_count: *byte_count as nat,
            },
            FetchOutcome::Http { status } => OutcomeView::Http { status: *status },
            FetchOutcome::Network => OutcomeView::Network,
        }
    }
}

/// What a caller reports to a reader, or asks of it, while the stream runs.
/// Every `now` is in milliseconds since the epoch.
#[derive(Debug)]
pub enum StreamEvent {
    /// Whether to start the next fetch.
    StartNext { now: u64 },
    /// What came of the fetch of the chunk at `position`.
    Outcome { position: usize, outcome: FetchOutcome, now: u64 },
    /// The fresh links that the warehouse gave.
    LinksRefreshed { position: usize, fresh: Vec<CloudFetchLink> },
    /// That the warehouse gave no fresh links.
    RefreshFailed { position: usize, error: Error },
    /// That there is a fresh credential.
    CredentialRefreshed { position: usize },
    /// That no fresh credential could be had.
    CredentialFailed { position: usize },
}

impl View for StreamEvent {
    type V = Op;

    open spec fn view(&self) -> Op {
        match self {
            StreamEvent::StartNext { now } => Op::StartNext { now: *now as nat },
            StreamEvent::Outcome { position, outcome, now } => Op::Outcome {
                position: *position as nat,
                outcome: outcome@,
                now: *now as nat,
            },
            StreamEvent::LinksRefreshed { position, fresh } => Op::LinksRefreshed {
                position: *position as nat,
                fresh: link_views(fresh@),
            },
            StreamEvent::RefreshFailed { position, error } => Op::RefreshFailed {
                position: *position as nat,
                error: error@,
            },
            StreamEvent::CredentialRefreshed { position } => Op::CredentialRefreshed {
                position: *position as nat,
            },
            StreamEvent::CredentialFailed { position } => Op::CredentialFailed {
                position: *position as nat,
            },
        }
    }
}

/// The action that a reader handed back, as mathematical data.
pub open spec fn action_view(action: Option<FetchAction>) -> Option<ActionView> {
    match action {
        Some(a) => Some(a@),
        None => None,
    }
}

/// The result of a pull, as mathematical data.
pub open spec fn pull_view(pulled: Result<Option<Batch>, Error>) -> Result<
    Option<Batch>,
    ErrorView,
> {
    match pulled {
        Ok(batch) => Ok(batch),
        Err(e) => Err(e@),
    }
}

/// The chunks of a window, as mathematical data.
pub open spec fn chunk_views(window: Seq<InFlightChunk>) -> Seq<ChunkModel> {
    Seq::new(window.len(), |i: int| window[i]@)
}

/// Reader for fetching results via CloudFetch.
#[derive(Debug)]
pub struct CloudFetchReader {
    config: CloudFetchConfig,
    links: Vec<CloudFetchLink>,
    max_attempts: u32,
    schema: Option<Arc<arrow_schema::Schema>>,
    types: Option<Vec<String>>,
    fault: Option<Error>,
    next_deliver: usize,
    window: Vec<InFlightChunk>,
    phase: Phase,
}

impl View for CloudFetchReader {
    type V = ReaderModel;

    closed spec fn view(&self) -> ReaderModel {
        ReaderModel {
            config: self.config,
            max_attempts: self.max_attempts as nat,
            schema: match self.schema {
                Some(s) => Some(schema_field_types(*s)),
                None => None,
            },
            links: link_views(self.links@),
            fault: match self.fault {
                Some(e) => Some(e@),
                None => None,
            },
            next_deliver: self.next_deliver as nat,
            window: chunk_views(self.window@),
            phase: self.phase,
        }
    }
}

fn chunk_failure(status: Status, stage: Stage, message: &str, sequence_index: u64) -> (e: Error)
    ensures
        e@ == crate::reader::model::chunk_error(status, stage, message@, sequence_index as nat),
{
    Error::new(status).message(message).at_stage(stage).at_chunk(sequence_index)
}

impl CloudFetchReader {
    /// Whether this reader is in a state that its operations can leave it
    /// in.
    pub closed spec fn wf(&self) -> bool {
        &&& wf(self@)
        &&& match (self.schema, self.types) {
            (Some(s), Some(t)) => type_names(t@) == schema_field_types(*s),
            (None, None) => true,
            _ => false,
        }
    }

    /// The state of a reader is a well-formed state of the scheduler.
    pub proof fn lemma_wf(&self)
        requires
            self.wf(),
        ensures
            wf(self@),
    {
    }

    /// Creates a new CloudFetch reader with the given configuration and
    /// links, with the default number of attempts for each chunk and no
    /// schema to hold the batches to.
    pub fn new(config: CloudFetchConfig, links: Vec<CloudFetchLink>) -> (reader: Self)
        ensures
            reader.wf(),
            reader@ == initial(config, link_views(links@), DEFAULT_MAX_ATTEMPTS as nat, None),
    {
        CloudFetchReader::with_policy(config, links, DEFAULT_MAX_ATTEMPTS, None)
    }

    /// Creates a reader that gives each chunk `max_attempts` fetches before
    /// a transient failure is final, and that holds every batch to `schema`
    /// where one is given. A list of links whose sequence indices do not
    /// grow from each link to the next makes a reader that fails on the
    /// first pull.
    pub fn with_policy(
        config: CloudFetchConfig,
        links: Vec<CloudFetchLink>,
        max_attempts: u32,
        schema: Option<Arc<arrow_schema::Schema>>,
    ) -> (reader: Self)
        ensures
            reader.wf(),
            reader@ == initial(
                config,
                link_views(links@),
                max_attempts as nat,
                match schema {
                    Some(s) => Some(schema_field_types(*s)),
                    None => None,
                },
            ),
    {
        let fault = if is_ascending(&links) {
            None
        } else {
            Some(DatabricksErrorHelper::invalid_argument().message(LINKS_OUT_OF_ORDER))
        };
        let types = match &schema {
            Some(s) => {
                let names = field_types(s);
                assert(type_names(names@) =~= schema_field_types(**s));
                Some(names)
            },
            None => None,
        };
        let reader = CloudFetchReader {
            config,
            links,
            max_attempts,
            schema,
            types,
            fault,
            next_deliver: 0,
            window: Vec::new(),
            phase: Phase::Open,
        };
        assert(reader@.window =~= Seq::<ChunkModel>::empty());
        reader
    }

    /// Returns the CloudFetch configuration.
    pub fn config(&self) -> (config: &CloudFetchConfig)
        ensures
            *config == self@.config,
    {
        &self.config
    }

    /// Returns the number of result links.
    pub fn link_count(&self) -> (count: usize)
        ensures
            count == self@.links.len(),
    {
        self.links.len()
    }

    /// The schema that the batches are held to, if there is one.
    pub fn schema(&self) -> (schema: Option<&Arc<arrow_schema::Schema>>)
        ensures
            match schema {
                Some(s) => self@.schema == Some(schema_field_types(**s)),
                None => self@.schema is None,
            },
    {
        self.schema.as_ref()
    }

    /// Whether the stream works, was cancelled or was closed.
    pub fn phase(&self) -> (phase: Phase)
        ensures
            phase == self@.phase,
    {
        self.phase
    }

    /// The place in the link list of the chunk that is delivered next.
    pub fn next_position(&self) -> (position: usize)
        ensures
            position == self@.next_deliver,
    {
        self.next_deliver
    }

    /// The number of fetches in flight: the admitted chunks that are not
    /// decoded yet. It never exceeds `parallel_downloads`.
    pub fn in_flight(&self) -> (count: usize)
        requires
            self.wf(),
        ensures
            count == in_flight(self@.window),
            count <= self@.config.parallel_downloads,
    {
        let ghost views = chunk_views(self.window@);
        let mut count: usize = 0;
        let mut i: usize = 0;
        while i < self.window.len()
            invariant
                i <= self.window@.len(),
                views == chunk_views(self.window@),
                count == tally(views.subrange(0, i as int), slot_weight()),
                tally(views, slot_weight()) <= usize::MAX,
            decreases self.window@.len() - i,
        {
            proof {
                assert(views.subrange(0, i as int + 1).drop_last() =~= views.subrange(0, i as int));
                lemma_tally_prefix(views, i as int + 1, slot_weight());
            }
            let state = self.window[i].state;
            if state == ChunkState::AwaitingLink || state == ChunkState::AwaitingCredential || state
                == ChunkState::Fetching {
                count = count + 1;
            }
            i = i + 1;
        }
        assert(views.subrange(0, i as int) =~= views);
        count
    }

    /// The bytes that the admitted chunks take of the buffer budget: the
    /// decoded size of each decoded chunk and the announced size of each
    /// chunk under download. It never exceeds `max_buffer_size`.
    pub fn buffered_bytes(&self) -> (bytes: u64)
        requires
            self.wf(),
        ensures
            bytes == bytes_held(self@.window),
            bytes <= self@.config.max_buffer_size,
    {
        let ghost views = chunk_views(self.window@);
        let mut bytes: u64 = 0;
        let mut i: usize = 0;
        while i < self.window.len()
            invariant
                i <= self.window@.len(),
                views == chunk_views(self.window@),
                bytes == tally(views.subrange(0, i as int), byte_weight()),
                tally(views, byte_weight()) <= usize::MAX,
            decreases self.window@.len() - i,
        {
            proof {
                assert(views.subrange(0, i as int + 1).drop_last() =~= views.subrange(0, i as int));
                lemma_tally_prefix(views, i as int + 1, byte_weight());
            }
            bytes = bytes + self.window[i].bytes;
            i = i + 1;
        }
        assert(views.subrange(0, i as int) =~= views);
        bytes
    }

    /// The window lies within the link list.
    proof fn lemma_window_in_links(&self)
        requires
            self.wf(),
        ensures
            self.next_deliver + self.window@.len() <= self.links@.len() <= usize::MAX,
            self@.window.len() == self.window@.len(),
            self@.links.len() == self.links@.len(),
            self@.next_deliver == self.next_deliver,
    {
        assert(self.links.len() == self.links@.len());
    }

    /// The place in the window of the chunk at `position` of the link list.
    fn slot_of(&self, position: usize) -> (slot: Option<usize>)
        requires
            self.wf(),
        ensures
            match slot {
                Some(i) => in_window(self@, position as nat) && i == position - self.next_deliver
                    && i < self.window@.len(),
                None => !in_window(self@, position as nat),
            },
    {
        match self.phase {
            Phase::Open => {
                if position >= self.next_deliver && position - self.next_deliver
                    < self.window.len() {
                    Some(position - self.next_deliver)
                } else {
                    None
                }
            },
            _ => None,
        }
    }

    /// The chunk at `position` of the link list, while it is in the window:
    /// from its admission until its last batch is delivered.
    pub fn chunk(&self, position: usize) -> (chunk: Option<&InFlightChunk>)
        requires
            self.wf(),
        ensures
            match chunk {
                Some(c) => in_window(self@, position as nat) && c@ == chunk_at(
                    self@,
                    position as nat,
                ),
                None => !in_window(self@, position as nat),
            },
    {
        match self.slot_of(position) {
            Some(slot) => {
                assert(self@.window[slot as int] == self.window@[slot as int]@);
                Some(&self.window[slot])
            },
            None => None,
        }
    }

    /// Puts `chunk` in the place of the chunk at `slot` of the window.
    fn replace(&mut self, slot: usize, chunk: InFlightChunk)
        requires
            slot < old(self).window@.len(),
        ensures
            final(self)@ == (ReaderModel {
                window: old(self)@.window.update(slot as int, chunk@),
                ..old(self)@
            }),
            final(self).schema == old(self).schema,
            final(self).types == old(self).types,
            final(self).next_deliver == old(self).next_deliver,
    {
        let _ = self.window.remove(slot);
        self.window.insert(slot, chunk);
        assert(chunk_views(self.window@) =~= chunk_views(old(self).window@).update(
            slot as int,
            chunk@,
        ));
    }

    /// Fails the chunk at `slot` of the window with `error` and lets go of
    /// the chunks after it.
    fn fail(&mut self, slot: usize, error: Error)
        requires
            slot < old(self).window@.len(),
            old(self).phase is Open,
            old(self).next_deliver + slot <= usize::MAX,
        ensures
            final(self)@ == fail_at(old(self)@, (old(self).next_deliver + slot) as nat, error@),
            final(self).schema == old(self).schema,
            final(self).types == old(self).types,
            final(self).next_deliver == old(self).next_deliver,
    {
        let chunk = self.window.remove(slot);
        self.window.truncate(slot);
        let failed = InFlightChunk {
            state: ChunkState::Failed,
            batches: Vec::new(),
            bytes: 0,
            error: Some(error),
            ..chunk
        };
        self.window.push(failed);
        assert(failed@.batches =~= Seq::<Batch>::empty());
        assert(chunk_views(self.window@) =~= chunk_views(old(self).window@).subrange(
            0,
            slot as int,
        ).push(crate::reader::model::failed_chunk(old(self).window@[slot as int]@, error@)));
    }

    /// Starts one more fetch, from `link` and after `delay_ms`, for the
    /// chunk at `slot` of the window.
    fn fetch_again(&mut self, slot: usize, link: CloudFetchLink, delay_ms: u64) -> (action:
        FetchAction)
        requires
            slot < old(self).window@.len(),
            old(self).phase is Open,
            old(self).next_deliver + slot <= usize::MAX,
            old(self).window@[slot as int].attempt_count < u64::MAX,
        ensures
            (final(self)@, Some(action@)) == refetch(
                old(self)@,
                (old(self).next_deliver + slot) as nat,
                link@,
                delay_ms as nat,
            ),
            final(self).schema == old(self).schema,
            final(self).types == old(self).types,
            final(self).next_deliver == old(self).next_deliver,
    {
        let chunk = self.window.remove(slot);
        let again = InFlightChunk {
            link: link.clone(),
            state: ChunkState::Fetching,
            attempt_count: chunk.attempt_count + 1,
            ..chunk
        };
        self.window.insert(slot, again);
        assert(chunk_views(self.window@) =~= chunk_views(old(self).window@).update(
            slot as int,
            again@,
        ));
        FetchAction::Fetch { position: self.next_deliver + slot, link, delay_ms }
    }

    /// Moves the chunk at `slot` of the window, which is under download,
    /// into a state of waiting.
    fn await_refresh(&mut self, slot: usize, waiting_for_link: bool)
        requires
            slot < old(self).window@.len(),
        ensures
            final(self)@ == (ReaderModel {
                window: old(self)@.window.update(
                    slot as int,
                    if waiting_for_link {
                        ChunkModel {
                            state: ChunkState::AwaitingLink,
                            link_refreshed: true,
                            ..old(self)@.window[slot as int]
                        }
                    } else {
                        ChunkModel {
                            state: ChunkState::AwaitingCredential,
                            credential_refreshed: true,
                            ..old(self)@.window[slot as int]
                        }
                    },
                ),
                ..old(self)@
            }),
            final(self).schema == old(self).schema,
            final(self).types == old(self).types,
            final(self).next_deliver == old(self).next_deliver,
    {
        let chunk = self.window.remove(slot);
        let waiting = if waiting_for_link {
            InFlightChunk { state: ChunkState::AwaitingLink, link_refreshed: true, ..chunk }
        } else {
            InFlightChunk {
                state: ChunkState::AwaitingCredential,
                credential_refreshed: true,
                ..chunk
            }
        };
        self.window.insert(slot, waiting);
        assert(chunk_views(self.window@) =~= chunk_views(old(self).window@).update(
            slot as int,
            waiting@,
        ));
    }

    /// Admits the next link, if it can be admitted now, and says what to do
    /// for it: fetch it, or, where its link has expired at `now`
    /// (milliseconds since the epoch), ask for fresh links first. A link is
    /// admitted while the stream works, no chunk has failed, the window holds
    /// at most `prefetch_count` chunks, fewer than `parallel_downloads`
    /// fetches are in flight and the link's announced size fits what is left
    /// of `max_buffer_size`. Where the window is empty and the link still
    /// cannot be admitted, it never can: the stream then fails at it.
    pub fn start_next(&mut self, now: u64) -> (action: Option<FetchAction>)
        requires
            old(self).wf(),
        ensures
            final(self).wf(),
            (final(self)@, action_view(action)) == admit_model(old(self)@, now as nat),
    {
        proof {
            lemma_admit_wf(self@, now as nat);
        }
        match self.phase {
            Phase::Open => {},
            _ => {
                return None;
            },
        }
        if self.fault.is_some() {
            return None;
        }
        let count = self.window.len();
        if count > 0 && self.window[count - 1].state == ChunkState::Failed {
            assert(self@.window.last() == self.window@[count - 1]@);
            return None;
        }
        assert(!stopped(self@)) by {
            if count > 0 {
                assert(self@.window.last() == self.window@[count - 1]@);
            }
        }
        proof {
            self.lemma_window_in_links();
        }
        let next = self.next_deliver + count;
        if next >= self.links.len() {
            return None;
        }
        assert(self@.links[next as int] == self.links@[next as int]@);
        let size = self.links[next].size;
        let sequence_index = self.links[next].sequence_index;
        let budget = self.config.max_buffer_size as u64;
        let held = self.buffered_bytes();
        let busy = self.in_flight();
        if count <= self.config.prefetch_count && busy < self.config.parallel_downloads && size
            <= budget - held {
            let link = self.links[next].clone();
            let gone = is_expired(link.expires_at, now);
            let chunk = InFlightChunk {
                link: link.clone(),
                attempt_count: if gone {
                    0
                } else {
                    1
                },
                state: if gone {
                    ChunkState::AwaitingLink
                } else {
                    ChunkState::Fetching
                },
                link_refreshed: gone,
                credential_refreshed: false,
                batches: Vec::new(),
                bytes: size,
                error: None,
            };
            assert(chunk@.batches =~= Seq::<Batch>::empty());
            self.window.push(chunk);
            assert(chunk_views(self.window@) =~= chunk_views(old(self).window@).push(chunk@));
            if gone {
                Some(FetchAction::RefreshLinks { position: next })
            } else {
                Some(FetchAction::Fetch { position: next, link, delay_ms: 0 })
            }
        } else if count == 0 && (self.config.parallel_downloads == 0 || size > budget) {
            assert(self@.window.len() == 0);
            assert(never_admissible(self@));
            assert(!may_admit(self@)) by {
                assert(self@.window =~= Seq::<ChunkModel>::empty());
            }
            let link = self.links[next].clone();
            let error = chunk_failure(
                Status::InvalidArgument,
                Stage::Fetch,
                NEVER_ADMISSIBLE,
                sequence_index,
            );
            let chunk = InFlightChunk {
                link,
                attempt_count: 0,
                state: ChunkState::Failed,
                link_refreshed: false,
                credential_refreshed: false,
                batches: Vec::new(),
                bytes: 0,
                error: Some(error),
            };
            assert(chunk@.batches =~= Seq::<Batch>::empty());
            self.window.push(chunk);
            assert(chunk_views(self.window@) =~= chunk_views(old(self).window@).push(chunk@));
            None
        } else {
            assert(!never_admissible(self@)) by {
                if count == 0 {
                    assert(self@.window =~= Seq::<ChunkModel>::empty());
                }
            }
            None
        }
    }

    /// A transient failure of the chunk at `slot` of the window.
    fn retry(&mut self, slot: usize, now: u64) -> (action: Option<FetchAction>)
        requires
            old(self).wf(),
            slot < old(self).window@.len(),
            old(self).phase is Open,
            old(self).window@[slot as int]@.state is Fetching,
        ensures
            (final(self)@, action_view(action)) == crate::reader::model::transient_model(
                old(self)@,
                (old(self).next_deliver + slot) as nat,
                now as nat,
            ),
            final(self).schema == old(self).schema,
            final(self).types == old(self).types,
    {
        proof {
            self.lemma_window_in_links();
        }
        let ghost c = self@.window[slot as int];
        assert(c == self.window@[slot as int]@);
        assert(chunk_at(self@, (self.next_deliver + slot) as nat) == c);
        let attempts = self.window[slot].attempt_count;
        let sequence_index = self.window[slot].link.sequence_index;
        if attempts >= self.max_attempts as u64 {
            self.fail(
                slot,
                chunk_failure(Status::Transient, Stage::Fetch, RETRIES_EXHAUSTED, sequence_index),
            );
            None
        } else if is_expired(self.window[slot].link.expires_at, now)
            && !self.window[slot].link_refreshed {
            self.await_refresh(slot, true);
            Some(FetchAction::RefreshLinks { position: self.next_deliver + slot })
        } else {
            let link = self.window[slot].link.clone();
            Some(self.fetch_again(slot, link, retry_delay_ms(attempts)))
        }
    }

    /// Takes what came of the fetch of the chunk at `position` of the link
    /// list, at `now` (milliseconds since the epoch), and says what to do
    /// next for that chunk, if anything.
    ///
    /// A body of the announced length whose batches match the schema and
    /// whose decoded size fits the budget is held for delivery; any other
    /// body is a data-integrity failure. A 5xx status or a network failure is
    /// tried again after a backoff until the attempts are spent (with fresh
    /// links first, once, where the link has expired meanwhile). A first 401
    /// asks for a fresh credential; a second one, a 403 and any other status
    /// fail the chunk at once. A chunk that fails takes the chunks after it
    /// out of the window. An outcome for a chunk that is not under download
    /// changes nothing.
    pub fn on_outcome(&mut self, position: usize, outcome: FetchOutcome, now: u64) -> (action:
        Option<FetchAction>)
        requires
            old(self).wf(),
        ensures
            final(self).wf(),
            (final(self)@, action_view(action)) == outcome_model(
                old(self)@,
                position as nat,
                outcome@,
                now as nat,
            ),
    {
        proof {
            lemma_outcome_wf(self@, position as nat, outcome@, now as nat);
        }
        let slot = match self.slot_of(position) {
            Some(i) => i,
            None => {
                return None;
            },
        };
        let ghost c = self@.window[slot as int];
        assert(c == self.window@[slot as int]@);
        assert(chunk_at(self@, position as nat) == c);
        if self.window[slot].state != ChunkState::Fetching {
            return None;
        }
        let sequence_index = self.window[slot].link.sequence_index;
        let size = self.window[slot].link.size;
        match outcome {
            FetchOutcome::Body { byte_count, batches, decoded_bytes } => {
                if byte_count != size {
                    self.fail(
                        slot,
                        chunk_failure(
                            Status::DataIntegrity,
                            Stage::Fetch,
                            LENGTH_MISMATCH,
                            sequence_index,
                        ),
                    );
                    return None;
                }
                let matches = match &self.types {
                    Some(types) => all_batches_conform(&batches, types),
                    None => true,
                };
                if !matches {
                    self.fail(
                        slot,
                        chunk_failure(
                            Status::DataIntegrity,
                            Stage::Decode,
                            SCHEMA_MISMATCH,
                            sequence_index,
                        ),
                    );
                    return None;
                }
                let held = self.buffered_bytes();
                let budget = self.config.max_buffer_size as u64;
                proof {
                    lemma_tally_member(self@.window, slot as int, byte_weight());
                }
                let others = held - self.window[slot].bytes;
                if decoded_bytes > budget - others {
                    self.fail(
                        slot,
                        chunk_failure(
                            Status::DataIntegrity,
                            Stage::Decode,
                            OVER_BUDGET,
                            sequence_index,
                        ),
                    );
                    return None;
                }
                let chunk = self.window.remove(slot);
                let decoded = InFlightChunk {
                    state: ChunkState::Decoded,
                    batches,
                    bytes: decoded_bytes,
                    ..chunk
                };
                self.window.insert(slot, decoded);
                assert(chunk_views(self.window@) =~= chunk_views(old(self).window@).update(
                    slot as int,
                    decoded@,
                ));
                None
            },
            FetchOutcome::Undecodable { byte_count } => {
                if byte_count != size {
                    self.fail(
                        slot,
                        chunk_failure(
                            Status::DataIntegrity,
                            Stage::Fetch,
                            LENGTH_MISMATCH,
                            sequence_index,
                        ),
                    );
                } else {
                    self.fail(
                        slot,
                        chunk_failure(
                            Status::DataIntegrity,
                            Stage::Decode,
                            NOT_COLUMNAR,
                            sequence_index,
                        ),
                    );
                }
                None
            },
            FetchOutcome::Http { status } => {
                match classify_status(status) {
                    FailureClass::Unauthorized => {
                        if self.window[slot].credential_refreshed {
                            self.fail(
                                slot,
                                chunk_failure(
                                    Status::AuthFailure,
                                    Stage::Fetch,
                                    CREDENTIAL_REJECTED,
                                    sequence_index,
                                ),
                            );
                            None
                        } else {
                            self.await_refresh(slot, false);
                            Some(FetchAction::RefreshCredential { position })
                        }
                    },
                    FailureClass::Forbidden => {
                        self.fail(
                            slot,
                            chunk_failure(
                                Status::AuthFailure,
                                Stage::Fetch,
                                ACCESS_DENIED,
                                sequence_index,
                            ),
                        );
                        None
                    },
                    FailureClass::Transient => self.retry(slot, now),
                    FailureClass::Fatal => {
                        self.fail(
                            slot,
                            chunk_failure(
                                Status::Unknown,
                                Stage::Fetch,
                                UNEXPECTED_STATUS,
                                sequence_index,
                            ),
                        );
                        None
                    },
                }
            },
            FetchOutcome::Network => self.retry(slot, now),
        }
    }

    /// Takes the fresh links that the warehouse gave for the chunk at
    /// `position`, which waits for one: the chunk is fetched at once from the
    /// first of them that has its sequence index, and fails where none has.
    /// For a chunk that does not wait for a link, nothing changes.
    pub fn on_links_refreshed(&mut self, position: usize, fresh: &Vec<CloudFetchLink>) -> (action:
        Option<FetchAction>)
        requires
            old(self).wf(),
        ensures
            final(self).wf(),
            (final(self)@, action_view(action)) == links_refreshed_model(
                old(self)@,
                position as nat,
                link_views(fresh@),
            ),
    {
        proof {
            lemma_links_refreshed_wf(self@, position as nat, link_views(fresh@));
            self.lemma_window_in_links();
        }
        let slot = match self.slot_of(position) {
            Some(i) => i,
            None => {
                return None;
            },
        };
        let ghost c = self@.window[slot as int];
        assert(c == self.window@[slot as int]@);
        assert(chunk_at(self@, position as nat) == c);
        if self.window[slot].state != ChunkState::AwaitingLink {
            return None;
        }
        let sequence_index = self.window[slot].link.sequence_index;
        match find_link(fresh, sequence_index) {
            Some(i) => {
                assert(link_views(fresh@)[i as int] == fresh@[i as int]@);
                proof {
                    crate::reader::model::lemma_attempts_bounded(self@, position as nat);
                }
                let link = fresh[i].clone();
                Some(self.fetch_again(slot, link, 0))
            },
            None => {
                self.fail(
                    slot,
                    chunk_failure(
                        Status::DataIntegrity,
                        Stage::Fetch,
                        NO_FRESH_LINK,
                        sequence_index,
                    ),
                );
                None
            },
        }
    }

    /// Takes the failure of the warehouse to give fresh links for the chunk
    /// at `position`, which waits for one: the chunk fails with `error`. For
    /// a chunk that does not wait for a link, nothing changes.
    pub fn on_refresh_failed(&mut self, position: usize, error: Error)
        requires
            old(self).wf(),
        ensures
            final(self).wf(),
            final(self)@ == refresh_failed_model(old(self)@, position as nat, error@),
    {
        proof {
            lemma_refresh_failed_wf(self@, position as nat, error@);
            self.lemma_window_in_links();
        }
        let slot = match self.slot_of(position) {
            Some(i) => i,
            None => {
                return ;
            },
        };
        let ghost c = self@.window[slot as int];
        assert(c == self.window@[slot as int]@);
        assert(chunk_at(self@, position as nat) == c);
        if self.window[slot].state != ChunkState::AwaitingLink {
            return ;
        }
        self.fail(slot, error);
    }

    /// Takes the news that there is a fresh credential for the chunk at
    /// `position`, which waits for one: the chunk is fetched once more, at
    /// once. For a chunk that does not wait for a credential, nothing
    /// changes.
    pub fn on_credential_refreshed(&mut self, position: usize) -> (action: Option<FetchAction>)
        requires
            old(self).wf(),
        ensures
            final(self).wf(),
            (final(self)@, action_view(action)) == credential_refreshed_model(
                old(self)@,
                position as nat,
            ),
    {
        proof {
            lemma_credential_refreshed_wf(self@, position as nat);
            self.lemma_window_in_links();
        }
        let slot = match self.slot_of(position) {
            Some(i) => i,
            None => {
                return None;
            },
        };
        let ghost c = self@.window[slot as int];
        assert(c == self.window@[slot as int]@);
        assert(chunk_at(self@, position as nat) == c);
        if self.window[slot].state != ChunkState::AwaitingCredential {
            return None;
        }
        proof {
            crate::reader::model::lemma_attempts_bounded(self@, position as nat);
        }
        let link = self.window[slot].link.clone();
        Some(self.fetch_again(slot, link, 0))
    }

    /// Takes the news that no fresh credential could be had for the chunk at
    /// `position`, which waits for one: the chunk fails as an authentication
    /// failure. For a chunk that does not wait for a credential, nothing
    /// changes.
    pub fn on_credential_failed(&mut self, position: usize)
        requires
            old(self).wf(),
        ensures
            final(self).wf(),
            final(self)@ == credential_failed_model(old(self)@, position as nat),
    {
        proof {
            lemma_credential_failed_wf(self@, position as nat);
            self.lemma_window_in_links();
        }
        let slot = match self.slot_of(position) {
            Some(i) => i,
            None => {
                return ;
            },
        };
        let ghost c = self@.window[slot as int];
        assert(c == self.window@[slot as int]@);
        assert(chunk_at(self@, position as nat) == c);
        if self.window[slot].state != ChunkState::AwaitingCredential {
            return ;
        }
        let sequence_index = self.window[slot].link.sequence_index;
        self.fail(
            slot,
            chunk_failure(
                Status::AuthFailure,
                Stage::Fetch,
                CREDENTIAL_UNAVAILABLE,
                sequence_index,
            ),
        );
    }

    /// Lets go of the spent chunks at the head of the window.
    fn release_spent(&mut self)
        requires
            old(self).wf(),
            old(self).phase is Open,
            old(self).fault is None,
        ensures
            final(self).wf(),
            final(self)@ == drop_spent(old(self)@),
    {
        loop
            invariant
                self.wf(),
                self.phase is Open,
                self.fault is None,
                drop_spent(self@) == drop_spent(old(self)@),
            ensures
                self.wf(),
                self@ == drop_spent(old(self)@),
            decreases self.window@.len(),
        {
            proof {
                self.lemma_window_in_links();
            }
            if self.window.len() == 0 {
                break ;
            }
            assert(self@.window[0] == self.window@[0]@);
            if !(self.window[0].state == ChunkState::Decoded && self.window[0].batches.len()
                == 0) {
                break ;
            }
            proof {
                lemma_advance_wf(self@);
            }
            let ghost before = self@;
            let _ = self.window.remove(0);
            self.next_deliver = self.next_deliver + 1;
            assert(self@.window =~= before.window.subrange(1, before.window.len() as int));
        }
    }

    /// Fetches the next batch of results, without waiting.
    ///
    /// Gives the next batch of the chunk that is due, if that chunk is
    /// decoded: batches come in the order of the links, and within a chunk in
    /// the order in which the chunk holds them. Gives the chunk's error if
    /// the chunk has failed; every batch of the chunks before it was given
    /// out by then. Gives `None` if the chunk that is due is still under way,
    /// or if every chunk was delivered ([`CloudFetchReader::is_finished`]
    /// tells which). A cancelled stream gives a `Cancelled` error, a closed
    /// one `None`, and one whose links were out of order an `InvalidArgument`
    /// error.
    pub fn next_batch(&mut self) -> (pulled: Result<Option<Batch>, Error>)
        requires
            old(self).wf(),
        ensures
            final(self).wf(),
            (final(self)@, pull_view(pulled)) == pull_model(old(self)@),
    {
        proof {
            lemma_pull_wf(self@);
        }
        match self.phase {
            Phase::Cancelled => {
                return Err(DatabricksErrorHelper::cancelled().message(STREAM_CANCELLED));
            },
            Phase::Closed => {
                return Ok(None);
            },
            Phase::Open => {},
        }
        match &self.fault {
            Some(e) => {
                return Err(e.clone());
            },
            None => {},
        }
        self.release_spent();
        proof {
            self.lemma_window_in_links();
            lemma_drop_spent_wf(old(self)@);
        }
        if self.window.len() == 0 {
            return Ok(None);
        }
        let ghost ready = self@;
        assert(ready.window[0] == self.window@[0]@);
        match self.window[0].state {
            ChunkState::Decoded => {
                let mut chunk = self.window.remove(0);
                let batch = chunk.batches.remove(0);
                if chunk.batches.len() == 0 {
                    self.next_deliver = self.next_deliver + 1;
                    assert(self@.window =~= ready.window.subrange(1, ready.window.len() as int));
                } else {
                    let ghost rest = chunk@;
                    self.window.insert(0, chunk);
                    assert(rest.batches =~= ready.window[0].batches.subrange(
                        1,
                        ready.window[0].batches.len() as int,
                    ));
                    assert(self@.window =~= ready.window.update(0, rest));
                }
                Ok(Some(batch))
            },
            ChunkState::Failed => {
                match &self.window[0].error {
                    Some(e) => Err(e.clone()),
                    None => Ok(None),
                }
            },
            _ => Ok(None),
        }
    }

    /// Cancels the stream: a stream that works lets go of its window, every
    /// later pull gives a `Cancelled` error, and nothing more is started.
    /// The fetches that are in flight are the caller's to abort. A stream
    /// that was cancelled or closed before stays as it is.
    pub fn cancel(&mut self)
        requires
            old(self).wf(),
        ensures
            final(self).wf(),
            final(self)@ == cancel_model(old(self)@),
    {
        proof {
            lemma_shutdown_wf(self@);
        }
        match self.phase {
            Phase::Open => {
                self.phase = Phase::Cancelled;
                self.window.clear();
                assert(self@.window =~= Seq::<ChunkModel>::empty());
            },
            _ => {},
        }
    }

    /// Closes the stream and lets go of what it holds. Closing never fails,
    /// and closing again changes nothing.
    pub fn close(&mut self) -> (closed: Result<(), Error>)
        requires
            old(self).wf(),
        ensures
            final(self).wf(),
            closed is Ok,
            final(self)@ == close_model(old(self)@),
    {
        proof {
            lemma_shutdown_wf(self@);
        }
        self.phase = Phase::Closed;
        self.window.clear();
        assert(self@.window =~= Seq::<ChunkModel>::empty());
        Ok(())
    }

    /// Takes one event of the stream, whichever it is, and says what to do
    /// next, if anything.
    pub fn handle(&mut self, event: StreamEvent) -> (action: Option<FetchAction>)
        requires
            old(self).wf(),
        ensures
            final(self).wf(),
            final(self)@ == crate::reader::model::apply(old(self)@, event@).next,
            action_view(action) == crate::reader::model::apply(old(self)@, event@).action,
    {
        match event {
            StreamEvent::StartNext { now } => self.start_next(now),
            StreamEvent::Outcome { position, outcome, now } => self.on_outcome(
                position,
                outcome,
                now,
            ),
            StreamEvent::LinksRefreshed { position, fresh } => self.on_links_refreshed(
                position,
                &fresh,
            ),
            StreamEvent::RefreshFailed { position, error } => {
                self.on_refresh_failed(position, error);
                None
            },
            StreamEvent::CredentialRefreshed { position } => self.on_credential_refreshed(position),
            StreamEvent::CredentialFailed { position } => {
                self.on_credential_failed(position);
                None
            },
        }
    }

    /// Whether the stream has nothing more to give: it is closed, or every
    /// chunk was delivered.
    pub fn is_finished(&self) -> (done: bool)
        ensures
            done == finished(self@),
    {
        match self.phase {
            Phase::Closed => true,
            Phase::Cancelled => false,
            Phase::Open => self.fault.is_none() && self.window.len() == 0 && self.next_deliver
                == self.links.len(),
        }
    }
}

} // verus!

//! What holds of every run of a result stream.
//!
//! A run is any sequence of operations, in any order and with any outcomes:
//! the laws below hold of all of them, and so of every order in which the
//! fetches of a stream may complete.

use vstd::prelude::*;
use crate::error::ErrorView;
use crate::reader::link::{first_with_index, CloudFetchConfig, LinkView};
use crate::reader::model::{
    admit_model, after_delivery, apply, bytes_held, cancel_error, cancel_model, chunk_at,
    close_model, drop_spent, fail_at, finished, in_flight, in_window, initial, may_admit,
    never_admissible, next_admit, occupies, outcome_model, pull_model, slot_weight, spent,
    stopped, transient_model, wf, with_chunk, ActionView, ChunkModel, ChunkState, Op,
    OutcomeView, ReaderModel,
};
use crate::reader::retry::{expired, failure_class, FailureClass};
use crate::reader::wellformed::{
    lemma_admit_wf, lemma_advance_wf, lemma_credential_failed_wf,
    lemma_credential_refreshed_wf, lemma_drop_spent_wf, lemma_initial_wf,
    lemma_links_refreshed_wf, lemma_outcome_wf, lemma_pull_wf, lemma_refresh_failed_wf,
    lemma_shutdown_wf, lemma_tally_member,
};
use crate::result::batch::Batch;

verus! {

/// The state after the operations `ops`, one after the other, from `m`.
pub open spec fn run(m: ReaderModel, ops: Seq<Op>) -> ReaderModel
    decreases ops.len(),
{
    if ops.len() == 0 {
        m
    } else {
        apply(run(m, ops.drop_last()), ops.last()).next
    }
}

/// Whether `op` in state `m` is a pull that gives a batch.
pub open spec fn delivers(m: ReaderModel, op: Op) -> bool {
    op is Pull && pull_model(m).1 is Ok && pull_model(m).1->Ok_0 is Some
}

/// The sequence index of the chunk from which a pull in state `m` gives its
/// batch.
pub open spec fn delivery_index(m: ReaderModel) -> nat {
    drop_spent(m).window[0].link.sequence_index
}

/// The sequence indices of the chunks of the batches that the pulls among
/// `ops` give, one for each batch, in the order of the pulls.
pub open spec fn deliveries(m: ReaderModel, ops: Seq<Op>) -> Seq<nat>
    decreases ops.len(),
{
    if ops.len() == 0 {
        Seq::empty()
    } else {
        let before = run(m, ops.drop_last());
        if delivers(before, ops.last()) {
            deliveries(m, ops.drop_last()).push(delivery_index(before))
        } else {
            deliveries(m, ops.drop_last())
        }
    }
}

/// The actions that the operations `ops` ask for, in order.
pub open spec fn actions(m: ReaderModel, ops: Seq<Op>) -> Seq<ActionView>
    decreases ops.len(),
{
    if ops.len() == 0 {
        Seq::empty()
    } else {
        let before = run(m, ops.drop_last());
        match apply(before, ops.last()).action {
            Some(a) => actions(m, ops.drop_last()).push(a),
            None => actions(m, ops.drop_last()),
        }
    }
}

/// What a chunk can be refreshed with.
pub enum Refresh {
    /// Fresh links, asked of the warehouse.
    Links,
    /// A fresh credential, asked of the auth provider.
    Credential,
}

/// Whether `action` asks for the refresh `kind` for the chunk at `position`.
pub open spec fn asks(action: Option<ActionView>, kind: Refresh, position: nat) -> bool {
    match kind {
        Refresh::Links => action == Some(ActionView::RefreshLinks { position }),
        Refresh::Credential => action == Some(ActionView::RefreshCredential { position }),
    }
}

/// How many times the operations `ops` ask for the refresh `kind` for the
/// chunk at `position`.
pub open spec fn refreshes(m: ReaderModel, ops: Seq<Op>, kind: Refresh, position: nat) -> nat
    decreases ops.len(),
{
    if ops.len() == 0 {
        0
    } else {
        let before = run(m, ops.drop_last());
        refreshes(m, ops.drop_last(), kind, position) + if asks(
            apply(before, ops.last()).action,
            kind,
            position,
        ) {
            1nat
        } else {
            0nat
        }
    }
}

/// Every operation keeps the state well formed, keeps the links, the
/// settings and the fault, and never moves the point of delivery back.
pub proof fn lemma_apply_steady(m: ReaderModel, op: Op)
    requires
        wf(m),
    ensures
        wf(apply(m, op).next),
        apply(m, op).next.links == m.links,
        apply(m, op).next.config == m.config,
        apply(m, op).next.max_attempts == m.max_attempts,
        apply(m, op).next.fault == m.fault,
        apply(m, op).next.next_deliver >= m.next_deliver,
{
    match op {
        Op::StartNext { now } => {
            lemma_admit_wf(m, now);
        },
        Op::Outcome { position, outcome, now } => {
            lemma_outcome_wf(m, position, outcome, now);
        },
        Op::LinksRefreshed { position, fresh } => {
            lemma_links_refreshed_wf(m, position, fresh);
        },
        Op::RefreshFailed { position, error } => {
            lemma_refresh_failed_wf(m, position, error);
        },
        Op::CredentialRefreshed { position } => {
            lemma_credential_refreshed_wf(m, position);
        },
        Op::CredentialFailed { position } => {
            lemma_credential_failed_wf(m, position);
        },
        Op::Pull => {
            lemma_pull_wf(m);
            if m.phase is Open && m.fault is None {
                lemma_drop_spent_wf(m);
            }
        },
        Op::Cancel => {
            lemma_shutdown_wf(m);
        },
        Op::Close => {
            lemma_shutdown_wf(m);
        },
    }
}

/// Every run keeps the state well formed, keeps the links, the settings and
/// the fault, and never moves the point of delivery back.
pub proof fn lemma_run_steady(m: ReaderModel, ops: Seq<Op>)
    requires
        wf(m),
    ensures
        wf(run(m, ops)),
        run(m, ops).links == m.links,
        run(m, ops).config == m.config,
        run(m, ops).max_attempts == m.max_attempts,
        run(m, ops).fault == m.fault,
        run(m, ops).next_deliver >= m.next_deliver,
    decreases ops.len(),
{
    if ops.len() > 0 {
        lemma_run_steady(m, ops.drop_last());
        lemma_apply_steady(run(m, ops.drop_last()), ops.last());
    }
}

/// In every state that a run reaches, no more fetches are in flight than
/// `parallel_downloads`, and no more bytes are held than `max_buffer_size`:
/// whatever the operations are, in whatever order the fetches complete.
pub proof fn lemma_limits_hold(m: ReaderModel, ops: Seq<Op>)
    requires
        wf(m),
    ensures
        in_flight(run(m, ops).window) <= m.config.parallel_downloads,
        bytes_held(run(m, ops).window) <= m.config.max_buffer_size,
        run(m, ops).window.len() <= m.config.prefetch_count + 1,
{
    lemma_run_steady(m, ops);
}

/// The limits hold in every state that a run reaches from a new stream, for
/// all settings and all links.
pub proof fn lemma_limits_hold_from_start(
    config: CloudFetchConfig,
    links: Seq<LinkView>,
    max_attempts: nat,
    schema: Option<Seq<Seq<char>>>,
    ops: Seq<Op>,
)
    ensures
        in_flight(run(initial(config, links, max_attempts, schema), ops).window)
            <= config.parallel_downloads,
        bytes_held(run(initial(config, links, max_attempts, schema), ops).window)
            <= config.max_buffer_size,
{
    lemma_initial_wf(config, links, max_attempts, schema);
    lemma_limits_hold(initial(config, links, max_attempts, schema), ops);
}

/// A pull that gives a batch gives it from the chunk at the point of
/// delivery or from a later one, and leaves the point of delivery at that
/// chunk or behind it.
proof fn lemma_delivery_place(m: ReaderModel)
    requires
        wf(m),
        delivers(m, Op::Pull),
    ensures
        m.fault is None,
        exists|p: int|
            m.next_deliver <= p < m.links.len() && p <= pull_model(m).0.next_deliver
                && delivery_index(m) == #[trigger] m.links[p].sequence_index,
{
    lemma_drop_spent_wf(m);
    let n = drop_spent(m);
    assert(n.window[0].link.sequence_index == n.links[n.next_deliver as int + 0].sequence_index);
    let p = n.next_deliver as int;
    assert(m.next_deliver <= p < m.links.len() && p <= pull_model(m).0.next_deliver
        && delivery_index(m) == m.links[p].sequence_index);
}

/// Whether a delivery from the chunk with sequence index `delivered` is no
/// later in the result than the chunk of `link`.
pub open spec fn no_later(delivered: nat, link: LinkView) -> bool {
    delivered <= link.sequence_index
}

/// The deliveries of a run are in order, and each is no later in the result
/// than every chunk from the point of delivery on that the run has reached.
proof fn lemma_deliveries_behind(m: ReaderModel, ops: Seq<Op>)
    requires
        wf(m),
    ensures
        forall|i: int, j: int|
            0 <= i <= j < deliveries(m, ops).len() ==> deliveries(m, ops)[i] <= deliveries(
                m,
                ops,
            )[j],
        forall|k: int, p: int|
            0 <= k < deliveries(m, ops).len() && run(m, ops).next_deliver <= p < m.links.len()
                ==> #[trigger] no_later(deliveries(m, ops)[k], m.links[p]),
        deliveries(m, ops).len() > 0 ==> m.fault is None,
    decreases ops.len(),
{
    if ops.len() > 0 {
        let shorter = ops.drop_last();
        let before = run(m, shorter);
        lemma_deliveries_behind(m, shorter);
        lemma_run_steady(m, shorter);
        lemma_apply_steady(before, ops.last());
        let earlier = deliveries(m, shorter);
        let all = deliveries(m, ops);
        let after = run(m, ops);
        if delivers(before, ops.last()) {
            lemma_delivery_place(before);
            let place = choose|p: int|
                before.next_deliver <= p < before.links.len() && p <= pull_model(
                    before,
                ).0.next_deliver && delivery_index(before)
                    == #[trigger] before.links[p].sequence_index;
            assert(all == earlier.push(m.links[place].sequence_index));
            assert forall|k: int| 0 <= k < earlier.len() implies earlier[k]
                <= m.links[place].sequence_index by {
                assert(no_later(earlier[k], m.links[place]));
            }
            assert forall|k: int, p: int|
                0 <= k < all.len() && after.next_deliver <= p < m.links.len() implies #[trigger] no_later(
                all[k],
                m.links[p],
            ) by {
                assert(place <= p);
                if place < p {
                    assert(m.links[place].sequence_index < m.links[p].sequence_index);
                }
                if k < earlier.len() {
                    assert(all[k] == earlier[k]);
                }
            }
        } else {
            assert(all == earlier);
            assert forall|k: int, p: int|
                0 <= k < all.len() && after.next_deliver <= p < m.links.len() implies #[trigger] no_later(
                all[k],
                m.links[p],
            ) by {
                assert(no_later(earlier[k], m.links[p]));
            }
        }
    }
}

/// Batches come in order: of any two batches that a run delivers, the
/// earlier is from a chunk whose sequence index is no larger than that of
/// the later, whatever the operations are and in whatever order the fetches
/// complete.
pub proof fn lemma_delivery_in_order(m: ReaderModel, ops: Seq<Op>, i: int, j: int)
    requires
        wf(m),
        0 <= i <= j < deliveries(m, ops).len(),
    ensures
        deliveries(m, ops)[i] <= deliveries(m, ops)[j],
{
    lemma_deliveries_behind(m, ops);
}

/// Closing twice is closing once, and a closed stream gives nothing and
/// asks for nothing.
pub proof fn lemma_close_idempotent(m: ReaderModel)
    ensures
        close_model(close_model(m)) == close_model(m),
        pull_model(close_model(m)) == (close_model(m), Ok::<Option<Batch>, ErrorView>(None)),
{
}

/// A stream that does not work (it was cancelled or closed) stays so.
proof fn lemma_shut_stays_shut(m: ReaderModel, op: Op)
    requires
        wf(m),
        !(m.phase is Open),
    ensures
        !(apply(m, op).next.phase is Open),
        apply(m, op).action is None,
        !delivers(m, op),
{
}

/// After a cancellation nothing is started and nothing is delivered: the
/// operations of any run from a cancelled stream ask for no action and give
/// no batch.
pub proof fn lemma_cancelled_stream_is_quiet(m: ReaderModel, ops: Seq<Op>)
    requires
        wf(m),
        !(m.phase is Open),
    ensures
        !(run(m, ops).phase is Open),
        actions(m, ops).len() == 0,
        deliveries(m, ops).len() == 0,
    decreases ops.len(),
{
    if ops.len() > 0 {
        lemma_cancelled_stream_is_quiet(m, ops.drop_last());
        lemma_run_steady(m, ops.drop_last());
        lemma_shut_stays_shut(run(m, ops.drop_last()), ops.last());
    }
}

/// Cancelling a stream that works makes the next pull give the cancellation
/// error, and from then on nothing is started and nothing is delivered.
pub proof fn lemma_cancel_stops_stream(m: ReaderModel, ops: Seq<Op>)
    requires
        wf(m),
        m.phase is Open,
    ensures
        pull_model(cancel_model(m)).1 == Err::<Option<Batch>, ErrorView>(cancel_error()),
        actions(cancel_model(m), ops).len() == 0,
        deliveries(cancel_model(m), ops).len() == 0,
{
    lemma_shutdown_wf(m);
    lemma_cancelled_stream_is_quiet(cancel_model(m), ops);
}

/// Whether delivery has reached a chunk that has failed.
pub open spec fn failed_at_head(m: ReaderModel) -> bool {
    m.phase is Open && m.fault is None && m.window.len() > 0 && m.window[0].state is Failed
}

/// Once delivery has reached a failed chunk, an operation changes nothing
/// but for a cancellation or a closing: it asks for no action and gives no
/// batch, and a pull gives the chunk's error.
proof fn lemma_failure_stays(m: ReaderModel, op: Op)
    requires
        wf(m),
        failed_at_head(m),
    ensures
        apply(m, op).next == m || !(apply(m, op).next.phase is Open),
        apply(m, op).action is None,
        !delivers(m, op),
        op is Pull ==> apply(m, op).pulled == Some(
            Err::<Option<Batch>, ErrorView>(m.window[0].error->Some_0),
        ),
{
    assert(m.window.len() == 1);
    assert(stopped(m));
    assert(!may_admit(m));
    assert(!never_admissible(m));
    assert(drop_spent(m) == m);
    assert forall|position: nat| in_window(m, position) implies chunk_at(m, position)
        == m.window[0] by {
        assert(position == m.next_deliver);
    }
}

/// A failure is final: once delivery has reached a failed chunk, no run
/// starts a fetch or delivers a batch any more. The batches of the chunks
/// before the failed one were delivered by then; those of the chunks after
/// it never are.
pub proof fn lemma_failure_is_final(m: ReaderModel, ops: Seq<Op>)
    requires
        wf(m),
        failed_at_head(m),
    ensures
        run(m, ops) == m || !(run(m, ops).phase is Open),
        actions(m, ops).len() == 0,
        deliveries(m, ops).len() == 0,
    decreases ops.len(),
{
    if ops.len() > 0 {
        let shorter = ops.drop_last();
        lemma_failure_is_final(m, shorter);
        lemma_run_steady(m, shorter);
        if run(m, shorter) == m {
            lemma_failure_stays(m, ops.last());
        } else {
            lemma_shut_stays_shut(run(m, shorter), ops.last());
        }
    }
}

/// Whether the refresh `kind` was asked for already, for the chunk `c`.
pub open spec fn refreshed(c: ChunkModel, kind: Refresh) -> bool {
    match kind {
        Refresh::Links => c.link_refreshed,
        Refresh::Credential => c.credential_refreshed,
    }
}

/// How many more times the refresh `kind` can be asked for, for the chunk
/// at `position`: not at all once it was asked for, once the chunk was
/// delivered, or once the stream has stopped before the chunk; else once.
pub open spec fn refreshes_left(m: ReaderModel, kind: Refresh, position: nat) -> nat {
    if !(m.phase is Open) || m.fault is Some || position < m.next_deliver {
        0
    } else if position < next_admit(m) {
        if refreshed(chunk_at(m, position), kind) {
            0
        } else {
            1
        }
    } else if stopped(m) {
        0
    } else {
        1
    }
}

/// One for an action that asks for the refresh, zero for another.
pub open spec fn asked(action: Option<ActionView>, kind: Refresh, position: nat) -> nat {
    if asks(action, kind, position) {
        1
    } else {
        0
    }
}

/// Replacing a chunk by one that has not failed leaves every chunk the times
/// it had, and takes the one time from the chunk that is marked as
/// refreshed.
proof fn lemma_left_with_chunk(m: ReaderModel, q: nat, c: ChunkModel, kind: Refresh, position: nat)
    requires
        wf(m),
        in_window(m, q),
        !(c.state is Failed),
        !(chunk_at(m, q).state is Failed),
        refreshed(chunk_at(m, q), kind) ==> refreshed(c, kind),
    ensures
        refreshes_left(with_chunk(m, q, c), kind, position) + (if position == q && refreshed(
            c,
            kind,
        ) && !refreshed(chunk_at(m, q), kind) {
            1nat
        } else {
            0nat
        }) <= refreshes_left(m, kind, position),
{
    let n = with_chunk(m, q, c);
    if position >= m.next_deliver && position < next_admit(m) && position != q {
        assert(n.window[position - n.next_deliver] == m.window[position - m.next_deliver]);
    }
    if m.window.len() > 0 {
        if q - m.next_deliver == m.window.len() - 1 {
            assert(n.window.last() == c);
        } else {
            assert(n.window.last() == m.window.last());
        }
    }
}

/// Failing the stream at a chunk leaves no chunk more times than it had.
proof fn lemma_left_fail_at(m: ReaderModel, q: nat, error: ErrorView, kind: Refresh, position: nat)
    requires
        wf(m),
        in_window(m, q),
    ensures
        refreshes_left(fail_at(m, q, error), kind, position) <= refreshes_left(m, kind, position),
{
    let n = fail_at(m, q, error);
    assert(stopped(n));
    if position >= m.next_deliver && position < q {
        assert(n.window[position - n.next_deliver] == m.window[position - m.next_deliver]);
    }
}

/// Admission takes the one time from the chunk for which it asks for a
/// refresh, and leaves no chunk more times than it had.
proof fn lemma_left_admit(m: ReaderModel, now: nat, kind: Refresh, position: nat)
    requires
        wf(m),
    ensures
        refreshes_left(admit_model(m, now).0, kind, position) + asked(
            admit_model(m, now).1,
            kind,
            position,
        ) <= refreshes_left(m, kind, position),
{
    let n = admit_model(m, now).0;
    if may_admit(m) || never_admissible(m) {
        if position >= m.next_deliver && position < next_admit(m) {
            assert(n.window[position - n.next_deliver] == m.window[position - m.next_deliver]);
        }
    }
}

/// A transient failure takes the one time from the chunk for which it asks
/// for a refresh, and leaves no chunk more times than it had.
proof fn lemma_left_transient(m: ReaderModel, q: nat, now: nat, kind: Refresh, position: nat)
    requires
        wf(m),
        in_window(m, q),
        chunk_at(m, q).state is Fetching,
    ensures
        refreshes_left(transient_model(m, q, now).0, kind, position) + asked(
            transient_model(m, q, now).1,
            kind,
            position,
        ) <= refreshes_left(m, kind, position),
{
    let c = chunk_at(m, q);
    if c.attempt_count >= m.max_attempts {
        lemma_left_fail_at(
            m,
            q,
            transient_model(m, q, now).0.window.last().error->Some_0,
            kind,
            position,
        );
    } else if expired(c.link.expires_at, now) && !c.link_refreshed {
        lemma_left_with_chunk(
            m,
            q,
            ChunkModel { state: ChunkState::AwaitingLink, link_refreshed: true, ..c },
            kind,
            position,
        );
    } else {
        lemma_left_with_chunk(
            m,
            q,
            ChunkModel {
                link: c.link,
                state: ChunkState::Fetching,
                attempt_count: c.attempt_count + 1,
                ..c
            },
            kind,
            position,
        );
    }
}

/// The outcome of a fetch takes the one time from the chunk for which it
/// asks for a refresh, and leaves no chunk more times than it had.
proof fn lemma_left_outcome(
    m: ReaderModel,
    q: nat,
    outcome: OutcomeView,
    now: nat,
    kind: Refresh,
    position: nat,
)
    requires
        wf(m),
    ensures
        refreshes_left(outcome_model(m, q, outcome, now).0, kind, position) + asked(
            outcome_model(m, q, outcome, now).1,
            kind,
            position,
        ) <= refreshes_left(m, kind, position),
{
    if in_window(m, q) && chunk_at(m, q).state is Fetching {
        let c = chunk_at(m, q);
        let n = outcome_model(m, q, outcome, now).0;
        match outcome {
            OutcomeView::Body { byte_count, batches, decoded_bytes } => {
                let kept = ChunkModel {
                    state: ChunkState::Decoded,
                    batches,
                    bytes: decoded_bytes,
                    ..c
                };
                if n == with_chunk(m, q, kept) {
                    lemma_left_with_chunk(m, q, kept, kind, position);
                } else {
                    lemma_left_fail_at(m, q, n.window.last().error->Some_0, kind, position);
                }
            },
            OutcomeView::Undecodable { byte_count } => {
                lemma_left_fail_at(m, q, n.window.last().error->Some_0, kind, position);
            },
            OutcomeView::Http { status } => {
                match failure_class(status) {
                    FailureClass::Unauthorized => {
                        if c.credential_refreshed {
                            lemma_left_fail_at(m, q, n.window.last().error->Some_0, kind, position);
                        } else {
                            lemma_left_with_chunk(
                                m,
                                q,
                                ChunkModel {
                                    state: ChunkState::AwaitingCredential,
                                    credential_refreshed: true,
                                    ..c
                                },
                                kind,
                                position,
                            );
                        }
                    },
                    FailureClass::Transient => {
                        lemma_left_transient(m, q, now, kind, position);
                    },
                    _ => {
                        lemma_left_fail_at(m, q, n.window.last().error->Some_0, kind, position);
                    },
                }
            },
            OutcomeView::Network => {
                lemma_left_transient(m, q, now, kind, position);
            },
        }
    }
}

/// A report on a refresh leaves no chunk more times than it had.
proof fn lemma_left_reports(m: ReaderModel, op: Op, kind: Refresh, position: nat)
    requires
        wf(m),
        op is LinksRefreshed || op is RefreshFailed || op is CredentialRefreshed
            || op is CredentialFailed,
    ensures
        refreshes_left(apply(m, op).next, kind, position) + asked(
            apply(m, op).action,
            kind,
            position,
        ) <= refreshes_left(m, kind, position),
{
    let n = apply(m, op).next;
    match op {
        Op::LinksRefreshed { position: q, fresh } => {
            if in_window(m, q) && chunk_at(m, q).state is AwaitingLink {
                let c = chunk_at(m, q);
                match first_with_index(fresh, c.link.sequence_index) {
                    Some(i) => {
                        lemma_left_with_chunk(
                            m,
                            q,
                            ChunkModel {
                                link: fresh[i],
                                state: ChunkState::Fetching,
                                attempt_count: c.attempt_count + 1,
                                ..c
                            },
                            kind,
                            position,
                        );
                    },
                    None => {
                        lemma_left_fail_at(m, q, n.window.last().error->Some_0, kind, position);
                    },
                }
            }
        },
        Op::RefreshFailed { position: q, error } => {
            if in_window(m, q) && chunk_at(m, q).state is AwaitingLink {
                lemma_left_fail_at(m, q, error, kind, position);
            }
        },
        Op::CredentialRefreshed { position: q } => {
            if in_window(m, q) && chunk_at(m, q).state is AwaitingCredential {
                let c = chunk_at(m, q);
                lemma_left_with_chunk(
                    m,
                    q,
                    ChunkModel {
                        link: c.link,
                        state: ChunkState::Fetching,
                        attempt_count: c.attempt_count + 1,
                        ..c
                    },
                    kind,
                    position,
                );
            }
        },
        Op::CredentialFailed { position: q } => {
            if in_window(m, q) && chunk_at(m, q).state is AwaitingCredential {
                lemma_left_fail_at(m, q, n.window.last().error->Some_0, kind, position);
            }
        },
        _ => {},
    }
}

/// Letting go of the spent chunks gives no chunk another time to ask for a
/// refresh.
proof fn lemma_left_drop_spent(m: ReaderModel, kind: Refresh, position: nat)
    requires
        wf(m),
    ensures
        refreshes_left(drop_spent(m), kind, position) <= refreshes_left(m, kind, position),
    decreases m.window.len(),
{
    if m.window.len() > 0 && spent(m.window[0]) {
        let n = ReaderModel {
            window: m.window.subrange(1, m.window.len() as int),
            next_deliver: m.next_deliver + 1,
            ..m
        };
        lemma_advance_wf(m);
        lemma_left_drop_spent(n, kind, position);
        if position >= n.next_deliver && position < next_admit(n) {
            assert(n.window[position - n.next_deliver] == m.window[position - m.next_deliver]);
        }
        if stopped(m) {
            assert(m.window.len() > 1);
            assert(n.window.last() == m.window.last());
        }
    }
}

/// A pull leaves no chunk more times than it had.
proof fn lemma_left_pull(m: ReaderModel, kind: Refresh, position: nat)
    requires
        wf(m),
    ensures
        refreshes_left(pull_model(m).0, kind, position) <= refreshes_left(m, kind, position),
{
    if m.phase is Open && m.fault is None {
        lemma_left_drop_spent(m, kind, position);
        let d = drop_spent(m);
        lemma_drop_spent_wf(m);
        if d.window.len() > 0 && d.window[0].state is Decoded {
            let after = after_delivery(d);
            if after.next_deliver == d.next_deliver {
                let c = d.window[0];
                lemma_left_with_chunk(
                    d,
                    d.next_deliver,
                    ChunkModel { batches: c.batches.subrange(1, c.batches.len() as int), ..c },
                    kind,
                    position,
                );
            } else {
                if position >= after.next_deliver && position < next_admit(after) {
                    assert(after.window[position - after.next_deliver] == d.window[position
                        - d.next_deliver]);
                }
                if stopped(d) {
                    assert(d.window.len() > 1);
                    assert(after.window.last() == d.window.last());
                }
            }
        }
    }
}

/// An operation that asks for a refresh for a chunk uses up the one time
/// that it can, and no operation gives that time back.
proof fn lemma_refresh_spends(m: ReaderModel, op: Op, kind: Refresh, position: nat)
    requires
        wf(m),
    ensures
        refreshes_left(apply(m, op).next, kind, position) + asked(
            apply(m, op).action,
            kind,
            position,
        ) <= refreshes_left(m, kind, position),
{
    match op {
        Op::StartNext { now } => {
            lemma_left_admit(m, now, kind, position);
        },
        Op::Outcome { position: q, outcome, now } => {
            lemma_left_outcome(m, q, outcome, now, kind, position);
        },
        Op::Pull => {
            lemma_left_pull(m, kind, position);
        },
        Op::Cancel => {},
        Op::Close => {},
        _ => {
            lemma_left_reports(m, op, kind, position);
        },
    }
}

/// A run asks for a refresh for a chunk no more often than is left for that
/// chunk at its start.
proof fn lemma_refreshes_within(m: ReaderModel, ops: Seq<Op>, kind: Refresh, position: nat)
    requires
        wf(m),
    ensures
        refreshes(m, ops, kind, position) + refreshes_left(run(m, ops), kind, position)
            <= refreshes_left(m, kind, position),
    decreases ops.len(),
{
    if ops.len() > 0 {
        lemma_refreshes_within(m, ops.drop_last(), kind, position);
        lemma_run_steady(m, ops.drop_last());
        lemma_refresh_spends(run(m, ops.drop_last()), ops.last(), kind, position);
    }
}

/// Each refresh is asked for at most once for each chunk: fresh links once,
/// however often the chunk is tried again after its link has expired, and a
/// fresh credential once, however often the credential is rejected. Nothing
/// is asked for again for a chunk for which it was asked for already.
pub proof fn lemma_one_refresh(m: ReaderModel, ops: Seq<Op>, kind: Refresh, position: nat)
    requires
        wf(m),
    ensures
        refreshes(m, ops, kind, position) <= 1,
        in_window(m, position) && refreshed(chunk_at(m, position), kind) ==> refreshes(
            m,
            ops,
            kind,
            position,
        ) == 0,
{
    lemma_refreshes_within(m, ops, kind, position);
}

/// A stream that has work left is never stuck: where a pull gives nothing,
/// the stream is not finished and no fetch is in flight, the next admission
/// puts a chunk into the window, to be fetched or to fail the stream.
pub proof fn lemma_never_stuck(m: ReaderModel, now: nat)
    requires
        wf(m),
        m.phase is Open,
        m.fault is None,
        pull_model(m).1 == Ok::<Option<Batch>, ErrorView>(None),
        !finished(pull_model(m).0),
        in_flight(pull_model(m).0.window) == 0,
    ensures
        pull_model(m).0.window.len() == 0,
        admit_model(pull_model(m).0, now).0.window.len() == 1,
{
    lemma_drop_spent_wf(m);
    let n = pull_model(m).0;
    assert(n == drop_spent(m));
    if n.window.len() > 0 {
        lemma_tally_member(n.window, 0, slot_weight());
        assert(occupies(n.window[0]));
    }
    assert(n.window =~= Seq::<ChunkModel>::empty());
    assert(bytes_held(n.window) == 0);
}

} // verus!

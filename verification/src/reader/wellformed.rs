//! Every operation of the scheduler keeps its state well formed.

use vstd::prelude::*;
use crate::error::ErrorView;
use crate::reader::link::{is_first_with_index, LinkView};
use crate::reader::link::{first_with_index, CloudFetchConfig};
use crate::reader::model::{
    admit_model, after_delivery, byte_weight, bytes_held, cancel_model, chunk_at, chunk_wf,
    close_model, credential_failed_model, credential_refreshed_model, drop_spent, fail_at,
    failed_chunk, in_window, initial, links_refreshed_model, may_admit, never_admissible,
    next_admit, occupies, outcome_model, pull_model, refetch, refresh_failed_model, slot_weight,
    spent, stopped, tally, transient_model, wf, with_chunk, within_attempts, ChunkModel, ChunkState, OutcomeView,
    ReaderModel,
};
use crate::reader::retry::{expired, failure_class, retry_delay, FailureClass};

verus! {

/// The tally of a window with one more chunk.
pub proof fn lemma_tally_push(
    window: Seq<ChunkModel>,
    c: ChunkModel,
    weight: spec_fn(ChunkModel) -> nat,
)
    ensures
        tally(window.push(c), weight) == tally(window, weight) + weight(c),
{
    assert(window.push(c).drop_last() =~= window);
}

/// The tally of a window with one chunk replaced.
pub proof fn lemma_tally_update(
    window: Seq<ChunkModel>,
    i: int,
    c: ChunkModel,
    weight: spec_fn(ChunkModel) -> nat,
)
    requires
        0 <= i < window.len(),
    ensures
        tally(window.update(i, c), weight) == tally(window, weight) - weight(window[i]) + weight(
            c,
        ),
    decreases window.len(),
{
    if i == window.len() - 1 {
        assert(window.update(i, c).drop_last() =~= window.drop_last());
    } else {
        lemma_tally_update(window.drop_last(), i, c, weight);
        assert(window.update(i, c).drop_last() =~= window.drop_last().update(i, c));
    }
}

/// The tally of the head of a window is no more than that of the window.
pub proof fn lemma_tally_prefix(
    window: Seq<ChunkModel>,
    n: int,
    weight: spec_fn(ChunkModel) -> nat,
)
    requires
        0 <= n <= window.len(),
    ensures
        tally(window.subrange(0, n), weight) <= tally(window, weight),
    decreases window.len(),
{
    if n == window.len() {
        assert(window.subrange(0, n) =~= window);
    } else {
        lemma_tally_prefix(window.drop_last(), n, weight);
        assert(window.drop_last().subrange(0, n) =~= window.subrange(0, n));
    }
}

/// The tally of a window without its first chunk.
pub proof fn lemma_tally_skip(window: Seq<ChunkModel>, weight: spec_fn(ChunkModel) -> nat)
    requires
        window.len() > 0,
    ensures
        tally(window.subrange(1, window.len() as int), weight) == tally(window, weight) - weight(
            window[0],
        ),
    decreases window.len(),
{
    let n = window.len() as int;
    if n == 1 {
        assert(window.subrange(1, n) =~= Seq::<ChunkModel>::empty());
        assert(window.drop_last() =~= Seq::<ChunkModel>::empty());
    } else {
        lemma_tally_skip(window.drop_last(), weight);
        assert(window.subrange(1, n).drop_last() =~= window.drop_last().subrange(1, n - 1));
    }
}

/// No chunk weighs more than the whole window.
pub proof fn lemma_tally_member(
    window: Seq<ChunkModel>,
    i: int,
    weight: spec_fn(ChunkModel) -> nat,
)
    requires
        0 <= i < window.len(),
    ensures
        weight(window[i]) <= tally(window, weight),
    decreases window.len(),
{
    if i < window.len() - 1 {
        lemma_tally_member(window.drop_last(), i, weight);
    }
}

/// A freshly made stream is well formed.
pub proof fn lemma_initial_wf(
    config: CloudFetchConfig,
    links: Seq<LinkView>,
    max_attempts: nat,
    schema: Option<Seq<Seq<char>>>,
)
    ensures
        wf(initial(config, links, max_attempts, schema)),
{
}

/// Admission keeps the state well formed.
pub proof fn lemma_admit_wf(m: ReaderModel, now: nat)
    requires
        wf(m),
    ensures
        wf(admit_model(m, now).0),
{
    let n = admit_model(m, now).0;
    if may_admit(m) || never_admissible(m) {
        let c = n.window.last();
        assert(n.window == m.window.push(c));
        lemma_tally_push(m.window, c, slot_weight());
        lemma_tally_push(m.window, c, byte_weight());
        assert forall|i: int| 0 <= i < n.window.len() implies {
            &&& chunk_wf(#[trigger] n.window[i])
            &&& within_attempts(n.window[i], n.max_attempts)
            &&& n.window[i].link.sequence_index == n.links[n.next_deliver + i].sequence_index
            &&& (n.window[i].state is Failed ==> i == n.window.len() - 1)
        } by {
            if i < m.window.len() {
                assert(n.window[i] == m.window[i]);
                if m.window[i].state is Failed {
                    assert(i == m.window.len() - 1);
                    assert(stopped(m));
                }
            }
        }
    }
}

/// Replacing a chunk by one that is well formed, has not failed, holds a
/// slot only if the old one did and fits the budget keeps the state well
/// formed.
pub proof fn lemma_with_chunk_wf(m: ReaderModel, position: nat, c: ChunkModel)
    requires
        wf(m),
        in_window(m, position),
        chunk_wf(c),
        within_attempts(c, m.max_attempts),
        !(c.state is Failed),
        !(chunk_at(m, position).state is Failed),
        c.link.sequence_index == chunk_at(m, position).link.sequence_index,
        occupies(c) ==> occupies(chunk_at(m, position)),
        bytes_held(m.window) - chunk_at(m, position).bytes + c.bytes <= m.config.max_buffer_size,
    ensures
        wf(with_chunk(m, position, c)),
{
    let n = with_chunk(m, position, c);
    let i = position - m.next_deliver;
    lemma_tally_update(m.window, i, c, slot_weight());
    lemma_tally_update(m.window, i, c, byte_weight());
    assert forall|k: int| 0 <= k < n.window.len() implies {
        &&& chunk_wf(#[trigger] n.window[k])
        &&& within_attempts(n.window[k], n.max_attempts)
        &&& n.window[k].link.sequence_index == n.links[n.next_deliver + k].sequence_index
        &&& (n.window[k].state is Failed ==> k == n.window.len() - 1)
    } by {
        if k != i {
            assert(n.window[k] == m.window[k]);
        }
    }
}

/// Failing the stream at a chunk of the window keeps the state well formed.
pub proof fn lemma_fail_at_wf(m: ReaderModel, position: nat, error: ErrorView)
    requires
        wf(m),
        in_window(m, position),
    ensures
        wf(fail_at(m, position, error)),
        stopped(fail_at(m, position, error)),
{
    let n = fail_at(m, position, error);
    let i = position - m.next_deliver;
    let head = m.window.subrange(0, i);
    let c = failed_chunk(m.window[i], error);
    lemma_tally_prefix(m.window, i, slot_weight());
    lemma_tally_prefix(m.window, i, byte_weight());
    lemma_tally_push(head, c, slot_weight());
    lemma_tally_push(head, c, byte_weight());
    assert(chunk_wf(m.window[i]));
    assert forall|k: int| 0 <= k < n.window.len() implies {
        &&& chunk_wf(#[trigger] n.window[k])
        &&& within_attempts(n.window[k], n.max_attempts)
        &&& n.window[k].link.sequence_index == n.links[n.next_deliver + k].sequence_index
        &&& (n.window[k].state is Failed ==> k == n.window.len() - 1)
    } by {
        if k < i {
            assert(n.window[k] == m.window[k]);
        }
    }
}

/// Starting one more fetch for a chunk that waits for a refresh, or that
/// is under download and has attempts left, keeps the state well formed.
pub proof fn lemma_refetch_wf(m: ReaderModel, position: nat, link: LinkView, delay_ms: nat)
    requires
        wf(m),
        in_window(m, position),
        occupies(chunk_at(m, position)),
        chunk_at(m, position).state is Fetching ==> chunk_at(m, position).attempt_count
            < m.max_attempts,
        link.sequence_index == chunk_at(m, position).link.sequence_index,
    ensures
        wf(refetch(m, position, link, delay_ms).0),
{
    let c = chunk_at(m, position);
    assert(chunk_wf(c));
    lemma_with_chunk_wf(
        m,
        position,
        ChunkModel { link, state: ChunkState::Fetching, attempt_count: c.attempt_count + 1, ..c },
    );
}

/// A transient failure keeps the state well formed.
pub proof fn lemma_transient_wf(m: ReaderModel, position: nat, now: nat)
    requires
        wf(m),
        in_window(m, position),
        chunk_at(m, position).state is Fetching,
    ensures
        wf(transient_model(m, position, now).0),
{
    let c = chunk_at(m, position);
    assert(chunk_wf(c));
    if c.attempt_count >= m.max_attempts {
        lemma_fail_at_wf(m, position, transient_model(m, position, now).0.window.last().error->Some_0);
    } else if expired(c.link.expires_at, now) && !c.link_refreshed {
        lemma_with_chunk_wf(
            m,
            position,
            ChunkModel { state: ChunkState::AwaitingLink, link_refreshed: true, ..c },
        );
    } else {
        lemma_refetch_wf(m, position, c.link, retry_delay(c.attempt_count));
    }
}

/// The outcome of a fetch keeps the state well formed.
pub proof fn lemma_outcome_wf(m: ReaderModel, position: nat, outcome: OutcomeView, now: nat)
    requires
        wf(m),
    ensures
        wf(outcome_model(m, position, outcome, now).0),
{
    if in_window(m, position) && chunk_at(m, position).state is Fetching {
        let c = chunk_at(m, position);
        assert(chunk_wf(c));
        let n = outcome_model(m, position, outcome, now).0;
        match outcome {
            OutcomeView::Body { byte_count, batches, decoded_bytes } => {
                let kept = ChunkModel {
                    state: ChunkState::Decoded,
                    batches,
                    bytes: decoded_bytes,
                    ..c
                };
                if n == with_chunk(m, position, kept) && bytes_held(m.window) - c.bytes
                    + decoded_bytes <= m.config.max_buffer_size {
                    lemma_with_chunk_wf(m, position, kept);
                } else {
                    lemma_fail_at_wf(m, position, n.window.last().error->Some_0);
                }
            },
            OutcomeView::Undecodable { byte_count } => {
                lemma_fail_at_wf(m, position, n.window.last().error->Some_0);
            },
            OutcomeView::Http { status } => {
                match failure_class(status) {
                    FailureClass::Unauthorized => {
                        if c.credential_refreshed {
                            lemma_fail_at_wf(m, position, n.window.last().error->Some_0);
                        } else {
                            lemma_with_chunk_wf(
                                m,
                                position,
                                ChunkModel {
                                    state: ChunkState::AwaitingCredential,
                                    credential_refreshed: true,
                                    ..c
                                },
                            );
                        }
                    },
                    FailureClass::Transient => {
                        lemma_transient_wf(m, position, now);
                    },
                    _ => {
                        lemma_fail_at_wf(m, position, n.window.last().error->Some_0);
                    },
                }
            },
            OutcomeView::Network => {
                lemma_transient_wf(m, position, now);
            },
        }
    }
}

/// Fresh links keep the state well formed.
pub proof fn lemma_links_refreshed_wf(m: ReaderModel, position: nat, fresh: Seq<LinkView>)
    requires
        wf(m),
    ensures
        wf(links_refreshed_model(m, position, fresh).0),
{
    if in_window(m, position) && chunk_at(m, position).state is AwaitingLink {
        let c = chunk_at(m, position);
        let n = links_refreshed_model(m, position, fresh).0;
        match first_with_index(fresh, c.link.sequence_index) {
            Some(i) => {
                assert(is_first_with_index(fresh, c.link.sequence_index, i));
                lemma_refetch_wf(m, position, fresh[i], 0);
            },
            None => {
                lemma_fail_at_wf(m, position, n.window.last().error->Some_0);
            },
        }
    }
}

/// A failed refresh of the links keeps the state well formed.
pub proof fn lemma_refresh_failed_wf(m: ReaderModel, position: nat, error: ErrorView)
    requires
        wf(m),
    ensures
        wf(refresh_failed_model(m, position, error)),
{
    if in_window(m, position) && chunk_at(m, position).state is AwaitingLink {
        lemma_fail_at_wf(m, position, error);
    }
}

/// A fresh credential keeps the state well formed.
pub proof fn lemma_credential_refreshed_wf(m: ReaderModel, position: nat)
    requires
        wf(m),
    ensures
        wf(credential_refreshed_model(m, position).0),
{
    if in_window(m, position) && chunk_at(m, position).state is AwaitingCredential {
        lemma_refetch_wf(m, position, chunk_at(m, position).link, 0);
    }
}

/// A failed refresh of the credential keeps the state well formed.
pub proof fn lemma_credential_failed_wf(m: ReaderModel, position: nat)
    requires
        wf(m),
    ensures
        wf(credential_failed_model(m, position)),
{
    if in_window(m, position) && chunk_at(m, position).state is AwaitingCredential {
        lemma_fail_at_wf(m, position, credential_failed_model(m, position).window.last().error->Some_0);
    }
}

/// Letting go of the first chunk of the window, where that chunk has not
/// failed, keeps the state well formed.
pub proof fn lemma_advance_wf(m: ReaderModel)
    requires
        wf(m),
        m.window.len() > 0,
    ensures
        wf(
            ReaderModel {
                window: m.window.subrange(1, m.window.len() as int),
                next_deliver: m.next_deliver + 1,
                ..m
            },
        ),
{
    let n = ReaderModel {
        window: m.window.subrange(1, m.window.len() as int),
        next_deliver: m.next_deliver + 1,
        ..m
    };
    lemma_tally_skip(m.window, slot_weight());
    lemma_tally_skip(m.window, byte_weight());
    assert forall|k: int| 0 <= k < n.window.len() implies {
        &&& chunk_wf(#[trigger] n.window[k])
        &&& within_attempts(n.window[k], n.max_attempts)
        &&& n.window[k].link.sequence_index == n.links[n.next_deliver + k].sequence_index
        &&& (n.window[k].state is Failed ==> k == n.window.len() - 1)
    } by {
        assert(n.window[k] == m.window[k + 1]);
    }
}

/// Letting go of the spent chunks keeps the state well formed, takes no
/// chunk back, and leaves no spent chunk at the head.
pub proof fn lemma_drop_spent_wf(m: ReaderModel)
    requires
        wf(m),
    ensures
        wf(drop_spent(m)),
        drop_spent(m).next_deliver >= m.next_deliver,
        next_admit(drop_spent(m)) == next_admit(m),
        drop_spent(m).links == m.links,
        drop_spent(m).phase == m.phase,
        drop_spent(m).fault == m.fault,
        drop_spent(m).config == m.config,
        drop_spent(m).max_attempts == m.max_attempts,
        drop_spent(m).schema == m.schema,
        drop_spent(m).window.len() > 0 ==> !spent(drop_spent(m).window[0]),
    decreases m.window.len(),
{
    if m.window.len() > 0 && spent(m.window[0]) {
        lemma_advance_wf(m);
        lemma_drop_spent_wf(
            ReaderModel {
                window: m.window.subrange(1, m.window.len() as int),
                next_deliver: m.next_deliver + 1,
                ..m
            },
        );
    }
}

/// The delivery of a batch keeps the state well formed.
pub proof fn lemma_after_delivery_wf(m: ReaderModel)
    requires
        wf(m),
        m.phase is Open,
        m.window.len() > 0,
        m.window[0].state is Decoded,
        m.window[0].batches.len() > 0,
    ensures
        wf(after_delivery(m)),
{
    let c = m.window[0];
    let rest = c.batches.subrange(1, c.batches.len() as int);
    if rest.len() == 0 {
        lemma_advance_wf(m);
    } else {
        assert(chunk_wf(c));
        assert(in_window(m, m.next_deliver));
        lemma_with_chunk_wf(m, m.next_deliver, ChunkModel { batches: rest, ..c });
    }
}

/// A pull keeps the state well formed.
pub proof fn lemma_pull_wf(m: ReaderModel)
    requires
        wf(m),
    ensures
        wf(pull_model(m).0),
{
    if m.phase is Open && m.fault is None {
        lemma_drop_spent_wf(m);
        let n = drop_spent(m);
        if n.window.len() > 0 && n.window[0].state is Decoded {
            lemma_after_delivery_wf(n);
        }
    }
}

/// Cancelling and closing keep the state well formed.
pub proof fn lemma_shutdown_wf(m: ReaderModel)
    requires
        wf(m),
    ensures
        wf(cancel_model(m)),
        wf(close_model(m)),
{
}

} // verus!

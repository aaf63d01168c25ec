//! What holds of every run of a statement.

use vstd::prelude::*;
use crate::error::{ErrorView, Status};
use crate::reader::laws::lemma_apply_steady;
use crate::reader::model::Op;
use crate::reader::wellformed::{lemma_initial_wf, lemma_pull_wf};
use crate::reader::retry::DEFAULT_MAX_ATTEMPTS;
use crate::statement::{
    cancel_model, close_model, execute_model, jittered, next_batch_model, poll_failed_model,
    poll_model, set_sql_query_model, statement_wf, stream_event_model, submit_failed_model,
    submitted_model, wait_model, PollView, QueryStatus, StatementActionView, StatementModel,
    POLL_CAP_MS,
};

verus! {

/// One operation on a statement, with what the caller brings to it.
pub enum StatementOp {
    SetQuery { text: Seq<char> },
    Execute,
    Submitted { ticket: nat, query_id: Seq<char> },
    SubmitFailed { ticket: nat, error: ErrorView },
    Polled { query_id: Seq<char>, response: PollView, entropy: nat },
    PollFailed { query_id: Seq<char>, error: ErrorView },
    Cancel,
    Close,
    Pull,
    Stream { event: Op },
    SetTimeout { timeout_ms: Option<nat> },
    SetDeadline { deadline_ms: Option<nat> },
}

/// The state that `op` leaves a statement in. An operation that is
/// rejected leaves the statement as it was.
pub open spec fn step(s: StatementModel, op: StatementOp) -> StatementModel {
    match op {
        StatementOp::SetQuery { text } => match set_sql_query_model(s, text) {
            Ok(next) => next,
            Err(_) => s,
        },
        StatementOp::Execute => match execute_model(s) {
            Ok((next, _)) => next,
            Err(_) => s,
        },
        StatementOp::Submitted { ticket, query_id } => submitted_model(s, ticket, query_id).0,
        StatementOp::SubmitFailed { ticket, error } => submit_failed_model(s, ticket, error),
        StatementOp::Polled { query_id, response, entropy } => poll_model(
            s,
            query_id,
            response,
            entropy,
        ).0,
        StatementOp::PollFailed { query_id, error } => poll_failed_model(s, query_id, error),
        StatementOp::Cancel => cancel_model(s).0,
        StatementOp::Close => close_model(s).0,
        StatementOp::Pull => next_batch_model(s).0,
        StatementOp::Stream { event } => stream_event_model(s, event).0,
        StatementOp::SetTimeout { timeout_ms } => StatementModel { timeout_ms, waited_ms: 0, ..s },
        StatementOp::SetDeadline { deadline_ms } => StatementModel { deadline_ms, ..s },
    }
}

/// The state after the operations `ops`, one after the other, from `s`.
pub open spec fn run(s: StatementModel, ops: Seq<StatementOp>) -> StatementModel
    decreases ops.len(),
{
    if ops.len() == 0 {
        s
    } else {
        step(run(s, ops.drop_last()), ops.last())
    }
}

/// A poll that finds the query pending or running keeps the statement well
/// formed.
proof fn lemma_wait_wf(s: StatementModel, status: QueryStatus, entropy: nat)
    requires
        statement_wf(s),
        s.state is Polling,
    ensures
        statement_wf(wait_model(s, status, entropy).0),
{
}

/// Every operation keeps the statement well formed.
pub proof fn lemma_step_wf(s: StatementModel, op: StatementOp)
    requires
        statement_wf(s),
    ensures
        statement_wf(step(s, op)),
{
    match op {
        StatementOp::Polled { query_id, response, entropy } => {
            if s.state is Polling && s.handle is Some && s.handle->Some_0.query_id == query_id {
                match response {
                    PollView::Pending => {
                        lemma_wait_wf(s, QueryStatus::Pending, entropy);
                    },
                    PollView::Running => {
                        lemma_wait_wf(s, QueryStatus::Running, entropy);
                    },
                    PollView::Succeeded { schema, links } => {
                        lemma_initial_wf(
                            s.cloudfetch,
                            links,
                            DEFAULT_MAX_ATTEMPTS as nat,
                            Some(schema),
                        );
                    },
                    _ => {},
                }
            }
        },
        StatementOp::Pull => {
            if s.stream is Some {
                lemma_pull_wf(s.stream->Some_0);
            }
        },
        StatementOp::Stream { event } => {
            if s.stream is Some {
                lemma_apply_steady(s.stream->Some_0, event);
            }
        },
        _ => {},
    }
}

/// In every state that a run reaches, the statement has a result stream
/// exactly while its query has succeeded, and then its handle says so and
/// knows the schema of the result: no run leaves a stream behind a query
/// that is cancelled, failed, closed or replaced.
pub proof fn lemma_stream_only_while_succeeded(s: StatementModel, ops: Seq<StatementOp>)
    requires
        statement_wf(s),
    ensures
        statement_wf(run(s, ops)),
        run(s, ops).stream is Some <==> run(s, ops).state is Succeeded,
        run(s, ops).stream is Some ==> run(s, ops).handle is Some && run(
            s,
            ops,
        ).handle->Some_0.status is Succeeded && run(s, ops).handle->Some_0.result_schema is Some,
    decreases ops.len(),
{
    if ops.len() > 0 {
        lemma_stream_only_while_succeeded(s, ops.drop_last());
        lemma_step_wf(run(s, ops.drop_last()), ops.last());
    }
}

/// Cancellation is local: whatever state the statement is in, and whatever
/// the warehouse does with the request, the statement is cancelled or has
/// failed before, has no result stream, and gives an error to the next
/// pull; where it had not failed, that error is a cancellation.
pub proof fn lemma_cancel_is_local(s: StatementModel)
    requires
        statement_wf(s),
    ensures
        cancel_model(s).0.state is Cancelled || (s.state is Failed && cancel_model(s).0 == s),
        cancel_model(s).0.stream is None,
        next_batch_model(cancel_model(s).0).1 is Err,
        !(s.state is Failed) && !(s.state is Cancelled) ==> next_batch_model(
            cancel_model(s).0,
        ).1->Err_0.status == Status::Cancelled,
{
}

/// A statement runs one query at a time: a new execution lets go of the
/// handle and of the result stream of the query before, and asks for the
/// cancellation of a query that is still polled before it asks for the new
/// submission.
pub proof fn lemma_one_query_at_a_time(s: StatementModel)
    requires
        statement_wf(s),
        execute_model(s) is Ok,
    ensures
        execute_model(s)->Ok_0.0.stream is None,
        execute_model(s)->Ok_0.0.handle is None,
        execute_model(s)->Ok_0.0.state is Submitted,
        execute_model(s)->Ok_0.1.last() == (StatementActionView::Submit {
            sql: s.query->Some_0,
            ticket: execute_model(s)->Ok_0.0.ticket,
        }),
        execute_model(s)->Ok_0.0.ticket != s.ticket,
        s.state is Polling ==> execute_model(s)->Ok_0.1.len() == 2 && execute_model(s)->Ok_0.1[0]
            == (StatementActionView::Cancel { query_id: s.handle->Some_0.query_id }),
        !(s.state is Polling) ==> execute_model(s)->Ok_0.1.len() == 1,
{
}

/// The polls of a query wait no longer than the cap each, and, where there
/// is a timeout, no longer than the timeout in all.
pub proof fn lemma_polls_are_bounded(
    s: StatementModel,
    query_id: Seq<char>,
    response: PollView,
    entropy: nat,
)
    requires
        statement_wf(s),
    ensures
        match poll_model(s, query_id, response, entropy).1 {
            Some(StatementActionView::Poll { query_id, wait_ms }) => wait_ms <= POLL_CAP_MS
                && wait_ms == jittered(s.interval_ms, entropy),
            _ => true,
        },
        poll_model(s, query_id, response, entropy).0.timeout_ms is Some ==> poll_model(
            s,
            query_id,
            response,
            entropy,
        ).0.waited_ms <= poll_model(s, query_id, response, entropy).0.timeout_ms->Some_0,
{
}

} // verus!

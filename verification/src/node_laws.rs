//! What holds of every node benchmark, whatever the node answers.

use vstd::prelude::*;
use crate::error::{ErrorKind, Failure};
use crate::node::{
    node_begin, node_fails, node_ignores, node_step, page_note, NodeActionView,
    NodeEventView, NodeRunView, NodeStage,
};
use crate::note::NoteView;
use crate::pagination::latest_transactions_shape;
use crate::span::elapsed_nanos;

verus! {

/// An event together with the clock reading at which it arrived.
pub struct Arrival {
    pub event: NodeEventView,
    pub at: nat,
}

/// The run that `run` has become once the first `n` of `arrivals` are in.
pub open spec fn node_after(run: NodeRunView, arrivals: Seq<Arrival>, n: nat) -> NodeRunView
    decreases n,
{
    if n == 0 {
        run
    } else {
        let before = node_after(run, arrivals, (n - 1) as nat);
        node_step(before, arrivals[n - 1].event, arrivals[n - 1].at).next
    }
}

/// What the run asks for when arrival `i` comes in.
pub open spec fn node_action_at(run: NodeRunView, arrivals: Seq<Arrival>, i: nat) -> NodeActionView {
    node_step(node_after(run, arrivals, i), arrivals[i as int].event, arrivals[i as int].at).action
}

/// What the run notes when arrival `i` comes in.
pub open spec fn node_notes_at(run: NodeRunView, arrivals: Seq<Arrival>, i: nat) -> Seq<NoteView> {
    node_step(node_after(run, arrivals, i), arrivals[i as int].event, arrivals[i as int].at).notes
}

/// How far a run has come: the number of requests answered.
pub open spec fn progress(stage: NodeStage) -> nat {
    match stage {
        NodeStage::Connecting => 0,
        NodeStage::FetchingBlockHeight => 1,
        NodeStage::FetchingGasPrice => 2,
        NodeStage::FetchingTransactions => 3,
        NodeStage::Finished => 4,
    }
}

/// The error that a failure brings while `stage` is awaited.
pub open spec fn failure_kind(stage: NodeStage) -> ErrorKind {
    match stage {
        NodeStage::Connecting => ErrorKind::ProviderConnection,
        NodeStage::FetchingBlockHeight => ErrorKind::BlockHeightFetch,
        NodeStage::FetchingGasPrice => ErrorKind::GasPriceFetch,
        _ => ErrorKind::TransactionFetch,
    }
}

/// Whether `action` asks the caller to query the node.
pub open spec fn is_query(action: NodeActionView) -> bool {
    action is QueryBlockHeight || action is QueryGasPrice || action is QueryTransactions
}

/// The place of a query in the order of a run.
pub open spec fn query_order(action: NodeActionView) -> nat {
    match action {
        NodeActionView::QueryBlockHeight => 1,
        NodeActionView::QueryGasPrice => 2,
        _ => 3,
    }
}

/// A failure ends the run at once, with the error that names the request
/// that was awaited and carries the cause unchanged.
pub proof fn law_failure_names_the_step(run: NodeRunView, cause: Seq<char>, now: nat)
    requires
        run.stage != NodeStage::Finished,
    ensures
        node_step(run, NodeEventView::Failed(cause), now) == node_fails(
            run,
            failure_kind(run.stage),
            cause,
        ),
        node_step(run, NodeEventView::Failed(cause), now).next.stage == NodeStage::Finished,
        node_step(run, NodeEventView::Failed(cause), now).action == NodeActionView::Return(
            Err(Failure { kind: failure_kind(run.stage), cause }),
        ),
{
}

/// A run that returns is finished, and a run only asks for a query as it
/// moves on to await exactly that query.
pub proof fn law_step_moves_forward(run: NodeRunView, event: NodeEventView, now: nat)
    ensures
        ({
            let step = node_step(run, event, now);
            &&& progress(step.next.stage) >= progress(run.stage)
            &&& step.next.started_at == run.started_at
            &&& step.action is Return ==> step.next.stage == NodeStage::Finished
            &&& step.action is Return ==> run.stage != NodeStage::Finished
            &&& is_query(step.action) ==> progress(step.next.stage) == progress(run.stage) + 1
            &&& is_query(step.action) ==> query_order(step.action) == progress(step.next.stage)
            &&& !(step.action is Connect)
            &&& step.action is Ignore ==> step == node_ignores(run)
        }),
{
}

/// The page of transactions is only ever asked for in one shape: ten
/// results, from the newest backwards, with no cursor.
pub proof fn law_page_request_shape(run: NodeRunView, event: NodeEventView, now: nat)
    ensures
        node_step(run, event, now).action matches NodeActionView::QueryTransactions(shape)
            ==> shape == latest_transactions_shape() && shape.cursor is None && shape.results == 10,
{
}

/// A run never goes back: its progress after more arrivals is no less.
pub proof fn lemma_progress_grows(run: NodeRunView, arrivals: Seq<Arrival>, i: nat, j: nat)
    requires
        i <= j,
    ensures
        progress(node_after(run, arrivals, i).stage) <= progress(node_after(run, arrivals, j).stage),
    decreases j,
{
    if i < j {
        lemma_progress_grows(run, arrivals, i, (j - 1) as nat);
        let before = node_after(run, arrivals, (j - 1) as nat);
        law_step_moves_forward(before, arrivals[j - 1].event, arrivals[j - 1].at);
    }
}

/// Once a run has returned, a success or a failure, it asks for nothing
/// more: every later arrival is ignored and noted by nothing. So a failure
/// at one step keeps every later step from being attempted.
pub proof fn law_nothing_follows_return(run: NodeRunView, arrivals: Seq<Arrival>, i: nat, j: nat)
    requires
        i < j,
        node_action_at(run, arrivals, i) is Return,
    ensures
        node_action_at(run, arrivals, j) == NodeActionView::Ignore,
        node_notes_at(run, arrivals, j) == Seq::<NoteView>::empty(),
        node_after(run, arrivals, j).stage == NodeStage::Finished,
{
    let before = node_after(run, arrivals, i);
    law_step_moves_forward(before, arrivals[i as int].event, arrivals[i as int].at);
    assert(node_after(run, arrivals, i + 1).stage == NodeStage::Finished);
    lemma_progress_grows(run, arrivals, i + 1, j);
}

/// A run returns at most once.
pub proof fn law_returns_once(run: NodeRunView, arrivals: Seq<Arrival>, i: nat, j: nat)
    requires
        node_action_at(run, arrivals, i) is Return,
        node_action_at(run, arrivals, j) is Return,
    ensures
        i == j,
{
    if i < j {
        law_nothing_follows_return(run, arrivals, i, j);
    } else if j < i {
        law_nothing_follows_return(run, arrivals, j, i);
    }
}

/// Queries are made in order and none twice: of two queries, the later one
/// comes later in the order of a run.
pub proof fn law_queries_ascend(run: NodeRunView, arrivals: Seq<Arrival>, i: nat, j: nat)
    requires
        i < j,
        is_query(node_action_at(run, arrivals, i)),
        is_query(node_action_at(run, arrivals, j)),
    ensures
        query_order(node_action_at(run, arrivals, i)) < query_order(
            node_action_at(run, arrivals, j),
        ),
{
    let at_i = node_after(run, arrivals, i);
    let at_j = node_after(run, arrivals, j);
    law_step_moves_forward(at_i, arrivals[i as int].event, arrivals[i as int].at);
    law_step_moves_forward(at_j, arrivals[j as int].event, arrivals[j as int].at);
    assert(node_after(run, arrivals, i + 1) == node_step(
        at_i,
        arrivals[i as int].event,
        arrivals[i as int].at,
    ).next);
    lemma_progress_grows(run, arrivals, i + 1, j);
}

/// The reading taken at the start is kept for the whole run.
pub proof fn lemma_start_is_kept(run: NodeRunView, arrivals: Seq<Arrival>, n: nat)
    ensures
        node_after(run, arrivals, n).started_at == run.started_at,
    decreases n,
{
    if n > 0 {
        lemma_start_is_kept(run, arrivals, (n - 1) as nat);
        let before = node_after(run, arrivals, (n - 1) as nat);
        law_step_moves_forward(before, arrivals[n - 1].event, arrivals[n - 1].at);
    }
}

/// Whenever a run returns a duration, it is the time from the reading at
/// which the run began to the reading at which the last answer arrived.
pub proof fn law_duration_spans_the_run(run: NodeRunView, arrivals: Seq<Arrival>, i: nat)
    requires
        node_action_at(run, arrivals, i) matches NodeActionView::Return(Ok(_)),
    ensures
        node_action_at(run, arrivals, i) == NodeActionView::Return(
            Ok(elapsed_nanos(run.started_at, arrivals[i as int].at)),
        ),
        arrivals[i as int].event is Transactions,
        run.started_at <= arrivals[i as int].at ==> node_action_at(run, arrivals, i)
            == NodeActionView::Return(Ok((arrivals[i as int].at - run.started_at) as nat)),
{
    lemma_start_is_kept(run, arrivals, i);
}

/// A run in which every request succeeds: it connects, asks for the block
/// height, the gas price and the page of transactions, in that order, notes
/// each answer as it was given, and returns the time from `t0` to `t4`.
/// An empty page is no failure. On a clock that does not go backwards the
/// duration is the sum of the time that each request took.
pub proof fn law_successful_run(
    url: Seq<char>,
    height: u32,
    price: Seq<char>,
    statuses: Seq<Seq<char>>,
    t0: nat,
    t1: nat,
    t2: nat,
    t3: nat,
    t4: nat,
)
    ensures
        ({
            let start = node_begin(url, t0);
            let first = node_step(start.next, NodeEventView::Connected, t1);
            let second = node_step(first.next, NodeEventView::BlockHeight(height), t2);
            let third = node_step(second.next, NodeEventView::GasPrice(price), t3);
            let last = node_step(third.next, NodeEventView::Transactions(statuses), t4);
            &&& start.action == NodeActionView::Connect(url)
            &&& start.notes == seq![NoteView::Connecting(url)]
            &&& first.action == NodeActionView::QueryBlockHeight
            &&& first.notes == seq![NoteView::Connected, NoteView::FetchingBlockHeight]
            &&& second.action == NodeActionView::QueryGasPrice
            &&& second.notes == seq![NoteView::BlockHeight(height), NoteView::FetchingGasPrice]
            &&& third.action == NodeActionView::QueryTransactions(latest_transactions_shape())
            &&& third.notes == seq![NoteView::GasPrice(price), NoteView::FetchingTransactions]
            &&& last.action == NodeActionView::Return(Ok(elapsed_nanos(t0, t4)))
            &&& last.notes == seq![page_note(statuses)]
            &&& statuses.len() == 0 ==> last.notes == seq![NoteView::NoTransactions]
            &&& last.next.stage == NodeStage::Finished
            &&& t0 <= t1 <= t2 <= t3 <= t4 ==> elapsed_nanos(t0, t4) == (t1 - t0) + (t2 - t1) + (t3
                - t2) + (t4 - t3)
        }),
{
}

} // verus!

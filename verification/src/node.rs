//! The node benchmark: one timed cycle of read-only queries against a node.
//!
//! The run itself never talks to a node. It says which request to make next,
//! and is told what came back. A run connects, asks for the latest block
//! height, the latest gas price and the most recent transactions, in that
//! order, and ends at the first failure.

use vstd::prelude::*;
use vstd::string::StringExecFns;
use crate::error::{BenchmarkError, ErrorKind, Failure};
use crate::note::{notes_view, Note, NoteView};
use crate::pagination::{latest_transactions_shape, PaginationRequest, PaginationShape};
use crate::span::{elapsed_nanos, Span};

verus! {

/// The request a run is waiting on.
#[derive(Debug, Clone, Copy, PartialEq, Eq, Structural)]
pub enum NodeStage {
    Connecting,
    FetchingBlockHeight,
    FetchingGasPrice,
    FetchingTransactions,
    /// The run has returned; nothing is awaited.
    Finished,
}

/// A node benchmark in progress.
#[derive(Debug, Clone, Copy)]
pub struct NodeRun {
    pub stage: NodeStage,
    /// The clock reading taken when the run began.
    pub started_at: Span,
}

/// A [`NodeRun`] in contracts, the reading in nanoseconds.
pub struct NodeRunView {
    pub stage: NodeStage,
    pub started_at: nat,
}

/// What came back from the node.
#[derive(Debug)]
pub enum NodeEvent {
    /// The connection is open.
    Connected,
    /// The latest block height.
    BlockHeight(u32),
    /// The latest gas price, as the answer of the node is written.
    GasPrice(String),
    /// The page of transactions, each by its status, in page order.
    Transactions(Vec<String>),
    /// The request failed, with this cause.
    Failed(String),
}

/// A [`NodeEvent`] in contracts, text by its characters.
pub enum NodeEventView {
    Connected,
    BlockHeight(u32),
    GasPrice(Seq<char>),
    Transactions(Seq<Seq<char>>),
    Failed(Seq<char>),
}

/// What the caller is to do next.
#[derive(Debug, PartialEq, Eq)]
pub enum NodeAction {
    /// Open a connection to the endpoint with this address.
    Connect(String),
    QueryBlockHeight,
    QueryGasPrice,
    /// Ask for this page of transactions.
    QueryTransactions(PaginationRequest),
    /// The run is over, with this result: the elapsed time, or the failure.
    Return(Result<Span, BenchmarkError>),
    /// The event answered nothing the run was waiting on; nothing is to be done.
    Ignore,
}

/// A [`NodeAction`] in contracts, the elapsed time in nanoseconds.
pub enum NodeActionView {
    Connect(Seq<char>),
    QueryBlockHeight,
    QueryGasPrice,
    QueryTransactions(PaginationShape),
    Return(Result<nat, Failure>),
    Ignore,
}

/// One move of a run: the run afterwards, what to log, what to do.
#[derive(Debug)]
pub struct NodeStep {
    pub next: NodeRun,
    pub notes: Vec<Note>,
    pub action: NodeAction,
}

/// A [`NodeStep`] in contracts.
pub struct NodeStepView {
    pub next: NodeRunView,
    pub notes: Seq<NoteView>,
    pub action: NodeActionView,
}

impl View for NodeRun {
    type V = NodeRunView;

    open spec fn view(&self) -> NodeRunView {
        NodeRunView { stage: self.stage, started_at: self.started_at.nanos() }
    }
}

impl View for NodeEvent {
    type V = NodeEventView;

    open spec fn view(&self) -> NodeEventView {
        match self {
            NodeEvent::Connected => NodeEventView::Connected,
            NodeEvent::BlockHeight(height) => NodeEventView::BlockHeight(*height),
            NodeEvent::GasPrice(price) => NodeEventView::GasPrice(price@),
            NodeEvent::Transactions(statuses) => NodeEventView::Transactions(
                statuses@.map_values(|status: String| status@),
            ),
            NodeEvent::Failed(cause) => NodeEventView::Failed(cause@),
        }
    }
}

impl View for NodeAction {
    type V = NodeActionView;

    open spec fn view(&self) -> NodeActionView {
        match self {
            NodeAction::Connect(url) => NodeActionView::Connect(url@),
            NodeAction::QueryBlockHeight => NodeActionView::QueryBlockHeight,
            NodeAction::QueryGasPrice => NodeActionView::QueryGasPrice,
            NodeAction::QueryTransactions(request) => NodeActionView::QueryTransactions(request@),
            NodeAction::Return(Ok(elapsed)) => NodeActionView::Return(Ok(elapsed.nanos())),
            NodeAction::Return(Err(error)) => NodeActionView::Return(Err(error@)),
            NodeAction::Ignore => NodeActionView::Ignore,
        }
    }
}

impl View for NodeStep {
    type V = NodeStepView;

    open spec fn view(&self) -> NodeStepView {
        NodeStepView {
            next: self.next@,
            notes: notes_view(self.notes@),
            action: self.action@,
        }
    }
}

/// The start of a run against `url` at the reading `now`.
pub open spec fn node_begin(url: Seq<char>, now: nat) -> NodeStepView {
    NodeStepView {
        next: NodeRunView { stage: NodeStage::Connecting, started_at: now },
        notes: seq![NoteView::Connecting(url)],
        action: NodeActionView::Connect(url),
    }
}

/// The run moves on to `stage` and asks for `action`.
pub open spec fn node_moves_on(
    run: NodeRunView,
    stage: NodeStage,
    notes: Seq<NoteView>,
    action: NodeActionView,
) -> NodeStepView {
    NodeStepView { next: NodeRunView { stage, started_at: run.started_at }, notes, action }
}

/// The run ends with `result`.
pub open spec fn node_returns(
    run: NodeRunView,
    notes: Seq<NoteView>,
    result: Result<nat, Failure>,
) -> NodeStepView {
    node_moves_on(run, NodeStage::Finished, notes, NodeActionView::Return(result))
}

/// The run stays as it is.
pub open spec fn node_ignores(run: NodeRunView) -> NodeStepView {
    NodeStepView { next: run, notes: seq![], action: NodeActionView::Ignore }
}

/// The run ends with the failure of `kind`.
pub open spec fn node_fails(run: NodeRunView, kind: ErrorKind, cause: Seq<char>) -> NodeStepView {
    node_returns(run, seq![], Err(Failure { kind, cause }))
}

/// What the run notes of a page of transactions: the status of the first,
/// or that there is none.
pub open spec fn page_note(statuses: Seq<Seq<char>>) -> NoteView {
    if statuses.len() > 0 {
        NoteView::LatestTransaction(statuses[0])
    } else {
        NoteView::NoTransactions
    }
}

/// One move of a run: what `run` does when `event` arrives at the reading `now`.
///
/// A failure ends the run with the error of the request that was awaited. The
/// answer to the awaited request moves the run on to the next request, or,
/// after the page of transactions, ends it with the time since it began. Any
/// other event, and every event after the run has ended, changes nothing.
pub open spec fn node_step(run: NodeRunView, event: NodeEventView, now: nat) -> NodeStepView {
    match run.stage {
        NodeStage::Connecting => match event {
            NodeEventView::Connected => node_moves_on(
                run,
                NodeStage::FetchingBlockHeight,
                seq![NoteView::Connected, NoteView::FetchingBlockHeight],
                NodeActionView::QueryBlockHeight,
            ),
            NodeEventView::Failed(cause) => node_fails(run, ErrorKind::ProviderConnection, cause),
            _ => node_ignores(run),
        },
        NodeStage::FetchingBlockHeight => match event {
            NodeEventView::BlockHeight(height) => node_moves_on(
                run,
                NodeStage::FetchingGasPrice,
                seq![NoteView::BlockHeight(height), NoteView::FetchingGasPrice],
                NodeActionView::QueryGasPrice,
            ),
            NodeEventView::Failed(cause) => node_fails(run, ErrorKind::BlockHeightFetch, cause),
            _ => node_ignores(run),
        },
        NodeStage::FetchingGasPrice => match event {
            NodeEventView::GasPrice(price) => node_moves_on(
                run,
                NodeStage::FetchingTransactions,
                seq![NoteView::GasPrice(price), NoteView::FetchingTransactions],
                NodeActionView::QueryTransactions(latest_transactions_shape()),
            ),
            NodeEventView::Failed(cause) => node_fails(run, ErrorKind::GasPriceFetch, cause),
            _ => node_ignores(run),
        },
        NodeStage::FetchingTransactions => match event {
            NodeEventView::Transactions(statuses) => node_returns(
                run,
                seq![page_note(statuses)],
                Ok(elapsed_nanos(run.started_at, now)),
            ),
            NodeEventView::Failed(cause) => node_fails(run, ErrorKind::TransactionFetch, cause),
            _ => node_ignores(run),
        },
        NodeStage::Finished => node_ignores(run),
    }
}

impl NodeRun {
    /// Starts a run against the endpoint `url`, at the clock reading `now`.
    pub fn begin(url: &str, now: Span) -> (out: NodeStep)
        ensures
            out@ == node_begin(url@, now.nanos()),
    {
        let mut notes: Vec<Note> = Vec::new();
        notes.push(Note::Connecting(String::from_str(url)));
        let out = NodeStep {
            next: NodeRun { stage: NodeStage::Connecting, started_at: now },
            notes,
            action: NodeAction::Connect(String::from_str(url)),
        };
        assert(out@.notes =~= seq![NoteView::Connecting(url@)]);
        out
    }

    /// Tells the run that `event` arrived at the clock reading `now`.
    pub fn step(self, event: NodeEvent, now: Span) -> (out: NodeStep)
        ensures
            out@ == node_step(self@, event@, now.nanos()),
    {
        match self.stage {
            NodeStage::Connecting => match event {
                NodeEvent::Connected => self.moves_on(
                    NodeStage::FetchingBlockHeight,
                    Note::Connected,
                    Note::FetchingBlockHeight,
                    NodeAction::QueryBlockHeight,
                ),
                NodeEvent::Failed(cause) => self.fails(ErrorKind::ProviderConnection, cause),
                _ => self.ignores(),
            },
            NodeStage::FetchingBlockHeight => match event {
                NodeEvent::BlockHeight(height) => self.moves_on(
                    NodeStage::FetchingGasPrice,
                    Note::BlockHeight(height),
                    Note::FetchingGasPrice,
                    NodeAction::QueryGasPrice,
                ),
                NodeEvent::Failed(cause) => self.fails(ErrorKind::BlockHeightFetch, cause),
                _ => self.ignores(),
            },
            NodeStage::FetchingGasPrice => match event {
                NodeEvent::GasPrice(price) => self.moves_on(
                    NodeStage::FetchingTransactions,
                    Note::GasPrice(price),
                    Note::FetchingTransactions,
                    NodeAction::QueryTransactions(PaginationRequest::latest_transactions()),
                ),
                NodeEvent::Failed(cause) => self.fails(ErrorKind::GasPriceFetch, cause),
                _ => self.ignores(),
            },
            NodeStage::FetchingTransactions => match event {
                NodeEvent::Transactions(statuses) => {
                    let note = if statuses.len() > 0 {
                        Note::LatestTransaction(statuses[0].clone())
                    } else {
                        Note::NoTransactions
                    };
                    let mut notes: Vec<Note> = Vec::new();
                    notes.push(note);
                    let out = NodeStep {
                        next: NodeRun { stage: NodeStage::Finished, started_at: self.started_at },
                        notes,
                        action: NodeAction::Return(Ok(now.saturating_sub(&self.started_at))),
                    };
                    assert(out@.notes =~= seq![
                        page_note(statuses@.map_values(|status: String| status@)),
                    ]);
                    out
                },
                NodeEvent::Failed(cause) => self.fails(ErrorKind::TransactionFetch, cause),
                _ => self.ignores(),
            },
            NodeStage::Finished => self.ignores(),
        }
    }

    /// Whether the run has returned.
    pub fn is_finished(&self) -> (finished: bool)
        ensures
            finished == (self@.stage == NodeStage::Finished),
    {
        match self.stage {
            NodeStage::Finished => true,
            _ => false,
        }
    }

    fn moves_on(self, stage: NodeStage, first: Note, second: Note, action: NodeAction) -> (out:
        NodeStep)
        ensures
            out@ == node_moves_on(self@, stage, seq![first@, second@], action@),
    {
        let mut notes: Vec<Note> = Vec::new();
        notes.push(first);
        notes.push(second);
        let out = NodeStep {
            next: NodeRun { stage, started_at: self.started_at },
            notes,
            action,
        };
        assert(out@.notes =~= seq![first@, second@]);
        out
    }

    fn fails(self, kind: ErrorKind, cause: String) -> (out: NodeStep)
        ensures
            out@ == node_fails(self@, kind, cause@),
    {
        let out = NodeStep {
            next: NodeRun { stage: NodeStage::Finished, started_at: self.started_at },
            notes: Vec::new(),
            action: NodeAction::Return(Err(BenchmarkError::new(kind, cause))),
        };
        assert(out@.notes =~= seq![]);
        out
    }

    fn ignores(self) -> (out: NodeStep)
        ensures
            out@ == node_ignores(self@),
    {
        let out = NodeStep { next: self, notes: Vec::new(), action: NodeAction::Ignore };
        assert(out@.notes =~= seq![]);
        out
    }
}

} // verus!

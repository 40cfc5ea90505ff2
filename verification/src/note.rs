//! What a run has to say while it makes progress.

use vstd::prelude::*;

verus! {

/// One observation made during a node benchmark, for the caller to log.
/// Notes never change what a run returns.
#[derive(Debug, PartialEq, Eq)]
pub enum Note {
    /// About to connect to the endpoint with this address.
    Connecting(String),
    Connected,
    FetchingBlockHeight,
    /// The latest block height, as the node gave it.
    BlockHeight(u32),
    FetchingGasPrice,
    /// The latest gas price, as the answer of the node is written.
    GasPrice(String),
    FetchingTransactions,
    /// The status of the most recent transaction, as the node gave it.
    LatestTransaction(String),
    /// The node returned an empty page of transactions.
    NoTransactions,
}

/// A [`Note`] in contracts, text by its characters.
pub enum NoteView {
    Connecting(Seq<char>),
    Connected,
    FetchingBlockHeight,
    BlockHeight(u32),
    FetchingGasPrice,
    GasPrice(Seq<char>),
    FetchingTransactions,
    LatestTransaction(Seq<char>),
    NoTransactions,
}

impl View for Note {
    type V = NoteView;

    open spec fn view(&self) -> NoteView {
        match self {
            Note::Connecting(url) => NoteView::Connecting(url@),
            Note::Connected => NoteView::Connected,
            Note::FetchingBlockHeight => NoteView::FetchingBlockHeight,
            Note::BlockHeight(height) => NoteView::BlockHeight(*height),
            Note::FetchingGasPrice => NoteView::FetchingGasPrice,
            Note::GasPrice(price) => NoteView::GasPrice(price@),
            Note::FetchingTransactions => NoteView::FetchingTransactions,
            Note::LatestTransaction(status) => NoteView::LatestTransaction(status@),
            Note::NoTransactions => NoteView::NoTransactions,
        }
    }
}

/// The notes of a list, each by its view.
pub open spec fn notes_view(notes: Seq<Note>) -> Seq<NoteView> {
    notes.map_values(|note: Note| note@)
}

} // verus!

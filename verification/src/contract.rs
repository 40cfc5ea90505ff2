//! The contract benchmark: one timed read of a contract through a wallet.
//!
//! A run connects, derives the benchmark wallet from the mnemonic, reads the
//! matcher fee of the contract, and returns the time all of that took. Like
//! the node benchmark it never talks to a node itself.

use vstd::prelude::*;
use vstd::string::StringExecFns;
use fuels::accounts::provider::Provider;
use fuels::accounts::wallet::WalletUnlocked;
use crate::contract_id::{contract_id_bytes, parse_contract_id};
use crate::error::{BenchmarkError, ErrorKind, Failure};
use crate::span::{elapsed_nanos, Span};
use crate::wallet::{bound_provider, create_wallet, wallet_failure};

verus! {

/// The request a run is waiting on.
#[derive(Debug, Clone, Copy, PartialEq, Eq, Structural)]
pub enum ContractStage {
    Connecting,
    ReadingFee,
    /// The run is over; nothing is awaited.
    Finished,
}

/// A contract benchmark in progress.
#[derive(Debug)]
pub struct ContractRun {
    pub stage: ContractStage,
    /// The clock reading taken when the run began.
    pub started_at: Span,
    /// The phrase that the wallet is derived from.
    pub mnemonic: String,
    /// The contract to read, as its identifier is written.
    pub contract_id: String,
}

/// A [`ContractRun`] in contracts.
pub struct ContractRunView {
    pub stage: ContractStage,
    pub started_at: nat,
    pub mnemonic: Seq<char>,
    pub contract_id: Seq<char>,
}

/// What came back from the node.
pub enum ContractEvent {
    /// The connection is open; the wallet is bound to the provider given.
    Connected(Option<Provider>),
    /// The matcher fee was read.
    FeeRead,
    /// The request failed, with this cause.
    Failed(String),
}

/// A [`ContractEvent`] in contracts.
pub enum ContractEventView {
    Connected,
    FeeRead,
    Failed(Seq<char>),
}

/// A contract and the wallet to read it with.
pub struct ContractCall {
    pub contract_id: [u8; 32],
    pub wallet: WalletUnlocked,
}

/// What the caller is to do next.
pub enum ContractAction {
    /// Open a connection to the endpoint with this address.
    Connect(String),
    /// Read the matcher fee of this contract through this wallet.
    ReadMatcherFee(ContractCall),
    /// The run is over, with this result: the elapsed time, or the failure.
    Return(Result<Span, BenchmarkError>),
    /// The contract identifier names no contract. The run is over and has no
    /// result: the caller gives up.
    Abort,
    /// The event answered nothing the run was waiting on; nothing is to be done.
    Ignore,
}

/// A [`ContractAction`] in contracts, the contract by its bytes.
pub enum ContractActionView {
    Connect(Seq<char>),
    ReadMatcherFee(Seq<u8>),
    Return(Result<nat, Failure>),
    Abort,
    Ignore,
}

/// One move of a run: the run afterwards, and what to do.
pub struct ContractStep {
    pub next: ContractRun,
    pub action: ContractAction,
}

/// A [`ContractStep`] in contracts.
pub struct ContractStepView {
    pub next: ContractRunView,
    pub action: ContractActionView,
}

impl View for ContractRun {
    type V = ContractRunView;

    open spec fn view(&self) -> ContractRunView {
        ContractRunView {
            stage: self.stage,
            started_at: self.started_at.nanos(),
            mnemonic: self.mnemonic@,
            contract_id: self.contract_id@,
        }
    }
}

impl View for ContractEvent {
    type V = ContractEventView;

    open spec fn view(&self) -> ContractEventView {
        match self {
            ContractEvent::Connected(_) => ContractEventView::Connected,
            ContractEvent::FeeRead => ContractEventView::FeeRead,
            ContractEvent::Failed(cause) => ContractEventView::Failed(cause@),
        }
    }
}

impl View for ContractAction {
    type V = ContractActionView;

    open spec fn view(&self) -> ContractActionView {
        match self {
            ContractAction::Connect(url) => ContractActionView::Connect(url@),
            ContractAction::ReadMatcherFee(call) => ContractActionView::ReadMatcherFee(
                call.contract_id@,
            ),
            ContractAction::Return(Ok(elapsed)) => ContractActionView::Return(Ok(elapsed.nanos())),
            ContractAction::Return(Err(error)) => ContractActionView::Return(Err(error@)),
            ContractAction::Abort => ContractActionView::Abort,
            ContractAction::Ignore => ContractActionView::Ignore,
        }
    }
}

impl View for ContractStep {
    type V = ContractStepView;

    open spec fn view(&self) -> ContractStepView {
        ContractStepView { next: self.next@, action: self.action@ }
    }
}

/// The run at `stage`, otherwise as `run`.
pub open spec fn contract_at(run: ContractRunView, stage: ContractStage) -> ContractRunView {
    ContractRunView { stage, ..run }
}

/// The start of a run against `url` at the reading `now`.
pub open spec fn contract_begin(
    url: Seq<char>,
    mnemonic: Seq<char>,
    contract_id: Seq<char>,
    now: nat,
) -> ContractStepView {
    ContractStepView {
        next: ContractRunView {
            stage: ContractStage::Connecting,
            started_at: now,
            mnemonic,
            contract_id,
        },
        action: ContractActionView::Connect(url),
    }
}

/// The run ends with `action`.
pub open spec fn contract_ends(run: ContractRunView, action: ContractActionView)
    -> ContractStepView {
    ContractStepView { next: contract_at(run, ContractStage::Finished), action }
}

/// The run ends with the failure of `kind`.
pub open spec fn contract_fails(run: ContractRunView, kind: ErrorKind, cause: Seq<char>)
    -> ContractStepView {
    contract_ends(run, ContractActionView::Return(Err(Failure { kind, cause })))
}

/// The run stays as it is.
pub open spec fn contract_ignores(run: ContractRunView) -> ContractStepView {
    ContractStepView { next: run, action: ContractActionView::Ignore }
}

/// What a connected run does once the wallet and the contract identifier
/// are settled. A wallet that could not be derived ends the run with its
/// failure, whatever the identifier. With a wallet, an identifier that names
/// a contract moves the run on to read the fee, and one that names none
/// aborts it. A run that is not connecting changes nothing.
pub open spec fn contract_settles(
    run: ContractRunView,
    refused: Option<Failure>,
    contract_id: Option<Seq<u8>>,
) -> ContractStepView {
    if run.stage != ContractStage::Connecting {
        contract_ignores(run)
    } else {
        match refused {
            Some(failure) => contract_ends(run, ContractActionView::Return(Err(failure))),
            None => match contract_id {
                Some(bytes) => ContractStepView {
                    next: contract_at(run, ContractStage::ReadingFee),
                    action: ContractActionView::ReadMatcherFee(bytes),
                },
                None => contract_ends(run, ContractActionView::Abort),
            },
        }
    }
}

/// One move of a run: what `run` does when `event` arrives at the reading `now`.
///
/// A failure ends the run with the error of the request that was awaited.
/// Once connected, the run derives the wallet from its mnemonic and reads
/// its contract identifier, and goes on as [`contract_settles`] says. Once
/// the fee is read it ends with the time since it began. Any other event,
/// and every event after the run has ended, changes nothing.
pub open spec fn contract_step(run: ContractRunView, event: ContractEventView, now: nat)
    -> ContractStepView {
    match run.stage {
        ContractStage::Connecting => match event {
            ContractEventView::Connected => contract_settles(
                run,
                wallet_failure(run.mnemonic),
                contract_id_bytes(run.contract_id),
            ),
            ContractEventView::Failed(cause) => contract_fails(
                run,
                ErrorKind::ProviderConnection,
                cause,
            ),
            _ => contract_ignores(run),
        },
        ContractStage::ReadingFee => match event {
            ContractEventView::FeeRead => contract_ends(
                run,
                ContractActionView::Return(Ok(elapsed_nanos(run.started_at, now))),
            ),
            ContractEventView::Failed(cause) => contract_fails(
                run,
                ErrorKind::ContractInteraction,
                cause,
            ),
            _ => contract_ignores(run),
        },
        ContractStage::Finished => contract_ignores(run),
    }
}

impl ContractRun {
    /// Starts a run that reads the contract written as `contract_id` at the
    /// endpoint `url`, with the wallet of `mnemonic`, at the clock reading `now`.
    pub fn begin(url: &str, mnemonic: &str, contract_id: &str, now: Span) -> (out: ContractStep)
        ensures
            out@ == contract_begin(url@, mnemonic@, contract_id@, now.nanos()),
    {
        ContractStep {
            next: ContractRun {
                stage: ContractStage::Connecting,
                started_at: now,
                mnemonic: String::from_str(mnemonic),
                contract_id: String::from_str(contract_id),
            },
            action: ContractAction::Connect(String::from_str(url)),
        }
    }

    /// Tells the run that `event` arrived at the clock reading `now`. The
    /// wallet that the fee is to be read through is bound to the provider of
    /// the connection.
    pub fn step(self, event: ContractEvent, now: Span) -> (out: ContractStep)
        ensures
            out@ == contract_step(self@, event@, now.nanos()),
            event matches ContractEvent::Connected(connected) ==> (out.action matches
            ContractAction::ReadMatcherFee(call) ==> bound_provider(call.wallet) == connected),
    {
        match self.stage {
            ContractStage::Connecting => match event {
                ContractEvent::Connected(provider) => {
                    let wallet = create_wallet(self.mnemonic.as_str(), provider);
                    let contract_id = parse_contract_id(self.contract_id.as_str());
                    self.with_wallet(wallet, contract_id)
                },
                ContractEvent::Failed(cause) => self.ends(
                    ContractAction::Return(
                        Err(BenchmarkError::new(ErrorKind::ProviderConnection, cause)),
                    ),
                ),
                _ => self.ignores(),
            },
            ContractStage::ReadingFee => match event {
                ContractEvent::FeeRead => {
                    let elapsed = now.saturating_sub(&self.started_at);
                    self.ends(ContractAction::Return(Ok(elapsed)))
                },
                ContractEvent::Failed(cause) => self.ends(
                    ContractAction::Return(
                        Err(BenchmarkError::new(ErrorKind::ContractInteraction, cause)),
                    ),
                ),
                _ => self.ignores(),
            },
            ContractStage::Finished => self.ignores(),
        }
    }

    /// Goes on from an open connection, given what came of deriving the
    /// wallet and of reading the contract identifier. Where the fee is to be
    /// read, it is through the wallet and of the contract given.
    pub fn with_wallet(
        self,
        wallet: Result<WalletUnlocked, BenchmarkError>,
        contract_id: Option<[u8; 32]>,
    ) -> (out: ContractStep)
        ensures
            out@ == contract_settles(
                self@,
                match wallet {
                    Ok(_) => None,
                    Err(error) => Some(error@),
                },
                match contract_id {
                    Some(bytes) => Some(bytes@),
                    None => None,
                },
            ),
            out.action matches ContractAction::ReadMatcherFee(call) ==> wallet == Ok::<
                WalletUnlocked,
                BenchmarkError,
            >(call.wallet) && contract_id == Some(call.contract_id),
    {
        match self.stage {
            ContractStage::Connecting => match wallet {
                Err(error) => self.ends(ContractAction::Return(Err(error))),
                Ok(wallet) => match contract_id {
                    Some(contract_id) => ContractStep {
                        next: ContractRun {
                            stage: ContractStage::ReadingFee,
                            started_at: self.started_at,
                            mnemonic: self.mnemonic,
                            contract_id: self.contract_id,
                        },
                        action: ContractAction::ReadMatcherFee(
                            ContractCall { contract_id, wallet },
                        ),
                    },
                    None => self.ends(ContractAction::Abort),
                },
            },
            _ => self.ignores(),
        }
    }

    /// Whether the run is over.
    pub fn is_finished(&self) -> (finished: bool)
        ensures
            finished == (self@.stage == ContractStage::Finished),
    {
        match self.stage {
            ContractStage::Finished => true,
            _ => false,
        }
    }

    fn ends(self, action: ContractAction) -> (out: ContractStep)
        ensures
            out@ == contract_ends(self@, action@),
    {
        ContractStep {
            next: ContractRun {
                stage: ContractStage::Finished,
                started_at: self.started_at,
                mnemonic: self.mnemonic,
                contract_id: self.contract_id,
            },
            action,
        }
    }

    fn ignores(self) -> (out: ContractStep)
        ensures
            out@ == contract_ignores(self@),
    {
        ContractStep { next: self, action: ContractAction::Ignore }
    }
}

} // verus!

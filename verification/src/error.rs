//! The failures a benchmark run can end with.

use vstd::prelude::*;
use vstd::string::StringExecFns;

verus! {

/// The step of a run that a failure belongs to.
#[derive(Debug, Clone, Copy, PartialEq, Eq, Structural)]
pub enum ErrorKind {
    ProviderConnection,
    GasPriceFetch,
    BlockHeightFetch,
    TransactionFetch,
    WalletCreation,
    ContractInteraction,
}

/// Why a benchmark run ended early. Each variant names the step that failed
/// and carries the cause as text.
#[derive(Debug, PartialEq, Eq)]
pub enum BenchmarkError {
    ProviderConnectionError(String),
    GasPriceFetchError(String),
    BlockHeightFetchError(String),
    TransactionFetchError(String),
    WalletCreationError(String),
    ContractInteractionError(String),
}

/// What a [`BenchmarkError`] stands for in contracts: the failed step and the
/// characters of the cause.
pub struct Failure {
    pub kind: ErrorKind,
    pub cause: Seq<char>,
}

/// The words that open the message of a failure of the given kind.
pub open spec fn headline(kind: ErrorKind) -> Seq<char> {
    match kind {
        ErrorKind::ProviderConnection => "Failed to connect to provider: "@,
        ErrorKind::GasPriceFetch => "Failed to fetch latest gas price: "@,
        ErrorKind::BlockHeightFetch => "Failed to fetch latest block height: "@,
        ErrorKind::TransactionFetch => "Failed to fetch latest transaction: "@,
        ErrorKind::WalletCreation => "Failed to create wallet: "@,
        ErrorKind::ContractInteraction => "Failed to interact with contract: "@,
    }
}

impl Failure {
    /// The full message: the headline of the kind, then the cause.
    pub open spec fn message(self) -> Seq<char> {
        headline(self.kind) + self.cause
    }
}

impl View for BenchmarkError {
    type V = Failure;

    open spec fn view(&self) -> Failure {
        match self {
            BenchmarkError::ProviderConnectionError(cause) => Failure {
                kind: ErrorKind::ProviderConnection,
                cause: cause@,
            },
            BenchmarkError::GasPriceFetchError(cause) => Failure {
                kind: ErrorKind::GasPriceFetch,
                cause: cause@,
            },
            BenchmarkError::BlockHeightFetchError(cause) => Failure {
                kind: ErrorKind::BlockHeightFetch,
                cause: cause@,
            },
            BenchmarkError::TransactionFetchError(cause) => Failure {
                kind: ErrorKind::TransactionFetch,
                cause: cause@,
            },
            BenchmarkError::WalletCreationError(cause) => Failure {
                kind: ErrorKind::WalletCreation,
                cause: cause@,
            },
            BenchmarkError::ContractInteractionError(cause) => Failure {
                kind: ErrorKind::ContractInteraction,
                cause: cause@,
            },
        }
    }
}

impl BenchmarkError {
    /// Builds the failure of the given kind with the given cause.
    pub fn new(kind: ErrorKind, cause: String) -> (error: BenchmarkError)
        ensures
            error@ == (Failure { kind, cause: cause@ }),
    {
        match kind {
            ErrorKind::ProviderConnection => BenchmarkError::ProviderConnectionError(cause),
            ErrorKind::GasPriceFetch => BenchmarkError::GasPriceFetchError(cause),
            ErrorKind::BlockHeightFetch => BenchmarkError::BlockHeightFetchError(cause),
            ErrorKind::TransactionFetch => BenchmarkError::TransactionFetchError(cause),
            ErrorKind::WalletCreation => BenchmarkError::WalletCreationError(cause),
            ErrorKind::ContractInteraction => BenchmarkError::ContractInteractionError(cause),
        }
    }

    /// The step that failed.
    pub fn kind(&self) -> (kind: ErrorKind)
        ensures
            kind == self@.kind,
    {
        match self {
            BenchmarkError::ProviderConnectionError(_) => ErrorKind::ProviderConnection,
            BenchmarkError::GasPriceFetchError(_) => ErrorKind::GasPriceFetch,
            BenchmarkError::BlockHeightFetchError(_) => ErrorKind::BlockHeightFetch,
            BenchmarkError::TransactionFetchError(_) => ErrorKind::TransactionFetch,
            BenchmarkError::WalletCreationError(_) => ErrorKind::WalletCreation,
            BenchmarkError::ContractInteractionError(_) => ErrorKind::ContractInteraction,
        }
    }

    /// The cause, as the failed step reported it.
    pub fn cause(&self) -> (cause: &str)
        ensures
            cause@ == self@.cause,
    {
        match self {
            BenchmarkError::ProviderConnectionError(cause) => cause.as_str(),
            BenchmarkError::GasPriceFetchError(cause) => cause.as_str(),
            BenchmarkError::BlockHeightFetchError(cause) => cause.as_str(),
            BenchmarkError::TransactionFetchError(cause) => cause.as_str(),
            BenchmarkError::WalletCreationError(cause) => cause.as_str(),
            BenchmarkError::ContractInteractionError(cause) => cause.as_str(),
        }
    }

    /// The message shown for this failure: which step failed, then the cause.
    pub fn message(&self) -> (text: String)
        ensures
            text@ == self@.message(),
    {
        let opening = match self {
            BenchmarkError::ProviderConnectionError(_) => "Failed to connect to provider: ",
            BenchmarkError::GasPriceFetchError(_) => "Failed to fetch latest gas price: ",
            BenchmarkError::BlockHeightFetchError(_) => "Failed to fetch latest block height: ",
            BenchmarkError::TransactionFetchError(_) => "Failed to fetch latest transaction: ",
            BenchmarkError::WalletCreationError(_) => "Failed to create wallet: ",
            BenchmarkError::ContractInteractionError(_) => "Failed to interact with contract: ",
        };
        String::from_str(opening).concat(self.cause())
    }
}

} // verus!

//! The wallet that signs for the contract benchmark.

use vstd::prelude::*;
use fuels::accounts::provider::Provider;
use fuels::accounts::wallet::WalletUnlocked;
use crate::error::{BenchmarkError, ErrorKind, Failure};
use crate::path::{derivation_path, derivation_path_text, BENCHMARK_ACCOUNT};

verus! {

/// A connection to a node, as `fuels` holds it. Nothing is known of it here.
#[verifier::external_type_specification]
#[verifier::external_body]
pub struct ExProvider(fuels::accounts::provider::Provider);

/// A wallet with its private key, as `fuels` holds it. Nothing is known of
/// it here.
#[verifier::external_type_specification]
#[verifier::external_body]
pub struct ExWalletUnlocked(fuels::accounts::wallet::WalletUnlocked);

/// The words with which `fuels` refuses to derive a wallet from the phrase
/// `mnemonic` along `path`; `None` where it derives one.
pub uninterp spec fn wallet_refusal(mnemonic: Seq<char>, path: Seq<char>) -> Option<Seq<char>>;

/// The provider that a wallet of `fuels` is bound to: the one it was made
/// with, which `WalletUnlocked::provider` hands out.
pub uninterp spec fn bound_provider(wallet: WalletUnlocked) -> Option<Provider>;

/// Calls `WalletUnlocked::new_from_mnemonic_phrase_with_path` of `fuels`,
/// which derives the key from the phrase and the path alone and keeps the
/// provider in the wallet. Trusted: whether it succeeds, and the text of its
/// error, depend on the phrase and the path only, and the wallet it gives is
/// bound to the provider given. The path is that of the benchmark account:
/// on other paths, with an index or a depth out of range, the arithmetic of
/// the call overflows.
#[verifier::external_body]
fn derive_wallet(mnemonic: &str, provider: Option<Provider>, path: &str) -> (wallet: Result<
    WalletUnlocked,
    String,
>)
    requires
        path@ == derivation_path_text(BENCHMARK_ACCOUNT),
    ensures
        match wallet {
            Ok(_) => wallet_refusal(mnemonic@, path@) is None,
            Err(cause) => wallet_refusal(mnemonic@, path@) == Some(cause@),
        },
        wallet matches Ok(derived) ==> bound_provider(derived) == provider,
{
    match WalletUnlocked::new_from_mnemonic_phrase_with_path(mnemonic, provider, path) {
        Ok(wallet) => Ok(wallet),
        Err(error) => Err(error.to_string()),
    }
}

/// What comes of deriving the benchmark wallet from `mnemonic`: nothing to
/// report where a wallet is derived, else the failure.
pub open spec fn wallet_failure(mnemonic: Seq<char>) -> Option<Failure> {
    match wallet_refusal(mnemonic, derivation_path_text(BENCHMARK_ACCOUNT)) {
        Some(cause) => Some(Failure { kind: ErrorKind::WalletCreation, cause }),
        None => None,
    }
}

/// Derives the wallet of the benchmark account from the phrase `mnemonic`,
/// bound to `provider` if one is given.
pub fn create_wallet(mnemonic: &str, provider: Option<Provider>) -> (wallet: Result<
    WalletUnlocked,
    BenchmarkError,
>)
    ensures
        match wallet {
            Ok(_) => wallet_failure(mnemonic@) is None,
            Err(error) => wallet_failure(mnemonic@) == Some(error@),
        },
        wallet matches Ok(derived) ==> bound_provider(derived) == provider,
{
    let path = derivation_path(BENCHMARK_ACCOUNT);
    match derive_wallet(mnemonic, provider, path.as_str()) {
        Ok(wallet) => Ok(wallet),
        Err(cause) => Err(BenchmarkError::WalletCreationError(cause)),
    }
}

} // verus!

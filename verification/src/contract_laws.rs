//! What holds of every contract benchmark, whatever the node answers.

use vstd::prelude::*;
use crate::contract::{
    contract_begin, contract_fails, contract_ignores, contract_step, ContractActionView,
    ContractEventView, ContractRunView, ContractStage,
};
use crate::contract_id::contract_id_bytes;
use crate::error::ErrorKind;
use crate::span::elapsed_nanos;
use crate::wallet::wallet_failure;

verus! {

/// An event together with the clock reading at which it arrived.
pub struct ContractArrival {
    pub event: ContractEventView,
    pub at: nat,
}

/// The run that `run` has become once the first `n` of `arrivals` are in.
pub open spec fn contract_after(run: ContractRunView, arrivals: Seq<ContractArrival>, n: nat)
    -> ContractRunView
    decreases n,
{
    if n == 0 {
        run
    } else {
        let before = contract_after(run, arrivals, (n - 1) as nat);
        contract_step(before, arrivals[n - 1].event, arrivals[n - 1].at).next
    }
}

/// What the run asks for when arrival `i` comes in.
pub open spec fn contract_action_at(run: ContractRunView, arrivals: Seq<ContractArrival>, i: nat)
    -> ContractActionView {
    contract_step(
        contract_after(run, arrivals, i),
        arrivals[i as int].event,
        arrivals[i as int].at,
    ).action
}

/// The error that a failure brings while `stage` is awaited.
pub open spec fn contract_failure_kind(stage: ContractStage) -> ErrorKind {
    match stage {
        ContractStage::Connecting => ErrorKind::ProviderConnection,
        _ => ErrorKind::ContractInteraction,
    }
}

/// Whether `action` ends a run.
pub open spec fn ends_run(action: ContractActionView) -> bool {
    action is Return || action is Abort
}

/// A failure ends the run at once, with the error that names the request
/// that was awaited and carries the cause unchanged.
pub proof fn law_contract_failure_names_the_step(run: ContractRunView, cause: Seq<char>, now: nat)
    requires
        run.stage != ContractStage::Finished,
    ensures
        contract_step(run, ContractEventView::Failed(cause), now) == contract_fails(
            run,
            contract_failure_kind(run.stage),
            cause,
        ),
        contract_step(run, ContractEventView::Failed(cause), now).next.stage
            == ContractStage::Finished,
{
}

/// A run keeps what it was started with, an action that ends a run leaves
/// it finished, and a finished run ignores whatever arrives.
pub proof fn law_contract_step_moves_forward(
    run: ContractRunView,
    event: ContractEventView,
    now: nat,
)
    ensures
        ({
            let step = contract_step(run, event, now);
            &&& step.next.started_at == run.started_at
            &&& step.next.mnemonic == run.mnemonic
            &&& step.next.contract_id == run.contract_id
            &&& ends_run(step.action) ==> step.next.stage == ContractStage::Finished
            &&& run.stage == ContractStage::Finished ==> step == contract_ignores(run)
            &&& !(step.action is Connect)
        }),
{
}

/// How far a run has come: the number of requests answered.
pub open spec fn contract_progress(stage: ContractStage) -> nat {
    match stage {
        ContractStage::Connecting => 0,
        ContractStage::ReadingFee => 1,
        ContractStage::Finished => 2,
    }
}

/// A run never goes back: its progress after more arrivals is no less.
pub proof fn lemma_contract_progress_grows(
    run: ContractRunView,
    arrivals: Seq<ContractArrival>,
    i: nat,
    j: nat,
)
    requires
        i <= j,
    ensures
        contract_progress(contract_after(run, arrivals, i).stage) <= contract_progress(
            contract_after(run, arrivals, j).stage,
        ),
    decreases j,
{
    if i < j {
        lemma_contract_progress_grows(run, arrivals, i, (j - 1) as nat);
    }
}

/// Once a run has ended, by a result or by giving up, it asks for nothing
/// more: every later arrival is ignored.
pub proof fn law_contract_nothing_follows_end(
    run: ContractRunView,
    arrivals: Seq<ContractArrival>,
    i: nat,
    j: nat,
)
    requires
        i < j,
        ends_run(contract_action_at(run, arrivals, i)),
    ensures
        contract_action_at(run, arrivals, j) == ContractActionView::Ignore,
        contract_after(run, arrivals, j).stage == ContractStage::Finished,
{
    let before = contract_after(run, arrivals, i);
    law_contract_step_moves_forward(before, arrivals[i as int].event, arrivals[i as int].at);
    let ended = contract_after(run, arrivals, i + 1);
    assert(ended.stage == ContractStage::Finished);
    lemma_contract_progress_grows(run, arrivals, i + 1, j);
}

/// A mnemonic that gives no wallet ends the run with that failure as soon as
/// the connection is open, whatever the contract identifier; the fee is
/// never read.
pub proof fn law_wallet_is_settled_first(run: ContractRunView, now: nat)
    requires
        run.stage == ContractStage::Connecting,
        wallet_failure(run.mnemonic) is Some,
    ensures
        contract_step(run, ContractEventView::Connected, now).action == ContractActionView::Return(
            Err(wallet_failure(run.mnemonic)->0),
        ),
        wallet_failure(run.mnemonic)->0.kind == ErrorKind::WalletCreation,
        contract_step(run, ContractEventView::Connected, now).next.stage
            == ContractStage::Finished,
{
}

/// A run in which every request succeeds: it connects, reads the matcher
/// fee of the contract that its identifier writes, and returns the time
/// from `t0` to `t2`. On a clock that does not go backwards that is the sum
/// of the time that each request took.
pub proof fn law_contract_successful_run(
    url: Seq<char>,
    mnemonic: Seq<char>,
    contract_id: Seq<char>,
    t0: nat,
    t1: nat,
    t2: nat,
)
    requires
        wallet_failure(mnemonic) is None,
        contract_id_bytes(contract_id) is Some,
    ensures
        ({
            let start = contract_begin(url, mnemonic, contract_id, t0);
            let first = contract_step(start.next, ContractEventView::Connected, t1);
            let last = contract_step(first.next, ContractEventView::FeeRead, t2);
            &&& start.action == ContractActionView::Connect(url)
            &&& first.action == ContractActionView::ReadMatcherFee(
                contract_id_bytes(contract_id)->0,
            )
            &&& last.action == ContractActionView::Return(Ok(elapsed_nanos(t0, t2)))
            &&& last.next.stage == ContractStage::Finished
            &&& t0 <= t1 <= t2 ==> elapsed_nanos(t0, t2) == (t1 - t0) + (t2 - t1)
        }),
{
}

/// With a wallet but an identifier that names no contract, the run gives
/// up as soon as the connection is open.
pub proof fn law_malformed_identifier_aborts(run: ContractRunView, now: nat)
    requires
        run.stage == ContractStage::Connecting,
        wallet_failure(run.mnemonic) is None,
        contract_id_bytes(run.contract_id) is None,
    ensures
        contract_step(run, ContractEventView::Connected, now).action == ContractActionView::Abort,
        contract_step(run, ContractEventView::Connected, now).next.stage
            == ContractStage::Finished,
{
}

} // verus!

//! What holds of the driver, whatever the outcomes of the benchmarks.

use vstd::prelude::*;
use crate::driver::{
    driver_start, driver_step, driver_turns_to, outcome_note, DriverActionView, DriverNoteView,
    DriverView,
};
use crate::error::Failure;

verus! {

/// The driver that `driver` has become once the first `n` of `outcomes` are in.
pub open spec fn driver_after(driver: DriverView, outcomes: Seq<Result<nat, Failure>>, n: nat)
    -> DriverView
    decreases n,
{
    if n == 0 {
        driver
    } else {
        driver_step(driver_after(driver, outcomes, (n - 1) as nat), outcomes[n - 1]).next
    }
}

/// What the driver asks for when outcome `k` comes in.
pub open spec fn driver_action_at(
    driver: DriverView,
    outcomes: Seq<Result<nat, Failure>>,
    k: nat,
) -> DriverActionView {
    driver_step(driver_after(driver, outcomes, k), outcomes[k as int]).action
}

/// What the driver logs when outcome `k` comes in.
pub open spec fn driver_notes_at(
    driver: DriverView,
    outcomes: Seq<Result<nat, Failure>>,
    k: nat,
) -> Seq<DriverNoteView> {
    driver_step(driver_after(driver, outcomes, k), outcomes[k as int]).notes
}

/// Whether a line reports the outcome of a benchmark.
pub open spec fn reports_outcome(note: DriverNoteView) -> bool {
    note is ResponseTime || note is Error
}

/// A driver that started with a mnemonic has, after `k` outcomes, dealt with
/// the first `k` endpoints, or with all of them if there are fewer.
pub proof fn lemma_done_counts_outcomes(
    endpoints: Seq<Seq<char>>,
    mnemonic: Seq<char>,
    outcomes: Seq<Result<nat, Failure>>,
    k: nat,
)
    ensures
        ({
            let begun = driver_start(endpoints, Some(mnemonic)).next;
            let now = driver_after(begun, outcomes, k);
            &&& now.endpoints == endpoints
            &&& now.done == if k <= endpoints.len() {
                k
            } else {
                endpoints.len()
            }
        }),
    decreases k,
{
    if k > 0 {
        lemma_done_counts_outcomes(endpoints, mnemonic, outcomes, (k - 1) as nat);
    }
}

/// With a mnemonic, the driver opens with the first endpoint of the list, or
/// leaves at once if the list is empty.
pub proof fn law_starts_with_first_endpoint(endpoints: Seq<Seq<char>>, mnemonic: Seq<char>)
    ensures
        endpoints.len() > 0 ==> driver_start(endpoints, Some(mnemonic)).action
            == DriverActionView::Benchmark(endpoints[0]),
        endpoints.len() > 0 ==> driver_start(endpoints, Some(mnemonic)).notes == seq![
            DriverNoteView::Starting,
            DriverNoteView::Benchmarking(endpoints[0]),
        ],
        endpoints.len() == 0 ==> driver_start(endpoints, Some(mnemonic)).action
            == DriverActionView::Exit,
{
    assert(seq![DriverNoteView::Starting] + seq![DriverNoteView::Benchmarking(endpoints[0])]
        =~= seq![DriverNoteView::Starting, DriverNoteView::Benchmarking(endpoints[0])]);
}

/// Every endpoint is benchmarked once, in the order of the list, whatever
/// the outcomes before it: the outcome of endpoint `k`, a success or a
/// failure, is reported in exactly one line, and the driver then turns to
/// endpoint `k + 1`, or leaves when endpoint `k` was the last.
pub proof fn law_each_endpoint_in_turn(
    endpoints: Seq<Seq<char>>,
    mnemonic: Seq<char>,
    outcomes: Seq<Result<nat, Failure>>,
    k: nat,
)
    requires
        k < endpoints.len(),
    ensures
        ({
            let begun = driver_start(endpoints, Some(mnemonic)).next;
            let notes = driver_notes_at(begun, outcomes, k);
            let action = driver_action_at(begun, outcomes, k);
            &&& notes.len() >= 1
            &&& notes[0] == outcome_note(outcomes[k as int])
            &&& reports_outcome(notes[0])
            &&& forall|i: int| 1 <= i < notes.len() ==> !reports_outcome(#[trigger] notes[i])
            &&& k + 1 < endpoints.len() ==> action == DriverActionView::Benchmark(
                endpoints[k as int + 1],
            )
            &&& k + 1 < endpoints.len() ==> notes == seq![
                outcome_note(outcomes[k as int]),
                DriverNoteView::Benchmarking(endpoints[k as int + 1]),
            ]
            &&& k + 1 == endpoints.len() ==> action == DriverActionView::Exit
            &&& k + 1 == endpoints.len() ==> notes == seq![outcome_note(outcomes[k as int])]
        }),
{
    lemma_done_counts_outcomes(endpoints, mnemonic, outcomes, k);
    let begun = driver_start(endpoints, Some(mnemonic)).next;
    let now = driver_after(begun, outcomes, k);
    let turn = driver_turns_to(endpoints, (k + 1) as nat);
    let notes = driver_notes_at(begun, outcomes, k);
    assert(notes == seq![outcome_note(outcomes[k as int])] + turn.0);
    if k + 1 < endpoints.len() {
        assert(notes =~= seq![
            outcome_note(outcomes[k as int]),
            DriverNoteView::Benchmarking(endpoints[k as int + 1]),
        ]);
    } else {
        assert(notes =~= seq![outcome_note(outcomes[k as int])]);
    }
}

/// Once every endpoint has its outcome the driver asks for nothing more.
pub proof fn law_nothing_after_the_last(
    endpoints: Seq<Seq<char>>,
    mnemonic: Seq<char>,
    outcomes: Seq<Result<nat, Failure>>,
    k: nat,
)
    requires
        k >= endpoints.len(),
    ensures
        driver_action_at(driver_start(endpoints, Some(mnemonic)).next, outcomes, k)
            == DriverActionView::Ignore,
        driver_notes_at(driver_start(endpoints, Some(mnemonic)).next, outcomes, k)
            == Seq::<DriverNoteView>::empty(),
{
    lemma_done_counts_outcomes(endpoints, mnemonic, outcomes, k);
}

/// A driver with nothing left to do stays so.
pub proof fn lemma_spent_driver_stays(
    driver: DriverView,
    outcomes: Seq<Result<nat, Failure>>,
    k: nat,
)
    requires
        driver.done >= driver.endpoints.len(),
    ensures
        driver_after(driver, outcomes, k) == driver,
    decreases k,
{
    if k > 0 {
        lemma_spent_driver_stays(driver, outcomes, (k - 1) as nat);
    }
}

/// Without a mnemonic the driver halts before it logs or asks for anything,
/// and no endpoint is benchmarked afterwards, whatever it is told.
pub proof fn law_no_mnemonic_no_benchmark(
    endpoints: Seq<Seq<char>>,
    outcomes: Seq<Result<nat, Failure>>,
    k: nat,
)
    ensures
        driver_start(endpoints, None).action == DriverActionView::Halt,
        driver_start(endpoints, None).notes == Seq::<DriverNoteView>::empty(),
        driver_action_at(driver_start(endpoints, None).next, outcomes, k)
            == DriverActionView::Ignore,
        driver_notes_at(driver_start(endpoints, None).next, outcomes, k)
            == Seq::<DriverNoteView>::empty(),
{
    lemma_spent_driver_stays(driver_start(endpoints, None).next, outcomes, k);
}

} // verus!

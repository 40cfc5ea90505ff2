use node_benchmark::error::BenchmarkError;
use node_benchmark::node::{NodeAction, NodeEvent, NodeRun, NodeStage, NodeStep};
use node_benchmark::note::Note;
use node_benchmark::pagination::{PageDirection, PaginationRequest};
use node_benchmark::span::Span;

fn at(secs: u64, nanos: u32) -> Span {
    Span::new(secs, nanos).unwrap()
}

fn connected_run(url: &str, now: Span) -> NodeRun {
    NodeRun::begin(url, now).next
}

fn run_to_gas_price(now: Span) -> NodeRun {
    let run = connected_run("mainnet.fuel.network", now);
    let run = run.step(NodeEvent::Connected, now).next;
    run.step(NodeEvent::BlockHeight(7), now).next
}

fn run_to_transactions(now: Span) -> NodeRun {
    run_to_gas_price(now).step(NodeEvent::GasPrice("3".to_string()), now).next
}

fn assert_ignored(step: &NodeStep, stage: NodeStage) {
    assert_eq!(step.action, NodeAction::Ignore);
    assert!(step.notes.is_empty());
    assert_eq!(step.next.stage, stage);
}

#[test]
fn begin_asks_for_the_connection() {
    let start = NodeRun::begin("mainnet.fuel.network", at(3, 0));
    assert_eq!(start.action, NodeAction::Connect("mainnet.fuel.network".to_string()));
    assert_eq!(start.notes, vec![Note::Connecting("mainnet.fuel.network".to_string())]);
    assert_eq!(start.next.stage, NodeStage::Connecting);
    assert_eq!(start.next.started_at, at(3, 0));
    assert!(!start.next.is_finished());
}

#[test]
fn successful_run_returns_duration_and_notes_every_value() {
    let start = NodeRun::begin("mainnet.fuel.network", at(10, 0));

    let first = start.next.step(NodeEvent::Connected, at(10, 100));
    assert_eq!(first.action, NodeAction::QueryBlockHeight);
    assert_eq!(first.notes, vec![Note::Connected, Note::FetchingBlockHeight]);

    let second = first.next.step(NodeEvent::BlockHeight(12345), at(10, 200));
    assert_eq!(second.action, NodeAction::QueryGasPrice);
    assert_eq!(second.notes, vec![Note::BlockHeight(12345), Note::FetchingGasPrice]);

    let third = second.next.step(NodeEvent::GasPrice("1".to_string()), at(10, 300));
    assert_eq!(
        third.action,
        NodeAction::QueryTransactions(PaginationRequest {
            cursor: None,
            results: 10,
            direction: PageDirection::Backward,
        })
    );
    assert_eq!(third.notes, vec![Note::GasPrice("1".to_string()), Note::FetchingTransactions]);

    let last = third
        .next
        .step(NodeEvent::Transactions(vec!["Success".to_string()]), at(12, 500));
    assert_eq!(last.action, NodeAction::Return(Ok(at(2, 500))));
    assert_eq!(last.notes, vec![Note::LatestTransaction("Success".to_string())]);
    assert!(last.next.is_finished());
}

#[test]
fn connection_failure_ends_the_run() {
    let start = NodeRun::begin("mainnet.fuel.network", at(0, 0));
    let failed = start.next.step(NodeEvent::Failed("timeout".to_string()), at(1, 0));
    assert_eq!(
        failed.action,
        NodeAction::Return(Err(BenchmarkError::ProviderConnectionError("timeout".to_string())))
    );
    assert!(failed.notes.is_empty());
    assert!(failed.next.is_finished());

    let later = failed.next.step(NodeEvent::Connected, at(2, 0));
    assert_ignored(&later, NodeStage::Finished);
    let later = later.next.step(NodeEvent::BlockHeight(1), at(3, 0));
    assert_ignored(&later, NodeStage::Finished);
    let later = later.next.step(NodeEvent::GasPrice("1".to_string()), at(4, 0));
    assert_ignored(&later, NodeStage::Finished);
    let later = later.next.step(NodeEvent::Transactions(vec![]), at(5, 0));
    assert_ignored(&later, NodeStage::Finished);
    let later = later.next.step(NodeEvent::Failed("again".to_string()), at(6, 0));
    assert_ignored(&later, NodeStage::Finished);
}

#[test]
fn block_height_failure_names_its_step() {
    let run = connected_run("a", at(0, 0)).step(NodeEvent::Connected, at(0, 1)).next;
    let failed = run.step(NodeEvent::Failed("no height".to_string()), at(0, 2));
    assert_eq!(
        failed.action,
        NodeAction::Return(Err(BenchmarkError::BlockHeightFetchError("no height".to_string())))
    );
    assert!(failed.next.is_finished());
}

#[test]
fn gas_price_failure_names_its_step() {
    let failed = run_to_gas_price(at(0, 0)).step(NodeEvent::Failed("no price".to_string()), at(0, 2));
    assert_eq!(
        failed.action,
        NodeAction::Return(Err(BenchmarkError::GasPriceFetchError("no price".to_string())))
    );
    assert!(failed.next.is_finished());
}

#[test]
fn transaction_failure_names_its_step() {
    let failed =
        run_to_transactions(at(0, 0)).step(NodeEvent::Failed("no page".to_string()), at(0, 2));
    assert_eq!(
        failed.action,
        NodeAction::Return(Err(BenchmarkError::TransactionFetchError("no page".to_string())))
    );
    assert!(failed.notes.is_empty());
    assert!(failed.next.is_finished());
}

#[test]
fn empty_page_is_no_failure() {
    let last = run_to_transactions(at(5, 0)).step(NodeEvent::Transactions(vec![]), at(5, 999_999_999));
    assert_eq!(last.action, NodeAction::Return(Ok(at(0, 999_999_999))));
    assert_eq!(last.notes, vec![Note::NoTransactions]);
    assert!(last.next.is_finished());
}

#[test]
fn only_the_first_transaction_is_noted() {
    let page = vec!["Submitted".to_string(), "Success".to_string(), "Revert".to_string()];
    let last = run_to_transactions(at(5, 0)).step(NodeEvent::Transactions(page), at(6, 0));
    assert_eq!(last.notes, vec![Note::LatestTransaction("Submitted".to_string())]);
    assert_eq!(last.action, NodeAction::Return(Ok(at(1, 0))));
}

#[test]
fn duration_is_the_sum_of_the_delays() {
    let delays: [u64; 4] = [3, 5, 7, 11];
    let mut clock: u64 = 100;
    let start = NodeRun::begin("a", at(clock, 0));
    clock += delays[0];
    let run = start.next.step(NodeEvent::Connected, at(clock, 0)).next;
    clock += delays[1];
    let run = run.step(NodeEvent::BlockHeight(1), at(clock, 0)).next;
    clock += delays[2];
    let run = run.step(NodeEvent::GasPrice("1".to_string()), at(clock, 0)).next;
    clock += delays[3];
    let last = run.step(NodeEvent::Transactions(vec![]), at(clock, 0));
    assert_eq!(last.action, NodeAction::Return(Ok(at(26, 0))));
}

#[test]
fn duration_borrows_from_the_seconds() {
    let last = run_to_transactions(at(5, 600_000_000))
        .step(NodeEvent::Transactions(vec![]), at(7, 100_000_000));
    assert_eq!(last.action, NodeAction::Return(Ok(at(1, 500_000_000))));
}

#[test]
fn clock_that_went_backwards_gives_no_time() {
    let last = run_to_transactions(at(5, 0)).step(NodeEvent::Transactions(vec![]), at(4, 0));
    assert_eq!(last.action, NodeAction::Return(Ok(Span::zero())));
}

#[test]
fn answer_to_another_request_is_ignored() {
    let run = connected_run("a", at(0, 0));
    let step = run.step(NodeEvent::BlockHeight(9), at(0, 1));
    assert_ignored(&step, NodeStage::Connecting);
    let step = step.next.step(NodeEvent::GasPrice("9".to_string()), at(0, 1));
    assert_ignored(&step, NodeStage::Connecting);
    let step = step.next.step(NodeEvent::Transactions(vec![]), at(0, 1));
    assert_ignored(&step, NodeStage::Connecting);

    let step = step.next.step(NodeEvent::Connected, at(0, 2));
    assert_eq!(step.action, NodeAction::QueryBlockHeight);
    let step = step.next.step(NodeEvent::Connected, at(0, 3));
    assert_ignored(&step, NodeStage::FetchingBlockHeight);
    let step = step.next.step(NodeEvent::GasPrice("2".to_string()), at(0, 3));
    assert_ignored(&step, NodeStage::FetchingBlockHeight);

    let step = run_to_gas_price(at(0, 0)).step(NodeEvent::BlockHeight(1), at(0, 4));
    assert_ignored(&step, NodeStage::FetchingGasPrice);
    let step = run_to_transactions(at(0, 0)).step(NodeEvent::GasPrice("1".to_string()), at(0, 4));
    assert_ignored(&step, NodeStage::FetchingTransactions);
}

#[test]
fn nothing_follows_a_successful_return() {
    let last = run_to_transactions(at(0, 0)).step(NodeEvent::Transactions(vec![]), at(1, 0));
    let later = last.next.step(NodeEvent::Transactions(vec![]), at(2, 0));
    assert_ignored(&later, NodeStage::Finished);
    let later = later.next.step(NodeEvent::Failed("late".to_string()), at(3, 0));
    assert_ignored(&later, NodeStage::Finished);
}

#[test]
fn empty_endpoint_is_passed_on_as_it_is() {
    let start = NodeRun::begin("", at(0, 0));
    assert_eq!(start.action, NodeAction::Connect(String::new()));
    assert_eq!(start.notes, vec![Note::Connecting(String::new())]);
}

#[test]
fn gas_price_is_noted_as_it_was_written() {
    let answer = "LatestGasPrice { gas_price: 1, block_height: 00003039 }";
    let step = run_to_gas_price(at(0, 0)).step(NodeEvent::GasPrice(answer.to_string()), at(0, 1));
    assert_eq!(step.notes, vec![Note::GasPrice(answer.to_string()), Note::FetchingTransactions]);
    assert_eq!(step.next.stage, NodeStage::FetchingTransactions);
}

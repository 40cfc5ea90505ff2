use node_benchmark::driver::{default_endpoints, Driver, DriverAction, DriverNote};
use node_benchmark::error::BenchmarkError;
use node_benchmark::span::Span;

fn endpoints(urls: &[&str]) -> Vec<String> {
    urls.iter().map(|url| url.to_string()).collect()
}

#[test]
fn default_endpoints_are_the_two_known_providers() {
    assert_eq!(
        default_endpoints(),
        vec!["mainnet.fuel.network".to_string(), "fuel.liquify.com/v1/graphql".to_string()]
    );
}

#[test]
fn every_endpoint_once_in_order() {
    let start = Driver::start(default_endpoints(), Some("some mnemonic"));
    assert_eq!(start.action, DriverAction::Benchmark("mainnet.fuel.network".to_string()));
    assert_eq!(
        start.notes,
        vec![DriverNote::Starting, DriverNote::Benchmarking("mainnet.fuel.network".to_string())]
    );
    assert!(!start.next.is_finished());

    let elapsed = Span::new(1, 250_000_000).unwrap();
    let second = start.next.step(Ok(elapsed));
    assert_eq!(second.action, DriverAction::Benchmark("fuel.liquify.com/v1/graphql".to_string()));
    assert_eq!(
        second.notes,
        vec![
            DriverNote::ResponseTime(elapsed),
            DriverNote::Benchmarking("fuel.liquify.com/v1/graphql".to_string()),
        ]
    );
    assert!(!second.next.is_finished());

    let last = second.next.step(Ok(Span::zero()));
    assert_eq!(last.action, DriverAction::Exit);
    assert_eq!(last.notes, vec![DriverNote::ResponseTime(Span::zero())]);
    assert!(last.next.is_finished());
}

#[test]
fn failure_is_reported_and_the_next_endpoint_follows() {
    let start = Driver::start(default_endpoints(), Some("some mnemonic"));
    let second =
        start.next.step(Err(BenchmarkError::ProviderConnectionError("timeout".to_string())));
    assert_eq!(second.action, DriverAction::Benchmark("fuel.liquify.com/v1/graphql".to_string()));
    assert_eq!(
        second.notes,
        vec![
            DriverNote::Error("Failed to connect to provider: timeout".to_string()),
            DriverNote::Benchmarking("fuel.liquify.com/v1/graphql".to_string()),
        ]
    );

    let last = second.next.step(Err(BenchmarkError::GasPriceFetchError("down".to_string())));
    assert_eq!(last.action, DriverAction::Exit);
    assert_eq!(
        last.notes,
        vec![DriverNote::Error("Failed to fetch latest gas price: down".to_string())]
    );
}

#[test]
fn nothing_after_the_last_endpoint() {
    let start = Driver::start(endpoints(&["only"]), Some("m"));
    let last = start.next.step(Ok(Span::zero()));
    assert_eq!(last.action, DriverAction::Exit);
    let later = last.next.step(Ok(Span::zero()));
    assert_eq!(later.action, DriverAction::Ignore);
    assert!(later.notes.is_empty());
    assert_eq!(later.next.done, 1);
    let later = later.next.step(Err(BenchmarkError::WalletCreationError(String::new())));
    assert_eq!(later.action, DriverAction::Ignore);
    assert!(later.notes.is_empty());
}

#[test]
fn missing_mnemonic_halts_before_any_endpoint() {
    let start = Driver::start(default_endpoints(), None);
    assert_eq!(start.action, DriverAction::Halt);
    assert!(start.notes.is_empty());
    assert!(start.next.is_finished());

    let later = start.next.step(Ok(Span::zero()));
    assert_eq!(later.action, DriverAction::Ignore);
    assert!(later.notes.is_empty());
    let later = later.next.step(Err(BenchmarkError::ProviderConnectionError(String::new())));
    assert_eq!(later.action, DriverAction::Ignore);
    assert!(later.notes.is_empty());
}

#[test]
fn empty_mnemonic_is_a_mnemonic() {
    let start = Driver::start(default_endpoints(), Some(""));
    assert_eq!(start.action, DriverAction::Benchmark("mainnet.fuel.network".to_string()));
}

#[test]
fn empty_list_leaves_at_once() {
    let start = Driver::start(Vec::new(), Some("m"));
    assert_eq!(start.action, DriverAction::Exit);
    assert_eq!(start.notes, vec![DriverNote::Starting]);
    assert!(start.next.is_finished());
}

#[test]
fn longer_list_is_walked_in_order() {
    let urls = ["a", "b", "c", "d"];
    let mut step = Driver::start(endpoints(&urls), Some("m"));
    for (k, url) in urls.iter().enumerate() {
        assert_eq!(step.action, DriverAction::Benchmark(url.to_string()));
        assert_eq!(step.next.done, k);
        let outcome = if k % 2 == 0 {
            Err(BenchmarkError::BlockHeightFetchError(k.to_string()))
        } else {
            Ok(Span::new(k as u64, 0).unwrap())
        };
        step = step.next.step(outcome);
        let reports = step
            .notes
            .iter()
            .filter(|note| matches!(note, DriverNote::ResponseTime(_) | DriverNote::Error(_)))
            .count();
        assert_eq!(reports, 1);
    }
    assert_eq!(step.action, DriverAction::Exit);
    assert_eq!(step.next.done, 4);
}

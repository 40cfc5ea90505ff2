use fuels::accounts::wallet::WalletUnlocked;
use fuels::accounts::ViewOnlyAccount;
use node_benchmark::contract::{
    ContractAction, ContractEvent, ContractRun, ContractStage, ContractStep,
};
use node_benchmark::error::BenchmarkError;
use node_benchmark::span::Span;
use node_benchmark::wallet::create_wallet;

const PHRASE: &str =
    "oblige salon price punch saddle immune slogan rare snap desert retire surprise";

const CONTRACT: &str = "0x00112233445566778899aabbccddeeff00112233445566778899AABBCCDDEEFF";

fn contract_bytes() -> [u8; 32] {
    let half: [u8; 16] = [
        0x00, 0x11, 0x22, 0x33, 0x44, 0x55, 0x66, 0x77, 0x88, 0x99, 0xaa, 0xbb, 0xcc, 0xdd, 0xee,
        0xff,
    ];
    let mut bytes = [0u8; 32];
    bytes[..16].copy_from_slice(&half);
    bytes[16..].copy_from_slice(&half);
    bytes
}

fn at(secs: u64, nanos: u32) -> Span {
    Span::new(secs, nanos).unwrap()
}

fn connected(mnemonic: &str, contract_id: &str) -> ContractStep {
    let start = ContractRun::begin("mainnet.fuel.network", mnemonic, contract_id, at(1, 0));
    start.next.step(ContractEvent::Connected(None), at(2, 0))
}

fn returned(step: &ContractStep) -> &Result<Span, BenchmarkError> {
    match &step.action {
        ContractAction::Return(result) => result,
        _ => panic!("the run did not return"),
    }
}

fn assert_ignored(step: &ContractStep, stage: ContractStage) {
    assert!(matches!(step.action, ContractAction::Ignore));
    assert_eq!(step.next.stage, stage);
}

#[test]
fn contract_run_begins_by_connecting() {
    let start = ContractRun::begin("mainnet.fuel.network", PHRASE, CONTRACT, at(1, 0));
    match &start.action {
        ContractAction::Connect(url) => assert_eq!(url, "mainnet.fuel.network"),
        _ => panic!("the run did not ask for a connection"),
    }
    assert_eq!(start.next.stage, ContractStage::Connecting);
    assert_eq!(start.next.started_at, at(1, 0));
    assert_eq!(start.next.mnemonic, PHRASE);
    assert_eq!(start.next.contract_id, CONTRACT);
    assert!(!start.next.is_finished());
}

#[test]
fn wallet_is_the_one_of_the_benchmark_account() {
    let wallet = create_wallet(PHRASE, None).unwrap();
    let expected =
        WalletUnlocked::new_from_mnemonic_phrase_with_path(PHRASE, None, "m/44'/1179993420'/0'/0/0")
            .unwrap();
    assert_eq!(wallet.address(), expected.address());
    let other =
        WalletUnlocked::new_from_mnemonic_phrase_with_path(PHRASE, None, "m/44'/1179993420'/1'/0/0")
            .unwrap();
    assert_ne!(wallet.address(), other.address());
    assert!(wallet.provider().is_none());
}

#[test]
fn wallet_is_refused_for_a_phrase_that_is_no_mnemonic() {
    let refused = create_wallet("not a mnemonic", None).unwrap_err();
    assert_eq!(refused, BenchmarkError::WalletCreationError("InvalidMnemonic".to_string()));
    assert_eq!(refused.message(), "Failed to create wallet: InvalidMnemonic");
    assert!(create_wallet("", None).is_err());
}

#[test]
fn contract_run_reads_the_fee_and_returns_the_duration() {
    let step = connected(PHRASE, CONTRACT);
    assert_eq!(step.next.stage, ContractStage::ReadingFee);
    match &step.action {
        ContractAction::ReadMatcherFee(call) => {
            assert_eq!(call.contract_id, contract_bytes());
            let expected = create_wallet(PHRASE, None).unwrap();
            assert_eq!(call.wallet.address(), expected.address());
            assert!(call.wallet.provider().is_none());
        }
        _ => panic!("the run did not ask for the fee"),
    }
    let last = step.next.step(ContractEvent::FeeRead, at(4, 500));
    assert_eq!(returned(&last), &Ok(at(3, 500)));
    assert!(last.next.is_finished());
}

#[test]
fn contract_identifier_without_prefix() {
    let step = connected(PHRASE, &CONTRACT[2..]);
    match &step.action {
        ContractAction::ReadMatcherFee(call) => assert_eq!(call.contract_id, contract_bytes()),
        _ => panic!("the run did not ask for the fee"),
    }
}

#[test]
fn malformed_contract_identifier_aborts() {
    let short = &CONTRACT[..CONTRACT.len() - 1];
    let long = format!("{}0", CONTRACT);
    let twice_prefixed = format!("0x{}", &CONTRACT[..CONTRACT.len() - 2]);
    let no_hex = CONTRACT.replace('a', "g");
    let upper_prefix = CONTRACT.replace("0x", "0X");
    for text in ["contract_id", "", "0x", short, &long, &twice_prefixed, &no_hex, &upper_prefix] {
        let step = connected(PHRASE, text);
        assert!(matches!(step.action, ContractAction::Abort), "{}", text);
        assert!(step.next.is_finished());
        let later = step.next.step(ContractEvent::FeeRead, at(9, 0));
        assert_ignored(&later, ContractStage::Finished);
    }
}

#[test]
fn wallet_failure_comes_before_the_identifier() {
    for contract_id in [CONTRACT, "contract_id"] {
        let step = connected("not a mnemonic", contract_id);
        assert_eq!(
            returned(&step),
            &Err(BenchmarkError::WalletCreationError("InvalidMnemonic".to_string()))
        );
        assert!(step.next.is_finished());
    }
}

#[test]
fn contract_connection_failure_ends_the_run() {
    let start = ContractRun::begin("mainnet.fuel.network", "not a mnemonic", "contract_id", at(1, 0));
    let failed = start.next.step(ContractEvent::Failed("timeout".to_string()), at(2, 0));
    assert_eq!(
        returned(&failed),
        &Err(BenchmarkError::ProviderConnectionError("timeout".to_string()))
    );
    assert!(failed.next.is_finished());
    let later = failed.next.step(ContractEvent::Connected(None), at(3, 0));
    assert_ignored(&later, ContractStage::Finished);
    let later = later.next.step(ContractEvent::FeeRead, at(4, 0));
    assert_ignored(&later, ContractStage::Finished);
}

#[test]
fn fee_failure_names_its_step() {
    let step = connected(PHRASE, CONTRACT);
    let failed = step.next.step(ContractEvent::Failed("reverted".to_string()), at(3, 0));
    assert_eq!(
        returned(&failed),
        &Err(BenchmarkError::ContractInteractionError("reverted".to_string()))
    );
    assert!(failed.next.is_finished());
}

#[test]
fn contract_answer_to_another_request_is_ignored() {
    let start = ContractRun::begin("mainnet.fuel.network", PHRASE, CONTRACT, at(1, 0));
    let step = start.next.step(ContractEvent::FeeRead, at(2, 0));
    assert_ignored(&step, ContractStage::Connecting);
    let step = step.next.step(ContractEvent::Connected(None), at(2, 0));
    assert_eq!(step.next.stage, ContractStage::ReadingFee);
    let step = step.next.step(ContractEvent::Connected(None), at(3, 0));
    assert_ignored(&step, ContractStage::ReadingFee);
}

#[test]
fn settled_wallet_and_identifier_decide_the_next_move() {
    let run = || ContractRun::begin("a", PHRASE, CONTRACT, at(1, 0)).next;

    let step = run().with_wallet(create_wallet(PHRASE, None), Some([7u8; 32]));
    match &step.action {
        ContractAction::ReadMatcherFee(call) => assert_eq!(call.contract_id, [7u8; 32]),
        _ => panic!("the run did not ask for the fee"),
    }
    assert_eq!(step.next.stage, ContractStage::ReadingFee);

    let step = run().with_wallet(create_wallet(PHRASE, None), None);
    assert!(matches!(step.action, ContractAction::Abort));
    assert!(step.next.is_finished());

    let refused = || Err(BenchmarkError::WalletCreationError("no".to_string()));
    let step = run().with_wallet(refused(), Some([7u8; 32]));
    assert_eq!(returned(&step), &Err(BenchmarkError::WalletCreationError("no".to_string())));
    let step = run().with_wallet(refused(), None);
    assert_eq!(returned(&step), &Err(BenchmarkError::WalletCreationError("no".to_string())));

    let reading = connected(PHRASE, CONTRACT).next;
    let step = reading.with_wallet(create_wallet(PHRASE, None), Some([7u8; 32]));
    assert_ignored(&step, ContractStage::ReadingFee);
}

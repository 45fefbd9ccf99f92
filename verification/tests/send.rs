use kaspa_ng::network::NetworkType;
use kaspa_ng::account_manager::{landscape_section, section_on_select, AccountManagerSection};
use kaspa_ng::send::{
    address_status, is_ready_to_send, request_amount_entry, utxo_count_suffix, AddressStatus, EstimatorEvent,
    EstimatorStatus, GeneratorSummary, ManagerContext, SecretEvent, SendAction, SendPlan, TransactionKind,
};

const MAINNET_ADDRESS: &str = "kaspa:qqqqqqqqqqqqqqqqqqqqqqqqqqqqqqqqqqqqqqqqqqqqqqqqqqqqqkx9awp4e";
const TESTNET_ADDRESS: &str = "kaspatest:qqqqqqqqqqqqqqqqqqqqqqqqqqqqqqqqqqqqqqqqqqqqqqqqqqqqqhqrxplya";

#[test]
fn address_status_valid_and_mismatch() {
    assert!(matches!(address_status(MAINNET_ADDRESS, NetworkType::Mainnet), AddressStatus::Valid));
    assert!(matches!(address_status(TESTNET_ADDRESS, NetworkType::Testnet), AddressStatus::Valid));
    assert!(matches!(
        address_status(MAINNET_ADDRESS, NetworkType::Testnet),
        AddressStatus::NetworkMismatch(NetworkType::Mainnet)
    ));
    assert!(matches!(
        address_status(TESTNET_ADDRESS, NetworkType::Mainnet),
        AddressStatus::NetworkMismatch(NetworkType::Testnet)
    ));
}

#[test]
fn address_status_invalid() {
    match address_status("not an address", NetworkType::Mainnet) {
        AddressStatus::Invalid(message) => assert_eq!(message, "The address prefix is missing"),
        _ => panic!("expected an invalid address"),
    }
    assert!(matches!(address_status("kaspa:qqq", NetworkType::Mainnet), AddressStatus::Invalid(_)));
    assert!(matches!(address_status("bitcoin:qqq", NetworkType::Mainnet), AddressStatus::Invalid(_)));
}

fn estimate_error(ctx: &ManagerContext) -> Option<String> {
    match &ctx.estimate {
        EstimatorStatus::Error(m) => Some(m.clone()),
        _ => None,
    }
}

#[test]
fn update_user_args_reads_fields() {
    let mut ctx = ManagerContext::new();
    assert!(ctx.update_user_args(Ok(Some(1000)), Ok(None)));
    assert_eq!(ctx.send_amount_sompi, 1000);
    assert_eq!(ctx.priority_fees_sompi, 0);
    assert_eq!(estimate_error(&ctx), None);
    assert!(ctx.update_user_args(Ok(Some(7)), Ok(Some(3))));
    assert_eq!((ctx.send_amount_sompi, ctx.priority_fees_sompi), (7, 3));
}

#[test]
fn update_user_args_errors() {
    let mut ctx = ManagerContext::new();
    assert!(!ctx.update_user_args(Ok(None), Ok(Some(5))));
    assert_eq!(estimate_error(&ctx).as_deref(), Some("Please enter an amount"));
    assert_eq!(ctx.priority_fees_sompi, 5);
    assert!(!ctx.update_user_args(Err("bad digit".to_string()), Ok(None)));
    assert_eq!(estimate_error(&ctx).as_deref(), Some("Invalid amount: bad digit"));
    assert!(!ctx.update_user_args(Err("x".to_string()), Err("y".to_string())));
    assert_eq!(estimate_error(&ctx).as_deref(), Some("Invalid fee amount: y"));
    assert_eq!(ctx.priority_fees_sompi, 0);
    // a valid read keeps the estimate shown
    assert!(ctx.update_user_args(Ok(Some(1)), Ok(Some(2))));
    assert_eq!(estimate_error(&ctx).as_deref(), Some("Invalid fee amount: y"));
}

const SUMMARY: GeneratorSummary = GeneratorSummary {
    final_transaction_amount: Some(100),
    aggregated_fees: 2,
    number_of_generated_transactions: 1,
    aggregated_utxos: 3,
};

#[test]
fn send_to_address_round_trip() {
    let mut ctx = ManagerContext::new();
    ctx.start_send();
    assert_eq!(ctx.action, SendAction::Estimating);
    assert_eq!(ctx.transaction_kind, Some(TransactionKind::Send));
    ctx.edit_destination(MAINNET_ADDRESS.to_string(), NetworkType::Mainnet);
    assert!(matches!(ctx.address_status, AddressStatus::Valid));
    ctx.edit_amount("1".to_string());
    assert!(ctx.estimator_step(EstimatorEvent::AmountEdited, Ok(Some(100_000_000)), Ok(None)));
    assert!(!ctx.estimator_step(EstimatorEvent::Frame, Ok(Some(100_000_000)), Ok(None)));
    ctx.request_estimate();
    assert!(ctx.estimator_step(EstimatorEvent::Frame, Ok(Some(100_000_000)), Ok(None)));
    ctx.estimator_step(EstimatorEvent::Send, Ok(Some(100_000_000)), Ok(None));
    assert_eq!(ctx.action, SendAction::Estimating);
    ctx.estimate_done(Ok(SUMMARY));
    ctx.estimator_step(EstimatorEvent::Send, Ok(Some(100_000_000)), Ok(None));
    assert_eq!(ctx.action, SendAction::Sending);
    assert!(ctx.secret_step(SecretEvent::Submit, false).is_none());
    ctx.edit_secrets("pw".to_string(), String::new());
    assert!(ctx.secret_step(SecretEvent::SubmitWalletSecret, true).is_none());
    match ctx.secret_step(SecretEvent::SubmitWalletSecret, false) {
        Some(SendPlan::Send { destination, amount_sompi, priority_fee_sompi, wallet_secret, payment_secret }) => {
            assert_eq!(destination, MAINNET_ADDRESS);
            assert_eq!(amount_sompi, 100_000_000);
            assert_eq!(priority_fee_sompi, 0);
            assert_eq!(wallet_secret, "pw");
            assert!(payment_secret.is_none());
        }
        _ => panic!("expected a payment"),
    }
    assert_eq!(ctx.action, SendAction::Processing);
    ctx.send_done(Err("rejected".to_string()));
    assert_eq!(ctx.action, SendAction::Failed);
    assert_eq!(ctx.failure, "rejected");
    assert!(ctx.wallet_secret.is_empty() && ctx.destination_address_string.is_empty());
    assert_eq!(ctx.transaction_kind, None);
    ctx.dismiss_failure();
    assert_eq!(ctx.action, SendAction::Idle);
}

#[test]
fn transfer_between_accounts() {
    let mut ctx = ManagerContext::new();
    ctx.start_transfer(1);
    assert_eq!(ctx.action, SendAction::Idle);
    ctx.start_transfer(2);
    assert_eq!(ctx.transaction_kind, Some(TransactionKind::Transfer));
    ctx.transfer_destination(1, &vec![1, 2]);
    assert_eq!(ctx.transfer_to_account, Some(2));
    ctx.transfer_destination(1, &vec![1, 2, 3]);
    assert_eq!(ctx.transfer_to_account, Some(2));
    ctx.select_transfer_account(1);
    ctx.transfer_destination(1, &vec![1, 2, 3]);
    assert_eq!(ctx.transfer_to_account, None);
    ctx.select_transfer_account(3);
    ctx.edit_destination(MAINNET_ADDRESS.to_string(), NetworkType::Mainnet);
    assert!(ctx.destination_address_string.is_empty());
    ctx.estimate_done(Ok(SUMMARY));
    ctx.estimator_step(EstimatorEvent::Send, Ok(Some(5)), Ok(Some(1)));
    assert_eq!(ctx.action, SendAction::Sending);
    ctx.edit_secrets("pw".to_string(), "pp".to_string());
    match ctx.secret_step(SecretEvent::SubmitPaymentSecret, true) {
        Some(SendPlan::Transfer { destination_account, amount_sompi, priority_fee_sompi, payment_secret, .. }) => {
            assert_eq!(destination_account, Some(3));
            assert_eq!((amount_sompi, priority_fee_sompi), (5, 1));
            assert_eq!(payment_secret.as_deref(), Some("pp"));
        }
        _ => panic!("expected a transfer"),
    }
    ctx.send_done(Ok(()));
    assert_eq!(ctx.action, SendAction::Idle);
    assert_eq!(ctx.transfer_to_account, None);
}

#[test]
fn estimator_enter_and_cancel() {
    let mut ctx = ManagerContext::new();
    ctx.start_send();
    ctx.estimator_step(EstimatorEvent::SubmitAmount, Ok(None), Ok(None));
    assert_eq!(ctx.action, SendAction::Estimating);
    assert_eq!(estimate_error(&ctx).as_deref(), Some("Please enter an amount"));
    ctx.estimator_step(EstimatorEvent::SubmitAmount, Ok(Some(10)), Ok(None));
    assert_eq!(ctx.action, SendAction::Sending);
    assert_eq!(ctx.secret_step(SecretEvent::Cancel, false).is_none(), true);
    assert_eq!(ctx.action, SendAction::Estimating);
    ctx.estimator_step(EstimatorEvent::ToggleFees, Ok(Some(10)), Ok(None));
    assert!(ctx.enable_priority_fees);
    assert!(ctx.estimator_step(EstimatorEvent::FeesEdited, Ok(Some(10)), Ok(Some(2))));
    ctx.estimator_step(EstimatorEvent::SubmitAmount, Ok(Some(10)), Ok(Some(2)));
    assert_eq!(ctx.action, SendAction::Estimating);
    ctx.estimator_step(EstimatorEvent::SubmitFees, Ok(Some(10)), Ok(Some(2)));
    assert_eq!(ctx.action, SendAction::Sending);
    ctx.secret_step(SecretEvent::Cancel, false);
    assert!(!ctx.estimator_step(EstimatorEvent::Cancel, Ok(Some(10)), Ok(Some(2))));
    assert_eq!(ctx.action, SendAction::Idle);
    assert!(!ctx.enable_priority_fees);
    assert_eq!(ctx.send_amount_sompi, 0);
    assert_eq!(estimate_error(&ctx).as_deref(), Some("Please enter an amount"));
}

#[test]
fn request_amount_entries() {
    assert_eq!(request_amount_entry(Ok(Some(5))), (Some(5), None));
    assert_eq!(request_amount_entry(Ok(None)), (None, None));
    assert_eq!(
        request_amount_entry(Err("x".to_string())),
        (None, Some("Please enter a valid amount of KAS".to_string()))
    );
}

#[test]
fn ready_to_send() {
    assert!(!is_ready_to_send("", "", false));
    assert!(is_ready_to_send("pw", "", false));
    assert!(!is_ready_to_send("pw", "", true));
    assert!(is_ready_to_send("pw", "pp", true));
}

#[test]
fn utxo_suffixes() {
    assert_eq!(utxo_count_suffix(0, 0), "");
    assert_eq!(utxo_count_suffix(3, 0), " (3 pending)");
    assert_eq!(utxo_count_suffix(0, 12), " (12 processing)");
    assert_eq!(utxo_count_suffix(2, 5), " (2 pending, 5 processing)");
}

#[test]
fn account_sections() {
    assert_eq!(section_on_select(true), AccountManagerSection::Overview);
    assert_eq!(section_on_select(false), AccountManagerSection::Transactions);
    assert_eq!(landscape_section(AccountManagerSection::Overview), AccountManagerSection::Transactions);
    assert_eq!(landscape_section(AccountManagerSection::Details), AccountManagerSection::Details);
    assert_eq!(AccountManagerSection::default(), AccountManagerSection::Overview);
}

use kaspa_ng::account_create::{
    bip32_private_keys, AccountCreate, AccountKeyRef, Event, Field, KeyChoice, KeySource, Outcome, State,
};
use kaspa_ng::wallet_create::{ImportPick, WordCount};

fn key(id: u64, requires_bip39_passphrase: bool) -> KeyChoice {
    KeyChoice { id, requires_bip39_passphrase }
}

#[test]
fn private_keys_of_bip32_accounts() {
    let accounts = vec![
        AccountKeyRef { is_bip32: true, single_key: Some(7) },
        AccountKeyRef { is_bip32: false, single_key: Some(8) },
        AccountKeyRef { is_bip32: true, single_key: Some(7) },
        AccountKeyRef { is_bip32: true, single_key: None },
        AccountKeyRef { is_bip32: true, single_key: Some(9) },
        AccountKeyRef { is_bip32: true, single_key: Some(42) },
    ];
    let known = vec![key(7, false), key(8, false), key(9, true)];
    let keys = bip32_private_keys(&accounts, &known);
    assert_eq!(keys, vec![key(7, false), key(9, true)]);
    assert!(bip32_private_keys(&Vec::new(), &known).is_empty());
}

fn outcome_name(o: &Outcome) -> &'static str {
    match o {
        Outcome::Nothing => "nothing",
        Outcome::Leave => "leave",
        Outcome::Create(_) => "create",
        Outcome::Created => "created",
    }
}

#[test]
fn create_account_needs_a_key() {
    let mut flow = AccountCreate::new();
    flow.handle(Event::CreateAccount);
    assert_eq!(flow.state, State::Start);
    flow.refresh_keys(vec![key(5, false)]);
    flow.handle(Event::CreateAccount);
    assert_eq!(flow.state, State::KeySelection);
    flow.handle(Event::SelectKey(3));
    assert_eq!(flow.state, State::KeySelection);
    flow.handle(Event::SelectKey(0));
    assert_eq!(flow.state, State::AccountName);
    assert_eq!(flow.choices.key, Some(key(5, false)));
}

#[test]
fn derive_account_from_existing_key() {
    let mut flow = AccountCreate::new();
    flow.refresh_keys(vec![key(5, true)]);
    flow.handle(Event::CreateAccount);
    flow.handle(Event::SelectKey(0));
    flow.edit(Field::AccountName, "  Savings \n".to_string());
    flow.handle(Event::Submit);
    assert_eq!(flow.state, State::WalletSecret);
    flow.handle(Event::Continue);
    assert_eq!(flow.state, State::WalletSecret);
    flow.edit(Field::WalletSecret, "pw".to_string());
    flow.handle(Event::Continue);
    assert_eq!(flow.state, State::PaymentSecret);
    flow.edit(Field::PaymentSecret, "bip39".to_string());
    flow.handle(Event::Submit);
    assert_eq!(flow.state, State::AddAccount);
    match flow.handle(Event::Frame) {
        Outcome::Create(plan) => {
            assert_eq!(plan.account_name.as_deref(), Some("Savings"));
            assert_eq!(plan.wallet_secret, "pw");
            assert_eq!(plan.payment_secret.as_deref(), Some("bip39"));
            assert!(!plan.legacy);
            assert!(matches!(plan.source, KeySource::Existing { id: 5 }));
        }
        other => panic!("unexpected {}", outcome_name(&other)),
    }
    assert!(flow.wallet_secret.is_empty());
    assert!(flow.payment_secret.is_empty());
    assert!(flow.in_flight);
    assert_eq!(outcome_name(&flow.handle(Event::Frame)), "nothing");
    assert_eq!(outcome_name(&flow.handle(Event::Finished { ok: true })), "created");
    assert_eq!(flow.state, State::Start);
    assert!(!flow.in_flight);
}

#[test]
fn import_legacy_account() {
    let mut flow = AccountCreate::new();
    flow.handle(Event::ImportAccount);
    assert_eq!(flow.state, State::StartImport);
    flow.handle(Event::Pick(ImportPick::ToggleBip39Passphrase));
    assert!(flow.choices.import_with_bip39_passphrase);
    flow.handle(Event::Pick(ImportPick::Legacy));
    assert_eq!(flow.state, State::StartImport);
    flow.handle(Event::Pick(ImportPick::ToggleBip39Passphrase));
    flow.handle(Event::Pick(ImportPick::Legacy));
    assert_eq!(flow.state, State::ImportMnemonic);
    assert!(flow.choices.import_legacy);
    assert_eq!(flow.choices.word_count, WordCount::Words12);
    flow.handle(Event::Frame);
    assert_eq!(flow.state, State::ImportMnemonicWithEditor);
    flow.edit(Field::Mnemonic, "some words".to_string());
    flow.handle(Event::Continue);
    assert_eq!(flow.state, State::AccountName);
    flow.handle(Event::Continue);
    flow.edit(Field::WalletSecret, "pw".to_string());
    flow.edit(Field::PaymentSecret, "ignored".to_string());
    flow.handle(Event::Submit);
    assert_eq!(flow.state, State::AddAccount);
    match flow.handle(Event::Frame) {
        Outcome::Create(plan) => {
            assert!(plan.account_name.is_none());
            assert!(plan.payment_secret.is_none());
            assert!(plan.legacy);
            match plan.source {
                KeySource::Import { mnemonic } => assert_eq!(mnemonic, "some words"),
                _ => panic!("expected an import"),
            }
        }
        other => panic!("unexpected {}", outcome_name(&other)),
    }
    flow.handle(Event::Finished { ok: false });
    assert_eq!(flow.state, State::AccountError);
    flow.handle(Event::Continue);
    assert_eq!(flow.state, State::Start);
}

#[test]
fn import_selection_clears_secrets_and_back_returns() {
    let mut flow = AccountCreate::new();
    flow.edit(Field::WalletSecret, "pw".to_string());
    flow.handle(Event::ImportAccount);
    flow.handle(Event::Frame);
    assert!(flow.wallet_secret.is_empty());
    assert!(flow.choices.import_mnemonic);
    flow.handle(Event::Back);
    assert_eq!(flow.state, State::Start);
    flow.edit(Field::AccountName, "name".to_string());
    assert_eq!(outcome_name(&flow.handle(Event::Back)), "leave");
    assert!(flow.account_name.is_empty());
}

#[test]
fn account_name_back_depends_on_import() {
    let mut flow = AccountCreate::new();
    flow.handle(Event::ImportAccount);
    flow.handle(Event::Pick(ImportPick::Words(WordCount::Words24)));
    assert_eq!(flow.choices.word_count, WordCount::Words24);
    flow.handle(Event::Frame);
    flow.handle(Event::Continue);
    assert_eq!(flow.state, State::AccountName);
    flow.handle(Event::Back);
    assert_eq!(flow.state, State::StartImport);
}

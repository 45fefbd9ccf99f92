use kaspa_ng::account_create::KeyChoice;
use kaspa_ng::export::{Event, Export, ExportKind, ExportResult, Field, Outcome, State};

fn name(o: &Outcome) -> &'static str {
    match o {
        Outcome::Nothing => "nothing",
        Outcome::Leave => "leave",
        Outcome::Export(_) => "export",
        Outcome::OpenAccounts => "accounts",
    }
}

#[test]
fn offered_kinds_exclude_transportable() {
    assert_eq!(ExportKind::offered_kinds(), vec![ExportKind::Mnemonic]);
    let mut flow = Export::new();
    flow.handle(Event::PickKind(ExportKind::Transportable));
    assert_eq!(flow.kind, ExportKind::Mnemonic);
}

#[test]
fn export_mnemonic_with_passphrase() {
    let mut flow = Export::new();
    flow.handle(Event::Continue);
    assert_eq!(flow.state, State::SelectPrvKey);
    flow.handle(Event::SelectKey(KeyChoice { id: 3, requires_bip39_passphrase: true }));
    assert_eq!(flow.state, State::Authenticate);
    flow.edit(Field::WalletSecret, "pw".to_string());
    flow.handle(Event::Submit);
    assert_eq!(flow.state, State::Authenticate);
    flow.handle(Event::Continue);
    assert_eq!(flow.state, State::Authenticate);
    flow.edit(Field::PaymentSecret, "pass".to_string());
    flow.handle(Event::Continue);
    assert_eq!(flow.state, State::Export);
    match flow.handle(Event::Frame) {
        Outcome::Export(r) => {
            assert_eq!(r.kind, ExportKind::Mnemonic);
            assert_eq!(r.key_id, 3);
            assert_eq!(r.wallet_secret, "pw");
            assert_eq!(r.payment_secret.as_deref(), Some("pass"));
        }
        other => panic!("unexpected {}", name(&other)),
    }
    assert_eq!(flow.state, State::Exporting);
    assert!(flow.wallet_secret.is_empty());
    flow.exported(Ok(ExportResult::Mnemonic("word word".to_string())));
    assert_eq!(flow.state, State::Mnemonic);
    assert_eq!(flow.mnemonic, "word word");
    assert_eq!(name(&flow.handle(Event::Continue)), "accounts");
    assert_eq!(flow.state, State::Select);
    assert!(flow.payment_secret.is_empty());
}

#[test]
fn export_without_passphrase_on_enter() {
    let mut flow = Export::new();
    flow.handle(Event::Continue);
    flow.handle(Event::SelectKey(KeyChoice { id: 9, requires_bip39_passphrase: false }));
    flow.edit(Field::WalletSecret, "pw".to_string());
    flow.handle(Event::Submit);
    assert_eq!(flow.state, State::Export);
    match flow.handle(Event::Frame) {
        Outcome::Export(r) => assert!(r.payment_secret.is_none()),
        other => panic!("unexpected {}", name(&other)),
    }
}

#[test]
fn export_error_wipes_and_restarts() {
    let mut flow = Export::new();
    flow.handle(Event::Continue);
    flow.handle(Event::SelectKey(KeyChoice { id: 1, requires_bip39_passphrase: true }));
    flow.edit(Field::WalletSecret, "pw".to_string());
    flow.edit(Field::PaymentSecret, "pass".to_string());
    flow.handle(Event::Continue);
    flow.handle(Event::Frame);
    flow.exported(Err("bad secret".to_string()));
    assert_eq!(flow.state, State::Error);
    assert_eq!(flow.payment_secret, "pass");
    flow.handle(Event::Frame);
    assert!(flow.payment_secret.is_empty());
    assert_eq!(flow.state, State::Error);
    flow.handle(Event::Continue);
    assert_eq!(flow.state, State::Select);
}

#[test]
fn select_pages_leave_on_back() {
    let mut flow = Export::new();
    assert_eq!(name(&flow.handle(Event::Back)), "leave");
    flow.handle(Event::Continue);
    assert_eq!(name(&flow.handle(Event::Back)), "leave");
    assert_eq!(flow.state, State::SelectPrvKey);
    flow.exported(Ok(ExportResult::Mnemonic("x".to_string())));
    assert_eq!(flow.state, State::SelectPrvKey);
}

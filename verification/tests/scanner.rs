use kaspa_ng::account::AccountKindClass;
use kaspa_ng::scanner::{gate, is_scannable, Env, Event, Gate, Outcome, ScanStatus, Scanner, State};

const READY: Env = Env { wallet_open: true, connected: true, synced: true, has_stack: true, wallet_available: true };

fn name(o: &Outcome) -> &'static str {
    match o {
        Outcome::Nothing => "nothing",
        Outcome::Leave => "leave",
        Outcome::OpenOverview => "overview",
        Outcome::OpenAccounts => "accounts",
        Outcome::Scan(_) => "scan",
        Outcome::Abort => "abort",
    }
}

#[test]
fn gate_order() {
    assert_eq!(gate(Env { wallet_open: false, connected: false, synced: false, ..READY }), Gate::WalletClosed);
    assert_eq!(gate(Env { connected: false, synced: false, ..READY }), Gate::NotConnected);
    assert_eq!(gate(Env { synced: false, ..READY }), Gate::Syncing);
    assert_eq!(gate(READY), Gate::Ready);
}

#[test]
fn scannable_kinds() {
    assert!(is_scannable(AccountKindClass::Bip32));
    assert!(is_scannable(AccountKindClass::Legacy));
    assert!(!is_scannable(AccountKindClass::MultiSig));
    assert!(!is_scannable(AccountKindClass::Keypair));
}

#[test]
fn scan_round_trip() {
    let mut s = Scanner::new();
    s.handle(READY, Event::SelectAccount { id: 4, kind: AccountKindClass::Keypair });
    assert_eq!(s.state, State::Select);
    let syncing = Env { synced: false, ..READY };
    s.handle(syncing, Event::SelectAccount { id: 4, kind: AccountKindClass::Bip32 });
    assert_eq!(s.state, State::Select);
    s.handle(READY, Event::SelectAccount { id: 4, kind: AccountKindClass::Bip32 });
    assert_eq!(s.state, State::Settings { account: 4 });
    s.handle(READY, Event::ToggleTransferFunds);
    s.handle(READY, Event::Continue);
    assert_eq!(s.state, State::WalletSecret { account: 4 });
    s.handle(READY, Event::Submit);
    assert_eq!(s.state, State::WalletSecret { account: 4 });
    s.edit_wallet_secret("pw".to_string());
    s.handle(READY, Event::Submit);
    assert_eq!(s.state, State::Spawn { account: 4 });
    match s.handle(READY, Event::Frame) {
        Outcome::Scan(r) => {
            assert_eq!(r.account, 4);
            assert_eq!(r.wallet_secret, "pw");
            assert!(r.transfer_funds);
            assert_eq!((r.start, r.extent, r.window), (0, usize::MAX, 64));
        }
        other => panic!("unexpected {}", name(&other)),
    }
    assert!(s.wallet_secret.is_empty());
    assert_eq!(s.state, State::Status);
    s.progress(10, 2, 500, false);
    s.progress(11, 3, 900, true);
    assert!(matches!(s.status, ScanStatus::Processing { index: 10, utxo_count: 2, balance: 500 }));
    assert_eq!(name(&s.handle(READY, Event::Stop)), "abort");
    assert_eq!(s.state, State::Finish);
    assert_eq!(name(&s.handle(READY, Event::Close)), "accounts");
    assert_eq!(s.state, State::Select);
    assert!(matches!(s.status, ScanStatus::Idle));
}

#[test]
fn leaving_and_missing_wallet() {
    let mut s = Scanner::new();
    assert_eq!(name(&s.handle(READY, Event::Back)), "leave");
    let alone = Env { has_stack: false, wallet_open: false, ..READY };
    assert_eq!(name(&s.handle(alone, Event::Close)), "overview");
    assert_eq!(name(&s.handle(READY, Event::Close)), "nothing");
    s.handle(READY, Event::SelectAccount { id: 1, kind: AccountKindClass::Legacy });
    s.handle(READY, Event::Continue);
    s.edit_wallet_secret("pw".to_string());
    s.handle(READY, Event::Continue);
    let no_wallet = Env { wallet_available: false, ..READY };
    assert_eq!(name(&s.handle(no_wallet, Event::Frame)), "nothing");
    assert_eq!(s.state, State::Spawn { account: 1 });
    s.handle(no_wallet, Event::Continue);
    assert_eq!(s.state, State::Select);
    s.account_missing();
    match &s.status {
        ScanStatus::Error { message } => assert_eq!(message, "Account not found"),
        _ => panic!("expected an error"),
    }
}

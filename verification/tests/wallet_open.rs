use kaspa_ng::wallet_open::{
    opening_line, wallet_descriptor_text, wallet_title, Event, Outcome, State, WalletDescriptor, WalletOpen,
};

fn named(title: Option<&str>, filename: &str) -> WalletDescriptor {
    WalletDescriptor { title: title.map(|t| t.to_string()), filename: filename.to_string() }
}

#[test]
fn descriptor_texts() {
    let a = named(Some("Main"), "main-wallet");
    let b = named(None, "old-wallet");
    assert_eq!(wallet_title(&a), "Main");
    assert_eq!(wallet_title(&b), "NO NAME");
    assert_eq!(wallet_descriptor_text(&a), "Main\nmain-wallet");
    assert_eq!(wallet_descriptor_text(&b), "NO NAME\nold-wallet");
    assert_eq!(opening_line(&a), "Opening wallet: \"Main\"");
    assert_eq!(opening_line(&b), "Opening wallet: \"old-wallet\"");
}

#[test]
fn unlock_round_trip() {
    let mut flow = WalletOpen::new();
    assert!(matches!(flow.handle(Event::Back), Outcome::Leave));
    assert!(matches!(flow.handle(Event::CreateNew), Outcome::CreateWallet));
    flow.open(named(Some("Main"), "main-wallet"));
    assert_eq!(flow.state, State::Unlock);
    flow.edit_wallet_secret("pw".to_string());
    match flow.handle(Event::Unlock) {
        Outcome::Open { wallet_secret, filename } => {
            assert_eq!(wallet_secret, "pw");
            assert_eq!(filename, "main-wallet");
        }
        _ => panic!("expected an open request"),
    }
    assert!(flow.wallet_secret.is_empty());
    assert_eq!(flow.state, State::Unlocking);
    assert!(!flow.unlocked(Err("wrong password".to_string())));
    assert_eq!(flow.state, State::Unlock);
    assert_eq!(flow.error.as_deref(), Some("wrong password"));
    flow.handle(Event::Unlock);
    assert!(flow.unlocked(Ok(())));
    assert_eq!(flow.state, State::Select);
    assert!(!flow.unlocked(Ok(())));
}

#[test]
fn back_from_unlock() {
    let mut flow = WalletOpen::new();
    flow.open(named(None, "w"));
    assert!(matches!(flow.handle(Event::Frame), Outcome::Nothing));
    flow.handle(Event::Back);
    assert_eq!(flow.state, State::Select);
}

use kaspa_ng::wallet_secret::{secret_note, secret_to_score, Env, Event, Field, Outcome, SecretNote, State, WalletSecret};

const OPEN: Env = Env { wallet_open: true, has_stack: true };

fn name(o: &Outcome) -> &'static str {
    match o {
        Outcome::Nothing => "nothing",
        Outcome::Leave => "leave",
        Outcome::OpenAccounts => "accounts",
        Outcome::ChangeSecret { .. } => "change",
    }
}

#[test]
fn closed_wallet_only_leaves() {
    let mut page = WalletSecret::new();
    let env = Env { wallet_open: false, has_stack: true };
    assert_eq!(name(&page.handle(env, Event::Frame)), "nothing");
    assert_eq!(page.state, State::Start);
    assert_eq!(name(&page.handle(env, Event::Close)), "leave");
}

#[test]
fn change_secret_round_trip() {
    let mut page = WalletSecret::new();
    page.handle(OPEN, Event::Frame);
    assert_eq!(page.state, State::WalletSecret);
    page.edit(Field::OldSecret, "old".to_string());
    page.edit(Field::NewSecret, "new-secret".to_string());
    page.edit(Field::NewSecretConfirm, "new-secreT".to_string());
    page.handle(OPEN, Event::Continue);
    assert_eq!(page.state, State::WalletSecret);
    page.edit(Field::NewSecretConfirm, "new-secret".to_string());
    page.handle(OPEN, Event::Continue);
    assert_eq!(page.state, State::Processing);
    match page.handle(OPEN, Event::Frame) {
        Outcome::ChangeSecret { old, new } => {
            assert_eq!(old, "old");
            assert_eq!(new, "new-secret");
        }
        other => panic!("unexpected {}", name(&other)),
    }
    assert_eq!(name(&page.handle(OPEN, Event::Frame)), "nothing");
    page.handle(OPEN, Event::Finished { ok: true });
    assert_eq!(page.state, State::Finish);
    assert!(page.old_secret.is_empty() && page.new_secret.is_empty() && page.new_secret_confirm.is_empty());
    let env = Env { wallet_open: true, has_stack: false };
    assert_eq!(name(&page.handle(env, Event::Close)), "accounts");
    assert_eq!(page.state, State::Start);
}

#[test]
fn failed_change_can_be_retried() {
    let mut page = WalletSecret::new();
    page.handle(OPEN, Event::Frame);
    page.edit(Field::OldSecret, "a".to_string());
    page.edit(Field::NewSecret, "b".to_string());
    page.edit(Field::NewSecretConfirm, "b".to_string());
    page.handle(OPEN, Event::Continue);
    page.handle(OPEN, Event::Frame);
    page.handle(OPEN, Event::Finished { ok: false });
    assert_eq!(page.state, State::Error);
    page.handle(OPEN, Event::Retry);
    assert_eq!(page.state, State::WalletSecret);
    assert_eq!(page.old_secret, "a");
    assert_eq!(name(&page.handle(OPEN, Event::Back)), "leave");
    assert!(page.old_secret.is_empty());
    assert_eq!(page.state, State::Start);
}

#[test]
fn notes_and_scores() {
    assert_eq!(secret_to_score("abc", "x"), Some("abc".to_string()));
    assert_eq!(secret_to_score("", "x"), Some("x".to_string()));
    assert_eq!(secret_to_score("", ""), None);
    let a = "abc".to_string();
    let b = "abd".to_string();
    assert_eq!(secret_note(Some(true), false, &a, &b), SecretNote::WeakScore);
    assert_eq!(secret_note(Some(true), true, &a, &b), SecretNote::Score);
    assert_eq!(secret_note(None, false, &a, &b), SecretNote::Mismatch);
    assert_eq!(secret_note(None, false, &a, &a), SecretNote::Blank);
    assert_eq!(secret_note(None, false, &a, &String::new()), SecretNote::Blank);
}

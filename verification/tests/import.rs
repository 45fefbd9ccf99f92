use kaspa_ng::import::{word_suggestions, Import, Outcome, State, BIP39_WORD_COUNT};

#[test]
fn suggestions_follow_the_word_list() {
    assert_eq!(word_suggestions("aband"), vec!["abandon"]);
    assert_eq!(word_suggestions("zo"), vec!["zone", "zoo"]);
    assert!(word_suggestions("qx").is_empty());
    let all = word_suggestions("");
    assert_eq!(all.len(), BIP39_WORD_COUNT);
    assert_eq!(all[0], "abandon");
    assert_eq!(all[BIP39_WORD_COUNT - 1], "zoo");
}

#[test]
fn import_flow() {
    let mut import = Import::new();
    import.word = "aba".to_string();
    import.choose_word("abandon".to_string());
    assert_eq!(import.mnemonic, vec!["abandon"]);
    assert!(import.word.is_empty());
    import.state = State::Select;
    import.select_wallet("wallet-1".to_string());
    assert_eq!(import.state, State::Unlock);
    import.wallet_secret = "pw".to_string();
    match import.unlock() {
        Outcome::Open { wallet_secret, filename } => {
            assert_eq!(wallet_secret, "pw");
            assert_eq!(filename.as_deref(), Some("wallet-1"));
        }
        Outcome::Nothing => panic!("expected an open request"),
    }
    assert!(import.wallet_secret.is_empty());
    assert!(!import.unlocked(Err("bad password".to_string())));
    assert_eq!(import.state, State::Unlock);
    assert_eq!(import.message.as_deref(), Some("bad password"));
    import.choose_other_wallet();
    assert_eq!(import.state, State::Select);
    import.lock();
    assert_eq!(import.state, State::Unlock);
    assert!(import.message.is_none());
    import.unlock();
    assert!(import.unlocked(Ok(())));
}

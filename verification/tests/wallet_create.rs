use kaspa_ng::error::Error;
use kaspa_ng::wallet_create::{
    account_imports, wallet_create_plan, wallet_import_plan, AccountImport, WalletTexts,
    check_mnemonic, decrypted_word_count, payment_secret_submit_holds, mnemonic_input, mnemonic_words, payment_secret_ready, step,
    wallet_name_check, wallet_name_check_for_filename, wallet_secret_ready, word_count_of_decrypted, Action,
    wallet_secret_submit_holds, DecryptOutcome, Env, ErrorReturn, Event, Field, FileOutcome, Flags, MnemonicCheck,
    MnemonicInput, State, WalletCreate, WordCount,
};

const VALID_12: &str = "abandon abandon abandon abandon abandon abandon abandon abandon abandon abandon abandon about";

#[test]
fn word_count_words() {
    assert_eq!(WordCount::Words12.words(), 12);
    assert_eq!(WordCount::Words24.words(), 24);
    assert_eq!(WordCount::default(), WordCount::Words12);
}

#[test]
fn mnemonic_words_collapses_whitespace() {
    let (n, joined) = mnemonic_words("  alpha\tbeta \n gamma  ");
    assert_eq!(n, 3);
    assert_eq!(joined, "alpha beta gamma");
    let (n, joined) = mnemonic_words("   ");
    assert_eq!(n, 0);
    assert_eq!(joined, "");
}

#[test]
fn mnemonic_input_counts_words() {
    match mnemonic_input("one two three", WordCount::Words12) {
        MnemonicInput::Missing { needed_more } => assert_eq!(needed_more, 9),
        other => panic!("unexpected {:?}", other),
    }
    let long = vec!["word"; 13].join(" ");
    match mnemonic_input(&long, WordCount::Words12) {
        MnemonicInput::TooMany { words, extra } => {
            assert_eq!(words, 13);
            assert_eq!(extra, 1);
        }
        other => panic!("unexpected {:?}", other),
    }
    let spaced = VALID_12.replace(' ', "   ");
    match mnemonic_input(&spaced, WordCount::Words12) {
        MnemonicInput::Complete { phrase } => assert_eq!(phrase, VALID_12),
        other => panic!("unexpected {:?}", other),
    }
}

#[test]
fn check_mnemonic_accepts_a_valid_phrase() {
    assert!(matches!(check_mnemonic(VALID_12, WordCount::Words12), MnemonicCheck::Valid));
    let spaced = format!("  {}\n", VALID_12.replace(' ', "\t"));
    assert!(matches!(check_mnemonic(&spaced, WordCount::Words12), MnemonicCheck::Valid));
}

#[test]
fn check_mnemonic_refuses_a_bad_checksum() {
    let phrase = vec!["abandon"; 12].join(" ");
    match check_mnemonic(&phrase, WordCount::Words12) {
        MnemonicCheck::Invalid { unknown_words, message } => {
            assert!(!unknown_words);
            assert!(message.contains("checksum"));
        }
        other => panic!("unexpected {:?}", other),
    }
}

#[test]
fn check_mnemonic_refuses_unknown_words() {
    let phrase = vec!["notaword"; 12].join(" ");
    match check_mnemonic(&phrase, WordCount::Words12) {
        MnemonicCheck::Invalid { unknown_words, .. } => assert!(unknown_words),
        other => panic!("unexpected {:?}", other),
    }
}

#[test]
fn check_mnemonic_reports_the_count_first() {
    match check_mnemonic(VALID_12, WordCount::Words24) {
        MnemonicCheck::Missing { needed_more } => assert_eq!(needed_more, 12),
        other => panic!("unexpected {:?}", other),
    }
    let long = format!("{} {}", VALID_12, VALID_12);
    match check_mnemonic(&long, WordCount::Words12) {
        MnemonicCheck::TooMany { words, extra } => {
            assert_eq!(words, 24);
            assert_eq!(extra, 12);
        }
        other => panic!("unexpected {:?}", other),
    }
}

#[test]
fn decrypted_word_count_splits_at_single_spaces() {
    assert_eq!(decrypted_word_count(VALID_12), 12);
    assert_eq!(decrypted_word_count("  a b c \n"), 3);
    assert_eq!(decrypted_word_count("a  b"), 3);
    assert_eq!(decrypted_word_count(""), 1);
}

#[test]
fn word_count_of_decrypted_accepts_12_and_24() {
    assert_eq!(word_count_of_decrypted(12).ok(), Some(WordCount::Words12));
    assert_eq!(word_count_of_decrypted(24).ok(), Some(WordCount::Words24));
    match word_count_of_decrypted(15) {
        Err(Error::Custom(m)) => assert_eq!(m, "Invalid mnemonic count: 15"),
        other => panic!("unexpected {:?}", other),
    }
}

#[test]
fn wallet_name_check_uses_the_slug() {
    let existing = vec!["my-wallet".to_string(), "other".to_string()];
    let check = wallet_name_check("My Wallet", &existing);
    assert_eq!(check.filename, "my-wallet");
    assert!(check.exists);
    assert!(!check.can_continue);
    let check = wallet_name_check("Fresh Name", &existing);
    assert_eq!(check.filename, "fresh-name");
    assert!(!check.exists);
    assert!(check.can_continue);
    let check = wallet_name_check("", &existing);
    assert!(!check.exists);
    assert!(!check.can_continue);
}

#[test]
fn wallet_name_check_for_an_empty_filename() {
    let existing = vec!["".to_string()];
    let check = wallet_name_check_for_filename(false, String::new(), &existing);
    assert!(!check.exists);
    assert!(check.can_continue);
}

#[test]
fn secret_pages_readiness() {
    let a = "secret".to_string();
    let b = "secret".to_string();
    let c = "other".to_string();
    assert!(wallet_secret_ready(&a, &b, false));
    assert!(!wallet_secret_ready(&a, &c, false));
    assert!(!wallet_secret_ready(&a, &b, true));
    assert!(!wallet_secret_ready(&String::new(), &String::new(), false));
    let mut f = Flags::default();
    assert!(!payment_secret_ready(f, &a, &b, false));
    f.enable_payment_secret = true;
    assert!(payment_secret_ready(f, &a, &b, false));
}

const ENV: Env = Env { restrictions_disabled: false, wallet_exists: false };

fn run(flow: &mut WalletCreate, events: &[Event]) -> Action {
    let mut last = Action::Nothing;
    for e in events {
        last = flow.handle(ENV, *e);
    }
    last
}

/// Fills the form pages with a name and a strong, confirmed password and
/// goes on to the payment-secret page.
fn fill_form(flow: &mut WalletCreate) {
    assert_eq!(flow.state, State::WalletName);
    flow.edit(Field::WalletName, "My Wallet".to_string(), false);
    run(flow, &[Event::Continue, Event::Continue, Event::Continue]);
    assert_eq!(flow.state, State::WalletSecret);
    flow.edit(Field::WalletSecret, "correct horse battery".to_string(), false);
    flow.edit(Field::WalletSecretConfirm, "correct horse battery".to_string(), false);
    run(flow, &[Event::Continue]);
}

fn on_password_page() -> WalletCreate {
    let mut flow = WalletCreate::new();
    run(&mut flow, &[Event::Continue, Event::SelectWordCount(WordCount::Words12)]);
    flow.edit(Field::WalletName, "w".to_string(), false);
    run(&mut flow, &[Event::Continue, Event::Continue, Event::Continue]);
    assert_eq!(flow.state, State::WalletSecret);
    flow
}

#[test]
fn create_flow_happy_path() {
    let mut flow = WalletCreate::new();
    assert_eq!(flow.state, State::Start);
    run(&mut flow, &[Event::Continue, Event::SelectWordCount(WordCount::Words24)]);
    assert_eq!(flow.state, State::WalletName);
    assert_eq!(flow.flags.word_count, WordCount::Words24);
    fill_form(&mut flow);
    assert_eq!(flow.wallet_filename, "my-wallet");
    assert_eq!(flow.state, State::PaymentSecret);
    run(&mut flow, &[Event::Skip]);
    assert_eq!(flow.state, State::CreateWalletConfirm);
    run(&mut flow, &[Event::Frame]);
    assert_eq!(flow.state, State::CreateWallet);
    assert_eq!(flow.texts().wallet_secret, "correct horse battery");
    let action = flow.creation_finished(ENV, Some(VALID_12.to_string()));
    assert_eq!(action, Action::AccountsCreated);
    assert_eq!(flow.state, State::PresentMnemonic);
    assert_eq!(flow.mnemonic, VALID_12);
    for t in [
        &flow.wallet_name, &flow.wallet_filename, &flow.account_name, &flow.phishing_hint,
        &flow.wallet_secret, &flow.wallet_secret_confirm, &flow.payment_secret, &flow.payment_secret_confirm,
    ] {
        assert!(t.is_empty());
    }
    run(&mut flow, &[Event::Continue]);
    assert_eq!(flow.state, State::Finish);
    assert!(flow.mnemonic.is_empty());
    let action = run(&mut flow, &[Event::Continue]);
    assert_eq!(action, Action::OpenAccounts);
    assert_eq!(flow.state, State::Start);
}

#[test]
fn wallet_name_page_needs_a_free_name() {
    let mut flow = WalletCreate::new();
    run(&mut flow, &[Event::Continue, Event::SelectWordCount(WordCount::Words12)]);
    run(&mut flow, &[Event::Continue, Event::Submit(Field::WalletName)]);
    assert_eq!(flow.state, State::WalletName);
    flow.edit(Field::WalletName, "My Wallet".to_string(), false);
    assert_eq!(flow.wallet_filename, "my-wallet");
    assert!(flow.wallet_exists(&vec!["my-wallet".to_string()]));
    assert!(!flow.wallet_exists(&vec!["other".to_string()]));
    let taken = Env { restrictions_disabled: false, wallet_exists: true };
    flow.handle(taken, Event::Continue);
    assert_eq!(flow.state, State::WalletName);
    // Enter does not look at the wallet list
    flow.handle(taken, Event::Submit(Field::WalletName));
    assert_eq!(flow.state, State::AccountName);
    flow.handle(ENV, Event::Submit(Field::AccountName));
    assert_eq!(flow.state, State::PhishingHint);
    flow.handle(ENV, Event::Submit(Field::PhishingHint));
    assert_eq!(flow.state, State::WalletSecret);
}

#[test]
fn password_page_needs_a_confirmed_strong_password() {
    let mut flow = on_password_page();
    // nothing entered: neither Continue nor Enter moves on, and Skip does nothing
    run(&mut flow, &[Event::Continue, Event::Skip, Event::Submit(Field::WalletSecretConfirm)]);
    assert_eq!(flow.state, State::WalletSecret);
    flow.edit(Field::WalletSecret, "short".to_string(), true);
    flow.edit(Field::WalletSecretConfirm, "short".to_string(), true);
    assert_eq!(flow.wallet_secret_weak, Some(true));
    run(&mut flow, &[Event::Continue, Event::Submit(Field::WalletSecretConfirm)]);
    assert_eq!(flow.state, State::WalletSecret);
    // the rule lifted by the developer settings
    let lifted = Env { restrictions_disabled: true, wallet_exists: false };
    flow.handle(lifted, Event::Continue);
    assert_eq!(flow.state, State::PaymentSecret);
    run(&mut flow, &[Event::Back]);
    assert_eq!(flow.state, State::WalletSecret);
    flow.edit(Field::WalletSecret, "a much stronger secret".to_string(), false);
    assert_eq!(flow.wallet_secret_weak, Some(false));
    // mismatched confirmation
    run(&mut flow, &[Event::Continue, Event::Submit(Field::WalletSecret), Event::Submit(Field::WalletSecretConfirm)]);
    assert_eq!(flow.state, State::WalletSecret);
    flow.edit(Field::WalletSecretConfirm, "a much stronger secret".to_string(), false);
    run(&mut flow, &[Event::Submit(Field::WalletSecret)]);
    assert_eq!(flow.state, State::PaymentSecret);
}

#[test]
fn password_enter_rules() {
    // Enter in the password field waits for a confirmation
    let mut flow = on_password_page();
    flow.edit(Field::WalletSecret, "a much stronger secret".to_string(), false);
    run(&mut flow, &[Event::Submit(Field::WalletSecret)]);
    assert_eq!(flow.state, State::WalletSecret);
    // Enter in an empty confirmation field goes on, as the page does
    run(&mut flow, &[Event::Submit(Field::WalletSecretConfirm)]);
    assert_eq!(flow.state, State::PaymentSecret);
    let a = "pass".to_string();
    let b = "pasS".to_string();
    assert!(wallet_secret_submit_holds(&a, &String::new(), Some(false), false));
    assert!(!wallet_secret_submit_holds(&a, &b, Some(false), false));
    assert!(!wallet_secret_submit_holds(&a, &a, Some(true), false));
    assert!(wallet_secret_submit_holds(&a, &a, Some(true), true));
}

#[test]
fn import_legacy_skips_payment_secret() {
    let mut flow = WalletCreate::new();
    run(&mut flow, &[Event::Continue, Event::ImportExisting, Event::SelectLegacy]);
    assert_eq!(flow.state, State::WalletName);
    assert!(flow.flags.import_legacy);
    assert!(flow.flags.import_private_key);
    assert_eq!(flow.flags.word_count, WordCount::Words12);
    fill_form(&mut flow);
    assert_eq!(flow.state, State::PaymentSecret);
    run(&mut flow, &[Event::Frame]);
    assert_eq!(flow.state, State::ImportMnemonic);
    run(&mut flow, &[Event::Frame]);
    assert_eq!(flow.state, State::ImportMnemonicWithEditor);
    run(&mut flow, &[Event::Continue, Event::Finished { ok: false }]);
    assert_eq!(flow.state, State::WalletError(ErrorReturn::Start));
    assert_eq!(flow.error_caption(), "Error importing a wallet");
    assert_eq!(flow.wallet_secret, "correct horse battery");
    run(&mut flow, &[Event::Continue]);
    assert_eq!(flow.state, State::Start);
}

#[test]
fn import_file_flow() {
    let mut flow = WalletCreate::new();
    run(&mut flow, &[Event::Continue, Event::ImportFile]);
    assert_eq!(flow.state, State::ImportMnemonicInteractive);
    assert!(flow.flags.import_private_key_file);
    run(&mut flow, &[Event::FilePicked(FileOutcome::Parsed), Event::Continue]);
    assert_eq!(flow.state, State::DecryptWalletFile);
    run(&mut flow, &[Event::Decrypted(DecryptOutcome::Core(15))]);
    assert_eq!(flow.state, State::WalletError(ErrorReturn::ImportMnemonicInteractive));
    run(&mut flow, &[Event::Continue, Event::FilePicked(FileOutcome::Parsed), Event::Continue]);
    run(&mut flow, &[Event::Decrypted(DecryptOutcome::Core(24))]);
    assert_eq!(flow.state, State::WalletName);
    assert_eq!(flow.flags.word_count, WordCount::Words24);
    fill_form(&mut flow);
    run(&mut flow, &[Event::Skip]);
    assert_eq!(flow.state, State::ImportWallet);
    assert_eq!(run(&mut flow, &[Event::Finished { ok: true }]), Action::AccountsCreated);
    assert_eq!(flow.state, State::Finish);
    assert!(flow.wallet_name.is_empty() && flow.wallet_secret.is_empty() && flow.wallet_secret_confirm.is_empty());
}

#[test]
fn decrypt_failure_returns_to_the_secret_page() {
    let (s, _, a) = step(State::DecryptWalletFile, Flags::default(), Event::Decrypted(DecryptOutcome::Failed));
    assert_eq!(s, State::WalletError(ErrorReturn::WalletFileSecret));
    assert_eq!(a, Action::Nothing);
    let (s, _, _) = step(s, Flags::default(), Event::Continue);
    assert_eq!(s, State::WalletFileSecret);
    let (s, _, a) = step(s, Flags::default(), Event::Cancel);
    assert_eq!(s, State::Start);
    assert_eq!(a, Action::Leave);
}

#[test]
fn continue_then_back_returns() {
    let mut flow = WalletCreate::new();
    run(&mut flow, &[Event::Continue, Event::SelectWordCount(WordCount::Words12)]);
    flow.edit(Field::WalletName, "w".to_string(), false);
    for s in [State::WalletName, State::AccountName, State::PhishingHint] {
        assert_eq!(flow.state, s);
        run(&mut flow, &[Event::Continue, Event::Back]);
        assert_eq!(flow.state, s);
        run(&mut flow, &[Event::Continue]);
    }
    flow.edit(Field::WalletSecret, "a much stronger secret".to_string(), false);
    flow.edit(Field::WalletSecretConfirm, "a much stronger secret".to_string(), false);
    run(&mut flow, &[Event::Continue, Event::Back]);
    assert_eq!(flow.state, State::WalletSecret);
    assert_eq!(flow.wallet_secret_confirm, "a much stronger secret");
}

#[test]
fn payment_secret_page_rules() {
    let mut flow = on_password_page();
    flow.edit(Field::WalletSecret, "a much stronger secret".to_string(), false);
    flow.edit(Field::WalletSecretConfirm, "a much stronger secret".to_string(), false);
    run(&mut flow, &[Event::Continue, Event::TogglePaymentSecret]);
    assert_eq!(flow.state, State::PaymentSecret);
    assert!(flow.flags.enable_payment_secret);
    // Enter with nothing entered asks for the passphrase
    run(&mut flow, &[Event::Submit(Field::PaymentSecret)]);
    assert_eq!(flow.state, State::PaymentSecret);
    assert!(flow.flags.payment_secret_submitted);
    // a change withdraws that; Enter in the first field then only moves the focus
    flow.edit(Field::PaymentSecret, "another long passphrase".to_string(), false);
    assert!(!flow.flags.payment_secret_submitted);
    run(&mut flow, &[Event::Submit(Field::PaymentSecret), Event::Skip, Event::Continue, Event::Submit(Field::PaymentSecretConfirm)]);
    assert_eq!(flow.state, State::PaymentSecret);
    flow.edit(Field::PaymentSecretConfirm, "another long passphrase".to_string(), false);
    run(&mut flow, &[Event::Submit(Field::PaymentSecretConfirm)]);
    assert_eq!(flow.state, State::CreateWalletConfirm);
    assert_eq!(flow.payment_secret, "another long passphrase");
}

#[test]
fn payment_secret_continue_and_skip() {
    let mut flow = on_password_page();
    flow.edit(Field::WalletSecret, "a much stronger secret".to_string(), false);
    flow.edit(Field::WalletSecretConfirm, "a much stronger secret".to_string(), false);
    run(&mut flow, &[Event::Continue, Event::TogglePaymentSecret]);
    flow.edit(Field::PaymentSecret, "weak".to_string(), true);
    flow.edit(Field::PaymentSecretConfirm, "weak".to_string(), true);
    run(&mut flow, &[Event::Continue]);
    assert_eq!(flow.state, State::PaymentSecret);
    flow.edit(Field::PaymentSecret, "another long passphrase".to_string(), false);
    flow.edit(Field::PaymentSecretConfirm, "another long passphrase".to_string(), false);
    run(&mut flow, &[Event::Continue]);
    assert_eq!(flow.state, State::CreateWalletConfirm);
    // without the editor, Skip wipes the passphrase and goes on
    let mut flow = on_password_page();
    flow.edit(Field::WalletSecret, "a much stronger secret".to_string(), false);
    flow.edit(Field::WalletSecretConfirm, "a much stronger secret".to_string(), false);
    run(&mut flow, &[Event::Continue, Event::TogglePaymentSecret]);
    flow.edit(Field::PaymentSecret, "kept?".to_string(), false);
    run(&mut flow, &[Event::TogglePaymentSecret, Event::Skip]);
    assert_eq!(flow.state, State::CreateWalletConfirm);
    assert!(flow.payment_secret.is_empty());
}

#[test]
fn failed_creation_shows_the_error() {
    let mut flow = WalletCreate::new();
    flow.state = State::CreateWallet;
    assert_eq!(flow.creation_finished(ENV, None), Action::Nothing);
    assert_eq!(flow.state, State::WalletError(ErrorReturn::Start));
    assert!(flow.mnemonic.is_empty());
}

#[test]
fn start_back_leaves() {
    let mut flow = WalletCreate::new();
    let action = flow.handle(ENV, Event::Back);
    assert_eq!(action, Action::Leave);
    assert_eq!(flow.state, State::Start);
    assert_eq!(flow.error_caption(), "Error creating a wallet");
}

#[test]
fn payment_secret_submit_rules() {
    let a = "pass".to_string();
    let b = "pasS".to_string();
    let empty = String::new();
    assert!(payment_secret_submit_holds(&a, &a, Some(false), false));
    assert!(!payment_secret_submit_holds(&a, &a, Some(true), false));
    assert!(payment_secret_submit_holds(&a, &a, Some(true), true));
    assert!(!payment_secret_submit_holds(&a, &b, None, false));
    assert!(payment_secret_submit_holds(&empty, &b, None, false));
}

fn texts(payment: &str, hint: &str) -> WalletTexts {
    WalletTexts {
        wallet_name: "My Wallet".to_string(),
        wallet_filename: "my-wallet".to_string(),
        account_name: String::new(),
        phishing_hint: hint.to_string(),
        wallet_secret: "pw".to_string(),
        payment_secret: payment.to_string(),
    }
}

#[test]
fn wallet_plans() {
    let mut f = Flags::default();
    let plan = wallet_create_plan(&texts("", ""), f, false).ok().unwrap();
    assert_eq!(plan.wallet_name.as_deref(), Some("My Wallet"));
    assert_eq!(plan.wallet_filename.as_deref(), Some("my-wallet"));
    assert!(plan.account_name.is_none());
    assert!(plan.payment_secret.is_none());
    assert!(plan.phishing_hint.is_none());
    assert_eq!(plan.wallet_secret, "pw");
    f.enable_payment_secret = true;
    assert_eq!(wallet_create_plan(&texts("", ""), f, false).err().as_deref(), Some("Payment secret is empty"));
    assert_eq!(wallet_create_plan(&texts("pp", ""), f, true).err().as_deref(), Some("Phishing hint is empty"));
    let plan = wallet_create_plan(&texts("pp", "cat"), f, true).ok().unwrap();
    assert_eq!(plan.payment_secret.as_deref(), Some("pp"));
    assert_eq!(plan.phishing_hint.as_deref(), Some("cat"));
    // an import uses the passphrase only when the mnemonic has one
    let plan = wallet_import_plan(&texts("pp", ""), f, false).ok().unwrap();
    assert!(plan.payment_secret.is_none());
    f.import_with_bip39_passphrase = true;
    assert_eq!(wallet_import_plan(&texts("", ""), f, false).err().as_deref(), Some("Payment secret is empty"));
}

#[test]
fn imported_accounts() {
    assert_eq!(account_imports(0, true), vec![AccountImport::Legacy]);
    assert_eq!(
        account_imports(2, false),
        vec![AccountImport::Bip32 { index: 0 }, AccountImport::Bip32 { index: 1 }, AccountImport::Bip32 { index: 2 }]
    );
}

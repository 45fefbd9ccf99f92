use vstd::prelude::*;
use vstd::string::*;
use crate::error::Error;
use crate::text::{append_digits, decimal, owned, push_char, trim_bounds, trim_end, trim_start};
use crate::wallet_secret::score_subject;
use kaspa_bip32::{Language, Mnemonic};

verus! {

/// The number of words of a mnemonic.
#[derive(Clone, Copy, Debug, PartialEq, Eq, Structural)]
pub enum WordCount {
    Words12,
    Words24,
}

impl Default for WordCount {
    fn default() -> (r: Self)
        ensures
            r == WordCount::Words12,
    {
        WordCount::Words12
    }
}

/// How many words a mnemonic of the given kind has.
pub open spec fn words_needed(wc: WordCount) -> nat {
    match wc {
        WordCount::Words12 => 12,
        WordCount::Words24 => 24,
    }
}

impl WordCount {
    /// How many words a mnemonic of this kind has.
    pub fn words(&self) -> (r: usize)
        ensures
            r == words_needed(*self),
    {
        match self {
            WordCount::Words12 => 12,
            WordCount::Words24 => 24,
        }
    }
}

/// ASCII whitespace, as `split_ascii_whitespace` cuts at it: space, tab,
/// line feed, form feed and carriage return.
pub open spec fn is_ascii_space(c: char) -> bool {
    c == ' ' || c == '\t' || c == '\n' || c == '\x0C' || c == '\r'
}

/// Reading `s` from the left: the words completed so far and the word
/// being read.
pub open spec fn scan_words(s: Seq<char>) -> (Seq<Seq<char>>, Seq<char>)
    decreases s.len(),
{
    if s.len() == 0 {
        (Seq::empty(), Seq::empty())
    } else {
        let (ws, cur) = scan_words(s.drop_last());
        let c = s.last();
        if is_ascii_space(c) {
            if cur.len() > 0 { (ws.push(cur), Seq::empty()) } else { (ws, cur) }
        } else {
            (ws, cur.push(c))
        }
    }
}

/// The words of `s`: its maximal runs of characters other than ASCII
/// whitespace, in order.
pub open spec fn words_of(s: Seq<char>) -> Seq<Seq<char>> {
    let (ws, cur) = scan_words(s);
    if cur.len() > 0 { ws.push(cur) } else { ws }
}

/// Words joined by single spaces.
pub open spec fn joined_words(ws: Seq<Seq<char>>) -> Seq<char>
    decreases ws.len(),
{
    if ws.len() == 0 {
        Seq::empty()
    } else if ws.len() == 1 {
        ws[0]
    } else {
        joined_words(ws.drop_last()) + seq![' '] + ws.last()
    }
}

proof fn lemma_joined_push(ws: Seq<Seq<char>>, w: Seq<char>)
    ensures
        joined_words(ws.push(w)) == if ws.len() == 0 { w } else { joined_words(ws) + seq![' '] + w },
{
    assert(ws.push(w).drop_last() =~= ws);
    assert(ws.push(w).last() == w);
    if ws.len() == 0 {
        assert(ws.push(w)[0] == w);
    }
}

fn is_ascii_space_char(c: char) -> (r: bool)
    ensures
        r == is_ascii_space(c),
{
    c == ' ' || c == '\t' || c == '\n' || c == '\x0C' || c == '\r'
}

/// The number of words of a phrase and the phrase rewritten with single
/// spaces between its words.
pub fn mnemonic_words(phrase: &str) -> (r: (usize, String))
    ensures
        r.0 == words_of(phrase@).len(),
        r.1@ == joined_words(words_of(phrase@)),
{
    let n = phrase.unicode_len();
    let mut count: usize = 0;
    let mut cur_len: usize = 0;
    let mut joined = String::new();
    let mut i: usize = 0;
    while i < n
        invariant
            n == phrase@.len(),
            i <= n,
            count == scan_words(phrase@.take(i as int)).0.len(),
            cur_len == scan_words(phrase@.take(i as int)).1.len(),
            joined@ == joined_words(words_of(phrase@.take(i as int))),
            count + cur_len <= i,
        decreases n - i,
    {
        let c = phrase.get_char(i);
        let ghost prefix = phrase@.take(i as int);
        let ghost next = phrase@.take(i + 1);
        proof {
            assert(next.drop_last() =~= prefix);
            assert(next.last() == c);
        }
        let ghost ws = scan_words(prefix).0;
        let ghost cur = scan_words(prefix).1;
        if is_ascii_space_char(c) {
            if cur_len > 0 {
                count = count + 1;
                cur_len = 0;
            }
        } else {
            if cur_len == 0 {
                if count > 0 {
                    push_char(&mut joined, ' ');
                }
                push_char(&mut joined, c);
                proof {
                    lemma_joined_push(ws, seq![c]);
                    assert(cur =~= Seq::<char>::empty());
                    assert(cur.push(c) =~= seq![c]);
                    if ws.len() == 0 {
                        assert(joined@ =~= seq![c]);
                    } else {
                        assert(joined@ =~= joined_words(ws) + seq![' '] + seq![c]);
                    }
                }
            } else {
                push_char(&mut joined, c);
                proof {
                    lemma_joined_push(ws, cur);
                    lemma_joined_push(ws, cur.push(c));
                    if ws.len() == 0 {
                        assert(joined@ =~= cur.push(c));
                    } else {
                        assert(joined@ =~= joined_words(ws) + seq![' '] + cur.push(c));
                    }
                }
            }
            cur_len = cur_len + 1;
        }
        i = i + 1;
    }
    assert(phrase@.take(n as int) =~= phrase@);
    let total = if cur_len > 0 { count + 1 } else { count };
    (total, joined)
}

/// What a mnemonic field holds, measured against the words a mnemonic of
/// the chosen kind needs.
#[derive(Debug)]
pub enum MnemonicInput {
    /// Fewer words than needed; how many more are needed.
    Missing { needed_more: usize },
    /// More words than needed: how many words there are and how many too
    /// many.
    TooMany { words: usize, extra: usize },
    /// As many words as needed, joined by single spaces.
    Complete { phrase: String },
}

/// How a mnemonic field holding `phrase` measures against `wc`.
pub open spec fn mnemonic_input_matches(r: MnemonicInput, phrase: Seq<char>, wc: WordCount) -> bool {
    let n = words_of(phrase).len();
    let needed = words_needed(wc);
    if n < needed {
        r matches MnemonicInput::Missing { needed_more } && needed_more == needed - n
    } else if n > needed {
        r matches MnemonicInput::TooMany { words, extra } && words == n && extra == n - needed
    } else {
        r matches MnemonicInput::Complete { phrase: p } && p@ == joined_words(words_of(phrase))
    }
}

/// Measures the words of a mnemonic field against the chosen kind.
pub fn mnemonic_input(phrase: &str, word_count: WordCount) -> (r: MnemonicInput)
    ensures
        mnemonic_input_matches(r, phrase@, word_count),
{
    let needed = word_count.words();
    let (n, joined) = mnemonic_words(phrase);
    if n < needed {
        MnemonicInput::Missing { needed_more: needed - n }
    } else if n > needed {
        MnemonicInput::TooMany { words: n, extra: n - needed }
    } else {
        MnemonicInput::Complete { phrase: joined }
    }
}

/// How `kaspa_bip32` judges a phrase as an English BIP39 mnemonic: accepted,
/// or refused with whether the refusal is the BIP39 word/length error and
/// the error's text.
pub uninterp spec fn bip39_verdict(phrase: Seq<char>) -> Result<(), (bool, Seq<char>)>;

/// Checks a phrase with `kaspa_bip32::Mnemonic::new(phrase, Language::English)`.
/// Claimed: the outcome is a function of the phrase alone; on a refusal,
/// whether the error is `Error::Bip39` and the error's text.
#[verifier::external_body]
fn check_bip39(phrase: &str) -> (r: Result<(), (bool, String)>)
    ensures
        match r {
            Ok(()) => bip39_verdict(phrase@) == Ok::<(), (bool, Seq<char>)>(()),
            Err((b, m)) => bip39_verdict(phrase@) == Err::<(), (bool, Seq<char>)>((b, m@)),
        },
{
    match Mnemonic::new(phrase, Language::default()) {
        Ok(_) => Ok(()),
        Err(err) => Err((matches!(err, kaspa_bip32::Error::Bip39), err.to_string())),
    }
}

/// The verdict on a mnemonic field.
#[derive(Debug)]
pub enum MnemonicCheck {
    Missing { needed_more: usize },
    TooMany { words: usize, extra: usize },
    /// The words form a valid mnemonic.
    Valid,
    /// The words do not form a valid mnemonic; `unknown_words` tells
    /// whether the refusal is the BIP39 word/length error.
    Invalid { unknown_words: bool, message: String },
}

/// The verdict on a field, given its measure and, for a complete field,
/// how the joined phrase was judged.
pub open spec fn mnemonic_check_matches(r: MnemonicCheck, input: MnemonicInput, verdict: Result<(), (bool, Seq<char>)>) -> bool {
    match input {
        MnemonicInput::Missing { needed_more } => r matches MnemonicCheck::Missing { needed_more: m } && m == needed_more,
        MnemonicInput::TooMany { words, extra } => r matches MnemonicCheck::TooMany { words: w, extra: e } && w == words && e == extra,
        MnemonicInput::Complete { .. } => match verdict {
            Ok(()) => r is Valid,
            Err((b, m)) => r matches MnemonicCheck::Invalid { unknown_words, message } && unknown_words == b && message@ == m,
        },
    }
}

/// The verdict on a measured field: a complete field is judged by
/// `verdict` (ignored otherwise).
pub fn mnemonic_check_of(input: MnemonicInput, verdict: Result<(), (bool, String)>) -> (r: MnemonicCheck)
    ensures
        mnemonic_check_matches(r, input, match verdict { Ok(()) => Ok(()), Err((b, m)) => Err((b, m@)) }),
{
    match input {
        MnemonicInput::Missing { needed_more } => MnemonicCheck::Missing { needed_more },
        MnemonicInput::TooMany { words, extra } => MnemonicCheck::TooMany { words, extra },
        MnemonicInput::Complete { .. } => match verdict {
            Ok(()) => MnemonicCheck::Valid,
            Err((unknown_words, message)) => MnemonicCheck::Invalid { unknown_words, message },
        },
    }
}

/// The verdict on a field holding `phrase`: the number of words against
/// the kind first, then, when it is right, how `kaspa_bip32` judges the
/// words joined by single spaces.
pub open spec fn mnemonic_verdict(r: MnemonicCheck, phrase: Seq<char>, word_count: WordCount) -> bool {
    let n = words_of(phrase).len();
    let needed = words_needed(word_count);
    &&& n < needed ==> (r matches MnemonicCheck::Missing { needed_more } && needed_more == needed - n)
    &&& n > needed ==> (r matches MnemonicCheck::TooMany { words, extra } && words == n && extra == n - needed)
    &&& n == needed ==> match bip39_verdict(joined_words(words_of(phrase))) {
        Ok(()) => r is Valid,
        Err((b, m)) => r matches MnemonicCheck::Invalid { unknown_words, message } && unknown_words == b && message@ == m,
    }
}

/// Checks a mnemonic field: the number of words first, then, when it is
/// right, the phrase with its words joined by single spaces.
pub fn check_mnemonic(phrase: &str, word_count: WordCount) -> (r: MnemonicCheck)
    ensures
        mnemonic_verdict(r, phrase@, word_count),
{
    let input = mnemonic_input(phrase, word_count);
    match input {
        MnemonicInput::Complete { phrase: joined } => {
            let verdict = check_bip39(joined.as_str());
            mnemonic_check_of(MnemonicInput::Complete { phrase: joined }, verdict)
        },
        other => mnemonic_check_of(other, Ok(())),
    }
}

/// How many times `c` occurs in `s`.
pub open spec fn occurrences(s: Seq<char>, c: char) -> nat
    decreases s.len(),
{
    if s.len() == 0 { 0 } else { occurrences(s.drop_last(), c) + if s.last() == c { 1nat } else { 0nat } }
}

/// How many pieces splitting the trimmed text at every single space gives.
pub open spec fn space_separated_count(s: Seq<char>) -> nat {
    occurrences(trim_end(trim_start(s)), ' ') + 1
}

/// The number of words of a decrypted mnemonic, counted as pieces of the
/// trimmed text split at single spaces.
pub fn decrypted_word_count(mnemonic: &str) -> (r: usize)
    requires
        mnemonic@.len() < usize::MAX,
    ensures
        r == space_separated_count(mnemonic@),
{
    let ghost s = mnemonic@;
    let (i, j) = trim_bounds(mnemonic);
    let n = mnemonic.unicode_len();
    let mut spaces: usize = 0;
    let mut k: usize = i;
    while k < j
        invariant
            n == s.len(),
            s == mnemonic@,
            i <= k <= j <= n,
            spaces == occurrences(s.subrange(i as int, k as int), ' '),
            spaces <= k - i,
        decreases j - k,
    {
        proof {
            let u = s.subrange(i as int, k + 1);
            assert(u.drop_last() =~= s.subrange(i as int, k as int));
            assert(u.last() == s[k as int]);
        }
        if mnemonic.get_char(k) == ' ' {
            spaces = spaces + 1;
        }
        k = k + 1;
    }
    assert(s.subrange(i as int, j as int) == trim_end(trim_start(s)));
    spaces + 1
}

/// The word count a decrypted mnemonic is imported with: 12 or 24 words,
/// anything else is an error naming the count.
pub fn word_count_of_decrypted(size: usize) -> (r: Result<WordCount, Error>)
    ensures
        size == 12 ==> r == Ok::<WordCount, Error>(WordCount::Words12),
        size == 24 ==> r == Ok::<WordCount, Error>(WordCount::Words24),
        size != 12 && size != 24 ==> (r matches Err(Error::Custom(m)) && m@ == "Invalid mnemonic count: "@ + decimal(size as nat)),
{
    if size == 12 {
        Ok(WordCount::Words12)
    } else if size == 24 {
        Ok(WordCount::Words24)
    } else {
        let mut message = owned("Invalid mnemonic count: ");
        append_digits(&mut message, size as u64, 10);
        Err(Error::Custom(message))
    }
}

/// The file name `slug` makes of a wallet name.
pub uninterp spec fn slug_of(text: Seq<char>) -> Seq<char>;

/// Makes a file name of a wallet name with `slug::slugify`.
/// Claimed: the file name is a function of the wallet name alone.
#[verifier::external_body]
fn slugify_text(text: &str) -> (r: String)
    ensures
        r@ == slug_of(text@),
{
    slug::slugify(text)
}

/// What the wallet-name page shows for a wallet name.
pub struct WalletNameCheck {
    /// The file the wallet would be stored in.
    pub filename: String,
    /// Whether a wallet already uses that file.
    pub exists: bool,
    /// Whether the page lets the user continue.
    pub can_continue: bool,
}

/// Whether one of the names equals `name`.
pub open spec fn listed(names: Seq<String>, name: Seq<char>) -> bool {
    exists|i: int| 0 <= i < names.len() && #[trigger] names[i]@ == name
}

/// The wallet-name page's verdict given the file name made of the name:
/// a non-empty file name already used by a wallet is taken, and the user
/// may continue with a non-empty name whose file is free.
pub fn wallet_name_check_for_filename(name_is_empty: bool, filename: String, existing_filenames: &Vec<String>) -> (r: WalletNameCheck)
    ensures
        r.filename@ == filename@,
        r.exists == (filename@.len() > 0 && listed(existing_filenames@, filename@)),
        r.can_continue == (!name_is_empty && !r.exists),
{
    let mut exists = false;
    if filename.unicode_len() > 0 {
        let mut i: usize = 0;
        while i < existing_filenames.len()
            invariant
                i <= existing_filenames@.len(),
                exists == exists|j: int| 0 <= j < i && #[trigger] existing_filenames@[j]@ == filename@,
            decreases existing_filenames@.len() - i,
        {
            if existing_filenames[i] == filename {
                exists = true;
            }
            i = i + 1;
        }
    }
    WalletNameCheck { filename, exists, can_continue: !name_is_empty && !exists }
}

/// The wallet-name page's verdict for a wallet name.
pub fn wallet_name_check(name: &str, existing_filenames: &Vec<String>) -> (r: WalletNameCheck)
    ensures
        r.filename@ == slug_of(name@),
        r.exists == (slug_of(name@).len() > 0 && listed(existing_filenames@, slug_of(name@))),
        r.can_continue == (name@.len() > 0 && !r.exists),
{
    let filename = slugify_text(name);
    wallet_name_check_for_filename(name.unicode_len() == 0, filename, existing_filenames)
}


/// How a wallet is obtained.
#[derive(Clone, Copy, Debug, PartialEq, Eq, Structural)]
pub enum KeyOperationKind {
    Create,
    ImportKey,
    ImportFile,
}

/// The page the error page's Restart button leads back to.
#[derive(Clone, Copy, Debug, PartialEq, Eq, Structural)]
pub enum ErrorReturn {
    Start,
    ImportMnemonicInteractive,
    WalletFileSecret,
}

/// The pages of the wallet-creation flow.
#[derive(Clone, Copy, Debug, PartialEq, Eq, Structural)]
pub enum State {
    Start,
    KeySelection,
    ImportSelection,
    ImportMnemonic,
    ImportMnemonicWithEditor,
    ImportMnemonicInteractive,
    WalletFileSecret,
    DecryptWalletFile,
    ImportWallet,
    WalletName,
    AccountName,
    PhishingHint,
    WalletSecret,
    PaymentSecret,
    CreateWalletConfirm,
    CreateWallet,
    WalletError(ErrorReturn),
    PresentMnemonic,
    ConfirmMnemonic,
    Finish,
}

/// The choices made along the flow that decide where it goes.
#[derive(Clone, Copy, Debug, PartialEq, Eq, Structural)]
pub struct Flags {
    pub word_count: WordCount,
    pub import_private_key: bool,
    pub import_private_key_file: bool,
    pub import_legacy: bool,
    pub import_with_bip39_passphrase: bool,
    pub enable_payment_secret: bool,
    pub payment_secret_submitted: bool,
}

/// How picking a wallet file ended.
#[derive(Clone, Copy, Debug, PartialEq, Eq, Structural)]
pub enum FileOutcome {
    /// The dialog was closed without a file.
    Cancelled,
    /// A wallet file was read and recognized.
    Parsed,
    /// The file could not be read or recognized.
    Failed,
}

/// How decrypting a wallet file ended.
#[derive(Clone, Copy, Debug, PartialEq, Eq, Structural)]
pub enum DecryptOutcome {
    /// A legacy (KDX / web wallet) file gave its 12-word mnemonic.
    Legacy,
    /// A wallet file gave a mnemonic of the given number of words.
    Core(usize),
    /// Decryption failed.
    Failed,
}

/// The text fields of the flow.
#[derive(Clone, Copy, Debug, PartialEq, Eq, Structural)]
pub enum Field {
    WalletName,
    AccountName,
    PhishingHint,
    WalletSecret,
    WalletSecretConfirm,
    PaymentSecret,
    PaymentSecretConfirm,
}

/// What the flow reads of the application.
#[derive(Clone, Copy, Debug, PartialEq, Eq, Structural)]
pub struct Env {
    /// Whether the developer settings lift the password-strength rule.
    pub restrictions_disabled: bool,
    /// Whether a listed wallet already uses the flow's file name.
    pub wallet_exists: bool,
}

/// What happens on a page: a user action, the outcome of background work,
/// or a render pass with no action.
#[derive(Clone, Copy, Debug, PartialEq, Eq, Structural)]
pub enum Event {
    /// A render pass without user action.
    Frame,
    /// The page's Continue (or submit) button.
    Continue,
    Back,
    /// The payment-secret page's Skip button.
    Skip,
    /// The wallet-file page's Cancel button.
    Cancel,
    SelectWordCount(WordCount),
    /// The legacy 12-word mnemonic import button.
    SelectLegacy,
    ToggleBip39Passphrase,
    TogglePaymentSecret,
    /// Enter pressed in a text field.
    Submit(Field),
    ImportExisting,
    ImportFile,
    FilePicked(FileOutcome),
    Decrypted(DecryptOutcome),
    /// Importing or creating the wallet finished; whether it succeeded (a
    /// creation that succeeded also brings its mnemonic: see
    /// `WalletCreate::creation_finished`).
    Finished { ok: bool },
}

/// What the application does besides changing the page.
#[derive(Clone, Copy, Debug, PartialEq, Eq, Structural)]
pub enum Action {
    Nothing,
    /// Leave the flow for the previous module.
    Leave,
    /// Open the account manager and refresh the list of wallets.
    OpenAccounts,
    /// Hand the accounts just made to the application.
    AccountsCreated,
}

impl Default for Flags {
    fn default() -> (r: Self)
        ensures
            r == default_flags(),
    {
        Flags {
            word_count: WordCount::Words12,
            import_private_key: false,
            import_private_key_file: false,
            import_legacy: false,
            import_with_bip39_passphrase: false,
            enable_payment_secret: false,
            payment_secret_submitted: false,
        }
    }
}

/// The choices at the start of the flow: 12 words, nothing imported.
pub open spec fn default_flags() -> Flags {
    Flags {
        word_count: WordCount::Words12,
        import_private_key: false,
        import_private_key_file: false,
        import_legacy: false,
        import_with_bip39_passphrase: false,
        enable_payment_secret: false,
        payment_secret_submitted: false,
    }
}

/// The choices after the secrets are wiped once a wallet is made: the
/// import choices and the submitted mark are cleared; the word count, the
/// file-import choice and the payment-secret choice stay.
pub open spec fn zeroized(f: Flags) -> Flags {
    Flags {
        import_private_key: false,
        import_legacy: false,
        import_with_bip39_passphrase: false,
        payment_secret_submitted: false,
        ..f
    }
}

/// The page after the payment secret: importing the file, entering the
/// mnemonic to import, or creating a new wallet.
pub open spec fn route_after_payment_secret(f: Flags) -> State {
    if f.import_private_key_file {
        State::ImportWallet
    } else if f.import_private_key {
        State::ImportMnemonic
    } else {
        State::CreateWalletConfirm
    }
}

/// Whether the payment-secret page passes straight on: a legacy import has
/// no payment secret, and a key import without BIP39 passphrase needs none.
pub open spec fn skips_payment_secret(f: Flags) -> bool {
    f.import_legacy || (f.import_private_key && !f.import_with_bip39_passphrase)
}

/// The page the error page's Restart leads to.
pub open spec fn return_state(b: ErrorReturn) -> State {
    match b {
        ErrorReturn::Start => State::Start,
        ErrorReturn::ImportMnemonicInteractive => State::ImportMnemonicInteractive,
        ErrorReturn::WalletFileSecret => State::WalletFileSecret,
    }
}

/// A choice made on the import-selection page.
#[derive(Clone, Copy, Debug, PartialEq, Eq, Structural)]
pub enum ImportPick {
    Nothing,
    /// One of the mnemonic buttons (12 or 24 words).
    Words(WordCount),
    /// The legacy 12-word mnemonic button.
    Legacy,
    ToggleBip39Passphrase,
}

/// The choices the import-selection page leaves, and whether a kind of
/// mnemonic was chosen.
#[derive(Clone, Copy, Debug, PartialEq, Eq, Structural)]
pub struct ImportChoice {
    pub word_count: WordCount,
    pub import_legacy: bool,
    pub import_with_bip39_passphrase: bool,
    pub submitted: bool,
}

/// The import-selection page: a legacy choice clears the BIP39 passphrase
/// choice; a mnemonic button chooses its word count and a non-legacy import;
/// the legacy button, enabled only without BIP39 passphrase, chooses a
/// legacy 12-word import; the passphrase box is enabled only for a
/// non-legacy import.
pub open spec fn import_choice(word_count: WordCount, import_legacy: bool, bip39: bool, pick: ImportPick) -> ImportChoice {
    let bip39 = if import_legacy { false } else { bip39 };
    let stay = ImportChoice { word_count, import_legacy, import_with_bip39_passphrase: bip39, submitted: false };
    match pick {
        ImportPick::Words(wc) => ImportChoice { word_count: wc, import_legacy: false, import_with_bip39_passphrase: bip39, submitted: true },
        ImportPick::Legacy => if !bip39 {
            ImportChoice { word_count: WordCount::Words12, import_legacy: true, import_with_bip39_passphrase: false, submitted: true }
        } else {
            stay
        },
        ImportPick::ToggleBip39Passphrase => if !import_legacy {
            ImportChoice { import_with_bip39_passphrase: !bip39, ..stay }
        } else {
            stay
        },
        ImportPick::Nothing => stay,
    }
}

/// The import-selection choice an event of the wallet-creation flow makes.
pub open spec fn import_pick_of(e: Event) -> ImportPick {
    match e {
        Event::SelectWordCount(wc) => ImportPick::Words(wc),
        Event::SelectLegacy => ImportPick::Legacy,
        Event::ToggleBip39Passphrase => ImportPick::ToggleBip39Passphrase,
        _ => ImportPick::Nothing,
    }
}

fn import_pick(e: Event) -> (r: ImportPick)
    ensures
        r == import_pick_of(e),
{
    match e {
        Event::SelectWordCount(wc) => ImportPick::Words(wc),
        Event::SelectLegacy => ImportPick::Legacy,
        Event::ToggleBip39Passphrase => ImportPick::ToggleBip39Passphrase,
        _ => ImportPick::Nothing,
    }
}

/// The next page, choices and action after an event on a page without
/// text fields; the pages with text fields are `next`'s own.
pub open spec fn flow_next(s: State, f: Flags, e: Event) -> (State, Flags, Action) {
    match s {
        State::Start => match e {
            Event::Continue => (State::KeySelection, f, Action::Nothing),
            Event::Back => (State::Start, zeroized(f), Action::Leave),
            _ => (s, f, Action::Nothing),
        },
        State::KeySelection => {
            let f0 = Flags {
                import_with_bip39_passphrase: false,
                import_legacy: false,
                import_private_key: false,
                import_private_key_file: false,
                ..f
            };
            match e {
                Event::Back => (State::Start, f0, Action::Nothing),
                Event::SelectWordCount(wc) => (State::WalletName, Flags { word_count: wc, ..f0 }, Action::Nothing),
                Event::ImportExisting => (State::ImportSelection, f0, Action::Nothing),
                Event::ImportFile => (State::ImportMnemonicInteractive, Flags { import_private_key_file: true, ..f0 }, Action::Nothing),
                _ => (s, f0, Action::Nothing),
            }
        },
        State::ImportSelection => {
            let c = import_choice(f.word_count, f.import_legacy, f.import_with_bip39_passphrase, import_pick_of(e));
            let f1 = Flags {
                word_count: c.word_count,
                import_legacy: c.import_legacy,
                import_with_bip39_passphrase: c.import_with_bip39_passphrase,
                ..f
            };
            if e is Back {
                (State::KeySelection, f1, Action::Nothing)
            } else if c.submitted {
                (State::WalletName, Flags { import_private_key: true, ..f1 }, Action::Nothing)
            } else {
                (s, f1, Action::Nothing)
            }
        },
        State::WalletName | State::AccountName | State::PhishingHint | State::WalletSecret | State::PaymentSecret => (s, f, Action::Nothing),
        State::ImportMnemonic => (State::ImportMnemonicWithEditor, f, Action::Nothing),
        State::ImportMnemonicWithEditor => match e {
            Event::Back => (State::KeySelection, f, Action::Nothing),
            Event::Continue => (State::ImportWallet, f, Action::Nothing),
            _ => (s, f, Action::Nothing),
        },
        State::ImportMnemonicInteractive => match e {
            Event::FilePicked(FileOutcome::Parsed) => (State::WalletFileSecret, f, Action::Nothing),
            Event::FilePicked(FileOutcome::Cancelled) => (State::KeySelection, f, Action::Nothing),
            Event::FilePicked(FileOutcome::Failed) => (
                State::WalletError(ErrorReturn::ImportMnemonicInteractive),
                f,
                Action::Nothing,
            ),
            _ => (s, f, Action::Nothing),
        },
        State::WalletFileSecret => match e {
            Event::Back => (State::ImportMnemonicInteractive, f, Action::Nothing),
            Event::Continue => (State::DecryptWalletFile, f, Action::Nothing),
            Event::Cancel => (State::Start, f, Action::Leave),
            _ => (s, f, Action::Nothing),
        },
        State::DecryptWalletFile => match e {
            Event::Decrypted(DecryptOutcome::Legacy) => (
                State::WalletName,
                Flags { word_count: WordCount::Words12, import_legacy: true, import_with_bip39_passphrase: false, ..f },
                Action::Nothing,
            ),
            Event::Decrypted(DecryptOutcome::Core(n)) => if n == 12 || n == 24 {
                (
                    State::WalletName,
                    Flags {
                        word_count: if n == 12 { WordCount::Words12 } else { WordCount::Words24 },
                        import_legacy: false,
                        import_with_bip39_passphrase: false,
                        ..f
                    },
                    Action::Nothing,
                )
            } else {
                (State::WalletError(ErrorReturn::ImportMnemonicInteractive), f, Action::Nothing)
            },
            Event::Decrypted(DecryptOutcome::Failed) => (
                State::WalletError(ErrorReturn::WalletFileSecret),
                f,
                Action::Nothing,
            ),
            _ => (s, f, Action::Nothing),
        },
        State::ImportWallet => match e {
            Event::Finished { ok } => if ok {
                (State::Finish, zeroized(f), Action::AccountsCreated)
            } else {
                (State::WalletError(ErrorReturn::Start), f, Action::Nothing)
            },
            _ => (s, f, Action::Nothing),
        },
        State::CreateWalletConfirm => (State::CreateWallet, f, Action::Nothing),
        State::CreateWallet => match e {
            Event::Finished { ok } => if ok {
                (State::PresentMnemonic, zeroized(f), Action::AccountsCreated)
            } else {
                (State::WalletError(ErrorReturn::Start), f, Action::Nothing)
            },
            _ => (s, f, Action::Nothing),
        },
        State::WalletError(b) => match e {
            Event::Continue => (return_state(b), f, Action::Nothing),
            _ => (s, f, Action::Nothing),
        },
        State::PresentMnemonic => match e {
            Event::Continue => (State::Finish, f, Action::Nothing),
            _ => (s, f, Action::Nothing),
        },
        State::ConfirmMnemonic => match e {
            Event::Back => (State::PresentMnemonic, f, Action::Nothing),
            Event::Continue => (State::Finish, f, Action::Nothing),
            _ => (s, f, Action::Nothing),
        },
        State::Finish => match e {
            Event::Continue => (State::Start, f, Action::OpenAccounts),
            _ => (s, f, Action::Nothing),
        },
    }
}

fn zeroize_flags(f: Flags) -> (r: Flags)
    ensures
        r == zeroized(f),
{
    Flags {
        import_private_key: false,
        import_legacy: false,
        import_with_bip39_passphrase: false,
        payment_secret_submitted: false,
        ..f
    }
}

fn route(f: Flags) -> (r: State)
    ensures
        r == route_after_payment_secret(f),
{
    if f.import_private_key_file {
        State::ImportWallet
    } else if f.import_private_key {
        State::ImportMnemonic
    } else {
        State::CreateWalletConfirm
    }
}

impl WalletCreate {
    /// The mnemonic-import page: the verdict it shows on the field, and
    /// whether it moves on, which it does on Enter or on its Continue button
    /// (enabled only then) when the words form a valid mnemonic.
    pub fn import_mnemonic(phrase: &str, word_count: WordCount, submitted: bool, continue_clicked: bool) -> (r: (MnemonicCheck, bool))
        ensures
            mnemonic_verdict(r.0, phrase@, word_count),
            r.1 == ((submitted || continue_clicked) && r.0 is Valid),
    {
        let check = check_mnemonic(phrase, word_count);
        let ok = matches!(check, MnemonicCheck::Valid);
        (check, (submitted || continue_clicked) && ok)
    }

    /// Applies a choice of the import-selection page to the word count and
    /// the legacy and BIP39 passphrase choices.
    pub fn import_selection(word_count: WordCount, import_legacy: bool, bip39: bool, pick: ImportPick) -> (r: ImportChoice)
        ensures
            r == import_choice(word_count, import_legacy, bip39, pick),
    {
        let bip39 = if import_legacy { false } else { bip39 };
        match pick {
            ImportPick::Words(wc) => ImportChoice { word_count: wc, import_legacy: false, import_with_bip39_passphrase: bip39, submitted: true },
            ImportPick::Legacy => if !bip39 {
                ImportChoice { word_count: WordCount::Words12, import_legacy: true, import_with_bip39_passphrase: false, submitted: true }
            } else {
                ImportChoice { word_count, import_legacy, import_with_bip39_passphrase: bip39, submitted: false }
            },
            ImportPick::ToggleBip39Passphrase => if !import_legacy {
                ImportChoice { word_count, import_legacy, import_with_bip39_passphrase: !bip39, submitted: false }
            } else {
                ImportChoice { word_count, import_legacy, import_with_bip39_passphrase: bip39, submitted: false }
            },
            ImportPick::Nothing => ImportChoice { word_count, import_legacy, import_with_bip39_passphrase: bip39, submitted: false },
        }
    }
}

/// The next page, choices and action after an event on a page without text
/// fields (those with text fields stay as they are here).
pub fn step(s: State, f: Flags, e: Event) -> (r: (State, Flags, Action))
    ensures
        r == flow_next(s, f, e),
{
    match s {
        State::Start => match e {
            Event::Continue => (State::KeySelection, f, Action::Nothing),
            Event::Back => (State::Start, zeroize_flags(f), Action::Leave),
            _ => (s, f, Action::Nothing),
        },
        State::KeySelection => {
            let f0 = Flags {
                import_with_bip39_passphrase: false,
                import_legacy: false,
                import_private_key: false,
                import_private_key_file: false,
                ..f
            };
            match e {
                Event::Back => (State::Start, f0, Action::Nothing),
                Event::SelectWordCount(wc) => (State::WalletName, Flags { word_count: wc, ..f0 }, Action::Nothing),
                Event::ImportExisting => (State::ImportSelection, f0, Action::Nothing),
                Event::ImportFile => (State::ImportMnemonicInteractive, Flags { import_private_key_file: true, ..f0 }, Action::Nothing),
                _ => (s, f0, Action::Nothing),
            }
        },
        State::ImportSelection => {
            let c = WalletCreate::import_selection(f.word_count, f.import_legacy, f.import_with_bip39_passphrase, import_pick(e));
            let f1 = Flags {
                word_count: c.word_count,
                import_legacy: c.import_legacy,
                import_with_bip39_passphrase: c.import_with_bip39_passphrase,
                ..f
            };
            if matches!(e, Event::Back) {
                (State::KeySelection, f1, Action::Nothing)
            } else if c.submitted {
                (State::WalletName, Flags { import_private_key: true, ..f1 }, Action::Nothing)
            } else {
                (s, f1, Action::Nothing)
            }
        },
        State::WalletName | State::AccountName | State::PhishingHint | State::WalletSecret | State::PaymentSecret => (s, f, Action::Nothing),
        State::ImportMnemonic => (State::ImportMnemonicWithEditor, f, Action::Nothing),
        State::ImportMnemonicWithEditor => match e {
            Event::Back => (State::KeySelection, f, Action::Nothing),
            Event::Continue => (State::ImportWallet, f, Action::Nothing),
            _ => (s, f, Action::Nothing),
        },
        State::ImportMnemonicInteractive => match e {
            Event::FilePicked(FileOutcome::Parsed) => (State::WalletFileSecret, f, Action::Nothing),
            Event::FilePicked(FileOutcome::Cancelled) => (State::KeySelection, f, Action::Nothing),
            Event::FilePicked(FileOutcome::Failed) => (
                State::WalletError(ErrorReturn::ImportMnemonicInteractive),
                f,
                Action::Nothing,
            ),
            _ => (s, f, Action::Nothing),
        },
        State::WalletFileSecret => match e {
            Event::Back => (State::ImportMnemonicInteractive, f, Action::Nothing),
            Event::Continue => (State::DecryptWalletFile, f, Action::Nothing),
            Event::Cancel => (State::Start, f, Action::Leave),
            _ => (s, f, Action::Nothing),
        },
        State::DecryptWalletFile => match e {
            Event::Decrypted(DecryptOutcome::Legacy) => (
                State::WalletName,
                Flags { word_count: WordCount::Words12, import_legacy: true, import_with_bip39_passphrase: false, ..f },
                Action::Nothing,
            ),
            Event::Decrypted(DecryptOutcome::Core(n)) => if n == 12 || n == 24 {
                (
                    State::WalletName,
                    Flags {
                        word_count: if n == 12 { WordCount::Words12 } else { WordCount::Words24 },
                        import_legacy: false,
                        import_with_bip39_passphrase: false,
                        ..f
                    },
                    Action::Nothing,
                )
            } else {
                (State::WalletError(ErrorReturn::ImportMnemonicInteractive), f, Action::Nothing)
            },
            Event::Decrypted(DecryptOutcome::Failed) => (
                State::WalletError(ErrorReturn::WalletFileSecret),
                f,
                Action::Nothing,
            ),
            _ => (s, f, Action::Nothing),
        },
        State::ImportWallet => match e {
            Event::Finished { ok } => if ok {
                (State::Finish, zeroize_flags(f), Action::AccountsCreated)
            } else {
                (State::WalletError(ErrorReturn::Start), f, Action::Nothing)
            },
            _ => (s, f, Action::Nothing),
        },
        State::CreateWalletConfirm => (State::CreateWallet, f, Action::Nothing),
        State::CreateWallet => match e {
            Event::Finished { ok } => if ok {
                (State::PresentMnemonic, zeroize_flags(f), Action::AccountsCreated)
            } else {
                (State::WalletError(ErrorReturn::Start), f, Action::Nothing)
            },
            _ => (s, f, Action::Nothing),
        },
        State::WalletError(b) => match e {
            Event::Continue => (
                match b {
                    ErrorReturn::Start => State::Start,
                    ErrorReturn::ImportMnemonicInteractive => State::ImportMnemonicInteractive,
                    ErrorReturn::WalletFileSecret => State::WalletFileSecret,
                },
                f,
                Action::Nothing,
            ),
            _ => (s, f, Action::Nothing),
        },
        State::PresentMnemonic => match e {
            Event::Continue => (State::Finish, f, Action::Nothing),
            _ => (s, f, Action::Nothing),
        },
        State::ConfirmMnemonic => match e {
            Event::Back => (State::PresentMnemonic, f, Action::Nothing),
            Event::Continue => (State::Finish, f, Action::Nothing),
            _ => (s, f, Action::Nothing),
        },
        State::Finish => match e {
            Event::Continue => (State::Start, f, Action::OpenAccounts),
            _ => (s, f, Action::Nothing),
        },
    }
}

/// The wallet-creation flow: the page it is on, the choices made, the
/// texts entered and, for each secret, whether its strength score is below
/// the accepted strength (`None` while nothing was scored).
pub struct WalletCreate {
    pub state: State,
    pub flags: Flags,
    pub wallet_name: String,
    pub wallet_filename: String,
    pub account_name: String,
    pub phishing_hint: String,
    pub wallet_secret: String,
    pub wallet_secret_confirm: String,
    pub payment_secret: String,
    pub payment_secret_confirm: String,
    pub wallet_secret_weak: Option<bool>,
    pub payment_secret_weak: Option<bool>,
    /// The mnemonic of the wallet just created, shown until the user moves on.
    pub mnemonic: String,
}

/// The flow as plain values.
pub struct CreateView {
    pub state: State,
    pub flags: Flags,
    pub wallet_name: Seq<char>,
    pub wallet_filename: Seq<char>,
    pub account_name: Seq<char>,
    pub phishing_hint: Seq<char>,
    pub wallet_secret: Seq<char>,
    pub wallet_secret_confirm: Seq<char>,
    pub payment_secret: Seq<char>,
    pub payment_secret_confirm: Seq<char>,
    pub wallet_secret_weak: Option<bool>,
    pub payment_secret_weak: Option<bool>,
    pub mnemonic: Seq<char>,
}

impl View for WalletCreate {
    type V = CreateView;

    open spec fn view(&self) -> CreateView {
        CreateView {
            state: self.state,
            flags: self.flags,
            wallet_name: self.wallet_name@,
            wallet_filename: self.wallet_filename@,
            account_name: self.account_name@,
            phishing_hint: self.phishing_hint@,
            wallet_secret: self.wallet_secret@,
            wallet_secret_confirm: self.wallet_secret_confirm@,
            payment_secret: self.payment_secret@,
            payment_secret_confirm: self.payment_secret_confirm@,
            wallet_secret_weak: self.wallet_secret_weak,
            payment_secret_weak: self.payment_secret_weak,
            mnemonic: self.mnemonic@,
        }
    }
}

/// The flow on its first page, with nothing chosen, entered or scored.
pub open spec fn initial_view() -> CreateView {
    CreateView {
        state: State::Start,
        flags: default_flags(),
        wallet_name: Seq::empty(),
        wallet_filename: Seq::empty(),
        account_name: Seq::empty(),
        phishing_hint: Seq::empty(),
        wallet_secret: Seq::empty(),
        wallet_secret_confirm: Seq::empty(),
        payment_secret: Seq::empty(),
        payment_secret_confirm: Seq::empty(),
        wallet_secret_weak: None,
        payment_secret_weak: None,
        mnemonic: Seq::empty(),
    }
}

/// The flow with every entered text wiped.
pub open spec fn texts_wiped(v: CreateView) -> CreateView {
    CreateView {
        wallet_name: Seq::empty(),
        wallet_filename: Seq::empty(),
        account_name: Seq::empty(),
        phishing_hint: Seq::empty(),
        wallet_secret: Seq::empty(),
        wallet_secret_confirm: Seq::empty(),
        payment_secret: Seq::empty(),
        payment_secret_confirm: Seq::empty(),
        ..v
    }
}

/// Whether an event on a page without text fields wipes the entered texts:
/// leaving the flow from its first page, and a wallet made or imported.
pub open spec fn wipes_texts(s: State, e: Event) -> bool {
    (s == State::Start && e is Back)
        || ((s == State::ImportWallet || s == State::CreateWallet) && e == (Event::Finished { ok: true }))
}

/// Whether the strength score keeps a Continue button disabled: the rule
/// applies and no score at or above the accepted strength was computed.
pub open spec fn blocks_button(weak: Option<bool>, restrictions_disabled: bool) -> bool {
    !restrictions_disabled && weak != Some(false)
}

/// Whether the strength score cancels an Enter: the rule applies and the
/// computed score is below the accepted strength.
pub open spec fn blocks_enter(weak: Option<bool>, restrictions_disabled: bool) -> bool {
    !restrictions_disabled && weak == Some(true)
}

/// A secret that is entered and confirmed identically.
pub open spec fn confirmed(secret: Seq<char>, confirm: Seq<char>) -> bool {
    secret.len() > 0 && secret == confirm
}

/// Whether Enter in a field of the password page moves on: in the password
/// field once a confirmation is entered, in the confirmation field once a
/// password is entered; not when the score is too weak and the rule applies,
/// nor when an entered confirmation differs from the password.
pub open spec fn wallet_secret_submits(v: CreateView, env: Env, field: Field) -> bool {
    let asked = match field {
        Field::WalletSecret => v.wallet_secret_confirm.len() > 0,
        Field::WalletSecretConfirm => v.wallet_secret.len() > 0,
        _ => false,
    };
    &&& asked
    &&& !blocks_enter(v.wallet_secret_weak, env.restrictions_disabled)
    &&& !(v.wallet_secret_confirm.len() > 0 && v.wallet_secret != v.wallet_secret_confirm)
}

/// Whether the password page moves on after an event: its Continue button,
/// enabled for a confirmed password whose score does not keep it disabled,
/// or Enter by the rule above.
pub open spec fn wallet_secret_accepts(v: CreateView, env: Env, e: Event) -> bool {
    match e {
        Event::Continue => confirmed(v.wallet_secret, v.wallet_secret_confirm)
            && !blocks_button(v.wallet_secret_weak, env.restrictions_disabled),
        Event::Submit(field) => wallet_secret_submits(v, env, field),
        _ => false,
    }
}

/// Whether the payment-secret page shows the passphrase editor: enabled by
/// the user, or needed by the imported mnemonic.
pub open spec fn editing_payment_secret(f: Flags) -> bool {
    f.enable_payment_secret || f.import_with_bip39_passphrase
}

/// The payment-secret page's own handling of an event, before the pass-on
/// rule: the flow it leaves, and whether it moves on. Enter in the
/// passphrase field moves the focus to the confirmation while a passphrase
/// is entered and submits otherwise; Enter in the confirmation submits. A
/// submission is cancelled by a weak score while the rule applies and by a
/// confirmation that differs from an entered passphrase; an empty one asks
/// for the passphrase. Continue needs a confirmed passphrase whose score
/// does not keep the button disabled; Skip, shown without the editor,
/// wipes the passphrase.
pub open spec fn payment_secret_panel(v: CreateView, env: Env, e: Event) -> (CreateView, bool) {
    let f = v.flags;
    let editing = editing_payment_secret(f);
    match e {
        Event::Back => (CreateView { state: State::WalletSecret, ..v }, false),
        Event::TogglePaymentSecret => if !f.import_with_bip39_passphrase {
            (CreateView { flags: Flags { enable_payment_secret: !f.enable_payment_secret, payment_secret_submitted: false, ..f }, ..v }, false)
        } else {
            (v, false)
        },
        Event::Submit(field) => {
            let submit = match field {
                Field::PaymentSecret => v.payment_secret.len() == 0,
                Field::PaymentSecretConfirm => true,
                _ => false,
            };
            if !editing || !submit || blocks_enter(v.payment_secret_weak, env.restrictions_disabled)
                || (v.payment_secret.len() > 0 && v.payment_secret != v.payment_secret_confirm) {
                (v, false)
            } else if v.payment_secret.len() == 0 {
                (CreateView { flags: Flags { payment_secret_submitted: true, ..f }, ..v }, false)
            } else if f.import_with_bip39_passphrase {
                (v, true)
            } else {
                (CreateView { state: State::CreateWalletConfirm, ..v }, false)
            }
        },
        Event::Continue => (v, editing && confirmed(v.payment_secret, v.payment_secret_confirm)
            && !blocks_button(v.payment_secret_weak, env.restrictions_disabled)),
        Event::Skip => if !editing {
            (CreateView { payment_secret: Seq::empty(), ..v }, true)
        } else {
            (v, false)
        },
        _ => (v, false),
    }
}

/// A score verdict kept for a text: `weak` once there is a text to score.
pub open spec fn scored(subject: Option<Seq<char>>, weak: bool) -> Option<bool> {
    if subject is Some { Some(weak) } else { None }
}

/// Whether the passphrase editor is on screen.
pub open spec fn payment_editor_shown(v: CreateView) -> bool {
    v.state == State::PaymentSecret && !v.flags.import_legacy && editing_payment_secret(v.flags)
}

/// The flow after the user changed a field to `text`, where `weak` says
/// whether the text a secret is judged on (`score_subject`) scores below
/// the accepted strength. Only fields on screen change. A new wallet name
/// gives the file name `slug` makes of it; a new first secret is scored;
/// a new passphrase also withdraws an empty submission.
pub open spec fn edited(v: CreateView, field: Field, text: Seq<char>, weak: bool) -> CreateView {
    match field {
        Field::WalletName => if v.state == State::WalletName {
            CreateView { wallet_name: text, wallet_filename: slug_of(text), ..v }
        } else {
            v
        },
        Field::AccountName => if v.state == State::AccountName { CreateView { account_name: text, ..v } } else { v },
        Field::PhishingHint => if v.state == State::PhishingHint { CreateView { phishing_hint: text, ..v } } else { v },
        Field::WalletSecret => if v.state == State::WalletSecret {
            CreateView {
                wallet_secret: text,
                wallet_secret_weak: scored(score_subject(text, v.wallet_secret_confirm), weak),
                ..v
            }
        } else {
            v
        },
        Field::WalletSecretConfirm => if v.state == State::WalletSecret {
            CreateView { wallet_secret_confirm: text, ..v }
        } else {
            v
        },
        Field::PaymentSecret => if payment_editor_shown(v) {
            CreateView {
                payment_secret: text,
                payment_secret_weak: scored(score_subject(text, v.payment_secret_confirm), weak),
                flags: Flags { payment_secret_submitted: false, ..v.flags },
                ..v
            }
        } else {
            v
        },
        Field::PaymentSecretConfirm => if payment_editor_shown(v) {
            CreateView { payment_secret_confirm: text, ..v }
        } else {
            v
        },
    }
}

/// The flow and the action after an event. The wallet-name page moves on by
/// Continue with a name whose file is free, or by Enter with any name; the
/// account-name and hint pages always move on; the password and payment
/// pages follow the rules above; the other pages follow `flow_next`, the
/// texts being wiped as `wipes_texts` says.
pub open spec fn next(v: CreateView, env: Env, e: Event) -> (CreateView, Action) {
    match v.state {
        State::WalletName => match e {
            Event::Back => (CreateView { state: State::KeySelection, ..v }, Action::Nothing),
            Event::Continue => if v.wallet_name.len() > 0 && !env.wallet_exists {
                (CreateView { state: State::AccountName, ..v }, Action::Nothing)
            } else {
                (v, Action::Nothing)
            },
            Event::Submit(Field::WalletName) => if v.wallet_name.len() > 0 {
                (CreateView { state: State::AccountName, ..v }, Action::Nothing)
            } else {
                (v, Action::Nothing)
            },
            _ => (v, Action::Nothing),
        },
        State::AccountName => match e {
            Event::Back => (CreateView { state: State::WalletName, ..v }, Action::Nothing),
            Event::Continue | Event::Submit(Field::AccountName) => (CreateView { state: State::PhishingHint, ..v }, Action::Nothing),
            _ => (v, Action::Nothing),
        },
        State::PhishingHint => match e {
            Event::Back => (CreateView { state: State::AccountName, ..v }, Action::Nothing),
            Event::Continue | Event::Submit(Field::PhishingHint) => (CreateView { state: State::WalletSecret, ..v }, Action::Nothing),
            _ => (v, Action::Nothing),
        },
        State::WalletSecret => if e is Back {
            (CreateView { state: State::PhishingHint, ..v }, Action::Nothing)
        } else if wallet_secret_accepts(v, env, e) {
            (CreateView { state: State::PaymentSecret, ..v }, Action::Nothing)
        } else {
            (v, Action::Nothing)
        },
        State::PaymentSecret => {
            let (v1, moves_on) = if v.flags.import_legacy { (v, false) } else { payment_secret_panel(v, env, e) };
            if skips_payment_secret(v.flags) || moves_on {
                (CreateView { state: route_after_payment_secret(v1.flags), ..v1 }, Action::Nothing)
            } else {
                (v1, Action::Nothing)
            }
        },
        _ => {
            let (s1, f1, a) = flow_next(v.state, v.flags, e);
            let v1 = if wipes_texts(v.state, e) { texts_wiped(v) } else { v };
            let v2 = if v.state == State::PresentMnemonic && e is Continue {
                CreateView { mnemonic: Seq::empty(), ..v1 }
            } else {
                v1
            };
            (CreateView { state: s1, flags: f1, ..v2 }, a)
        },
    }
}

/// The flow after creating or importing the wallet finished with `result`:
/// as `next` with `Finished`, a created wallet's mnemonic being kept to be
/// shown.
pub open spec fn finished(v: CreateView, env: Env, result: Option<Seq<char>>) -> (CreateView, Action) {
    let (v1, a) = next(v, env, Event::Finished { ok: result is Some });
    match result {
        Some(m) => if v.state == State::CreateWallet { (CreateView { mnemonic: m, ..v1 }, a) } else { (v1, a) },
        None => (v1, a),
    }
}

fn is_filled(t: &String) -> (r: bool)
    ensures
        r == (t@.len() > 0),
{
    t.as_str().unicode_len() > 0
}

fn blocks_button_of(weak: Option<bool>, restrictions_disabled: bool) -> (r: bool)
    ensures
        r == blocks_button(weak, restrictions_disabled),
{
    match weak {
        Some(w) => w && !restrictions_disabled,
        None => !restrictions_disabled,
    }
}

impl WalletCreate {
    /// A flow on its first page with nothing chosen, entered or scored.
    pub fn new() -> (r: Self)
        ensures
            r@ == initial_view(),
    {
        WalletCreate {
            state: State::Start,
            flags: Flags::default(),
            wallet_name: String::new(),
            wallet_filename: String::new(),
            account_name: String::new(),
            phishing_hint: String::new(),
            wallet_secret: String::new(),
            wallet_secret_confirm: String::new(),
            payment_secret: String::new(),
            payment_secret_confirm: String::new(),
            wallet_secret_weak: None,
            payment_secret_weak: None,
            mnemonic: String::new(),
        }
    }

    /// Wipes every entered text.
    pub fn wipe_texts(&mut self)
        ensures
            final(self)@ == texts_wiped(old(self)@),
    {
        self.wallet_name = String::new();
        self.wallet_filename = String::new();
        self.account_name = String::new();
        self.phishing_hint = String::new();
        self.wallet_secret = String::new();
        self.wallet_secret_confirm = String::new();
        self.payment_secret = String::new();
        self.payment_secret_confirm = String::new();
    }

    /// Takes the user's change of a field to `text`; `weak` says whether the
    /// text a secret is judged on (see `score_subject`) scores below the
    /// accepted strength, and is read for the two first secret fields only.
    pub fn edit(&mut self, field: Field, text: String, weak: bool)
        ensures
            final(self)@ == edited(old(self)@, field, text@, weak),
    {
        let editor_shown = self.state == State::PaymentSecret && !self.flags.import_legacy
            && (self.flags.enable_payment_secret || self.flags.import_with_bip39_passphrase);
        match field {
            Field::WalletName => if self.state == State::WalletName {
                self.wallet_filename = slugify_text(text.as_str());
                self.wallet_name = text;
            },
            Field::AccountName => if self.state == State::AccountName {
                self.account_name = text;
            },
            Field::PhishingHint => if self.state == State::PhishingHint {
                self.phishing_hint = text;
            },
            Field::WalletSecret => if self.state == State::WalletSecret {
                let subject = is_filled(&text) || is_filled(&self.wallet_secret_confirm);
                self.wallet_secret_weak = if subject { Some(weak) } else { None };
                self.wallet_secret = text;
            },
            Field::WalletSecretConfirm => if self.state == State::WalletSecret {
                self.wallet_secret_confirm = text;
            },
            Field::PaymentSecret => if editor_shown {
                let subject = is_filled(&text) || is_filled(&self.payment_secret_confirm);
                self.payment_secret_weak = if subject { Some(weak) } else { None };
                self.flags = Flags { payment_secret_submitted: false, ..self.flags };
                self.payment_secret = text;
            },
            Field::PaymentSecretConfirm => if editor_shown {
                self.payment_secret_confirm = text;
            },
        }
    }

    fn payment_secret_page(&mut self, env: Env, e: Event) -> (r: bool)
        ensures
            (final(self)@, r) == payment_secret_panel(old(self)@, env, e),
    {
        let editing = self.flags.enable_payment_secret || self.flags.import_with_bip39_passphrase;
        match e {
            Event::Back => {
                self.state = State::WalletSecret;
                false
            },
            Event::TogglePaymentSecret => {
                if !self.flags.import_with_bip39_passphrase {
                    self.flags = Flags {
                        enable_payment_secret: !self.flags.enable_payment_secret,
                        payment_secret_submitted: false,
                        ..self.flags
                    };
                }
                false
            },
            Event::Submit(field) => {
                let empty = !is_filled(&self.payment_secret);
                let submit = match field {
                    Field::PaymentSecret => empty,
                    Field::PaymentSecretConfirm => true,
                    _ => false,
                };
                if !editing || !submit || !payment_secret_submit_holds(
                    &self.payment_secret,
                    &self.payment_secret_confirm,
                    self.payment_secret_weak,
                    env.restrictions_disabled,
                ) {
                    false
                } else if empty {
                    self.flags = Flags { payment_secret_submitted: true, ..self.flags };
                    false
                } else if self.flags.import_with_bip39_passphrase {
                    true
                } else {
                    self.state = State::CreateWalletConfirm;
                    false
                }
            },
            Event::Continue => {
                let blocked = blocks_button_of(self.payment_secret_weak, env.restrictions_disabled);
                payment_secret_ready(self.flags, &self.payment_secret, &self.payment_secret_confirm, blocked)
            },
            Event::Skip => {
                if !editing {
                    self.payment_secret = String::new();
                    true
                } else {
                    false
                }
            },
            _ => false,
        }
    }

    /// Moves the flow on after an event, and says what the application does
    /// besides.
    pub fn handle(&mut self, env: Env, event: Event) -> (r: Action)
        ensures
            (final(self)@, r) == next(old(self)@, env, event),
    {
        let s = self.state;
        match s {
            State::WalletName => {
                match event {
                    Event::Back => {
                        self.state = State::KeySelection;
                    },
                    Event::Continue => {
                        if is_filled(&self.wallet_name) && !env.wallet_exists {
                            self.state = State::AccountName;
                        }
                    },
                    Event::Submit(Field::WalletName) => {
                        if is_filled(&self.wallet_name) {
                            self.state = State::AccountName;
                        }
                    },
                    _ => {},
                }
                Action::Nothing
            },
            State::AccountName => {
                match event {
                    Event::Back => {
                        self.state = State::WalletName;
                    },
                    Event::Continue | Event::Submit(Field::AccountName) => {
                        self.state = State::PhishingHint;
                    },
                    _ => {},
                }
                Action::Nothing
            },
            State::PhishingHint => {
                match event {
                    Event::Back => {
                        self.state = State::AccountName;
                    },
                    Event::Continue | Event::Submit(Field::PhishingHint) => {
                        self.state = State::WalletSecret;
                    },
                    _ => {},
                }
                Action::Nothing
            },
            State::WalletSecret => {
                let accepted = match event {
                    Event::Continue => {
                        let blocked = blocks_button_of(self.wallet_secret_weak, env.restrictions_disabled);
                        wallet_secret_ready(&self.wallet_secret, &self.wallet_secret_confirm, blocked)
                    },
                    Event::Submit(field) => {
                        let asked = match field {
                            Field::WalletSecret => is_filled(&self.wallet_secret_confirm),
                            Field::WalletSecretConfirm => is_filled(&self.wallet_secret),
                            _ => false,
                        };
                        asked && wallet_secret_submit_holds(
                            &self.wallet_secret,
                            &self.wallet_secret_confirm,
                            self.wallet_secret_weak,
                            env.restrictions_disabled,
                        )
                    },
                    _ => false,
                };
                if matches!(event, Event::Back) {
                    self.state = State::PhishingHint;
                } else if accepted {
                    self.state = State::PaymentSecret;
                }
                Action::Nothing
            },
            State::PaymentSecret => {
                let skips = self.flags.import_legacy
                    || (self.flags.import_private_key && !self.flags.import_with_bip39_passphrase);
                let moves_on = if self.flags.import_legacy { false } else { self.payment_secret_page(env, event) };
                if skips || moves_on {
                    self.state = route(self.flags);
                }
                Action::Nothing
            },
            _ => {
                let wipe = (s == State::Start && matches!(event, Event::Back))
                    || ((s == State::ImportWallet || s == State::CreateWallet)
                        && matches!(event, Event::Finished { ok: true }));
                let (state, flags, action) = step(s, self.flags, event);
                if wipe {
                    self.wipe_texts();
                }
                if s == State::PresentMnemonic && matches!(event, Event::Continue) {
                    self.mnemonic = String::new();
                }
                self.state = state;
                self.flags = flags;
                action
            },
        }
    }

    /// Takes the end of creating or importing the wallet: the created
    /// wallet's mnemonic (or, for an import, any text) on success, `None` on
    /// failure.
    pub fn creation_finished(&mut self, env: Env, result: Option<String>) -> (r: Action)
        ensures
            (final(self)@, r) == finished(old(self)@, env, opt_text(result)),
    {
        let creating = self.state == State::CreateWallet;
        let ok = result.is_some();
        let action = self.handle(env, Event::Finished { ok });
        if creating {
            if let Some(m) = result {
                self.mnemonic = m;
            }
        }
        action
    }

    /// Whether a listed wallet already uses the flow's file name.
    pub fn wallet_exists(&self, existing_filenames: &Vec<String>) -> (r: bool)
        ensures
            r == (self.wallet_filename@.len() > 0 && listed(existing_filenames@, self.wallet_filename@)),
    {
        wallet_name_check_for_filename(false, self.wallet_filename.clone(), existing_filenames).exists
    }

    /// The texts the creation or import of the wallet is made of.
    pub fn texts(&self) -> (r: WalletTexts)
        ensures
            r.wallet_name@ == self.wallet_name@,
            r.wallet_filename@ == self.wallet_filename@,
            r.account_name@ == self.account_name@,
            r.phishing_hint@ == self.phishing_hint@,
            r.wallet_secret@ == self.wallet_secret@,
            r.payment_secret@ == self.payment_secret@,
    {
        WalletTexts {
            wallet_name: self.wallet_name.clone(),
            wallet_filename: self.wallet_filename.clone(),
            account_name: self.account_name.clone(),
            phishing_hint: self.phishing_hint.clone(),
            wallet_secret: self.wallet_secret.clone(),
            payment_secret: self.payment_secret.clone(),
        }
    }

    /// The heading of the error page: importing or creating.
    pub fn error_caption(&self) -> (r: &'static str)
        ensures
            r@ == if self.flags.import_private_key || self.flags.import_private_key_file {
                "Error importing a wallet"@
            } else {
                "Error creating a wallet"@
            },
    {
        if self.flags.import_private_key || self.flags.import_private_key_file {
            "Error importing a wallet"
        } else {
            "Error creating a wallet"
        }
    }
}

/// Whether the wallet-password page lets the user continue: the password
/// is entered, confirmed identically, and not refused as weak.
pub fn wallet_secret_ready(secret: &String, confirm: &String, is_weak: bool) -> (r: bool)
    ensures
        r == (secret@ == confirm@ && secret@.len() > 0 && !is_weak),
{
    *secret == *confirm && secret.as_str().unicode_len() > 0 && !is_weak
}

/// Whether the payment-secret page's Continue button is enabled: the
/// passphrase editor is shown, the passphrase is entered, confirmed
/// identically, and not refused as weak.
pub fn payment_secret_ready(f: Flags, secret: &String, confirm: &String, is_weak: bool) -> (r: bool)
    ensures
        r == ((f.enable_payment_secret || f.import_with_bip39_passphrase) && secret@ == confirm@
            && secret@.len() > 0 && !is_weak),
{
    (f.enable_payment_secret || f.import_with_bip39_passphrase) && *secret == *confirm
        && secret.as_str().unicode_len() > 0 && !is_weak
}

/// Whether Enter on the payment-secret page submits: not when the
/// passphrase was scored weak and restrictions apply, nor when an entered
/// passphrase differs from its confirmation.
pub fn payment_secret_submit_holds(secret: &String, confirm: &String, scored_weak: Option<bool>, restrictions_disabled: bool) -> (r: bool)
    ensures
        r == (!(scored_weak == Some(true) && !restrictions_disabled) && !(secret@.len() > 0 && secret@ != confirm@)),
{
    let weak_blocks = match scored_weak {
        Some(w) => w && !restrictions_disabled,
        None => false,
    };
    let mismatch = secret.as_str().unicode_len() > 0 && !(*secret == *confirm);
    !weak_blocks && !mismatch
}

/// Whether Enter on the password page submits: not when the password was
/// scored weak and restrictions apply, nor when an entered confirmation
/// differs from the password.
pub fn wallet_secret_submit_holds(secret: &String, confirm: &String, scored_weak: Option<bool>, restrictions_disabled: bool) -> (r: bool)
    ensures
        r == (!(scored_weak == Some(true) && !restrictions_disabled) && !(confirm@.len() > 0 && secret@ != confirm@)),
{
    let weak_blocks = match scored_weak {
        Some(w) => w && !restrictions_disabled,
        None => false,
    };
    let mismatch = confirm.as_str().unicode_len() > 0 && !(*secret == *confirm);
    !weak_blocks && !mismatch
}

/// What the wallet-creation pages collected as text.
pub struct WalletTexts {
    pub wallet_name: String,
    pub wallet_filename: String,
    pub account_name: String,
    pub phishing_hint: String,
    pub wallet_secret: String,
    pub payment_secret: String,
}

/// What the wallet is asked to create or import.
pub struct WalletPlan {
    /// The wallet's title, when one was entered.
    pub wallet_name: Option<String>,
    /// The wallet's file name, when there is one.
    pub wallet_filename: Option<String>,
    /// The anti-phishing hint, when enabled.
    pub phishing_hint: Option<String>,
    pub wallet_secret: String,
    /// The BIP39 passphrase, when one is used.
    pub payment_secret: Option<String>,
    /// The name of the first account, when one was entered.
    pub account_name: Option<String>,
}

/// A text when it is not empty.
pub open spec fn non_empty(t: Seq<char>) -> Option<Seq<char>> {
    if t.len() > 0 { Some(t) } else { None }
}

/// An optional string as plain text.
pub open spec fn opt_text(o: Option<String>) -> Option<Seq<char>> {
    match o {
        Some(s) => Some(s@),
        None => None,
    }
}

/// The request made of the collected texts when a passphrase is used
/// (`uses_passphrase`) and the hint is enabled as given, or the error that
/// stops it: an empty passphrase that is used, then an empty hint that is
/// enabled.
pub open spec fn plan_matches(r: Result<WalletPlan, String>, t: WalletTexts, uses_passphrase: bool, enable_phishing_hint: bool) -> bool {
    if uses_passphrase && t.payment_secret@.len() == 0 {
        r matches Err(m) && m@ == "Payment secret is empty"@
    } else if enable_phishing_hint && t.phishing_hint@.len() == 0 {
        r matches Err(m) && m@ == "Phishing hint is empty"@
    } else {
        r matches Ok(p) && {
            &&& opt_text(p.wallet_name) == non_empty(t.wallet_name@)
            &&& opt_text(p.wallet_filename) == non_empty(t.wallet_filename@)
            &&& opt_text(p.phishing_hint) == if enable_phishing_hint { Some(t.phishing_hint@) } else { None }
            &&& p.wallet_secret@ == t.wallet_secret@
            &&& opt_text(p.payment_secret) == if uses_passphrase { Some(t.payment_secret@) } else { None }
            &&& opt_text(p.account_name) == non_empty(t.account_name@)
        }
    }
}

fn some_if_filled(t: &String) -> (r: Option<String>)
    ensures
        opt_text(r) == non_empty(t@),
{
    if t.as_str().unicode_len() > 0 { Some(t.clone()) } else { None }
}

fn wallet_plan(t: &WalletTexts, uses_passphrase: bool, enable_phishing_hint: bool) -> (r: Result<WalletPlan, String>)
    ensures
        plan_matches(r, *t, uses_passphrase, enable_phishing_hint),
{
    if uses_passphrase && t.payment_secret.as_str().unicode_len() == 0 {
        return Err(owned("Payment secret is empty"));
    }
    if enable_phishing_hint && t.phishing_hint.as_str().unicode_len() == 0 {
        return Err(owned("Phishing hint is empty"));
    }
    Ok(WalletPlan {
        wallet_name: some_if_filled(&t.wallet_name),
        wallet_filename: some_if_filled(&t.wallet_filename),
        phishing_hint: if enable_phishing_hint { Some(t.phishing_hint.clone()) } else { None },
        wallet_secret: t.wallet_secret.clone(),
        payment_secret: if uses_passphrase { Some(t.payment_secret.clone()) } else { None },
        account_name: some_if_filled(&t.account_name),
    })
}

/// The request for a new wallet: the passphrase is used when the optional
/// BIP39 passphrase was enabled.
pub fn wallet_create_plan(t: &WalletTexts, f: Flags, enable_phishing_hint: bool) -> (r: Result<WalletPlan, String>)
    ensures
        plan_matches(r, *t, f.enable_payment_secret, enable_phishing_hint),
{
    wallet_plan(t, f.enable_payment_secret, enable_phishing_hint)
}

/// The request for an imported wallet: the passphrase is used when the
/// imported mnemonic is protected by one.
pub fn wallet_import_plan(t: &WalletTexts, f: Flags, enable_phishing_hint: bool) -> (r: Result<WalletPlan, String>)
    ensures
        plan_matches(r, *t, f.import_with_bip39_passphrase, enable_phishing_hint),
{
    wallet_plan(t, f.import_with_bip39_passphrase, enable_phishing_hint)
}

/// How many addresses per account the discovery of an imported mnemonic
/// looks at.
pub const DISCOVERY_ADDRESS_EXTENT: u32 = 32;
/// How many accounts the discovery of an imported mnemonic looks at.
pub const DISCOVERY_ACCOUNT_EXTENT: u32 = 16;

/// An account made for an imported mnemonic.
#[derive(Clone, Copy, Debug, PartialEq, Eq, Structural)]
pub enum AccountImport {
    Legacy,
    /// A BIP32 account at this account index.
    Bip32 { index: u64 },
}

/// The accounts made for an imported mnemonic once discovery found accounts
/// up to `last_index_found`: that many plus one, legacy ones for a legacy
/// import, else BIP32 ones at indexes 0, 1, ...
pub fn account_imports(last_index_found: u32, legacy: bool) -> (r: Vec<AccountImport>)
    ensures
        r@.len() == last_index_found + 1,
        forall|k: int| 0 <= k < r@.len() ==> #[trigger] r@[k] == if legacy { AccountImport::Legacy } else { AccountImport::Bip32 { index: k as u64 } },
{
    let n: u64 = last_index_found as u64 + 1;
    let mut r: Vec<AccountImport> = Vec::new();
    let mut k: u64 = 0;
    while k < n
        invariant
            n == last_index_found + 1,
            k <= n,
            r@.len() == k,
            forall|j: int| 0 <= j < k ==> #[trigger] r@[j] == if legacy { AccountImport::Legacy } else { AccountImport::Bip32 { index: j as u64 } },
        decreases n - k,
    {
        if legacy {
            r.push(AccountImport::Legacy);
        } else {
            r.push(AccountImport::Bip32 { index: k });
        }
        k = k + 1;
    }
    r
}

/// A wallet is never requested with an empty passphrase that is used, nor
/// with an empty hint that is enabled; when it is requested, the passphrase
/// is handed over exactly when it is used.
pub proof fn lemma_plan_refuses_empty_secrets(r: Result<WalletPlan, String>, t: WalletTexts, uses_passphrase: bool, enable_phishing_hint: bool)
    requires
        plan_matches(r, t, uses_passphrase, enable_phishing_hint),
        r is Ok,
    ensures
        uses_passphrase ==> t.payment_secret@.len() > 0,
        enable_phishing_hint ==> t.phishing_hint@.len() > 0,
        (opt_text(r->Ok_0.payment_secret) is Some) == uses_passphrase,
{
}

/// A legacy import never asks for a BIP39 passphrase: every event and every
/// edit keeps that so.
pub proof fn lemma_legacy_excludes_bip39(v: CreateView, env: Env, e: Event, field: Field, text: Seq<char>, weak: bool)
    requires
        v.flags.import_legacy ==> !v.flags.import_with_bip39_passphrase,
    ensures
        next(v, env, e).0.flags.import_legacy ==> !next(v, env, e).0.flags.import_with_bip39_passphrase,
        edited(v, field, text, weak).flags.import_legacy ==> !edited(v, field, text, weak).flags.import_with_bip39_passphrase,
{
}

/// A new wallet is only created on the creation path: entering the
/// creation page, the flow is not importing a key, and not importing a
/// file unless the passphrase was submitted with Enter.
pub proof fn lemma_create_only_when_not_importing(v: CreateView, env: Env, e: Event)
    requires
        v.state != State::CreateWalletConfirm,
        next(v, env, e).0.state == State::CreateWalletConfirm,
    ensures
        !next(v, env, e).0.flags.import_private_key,
        !(e is Submit) ==> !next(v, env, e).0.flags.import_private_key_file,
{
}

/// The password page is left forward only with an entered password whose
/// score does not cancel it and whose entered confirmation matches; by the
/// Continue button, only with a confirmed password whose score lets the
/// button be enabled. Nothing else changes on the way.
pub proof fn lemma_password_gate(v: CreateView, env: Env, e: Event)
    requires
        v.state == State::WalletSecret,
        next(v, env, e).0.state == State::PaymentSecret,
    ensures
        v.wallet_secret.len() > 0,
        !blocks_enter(v.wallet_secret_weak, env.restrictions_disabled),
        v.wallet_secret_confirm.len() > 0 ==> v.wallet_secret_confirm == v.wallet_secret,
        e is Continue ==> confirmed(v.wallet_secret, v.wallet_secret_confirm)
            && !blocks_button(v.wallet_secret_weak, env.restrictions_disabled),
        next(v, env, e) == (CreateView { state: State::PaymentSecret, ..v }, Action::Nothing),
{
}

/// When the passphrase editor is shown and the page does not pass straight
/// on, the page is left forward only with a confirmed passphrase whose score
/// does not cancel it; by the Continue button, only when the score lets the
/// button be enabled.
pub proof fn lemma_passphrase_gate(v: CreateView, env: Env, e: Event)
    requires
        v.state == State::PaymentSecret,
        editing_payment_secret(v.flags),
        !skips_payment_secret(v.flags),
        next(v, env, e).0.state != State::PaymentSecret,
        next(v, env, e).0.state != State::WalletSecret,
    ensures
        confirmed(v.payment_secret, v.payment_secret_confirm),
        !blocks_enter(v.payment_secret_weak, env.restrictions_disabled),
        e is Continue ==> !blocks_button(v.payment_secret_weak, env.restrictions_disabled),
        next(v, env, e).0.payment_secret == v.payment_secret,
{
}

/// Once a wallet is made or imported, and when the flow is left from its
/// first page, every entered text is wiped, with the import choices.
pub proof fn lemma_texts_wiped(v: CreateView, env: Env, e: Event)
    requires
        wipes_texts(v.state, e),
    ensures
        next(v, env, e).0.wallet_name.len() == 0,
        next(v, env, e).0.wallet_filename.len() == 0,
        next(v, env, e).0.account_name.len() == 0,
        next(v, env, e).0.phishing_hint.len() == 0,
        next(v, env, e).0.wallet_secret.len() == 0,
        next(v, env, e).0.wallet_secret_confirm.len() == 0,
        next(v, env, e).0.payment_secret.len() == 0,
        next(v, env, e).0.payment_secret_confirm.len() == 0,
        next(v, env, e).0.flags == zeroized(v.flags),
        v.state == State::CreateWallet ==> next(v, env, e).0.state == State::PresentMnemonic,
        v.state == State::ImportWallet ==> next(v, env, e).0.state == State::Finish,
        v.state == State::Start ==> next(v, env, e).1 == Action::Leave,
        v.state != State::Start ==> next(v, env, e).1 == Action::AccountsCreated,
{
}

/// A created wallet's mnemonic is shown once the accounts are handed to the
/// application, and wiped when the user moves on.
pub proof fn lemma_mnemonic_shown_then_wiped(v: CreateView, env: Env, m: Seq<char>)
    requires
        v.state == State::CreateWallet,
    ensures
        finished(v, env, Some(m)).0.state == State::PresentMnemonic,
        finished(v, env, Some(m)).0.mnemonic == m,
        finished(v, env, Some(m)).1 == Action::AccountsCreated,
        next(finished(v, env, Some(m)).0, env, Event::Continue).0.state == State::Finish,
        next(finished(v, env, Some(m)).0, env, Event::Continue).0.mnemonic.len() == 0,
        finished(v, env, None).0.state == State::WalletError(ErrorReturn::Start),
{
}

/// Continuing from a page of the form, when the page allows it, and then
/// going back returns to that page with everything as it was.
pub proof fn lemma_continue_then_back(v: CreateView, env: Env)
    requires
        (v.state == State::WalletName && v.wallet_name.len() > 0 && !env.wallet_exists)
            || v.state == State::AccountName
            || v.state == State::PhishingHint
            || (v.state == State::WalletSecret && !skips_payment_secret(v.flags)
                && confirmed(v.wallet_secret, v.wallet_secret_confirm)
                && !blocks_button(v.wallet_secret_weak, env.restrictions_disabled)),
    ensures
        next(next(v, env, Event::Continue).0, env, Event::Back).0 == v,
{
}

/// Every failure leads to the error page, whose Restart leads back to a
/// page from which the step can be tried again.
pub proof fn lemma_error_restarts(b: ErrorReturn, f: Flags)
    ensures
        flow_next(State::WalletError(b), f, Event::Continue) == (return_state(b), f, Action::Nothing),
        flow_next(State::ImportWallet, f, Event::Finished { ok: false }).0 == State::WalletError(ErrorReturn::Start),
        flow_next(State::CreateWallet, f, Event::Finished { ok: false }).0 == State::WalletError(ErrorReturn::Start),
        flow_next(State::DecryptWalletFile, f, Event::Decrypted(DecryptOutcome::Failed)).0 == State::WalletError(ErrorReturn::WalletFileSecret),
{
}

/// A decrypted wallet file of the legacy kind is imported as a legacy
/// 12-word wallet without BIP39 passphrase, so the payment-secret page
/// passes straight on; a Kaspa Core file of 12 or 24 words is imported as a
/// non-legacy wallet of that many words. Either way the flow goes on to the
/// wallet name and keeps importing the file.
pub proof fn lemma_decrypted_file_kind(f: Flags, n: usize)
    ensures
        flow_next(State::DecryptWalletFile, f, Event::Decrypted(DecryptOutcome::Legacy)).0 == State::WalletName,
        flow_next(State::DecryptWalletFile, f, Event::Decrypted(DecryptOutcome::Legacy)).1.import_legacy,
        flow_next(State::DecryptWalletFile, f, Event::Decrypted(DecryptOutcome::Legacy)).1.word_count == WordCount::Words12,
        !flow_next(State::DecryptWalletFile, f, Event::Decrypted(DecryptOutcome::Legacy)).1.import_with_bip39_passphrase,
        skips_payment_secret(flow_next(State::DecryptWalletFile, f, Event::Decrypted(DecryptOutcome::Legacy)).1),
        flow_next(State::DecryptWalletFile, f, Event::Decrypted(DecryptOutcome::Legacy)).1.import_private_key_file
            == f.import_private_key_file,
        (n == 12 || n == 24) ==> {
            let (s1, f1, _) = flow_next(State::DecryptWalletFile, f, Event::Decrypted(DecryptOutcome::Core(n)));
            &&& s1 == State::WalletName
            &&& !f1.import_legacy
            &&& (f1.word_count == WordCount::Words12) == (n == 12)
            &&& f1.import_private_key_file == f.import_private_key_file
        },
{
}

/// The key-selection page: choosing a word count starts a new wallet of that
/// many words, importing a file starts the file import, and importing an
/// existing key opens the import choices; each clears every earlier import
/// choice, and Back returns to the start.
pub proof fn lemma_key_selection(f: Flags, wc: WordCount)
    ensures
        flow_next(State::KeySelection, f, Event::SelectWordCount(wc)).0 == State::WalletName,
        flow_next(State::KeySelection, f, Event::SelectWordCount(wc)).1.word_count == wc,
        !flow_next(State::KeySelection, f, Event::SelectWordCount(wc)).1.import_private_key,
        !flow_next(State::KeySelection, f, Event::SelectWordCount(wc)).1.import_private_key_file,
        !flow_next(State::KeySelection, f, Event::SelectWordCount(wc)).1.import_legacy,
        !flow_next(State::KeySelection, f, Event::SelectWordCount(wc)).1.import_with_bip39_passphrase,
        flow_next(State::KeySelection, f, Event::ImportFile).0 == State::ImportMnemonicInteractive,
        flow_next(State::KeySelection, f, Event::ImportFile).1.import_private_key_file,
        !flow_next(State::KeySelection, f, Event::ImportFile).1.import_private_key,
        !flow_next(State::KeySelection, f, Event::ImportFile).1.import_legacy,
        flow_next(State::KeySelection, f, Event::ImportExisting).0 == State::ImportSelection,
        !flow_next(State::KeySelection, f, Event::ImportExisting).1.import_private_key_file,
        flow_next(State::KeySelection, f, Event::Back).0 == State::Start,
{
}

/// Picking a wallet file: a parsed file asks for its password, a cancelled
/// pick returns to the key selection, a file that cannot be read shows the
/// error page that returns to the pick; the password page goes on to the
/// decryption, and its Cancel leaves the flow.
pub proof fn lemma_file_import_pages(f: Flags)
    ensures
        flow_next(State::ImportMnemonicInteractive, f, Event::FilePicked(FileOutcome::Parsed)) == (State::WalletFileSecret, f, Action::Nothing),
        flow_next(State::ImportMnemonicInteractive, f, Event::FilePicked(FileOutcome::Cancelled)) == (State::KeySelection, f, Action::Nothing),
        flow_next(State::ImportMnemonicInteractive, f, Event::FilePicked(FileOutcome::Failed)).0
            == State::WalletError(ErrorReturn::ImportMnemonicInteractive),
        flow_next(State::WalletFileSecret, f, Event::Continue) == (State::DecryptWalletFile, f, Action::Nothing),
        flow_next(State::WalletFileSecret, f, Event::Cancel).2 == Action::Leave,
{
}

} // verus!

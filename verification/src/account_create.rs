use vstd::prelude::*;
use crate::text::{trim_end, trim_start, trimmed};
use crate::wallet_create::{import_choice, ImportPick, WalletCreate, WordCount};

verus! {

/// The kinds of accounts that can be added to a wallet.
#[derive(Clone, Copy, Debug, PartialEq, Eq, Structural)]
pub enum CreateAccountKind {
    Bip44,
    Bip32,
    Legacy,
    MultiSig,
    Keypair,
}

/// A private key of the wallet that accounts can be derived from: its id
/// and whether it is protected by a BIP39 passphrase.
#[derive(Clone, Copy, Debug, PartialEq, Eq, Structural)]
pub struct KeyChoice {
    pub id: u64,
    pub requires_bip39_passphrase: bool,
}

/// What the key list reads of an account: whether it is a BIP32 account,
/// and the private key it uses when it uses exactly one.
#[derive(Clone, Copy, Debug, PartialEq, Eq, Structural)]
pub struct AccountKeyRef {
    pub is_bip32: bool,
    pub single_key: Option<u64>,
}

/// Whether an account of the list uses the private key `id`.
pub open spec fn derives_from(accounts: Seq<AccountKeyRef>, id: u64) -> bool {
    exists|i: int| 0 <= i < accounts.len() && #[trigger] accounts[i].is_bip32 && accounts[i].single_key == Some(id)
}

/// Whether the key list holds a key with the id.
pub open spec fn has_key_id(keys: Seq<KeyChoice>, id: u64) -> bool {
    exists|i: int| 0 <= i < keys.len() && #[trigger] keys[i].id == id
}

/// No two keys of the list share an id.
pub open spec fn distinct_ids(keys: Seq<KeyChoice>) -> bool {
    forall|i: int, j: int| 0 <= i < j < keys.len() ==> #[trigger] keys[i].id != #[trigger] keys[j].id
}

/// The private keys that new accounts can be derived from: the known keys
/// used alone by a BIP32 account, each once.
pub fn bip32_private_keys(accounts: &Vec<AccountKeyRef>, known: &Vec<KeyChoice>) -> (r: Vec<KeyChoice>)
    requires
        distinct_ids(known@),
    ensures
        distinct_ids(r@),
        forall|i: int| 0 <= i < r@.len() ==> known@.contains(#[trigger] r@[i]) && derives_from(accounts@, r@[i].id),
        forall|id: u64| derives_from(accounts@, id) && has_key_id(known@, id) ==> has_key_id(r@, id),
{
    let mut r: Vec<KeyChoice> = Vec::new();
    let mut a: usize = 0;
    while a < accounts.len()
        invariant
            a <= accounts@.len(),
            distinct_ids(known@),
            distinct_ids(r@),
            forall|i: int| 0 <= i < r@.len() ==> known@.contains(#[trigger] r@[i]) && derives_from(accounts@, r@[i].id),
            forall|id: u64|
                (exists|i: int| 0 <= i < a && #[trigger] accounts@[i].is_bip32 && accounts@[i].single_key == Some(id))
                    && has_key_id(known@, id) ==> has_key_id(r@, id),
        decreases accounts@.len() - a,
    {
        let account = accounts[a];
        if account.is_bip32 {
            if let Some(id) = account.single_key {
                proof {
                    assert(accounts@[a as int].is_bip32 && accounts@[a as int].single_key == Some(id));
                }
                let mut k: usize = 0;
                let mut found: Option<KeyChoice> = None;
                while k < known.len()
                    invariant
                        k <= known@.len(),
                        match found {
                            Some(key) => known@.contains(key) && key.id == id,
                            None => forall|i: int| 0 <= i < k ==> #[trigger] known@[i].id != id,
                        },
                    decreases known@.len() - k,
                {
                    if found.is_none() && known[k].id == id {
                        found = Some(known[k]);
                        proof { assert(known@[k as int] == known[k as int]); }
                    }
                    k = k + 1;
                }
                if let Some(key) = found {
                    let mut present = false;
                    let mut m: usize = 0;
                    while m < r.len()
                        invariant
                            m <= r@.len(),
                            present == exists|i: int| 0 <= i < m && #[trigger] r@[i].id == id,
                        decreases r@.len() - m,
                    {
                        if r[m].id == id {
                            present = true;
                        }
                        m = m + 1;
                    }
                    if !present {
                        let ghost before = r@;
                        r.push(key);
                        proof {
                            assert(r@[before.len() as int] == key);
                            assert forall|i: int, j: int| 0 <= i < j < r@.len() implies #[trigger] r@[i].id != #[trigger] r@[j].id by {
                                if j == before.len() {
                                    assert(before[i] == r@[i]);
                                }
                            }
                            assert forall|x: u64| has_key_id(before, x) implies has_key_id(r@, x) by {
                                let w = choose|i: int| 0 <= i < before.len() && #[trigger] before[i].id == x;
                                assert(r@[w] == before[w]);
                            }
                        }
                    }
                    proof {
                        assert(has_key_id(r@, id)) by {
                            if present {
                                let w = choose|i: int| 0 <= i < m && #[trigger] r@[i].id == id;
                                assert(r@[w].id == id);
                            } else {
                                assert(r@[r@.len() - 1].id == id);
                            }
                        }
                    }
                }
            }
        }
        a = a + 1;
    }
    r
}

/// The pages of the add-account flow.
#[derive(Clone, Copy, Debug, PartialEq, Eq, Structural)]
pub enum State {
    Start,
    KeySelection,
    StartImport,
    ImportMnemonic,
    ImportMnemonicWithEditor,
    PrivateKeyCreate,
    PrivateKeyConfirm,
    AccountName,
    WalletSecret,
    PaymentSecret,
    AddAccount,
    AccountError,
}

/// The choices made along the add-account flow.
#[derive(Clone, Copy, Debug, PartialEq, Eq, Structural)]
pub struct Choices {
    pub account_kind: Option<CreateAccountKind>,
    /// The private key the account is derived from.
    pub key: Option<KeyChoice>,
    pub word_count: WordCount,
    /// Whether the account comes from an imported mnemonic.
    pub import_mnemonic: bool,
    pub import_legacy: bool,
    pub import_with_bip39_passphrase: bool,
}

/// The choices of a fresh flow: nothing chosen, 12 words.
pub open spec fn default_choices() -> Choices {
    Choices {
        account_kind: None,
        key: None,
        word_count: WordCount::Words12,
        import_mnemonic: false,
        import_legacy: false,
        import_with_bip39_passphrase: false,
    }
}

/// The text fields of the flow.
#[derive(Clone, Copy, Debug, PartialEq, Eq, Structural)]
pub enum Field {
    AccountName,
    WalletSecret,
    PaymentSecret,
    Mnemonic,
}

/// What happens on a page of the flow.
#[derive(Clone, Copy, Debug, PartialEq, Eq, Structural)]
pub enum Event {
    /// A render pass without user action.
    Frame,
    Back,
    /// The start page's Create Account button.
    CreateAccount,
    /// The start page's Import Account button.
    ImportAccount,
    /// The key at this position of the key list was chosen.
    SelectKey(usize),
    /// A choice on the import-selection page.
    Pick(ImportPick),
    /// The page's Continue button.
    Continue,
    /// Enter in the page's text field.
    Submit,
    /// Adding the account finished; whether it succeeded.
    Finished { ok: bool },
}

/// Where the account's private key comes from.
pub enum KeySource {
    /// A new private key made of the imported mnemonic.
    Import { mnemonic: String },
    /// An existing private key of the wallet.
    Existing { id: u64 },
}

/// What the wallet is asked to do to add the account.
pub struct CreatePlan {
    /// The trimmed account name, when it is not empty.
    pub account_name: Option<String>,
    pub wallet_secret: String,
    /// The BIP39 passphrase, when the key needs one.
    pub payment_secret: Option<String>,
    pub source: KeySource,
    /// Whether a legacy account is made (else a BIP32 one).
    pub legacy: bool,
}

/// What the application does besides changing the page.
pub enum Outcome {
    Nothing,
    /// Leave the flow for the previous module.
    Leave,
    /// Ask the wallet to add an account as planned.
    Create(CreatePlan),
    /// The account was added: take it in and open the account manager.
    Created,
}

/// The add-account flow.
pub struct AccountCreate {
    pub state: State,
    pub choices: Choices,
    /// The private keys offered for derivation.
    pub keys: Vec<KeyChoice>,
    pub account_name: String,
    pub wallet_secret: String,
    pub payment_secret: String,
    pub mnemonic: String,
    /// Whether the wallet was asked to add the account and has not answered.
    pub in_flight: bool,
}

/// The flow as plain values.
pub struct FlowView {
    pub state: State,
    pub choices: Choices,
    pub keys: Seq<KeyChoice>,
    pub account_name: Seq<char>,
    pub wallet_secret: Seq<char>,
    pub payment_secret: Seq<char>,
    pub mnemonic: Seq<char>,
    pub in_flight: bool,
}

impl View for AccountCreate {
    type V = FlowView;

    open spec fn view(&self) -> FlowView {
        FlowView {
            state: self.state,
            choices: self.choices,
            keys: self.keys@,
            account_name: self.account_name@,
            wallet_secret: self.wallet_secret@,
            payment_secret: self.payment_secret@,
            mnemonic: self.mnemonic@,
            in_flight: self.in_flight,
        }
    }
}

/// The pages on which the account is built from the chosen key.
pub open spec fn after_key(s: State) -> bool {
    s == State::AccountName || s == State::WalletSecret || s == State::PaymentSecret || s == State::AddAccount
}

/// The flow's invariant: the wallet is only waited on while adding, the
/// mnemonic pages are only reached on an import, and from the account-name
/// page on, an account not made of an imported mnemonic has its key chosen
/// (until the request is made).
pub open spec fn flow_inv(v: FlowView) -> bool {
    &&& v.in_flight ==> v.state == State::AddAccount
    &&& (v.state == State::ImportMnemonic || v.state == State::ImportMnemonicWithEditor) ==> v.choices.import_mnemonic
    &&& after_key(v.state) && !v.in_flight && !v.choices.import_mnemonic ==> v.choices.key is Some
}

/// The flow with its context cleared, as on adding the account.
pub open spec fn cleared(v: FlowView) -> FlowView {
    FlowView {
        choices: default_choices(),
        keys: Seq::empty(),
        account_name: Seq::empty(),
        wallet_secret: Seq::empty(),
        payment_secret: Seq::empty(),
        mnemonic: Seq::empty(),
        ..v
    }
}

/// The flow with its secrets and account name wiped, as on leaving.
pub open spec fn wiped(v: FlowView) -> FlowView {
    FlowView {
        account_name: Seq::empty(),
        wallet_secret: Seq::empty(),
        payment_secret: Seq::empty(),
        mnemonic: Seq::empty(),
        ..v
    }
}

/// The page after the wallet secret: the BIP39 passphrase when the import
/// or the chosen key needs one, else adding the account.
pub open spec fn after_wallet_secret(c: Choices) -> State {
    let key_needs = match c.key {
        Some(k) => k.requires_bip39_passphrase,
        None => false,
    };
    if c.import_with_bip39_passphrase || key_needs { State::PaymentSecret } else { State::AddAccount }
}

/// The page the account-name page and the error page go back to.
pub open spec fn restart_page(c: Choices) -> State {
    if c.import_mnemonic { State::StartImport } else { State::Start }
}

/// Whether an event confirms a page whose field holds `text`: Enter or the
/// Continue button, both only with the field filled.
pub open spec fn confirms(e: Event, text: Seq<char>) -> bool {
    (e is Continue || e is Submit) && text.len() > 0
}

/// The flow after an event.
pub open spec fn next(v: FlowView, e: Event) -> FlowView {
    match v.state {
        State::Start => match e {
            Event::Back => wiped(v),
            Event::CreateAccount => if v.keys.len() > 0 { FlowView { state: State::KeySelection, ..v } } else { v },
            Event::ImportAccount => FlowView { state: State::StartImport, ..v },
            _ => v,
        },
        State::KeySelection => {
            let c = Choices { import_mnemonic: false, ..v.choices };
            match e {
                Event::Back => FlowView { state: State::Start, choices: c, ..v },
                Event::SelectKey(i) => if i < v.keys.len() {
                    FlowView {
                        state: State::AccountName,
                        choices: Choices { key: Some(v.keys[i as int]), account_kind: Some(CreateAccountKind::Bip44), ..c },
                        ..v
                    }
                } else {
                    FlowView { choices: c, ..v }
                },
                _ => FlowView { choices: c, ..v },
            }
        },
        State::StartImport => {
            let pick = match e {
                Event::Pick(p) => p,
                _ => ImportPick::Nothing,
            };
            let ic = import_choice(v.choices.word_count, v.choices.import_legacy, v.choices.import_with_bip39_passphrase, pick);
            let c = Choices {
                import_mnemonic: true,
                key: None,
                word_count: ic.word_count,
                import_legacy: ic.import_legacy,
                import_with_bip39_passphrase: ic.import_with_bip39_passphrase,
                ..v.choices
            };
            let w = FlowView { choices: c, mnemonic: Seq::empty(), wallet_secret: Seq::empty(), payment_secret: Seq::empty(), ..v };
            if e is Back {
                FlowView { state: State::Start, ..w }
            } else if ic.submitted {
                FlowView { state: State::ImportMnemonic, ..w }
            } else {
                w
            }
        },
        State::ImportMnemonic => FlowView { state: State::ImportMnemonicWithEditor, ..v },
        State::ImportMnemonicWithEditor => match e {
            Event::Back => FlowView { state: State::StartImport, ..v },
            Event::Continue => FlowView { state: State::AccountName, ..v },
            _ => v,
        },
        State::AccountName => match e {
            Event::Back => FlowView { state: restart_page(v.choices), ..v },
            Event::Continue | Event::Submit => FlowView { state: State::WalletSecret, ..v },
            _ => v,
        },
        State::WalletSecret => if e is Back {
            FlowView { state: State::AccountName, ..v }
        } else if confirms(e, v.wallet_secret) {
            FlowView { state: after_wallet_secret(v.choices), ..v }
        } else {
            v
        },
        State::PaymentSecret => if e is Back {
            FlowView { state: State::WalletSecret, ..v }
        } else if confirms(e, v.payment_secret) {
            FlowView { state: State::AddAccount, ..v }
        } else {
            v
        },
        State::AddAccount => {
            let w = cleared(v);
            match e {
                Event::Finished { ok } => if !v.in_flight {
                    FlowView { in_flight: true, ..w }
                } else if ok {
                    FlowView { state: State::Start, in_flight: false, ..w }
                } else {
                    FlowView { state: State::AccountError, in_flight: false, ..w }
                },
                _ => FlowView { in_flight: true, ..w },
            }
        },
        State::AccountError => match e {
            Event::Continue => FlowView { state: restart_page(v.choices), ..v },
            _ => v,
        },
        _ => v,
    }
}

/// Whether the next event makes the flow ask the wallet to add the
/// account: the first pass on the adding page.
pub open spec fn requests(v: FlowView) -> bool {
    v.state == State::AddAccount && !v.in_flight
}

/// The account name the wallet is given: the trimmed name, when not empty.
pub open spec fn planned_name(name: Seq<char>) -> Option<Seq<char>> {
    let t = trim_end(trim_start(name));
    if t.len() > 0 { Some(t) } else { None }
}

/// The BIP39 passphrase the wallet is given: for an import, the entered
/// one when a non-legacy import is protected by one; for a derivation, the
/// entered one when the key needs one.
pub open spec fn planned_passphrase(v: FlowView) -> Option<Seq<char>> {
    let needs = if v.choices.import_mnemonic {
        !v.choices.import_legacy && v.choices.import_with_bip39_passphrase
    } else {
        match v.choices.key {
            Some(k) => k.requires_bip39_passphrase,
            None => false,
        }
    };
    if needs { Some(v.payment_secret) } else { None }
}

/// An optional string as plain text.
pub open spec fn opt_text(o: Option<String>) -> Option<Seq<char>> {
    match o {
        Some(s) => Some(s@),
        None => None,
    }
}

/// The request made of the flow's context.
pub open spec fn plan_matches(p: CreatePlan, v: FlowView) -> bool {
    &&& opt_text(p.account_name) == planned_name(v.account_name)
    &&& p.wallet_secret@ == v.wallet_secret
    &&& opt_text(p.payment_secret) == planned_passphrase(v)
    &&& p.legacy == v.choices.import_legacy
    &&& if v.choices.import_mnemonic {
        p.source matches KeySource::Import { mnemonic } && mnemonic@ == v.mnemonic
    } else {
        p.source matches KeySource::Existing { id } && v.choices.key matches Some(k) && k.id == id
    }
}

/// What the application does after an event, besides the page change.
pub open spec fn outcome_matches(o: Outcome, v: FlowView, e: Event) -> bool {
    if requests(v) {
        o matches Outcome::Create(p) && plan_matches(p, v)
    } else if v.state == State::Start && e is Back {
        o is Leave
    } else if v.state == State::AddAccount && e == (Event::Finished { ok: true }) {
        o is Created
    } else {
        o is Nothing
    }
}

fn default_choices_exec() -> (r: Choices)
    ensures
        r == default_choices(),
{
    Choices {
        account_kind: None,
        key: None,
        word_count: WordCount::Words12,
        import_mnemonic: false,
        import_legacy: false,
        import_with_bip39_passphrase: false,
    }
}

fn is_confirm(e: Event) -> (r: bool)
    ensures
        r == (e is Continue || e is Submit),
{
    match e {
        Event::Continue | Event::Submit => true,
        _ => false,
    }
}

impl AccountCreate {
    /// A flow on its start page, with nothing chosen.
    pub fn new() -> (r: Self)
        ensures
            r@.state == State::Start,
            r@.choices == default_choices(),
            r@.keys.len() == 0,
            r@.account_name.len() == 0,
            r@.wallet_secret.len() == 0,
            r@.payment_secret.len() == 0,
            r@.mnemonic.len() == 0,
            !r@.in_flight,
            flow_inv(r@),
    {
        AccountCreate {
            state: State::Start,
            choices: default_choices_exec(),
            keys: Vec::new(),
            account_name: String::new(),
            wallet_secret: String::new(),
            payment_secret: String::new(),
            mnemonic: String::new(),
            in_flight: false,
        }
    }

    /// Replaces the offered private keys; the start page does so on every
    /// pass, other pages keep theirs.
    pub fn refresh_keys(&mut self, keys: Vec<KeyChoice>)
        ensures
            final(self)@ == if old(self)@.state == State::Start { FlowView { keys: keys@, ..old(self)@ } } else { old(self)@ },
            flow_inv(old(self)@) ==> flow_inv(final(self)@),
    {
        if self.state == State::Start {
            self.keys = keys;
        }
    }

    /// Replaces the text of a field.
    pub fn edit(&mut self, field: Field, text: String)
        ensures
            final(self)@ == match field {
                Field::AccountName => FlowView { account_name: text@, ..old(self)@ },
                Field::WalletSecret => FlowView { wallet_secret: text@, ..old(self)@ },
                Field::PaymentSecret => FlowView { payment_secret: text@, ..old(self)@ },
                Field::Mnemonic => FlowView { mnemonic: text@, ..old(self)@ },
            },
            flow_inv(old(self)@) ==> flow_inv(final(self)@),
    {
        match field {
            Field::AccountName => { self.account_name = text; },
            Field::WalletSecret => { self.wallet_secret = text; },
            Field::PaymentSecret => { self.payment_secret = text; },
            Field::Mnemonic => { self.mnemonic = text; },
        }
    }

    fn plan(&self) -> (p: CreatePlan)
        requires
            flow_inv(self@),
            self.state == State::AddAccount,
            !self.in_flight,
        ensures
            plan_matches(p, self@),
    {
        let name = trimmed(self.account_name.as_str());
        let account_name = if name.as_str().unicode_len() > 0 { Some(name) } else { None };
        let needs = if self.choices.import_mnemonic {
            !self.choices.import_legacy && self.choices.import_with_bip39_passphrase
        } else {
            match self.choices.key {
                Some(k) => k.requires_bip39_passphrase,
                None => false,
            }
        };
        let payment_secret = if needs { Some(self.payment_secret.clone()) } else { None };
        let source = if self.choices.import_mnemonic {
            KeySource::Import { mnemonic: self.mnemonic.clone() }
        } else {
            let key = self.choices.key.unwrap();
            KeySource::Existing { id: key.id }
        };
        CreatePlan {
            account_name,
            wallet_secret: self.wallet_secret.clone(),
            payment_secret,
            source,
            legacy: self.choices.import_legacy,
        }
    }

    fn clear_context(&mut self)
        ensures
            final(self)@ == cleared(old(self)@),
    {
        self.choices = default_choices_exec();
        self.keys = Vec::new();
        self.account_name = String::new();
        self.wallet_secret = String::new();
        self.payment_secret = String::new();
        self.mnemonic = String::new();
    }

    /// Moves the flow on after an event, and says what the application does
    /// besides.
    pub fn handle(&mut self, event: Event) -> (r: Outcome)
        requires
            flow_inv(old(self)@),
        ensures
            final(self)@ == next(old(self)@, event),
            outcome_matches(r, old(self)@, event),
            flow_inv(final(self)@),
    {
        match self.state {
            State::Start => match event {
                Event::Back => {
                    self.account_name = String::new();
                    self.wallet_secret = String::new();
                    self.payment_secret = String::new();
                    self.mnemonic = String::new();
                    Outcome::Leave
                },
                Event::CreateAccount => {
                    if self.keys.len() > 0 {
                        self.state = State::KeySelection;
                    }
                    Outcome::Nothing
                },
                Event::ImportAccount => {
                    self.state = State::StartImport;
                    Outcome::Nothing
                },
                _ => Outcome::Nothing,
            },
            State::KeySelection => {
                self.choices.import_mnemonic = false;
                match event {
                    Event::Back => {
                        self.state = State::Start;
                    },
                    Event::SelectKey(i) => {
                        if i < self.keys.len() {
                            self.choices.key = Some(self.keys[i]);
                            self.choices.account_kind = Some(CreateAccountKind::Bip44);
                            self.state = State::AccountName;
                        }
                    },
                    _ => {},
                }
                Outcome::Nothing
            },
            State::StartImport => {
                let pick = match event {
                    Event::Pick(p) => p,
                    _ => ImportPick::Nothing,
                };
                let ic = WalletCreate::import_selection(
                    self.choices.word_count,
                    self.choices.import_legacy,
                    self.choices.import_with_bip39_passphrase,
                    pick,
                );
                self.choices.import_mnemonic = true;
                self.choices.key = None;
                self.choices.word_count = ic.word_count;
                self.choices.import_legacy = ic.import_legacy;
                self.choices.import_with_bip39_passphrase = ic.import_with_bip39_passphrase;
                self.mnemonic = String::new();
                self.wallet_secret = String::new();
                self.payment_secret = String::new();
                if matches!(event, Event::Back) {
                    self.state = State::Start;
                } else if ic.submitted {
                    self.state = State::ImportMnemonic;
                }
                Outcome::Nothing
            },
            State::ImportMnemonic => {
                self.state = State::ImportMnemonicWithEditor;
                Outcome::Nothing
            },
            State::ImportMnemonicWithEditor => {
                match event {
                    Event::Back => { self.state = State::StartImport; },
                    Event::Continue => { self.state = State::AccountName; },
                    _ => {},
                }
                Outcome::Nothing
            },
            State::AccountName => {
                match event {
                    Event::Back => {
                        self.state = if self.choices.import_mnemonic { State::StartImport } else { State::Start };
                    },
                    Event::Continue | Event::Submit => { self.state = State::WalletSecret; },
                    _ => {},
                }
                Outcome::Nothing
            },
            State::WalletSecret => {
                if matches!(event, Event::Back) {
                    self.state = State::AccountName;
                } else if is_confirm(event) && self.wallet_secret.as_str().unicode_len() > 0 {
                    let key_needs = match self.choices.key {
                        Some(k) => k.requires_bip39_passphrase,
                        None => false,
                    };
                    self.state = if self.choices.import_with_bip39_passphrase || key_needs {
                        State::PaymentSecret
                    } else {
                        State::AddAccount
                    };
                }
                Outcome::Nothing
            },
            State::PaymentSecret => {
                if matches!(event, Event::Back) {
                    self.state = State::WalletSecret;
                } else if is_confirm(event) && self.payment_secret.as_str().unicode_len() > 0 {
                    self.state = State::AddAccount;
                }
                Outcome::Nothing
            },
            State::AddAccount => {
                let request = if !self.in_flight { Some(self.plan()) } else { None };
                self.clear_context();
                match event {
                    Event::Finished { ok } => {
                        if !self.in_flight {
                            self.in_flight = true;
                        } else {
                            self.in_flight = false;
                            self.state = if ok { State::Start } else { State::AccountError };
                            if ok {
                                return Outcome::Created;
                            }
                        }
                    },
                    _ => {
                        self.in_flight = true;
                    },
                }
                match request {
                    Some(p) => Outcome::Create(p),
                    None => Outcome::Nothing,
                }
            },
            State::AccountError => {
                if matches!(event, Event::Continue) {
                    self.state = if self.choices.import_mnemonic { State::StartImport } else { State::Start };
                }
                Outcome::Nothing
            },
            _ => Outcome::Nothing,
        }
    }
}

/// Every event keeps the flow's invariant.
pub proof fn lemma_flow_inv_kept(v: FlowView, e: Event)
    requires
        flow_inv(v),
    ensures
        flow_inv(next(v, e)),
{
}

/// The wallet is asked once per attempt: right after the request the flow
/// waits for the answer and makes no other request, and the context it was
/// made of (secrets, mnemonic, account name, choices) is wiped.
pub proof fn lemma_request_once_and_wipe(v: FlowView, e: Event)
    requires
        flow_inv(v),
        requests(v),
    ensures
        next(v, e).in_flight ==> !requests(next(v, e)),
        next(v, e).wallet_secret.len() == 0,
        next(v, e).payment_secret.len() == 0,
        next(v, e).mnemonic.len() == 0,
        next(v, e).account_name.len() == 0,
        next(v, e).choices == default_choices(),
{
}

/// Leaving the flow from its start page wipes the secrets, the mnemonic and
/// the account name.
pub proof fn lemma_leave_wipes(v: FlowView)
    requires
        v.state == State::Start,
    ensures
        next(v, Event::Back).wallet_secret.len() == 0,
        next(v, Event::Back).payment_secret.len() == 0,
        next(v, Event::Back).mnemonic.len() == 0,
        next(v, Event::Back).account_name.len() == 0,
{
}

/// A legacy account made of an imported mnemonic is never given a BIP39
/// passphrase.
pub proof fn lemma_legacy_import_without_passphrase(v: FlowView)
    requires
        v.choices.import_mnemonic,
        v.choices.import_legacy,
    ensures
        planned_passphrase(v) is None,
{
}

/// After a failed attempt, the error page's Restart returns to the start
/// page: the context was cleared with the request, so the flow no longer
/// remembers an import.
pub proof fn lemma_failure_restarts_at_start(v: FlowView)
    requires
        flow_inv(v),
        v.state == State::AddAccount,
        v.in_flight,
    ensures
        next(v, Event::Finished { ok: false }).state == State::AccountError,
        next(next(v, Event::Finished { ok: false }), Event::Continue).state == State::Start,
{
}

/// The adding page is reached only by confirming a filled secret: the
/// wallet secret, when no BIP39 passphrase is needed, else the passphrase.
pub proof fn lemma_adding_needs_secrets(v: FlowView, e: Event)
    requires
        v.state != State::AddAccount,
        next(v, e).state == State::AddAccount,
    ensures
        v.state == State::WalletSecret || v.state == State::PaymentSecret,
        v.state == State::WalletSecret ==> v.wallet_secret.len() > 0 && after_wallet_secret(v.choices) == State::AddAccount,
        v.state == State::PaymentSecret ==> v.payment_secret.len() > 0,
{
}

/// An account protected by a BIP39 passphrase (imported with one, or derived
/// from a key that needs one) is added only after the passphrase page was
/// confirmed with a passphrase entered.
pub proof fn lemma_passphrase_before_adding(v: FlowView, e: Event)
    requires
        v.state != State::AddAccount,
        next(v, e).state == State::AddAccount,
        v.choices.import_with_bip39_passphrase || (v.choices.key matches Some(k) && k.requires_bip39_passphrase),
    ensures
        v.state == State::PaymentSecret,
        v.payment_secret.len() > 0,
{
}

/// Confirming the wallet secret of an import protected by a BIP39 passphrase
/// leads to the passphrase page, whatever key is chosen.
pub proof fn lemma_passphrase_import_asks_passphrase(v: FlowView, e: Event)
    requires
        v.state == State::WalletSecret,
        v.choices.import_with_bip39_passphrase,
        e is Continue || e is Submit,
        v.wallet_secret.len() > 0,
    ensures
        next(v, e).state == State::PaymentSecret,
        next(v, e).choices == v.choices,
{
}

} // verus!

use vstd::prelude::*;
use std::sync::Arc;
use crate::account_create::KeyChoice;

verus! {

/// What the export page writes out.
#[derive(Clone, Copy, Debug, PartialEq, Eq, Structural)]
pub enum ExportKind {
    Mnemonic,
    Transportable,
}

/// The title and the description of an export kind.
pub open spec fn export_info(k: ExportKind) -> (Seq<char>, Seq<char>) {
    match k {
        ExportKind::Mnemonic => ("Private Key Mnemonic"@, "Private key mnemonic stored in this wallet"@),
        ExportKind::Transportable => (
            "Transportable"@,
            "Encrypted hex encoded data easily importable into another instance of Kaspa-NG"@,
        ),
    }
}

impl Default for ExportKind {
    fn default() -> (r: Self)
        ensures
            r == ExportKind::Mnemonic,
    {
        ExportKind::Mnemonic
    }
}

impl ExportKind {
    /// The title and the description of the export kind.
    pub fn info(&self) -> (r: (&'static str, &'static str))
        ensures
            (r.0@, r.1@) == export_info(*self),
    {
        match self {
            ExportKind::Mnemonic => ("Private Key Mnemonic", "Private key mnemonic stored in this wallet"),
            ExportKind::Transportable => (
                "Transportable",
                "Encrypted hex encoded data easily importable into another instance of Kaspa-NG",
            ),
        }
    }

    /// Forgets the choice: back to the mnemonic.
    pub fn zeroize(&mut self)
        ensures
            *final(self) == ExportKind::Mnemonic,
    {
        *self = ExportKind::Mnemonic;
    }
}

/// What an export produced: encrypted data, or a mnemonic phrase.
pub enum ExportResult {
    Transportable(Arc<Vec<u8>>),
    Mnemonic(String),
}


/// The export kinds the selection page offers: transportable data is not
/// offered yet.
pub open spec fn offered(k: ExportKind) -> bool {
    k != ExportKind::Transportable
}

impl ExportKind {
    /// The export kinds the selection page offers, in order.
    pub fn offered_kinds() -> (r: Vec<ExportKind>)
        ensures
            r@ == seq![ExportKind::Mnemonic],
            forall|k: ExportKind| offered(k) <==> r@.contains(k),
    {
        let r = vec![ExportKind::Mnemonic];
        proof {
            assert(r@[0] == ExportKind::Mnemonic);
            assert forall|k: ExportKind| offered(k) <==> r@.contains(k) by {
                if offered(k) {
                    assert(r@[0] == k);
                }
            }
        }
        r
    }
}

/// The pages of the export flow.
#[derive(Clone, Copy, Debug, PartialEq, Eq, Structural)]
pub enum State {
    Select,
    SelectPrvKey,
    Authenticate,
    Export,
    Error,
    Exporting,
    Mnemonic,
    Transportable,
}

/// The text fields of the flow.
#[derive(Clone, Copy, Debug, PartialEq, Eq, Structural)]
pub enum Field {
    WalletSecret,
    PaymentSecret,
}

/// What happens on a page of the flow.
#[derive(Clone, Copy, Debug, PartialEq, Eq, Structural)]
pub enum Event {
    /// A render pass without user action.
    Frame,
    Back,
    /// The page's Continue (or Restart) button.
    Continue,
    /// Enter in the wallet-secret field.
    Submit,
    /// An export kind was chosen.
    PickKind(ExportKind),
    /// A private key of the wallet was chosen.
    SelectKey(KeyChoice),
}

/// What the wallet is asked for.
pub struct ExportRequest {
    pub kind: ExportKind,
    pub key_id: u64,
    pub wallet_secret: String,
    /// The BIP39 passphrase, when the key needs one.
    pub payment_secret: Option<String>,
}

/// What the application does besides changing the page.
pub enum Outcome {
    Nothing,
    /// Go back to the previous module.
    Leave,
    /// Ask the wallet to export as requested.
    Export(ExportRequest),
    /// Open the account manager.
    OpenAccounts,
}

/// The export flow.
pub struct Export {
    pub state: State,
    pub kind: ExportKind,
    /// The private key to export.
    pub key: Option<KeyChoice>,
    pub wallet_secret: String,
    pub payment_secret: String,
    /// The exported mnemonic, shown on the mnemonic page.
    pub mnemonic: String,
}

/// The flow as plain values.
pub struct ExportView {
    pub state: State,
    pub kind: ExportKind,
    pub key: Option<KeyChoice>,
    pub wallet_secret: Seq<char>,
    pub payment_secret: Seq<char>,
    pub mnemonic: Seq<char>,
}

impl View for Export {
    type V = ExportView;

    open spec fn view(&self) -> ExportView {
        ExportView {
            state: self.state,
            kind: self.kind,
            key: self.key,
            wallet_secret: self.wallet_secret@,
            payment_secret: self.payment_secret@,
            mnemonic: self.mnemonic@,
        }
    }
}

/// Whether the chosen key needs a BIP39 passphrase.
pub open spec fn needs_passphrase(v: ExportView) -> bool {
    match v.key {
        Some(k) => k.requires_bip39_passphrase,
        None => false,
    }
}

/// Whether the unlock page's Continue button is enabled: the wallet secret
/// is entered, and so is the passphrase when the key needs one.
pub open spec fn unlock_ready(v: ExportView) -> bool {
    v.wallet_secret.len() > 0 && (!needs_passphrase(v) || v.payment_secret.len() > 0)
}

/// The flow with its secrets wiped and its kind reset, as the error page
/// and leaving the mnemonic page do.
pub open spec fn zeroized(v: ExportView) -> ExportView {
    ExportView { wallet_secret: Seq::empty(), payment_secret: Seq::empty(), kind: ExportKind::Mnemonic, ..v }
}

/// The flow after an event.
pub open spec fn next(v: ExportView, e: Event) -> ExportView {
    match v.state {
        State::Select => match e {
            Event::PickKind(k) => if offered(k) { ExportView { kind: k, ..v } } else { v },
            Event::Continue => if v.kind == ExportKind::Mnemonic { ExportView { state: State::SelectPrvKey, ..v } } else { v },
            _ => v,
        },
        State::SelectPrvKey => match e {
            Event::SelectKey(k) => ExportView { state: State::Authenticate, key: Some(k), ..v },
            _ => v,
        },
        State::Authenticate => match e {
            Event::Back => ExportView { state: State::Select, ..v },
            Event::Submit => if v.wallet_secret.len() > 0 && !needs_passphrase(v) {
                ExportView { state: State::Export, ..v }
            } else {
                v
            },
            Event::Continue => if unlock_ready(v) { ExportView { state: State::Export, ..v } } else { v },
            _ => v,
        },
        State::Export => ExportView { state: State::Exporting, wallet_secret: Seq::empty(), ..v },
        State::Error => {
            let w = zeroized(v);
            match e {
                Event::Back | Event::Continue => ExportView { state: State::Select, ..w },
                _ => w,
            }
        },
        State::Mnemonic => match e {
            Event::Continue => ExportView { state: State::Select, ..zeroized(v) },
            _ => v,
        },
        _ => v,
    }
}

/// The request the flow makes of its context.
pub open spec fn request_matches(r: ExportRequest, v: ExportView) -> bool {
    &&& r.kind == v.kind
    &&& v.key matches Some(k) && r.key_id == k.id
    &&& r.wallet_secret@ == v.wallet_secret
    &&& if needs_passphrase(v) {
        r.payment_secret matches Some(p) && p@ == v.payment_secret
    } else {
        r.payment_secret is None
    }
}

/// What the application does after an event, besides the page change.
pub open spec fn outcome_matches(o: Outcome, v: ExportView, e: Event) -> bool {
    match v.state {
        State::Select | State::SelectPrvKey => if e is Back { o is Leave } else { o is Nothing },
        State::Export => o matches Outcome::Export(r) && request_matches(r, v),
        State::Mnemonic => if e is Continue { o is OpenAccounts } else { o is Nothing },
        _ => o is Nothing,
    }
}

/// The flow's invariant: the kind is always an offered one, and from the
/// unlock page to the export a key is chosen.
pub open spec fn export_inv(v: ExportView) -> bool {
    &&& offered(v.kind)
    &&& (v.state == State::Authenticate || v.state == State::Export) ==> v.key is Some
}

/// The flow once the wallet answered on the exporting page: the exported
/// mnemonic or data is shown, an error leads to the error page.
pub open spec fn after_export(v: ExportView, ok: Option<Option<Seq<char>>>) -> ExportView {
    if v.state != State::Exporting {
        v
    } else {
        match ok {
            Some(Some(m)) => ExportView { state: State::Mnemonic, mnemonic: m, ..v },
            Some(None) => ExportView { state: State::Transportable, ..v },
            None => ExportView { state: State::Error, ..v },
        }
    }
}

impl Export {
    /// A flow on its selection page, with nothing chosen.
    pub fn new() -> (r: Self)
        ensures
            r@.state == State::Select,
            r@.kind == ExportKind::Mnemonic,
            r@.key is None,
            r@.wallet_secret.len() == 0,
            r@.payment_secret.len() == 0,
            r@.mnemonic.len() == 0,
            export_inv(r@),
    {
        Export {
            state: State::Select,
            kind: ExportKind::Mnemonic,
            key: None,
            wallet_secret: String::new(),
            payment_secret: String::new(),
            mnemonic: String::new(),
        }
    }

    /// Replaces the text of a field.
    pub fn edit(&mut self, field: Field, text: String)
        ensures
            final(self)@ == match field {
                Field::WalletSecret => ExportView { wallet_secret: text@, ..old(self)@ },
                Field::PaymentSecret => ExportView { payment_secret: text@, ..old(self)@ },
            },
            export_inv(old(self)@) ==> export_inv(final(self)@),
    {
        match field {
            Field::WalletSecret => { self.wallet_secret = text; },
            Field::PaymentSecret => { self.payment_secret = text; },
        }
    }

    fn zeroize(&mut self)
        ensures
            final(self)@ == zeroized(old(self)@),
    {
        self.wallet_secret = String::new();
        self.payment_secret = String::new();
        self.kind.zeroize();
    }

    /// Moves the flow on after an event, and says what the application does
    /// besides.
    pub fn handle(&mut self, event: Event) -> (r: Outcome)
        requires
            export_inv(old(self)@),
        ensures
            final(self)@ == next(old(self)@, event),
            outcome_matches(r, old(self)@, event),
            export_inv(final(self)@),
    {
        match self.state {
            State::Select => match event {
                Event::Back => Outcome::Leave,
                Event::PickKind(k) => {
                    if k != ExportKind::Transportable {
                        self.kind = k;
                    }
                    Outcome::Nothing
                },
                Event::Continue => {
                    if self.kind == ExportKind::Mnemonic {
                        self.state = State::SelectPrvKey;
                    }
                    Outcome::Nothing
                },
                _ => Outcome::Nothing,
            },
            State::SelectPrvKey => match event {
                Event::Back => Outcome::Leave,
                Event::SelectKey(k) => {
                    self.key = Some(k);
                    self.state = State::Authenticate;
                    Outcome::Nothing
                },
                _ => Outcome::Nothing,
            },
            State::Authenticate => {
                let needs = match self.key {
                    Some(k) => k.requires_bip39_passphrase,
                    None => false,
                };
                let has_secret = self.wallet_secret.as_str().unicode_len() > 0;
                match event {
                    Event::Back => { self.state = State::Select; },
                    Event::Submit => {
                        if has_secret && !needs {
                            self.state = State::Export;
                        }
                    },
                    Event::Continue => {
                        if has_secret && (!needs || self.payment_secret.as_str().unicode_len() > 0) {
                            self.state = State::Export;
                        }
                    },
                    _ => {},
                }
                Outcome::Nothing
            },
            State::Export => {
                let key = self.key.unwrap();
                let payment_secret = if key.requires_bip39_passphrase { Some(self.payment_secret.clone()) } else { None };
                let request = ExportRequest {
                    kind: self.kind,
                    key_id: key.id,
                    wallet_secret: self.wallet_secret.clone(),
                    payment_secret,
                };
                self.wallet_secret = String::new();
                self.state = State::Exporting;
                Outcome::Export(request)
            },
            State::Error => {
                self.zeroize();
                match event {
                    Event::Back | Event::Continue => { self.state = State::Select; },
                    _ => {},
                }
                Outcome::Nothing
            },
            State::Mnemonic => match event {
                Event::Continue => {
                    self.zeroize();
                    self.state = State::Select;
                    Outcome::OpenAccounts
                },
                _ => Outcome::Nothing,
            },
            _ => Outcome::Nothing,
        }
    }

    /// Takes in the wallet's answer on the exporting page: the exported
    /// mnemonic or data, or an error.
    pub fn exported(&mut self, result: Result<ExportResult, String>)
        requires
            export_inv(old(self)@),
        ensures
            final(self)@ == after_export(old(self)@, match result {
                Ok(ExportResult::Mnemonic(m)) => Some(Some(m@)),
                Ok(ExportResult::Transportable(_)) => Some(None),
                Err(_) => None,
            }),
            export_inv(final(self)@),
    {
        if self.state == State::Exporting {
            match result {
                Ok(ExportResult::Mnemonic(m)) => {
                    self.mnemonic = m;
                    self.state = State::Mnemonic;
                },
                Ok(ExportResult::Transportable(_)) => {
                    self.state = State::Transportable;
                },
                Err(_) => {
                    self.state = State::Error;
                },
            }
        }
    }
}

/// The export request carries the entered wallet secret and, exactly when
/// the key needs one, the passphrase; the wallet secret is wiped as the
/// request is made.
pub proof fn lemma_export_request(v: ExportView, e: Event)
    requires
        export_inv(v),
        v.state == State::Export,
    ensures
        next(v, e).state == State::Exporting,
        next(v, e).wallet_secret.len() == 0,
        v.key is Some,
{
}

/// The export is reached only from the unlock page, with the wallet secret
/// entered and, when the key needs one, the passphrase.
pub proof fn lemma_export_needs_secrets(v: ExportView, e: Event)
    requires
        v.state != State::Export,
        next(v, e).state == State::Export,
    ensures
        v.state == State::Authenticate,
        unlock_ready(v),
{
}

/// Any pass on the error page wipes the secrets, and leaving the exported
/// mnemonic wipes them too.
pub proof fn lemma_error_and_done_wipe(v: ExportView, e: Event)
    requires
        v.state == State::Error || (v.state == State::Mnemonic && (e is Continue)),
    ensures
        next(v, e).wallet_secret.len() == 0,
        next(v, e).payment_secret.len() == 0,
{
}

/// Every event and every answer keeps the flow's invariant.
pub proof fn lemma_export_inv_kept(v: ExportView, e: Event, ok: Option<Option<Seq<char>>>)
    requires
        export_inv(v),
    ensures
        export_inv(next(v, e)),
        export_inv(after_export(v, ok)),
{
}

} // verus!

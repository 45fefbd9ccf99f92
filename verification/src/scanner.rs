use vstd::prelude::*;
use crate::account::AccountKindClass;
use crate::text::owned;

verus! {

/// The pages of the address scanner.
#[derive(Clone, Copy, Debug, PartialEq, Eq, Structural)]
pub enum State {
    Select,
    /// The scan settings for the chosen account.
    Settings { account: u64 },
    WalletSecret { account: u64 },
    Spawn { account: u64 },
    Status,
    Finish,
}

/// What the scanner reads of the application.
#[derive(Clone, Copy, Debug, PartialEq, Eq, Structural)]
pub struct Env {
    pub wallet_open: bool,
    pub connected: bool,
    pub synced: bool,
    /// Whether there is a previous module to go back to.
    pub has_stack: bool,
    /// Whether the wallet subsystem can run a scan.
    pub wallet_available: bool,
}

/// Why the selection page cannot offer accounts, or that it can.
#[derive(Clone, Copy, Debug, PartialEq, Eq, Structural)]
pub enum Gate {
    WalletClosed,
    NotConnected,
    Syncing,
    Ready,
}

/// The first condition the scanner lacks: an open wallet, then a node
/// connection, then a synced node.
pub open spec fn gate_of(env: Env) -> Gate {
    if !env.wallet_open {
        Gate::WalletClosed
    } else if !env.connected {
        Gate::NotConnected
    } else if !env.synced {
        Gate::Syncing
    } else {
        Gate::Ready
    }
}

/// What the selection page shows.
pub fn gate(env: Env) -> (r: Gate)
    ensures
        r == gate_of(env),
{
    if !env.wallet_open {
        Gate::WalletClosed
    } else if !env.connected {
        Gate::NotConnected
    } else if !env.synced {
        Gate::Syncing
    } else {
        Gate::Ready
    }
}

/// Whether accounts of a kind can be scanned: BIP32 and legacy accounts.
pub open spec fn scannable_kind(kind: AccountKindClass) -> bool {
    kind == AccountKindClass::Bip32 || kind == AccountKindClass::Legacy
}

/// Whether the scanner offers accounts of a kind.
pub fn is_scannable(kind: AccountKindClass) -> (r: bool)
    ensures
        r == scannable_kind(kind),
{
    match kind {
        AccountKindClass::Bip32 | AccountKindClass::Legacy => true,
        _ => false,
    }
}

/// What the status page shows of a running scan.
pub enum ScanStatus {
    Idle,
    Error { message: String },
    Processing { index: usize, utxo_count: usize, balance: u64 },
}

/// What happens on a page of the scanner.
#[derive(Clone, Copy, Debug, PartialEq, Eq, Structural)]
pub enum Event {
    /// A render pass without user action.
    Frame,
    Back,
    /// A Close button.
    Close,
    /// A Continue button.
    Continue,
    /// Enter in the wallet-secret field.
    Submit,
    /// The status page's Stop button.
    Stop,
    ToggleTransferFunds,
    /// An account of the list was chosen.
    SelectAccount { id: u64, kind: AccountKindClass },
}

/// What the wallet is asked to scan.
pub struct ScanRequest {
    pub account: u64,
    pub wallet_secret: String,
    /// Whether found funds are moved to the account's first change address.
    pub transfer_funds: bool,
    /// The first address index scanned.
    pub start: usize,
    /// How many addresses are scanned at most.
    pub extent: usize,
    /// How many addresses are looked at per step.
    pub window: usize,
}

/// What the application does besides changing the page.
pub enum Outcome {
    Nothing,
    /// Go back to the previous module.
    Leave,
    /// Open the overview.
    OpenOverview,
    /// Open the account manager.
    OpenAccounts,
    /// Start scanning as requested.
    Scan(ScanRequest),
    /// Stop the running scan.
    Abort,
}

/// The scanner.
pub struct Scanner {
    pub state: State,
    pub transfer_funds: bool,
    pub wallet_secret: String,
    pub status: ScanStatus,
}

/// The status as plain values.
pub enum StatusView {
    Idle,
    Error(Seq<char>),
    Processing { index: usize, utxo_count: usize, balance: u64 },
}

/// A status as plain values.
pub open spec fn status_view(s: ScanStatus) -> StatusView {
    match s {
        ScanStatus::Idle => StatusView::Idle,
        ScanStatus::Error { message } => StatusView::Error(message@),
        ScanStatus::Processing { index, utxo_count, balance } => StatusView::Processing { index, utxo_count, balance },
    }
}

/// The scanner as plain values.
pub struct ScannerView {
    pub state: State,
    pub transfer_funds: bool,
    pub wallet_secret: Seq<char>,
    pub status: StatusView,
}

impl View for Scanner {
    type V = ScannerView;

    open spec fn view(&self) -> ScannerView {
        ScannerView {
            state: self.state,
            transfer_funds: self.transfer_funds,
            wallet_secret: self.wallet_secret@,
            status: status_view(self.status),
        }
    }
}

/// The scanner after an event.
pub open spec fn next(v: ScannerView, env: Env, e: Event) -> ScannerView {
    match v.state {
        State::Select => match e {
            Event::SelectAccount { id, kind } => if gate_of(env) == Gate::Ready && scannable_kind(kind) {
                ScannerView { state: State::Settings { account: id }, ..v }
            } else {
                v
            },
            _ => v,
        },
        State::Settings { account } => match e {
            Event::Back => ScannerView { state: State::Select, ..v },
            Event::ToggleTransferFunds => ScannerView { transfer_funds: !v.transfer_funds, ..v },
            Event::Continue => ScannerView { state: State::WalletSecret { account }, ..v },
            _ => v,
        },
        State::WalletSecret { account } => match e {
            Event::Back => ScannerView { state: State::Select, ..v },
            Event::Continue | Event::Submit => if v.wallet_secret.len() > 0 {
                ScannerView { state: State::Spawn { account }, ..v }
            } else {
                v
            },
            _ => v,
        },
        State::Spawn { account } => if env.wallet_available {
            ScannerView { state: State::Status, wallet_secret: Seq::empty(), ..v }
        } else if e is Continue {
            ScannerView { state: State::Select, ..v }
        } else {
            v
        },
        State::Status => match e {
            Event::Stop => ScannerView { state: State::Finish, ..v },
            _ => v,
        },
        State::Finish => match e {
            Event::Close => ScannerView { state: State::Select, wallet_secret: Seq::empty(), status: StatusView::Idle, ..v },
            _ => v,
        },
    }
}

/// Where leaving the selection page leads: back when there is a previous
/// module, else to the overview.
pub open spec fn leave_outcome(o: Outcome, env: Env) -> bool {
    if env.has_stack { o is Leave } else { o is OpenOverview }
}

/// What the application does after an event, besides the page change.
pub open spec fn outcome_matches(o: Outcome, v: ScannerView, env: Env, e: Event) -> bool {
    match v.state {
        State::Select => if e is Back || (e is Close && gate_of(env) != Gate::Ready) {
            leave_outcome(o, env)
        } else {
            o is Nothing
        },
        State::Spawn { account } => if env.wallet_available {
            o matches Outcome::Scan(r) && r.account == account && r.wallet_secret@ == v.wallet_secret
                && r.transfer_funds == v.transfer_funds && r.start == 0 && r.extent == usize::MAX && r.window == 64
        } else {
            o is Nothing
        },
        State::Status => if e is Stop { o is Abort } else { o is Nothing },
        State::Finish => if e is Close { o is OpenAccounts } else { o is Nothing },
        _ => o is Nothing,
    }
}

impl Scanner {
    /// A scanner on its selection page.
    pub fn new() -> (r: Self)
        ensures
            r@.state == State::Select,
            !r@.transfer_funds,
            r@.wallet_secret.len() == 0,
            r@.status is Idle,
    {
        Scanner { state: State::Select, transfer_funds: false, wallet_secret: String::new(), status: ScanStatus::Idle }
    }

    /// Replaces the wallet secret entered.
    pub fn edit_wallet_secret(&mut self, text: String)
        ensures
            final(self)@ == (ScannerView { wallet_secret: text@, ..old(self)@ }),
    {
        self.wallet_secret = text;
    }

    /// Moves the scanner on after an event, and says what the application
    /// does besides.
    pub fn handle(&mut self, env: Env, event: Event) -> (r: Outcome)
        ensures
            final(self)@ == next(old(self)@, env, event),
            outcome_matches(r, old(self)@, env, event),
    {
        match self.state {
            State::Select => match event {
                Event::Back => if env.has_stack { Outcome::Leave } else { Outcome::OpenOverview },
                Event::Close => {
                    if !matches!(gate(env), Gate::Ready) {
                        if env.has_stack { Outcome::Leave } else { Outcome::OpenOverview }
                    } else {
                        Outcome::Nothing
                    }
                },
                Event::SelectAccount { id, kind } => {
                    if matches!(gate(env), Gate::Ready) && is_scannable(kind) {
                        self.state = State::Settings { account: id };
                    }
                    Outcome::Nothing
                },
                _ => Outcome::Nothing,
            },
            State::Settings { account } => {
                match event {
                    Event::Back => { self.state = State::Select; },
                    Event::ToggleTransferFunds => { self.transfer_funds = !self.transfer_funds; },
                    Event::Continue => { self.state = State::WalletSecret { account }; },
                    _ => {},
                }
                Outcome::Nothing
            },
            State::WalletSecret { account } => {
                match event {
                    Event::Back => { self.state = State::Select; },
                    Event::Continue | Event::Submit => {
                        if self.wallet_secret.as_str().unicode_len() > 0 {
                            self.state = State::Spawn { account };
                        }
                    },
                    _ => {},
                }
                Outcome::Nothing
            },
            State::Spawn { account } => {
                if env.wallet_available {
                    let request = ScanRequest {
                        account,
                        wallet_secret: self.wallet_secret.clone(),
                        transfer_funds: self.transfer_funds,
                        start: 0,
                        extent: usize::MAX,
                        window: 64,
                    };
                    self.wallet_secret = String::new();
                    self.state = State::Status;
                    Outcome::Scan(request)
                } else {
                    if matches!(event, Event::Continue) {
                        self.state = State::Select;
                    }
                    Outcome::Nothing
                }
            },
            State::Status => match event {
                Event::Stop => {
                    self.state = State::Finish;
                    Outcome::Abort
                },
                _ => Outcome::Nothing,
            },
            State::Finish => match event {
                Event::Close => {
                    self.wallet_secret = String::new();
                    self.status = ScanStatus::Idle;
                    self.state = State::Select;
                    Outcome::OpenAccounts
                },
                _ => Outcome::Nothing,
            },
        }
    }

    /// Takes in a progress report of the scan: one without a transaction
    /// updates the shown progress, one about a transaction changes nothing.
    pub fn progress(&mut self, index: usize, utxo_count: usize, balance: u64, with_transaction: bool)
        ensures
            final(self)@ == if with_transaction {
                old(self)@
            } else {
                ScannerView { status: StatusView::Processing { index, utxo_count, balance }, ..old(self)@ }
            },
    {
        if !with_transaction {
            self.status = ScanStatus::Processing { index, utxo_count, balance };
        }
    }

    /// Takes in that the scanned account no longer exists.
    pub fn account_missing(&mut self)
        ensures
            final(self)@ == (ScannerView { status: StatusView::Error("Account not found"@), ..old(self)@ }),
    {
        self.status = ScanStatus::Error { message: owned("Account not found") };
    }
}

/// A scan starts only on a BIP32 or legacy account chosen while the wallet
/// was open and the node connected and synced, through the settings and
/// secret pages, with the wallet secret entered.
pub proof fn lemma_scan_path(v: ScannerView, env: Env, e: Event)
    requires
        v.state == State::Select,
        next(v, env, e).state != State::Select,
    ensures
        gate_of(env) == Gate::Ready,
        e matches Event::SelectAccount { id, kind } && scannable_kind(kind) && next(v, env, e).state == (State::Settings { account: id }),
{
}

/// The secret page moves on to the scan only with the secret entered, for
/// the same account.
pub proof fn lemma_secret_before_scan(v: ScannerView, env: Env, e: Event, account: u64)
    requires
        v.state == (State::WalletSecret { account }),
        next(v, env, e).state != v.state,
        next(v, env, e).state != State::Select,
    ensures
        v.wallet_secret.len() > 0,
        next(v, env, e).state == (State::Spawn { account }),
{
}

/// Starting the scan wipes the wallet secret from the scanner.
pub proof fn lemma_scan_wipes_secret(v: ScannerView, env: Env, e: Event, account: u64)
    requires
        v.state == (State::Spawn { account }),
        env.wallet_available,
    ensures
        next(v, env, e).state == State::Status,
        next(v, env, e).wallet_secret.len() == 0,
{
}

/// Back on the settings page or the secret page of any account returns to
/// the account list and changes nothing else; Continue on the settings page
/// asks for the secret of the same account.
pub proof fn lemma_settings_back_to_select(v: ScannerView, env: Env, account: u64)
    requires
        v.state == (State::Settings { account }) || v.state == (State::WalletSecret { account }),
    ensures
        next(v, env, Event::Back) == (ScannerView { state: State::Select, ..v }),
        v.state == (State::Settings { account }) ==> next(v, env, Event::Continue)
            == (ScannerView { state: State::WalletSecret { account }, ..v }),
{
}

} // verus!

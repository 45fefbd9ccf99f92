use vstd::prelude::*;
use vstd::string::*;
use crate::network::{AddressPrefix, NetworkType, type_of_prefix};
use crate::text::{append_digits, decimal, owned};
use kaspa_addresses::{Address, Prefix};

verus! {

/// What the destination field of the send form holds.
#[derive(Debug)]
pub enum AddressStatus {
    /// Nothing entered yet.
    NotEntered,
    /// An address of the current network.
    Valid,
    /// An address of another network, whose type is given.
    NetworkMismatch(NetworkType),
    /// Not an address; the parse error is given.
    Invalid(String),
}

/// How `kaspa_addresses` parses a text as an address: the prefix of the
/// address, or the text of the parse error.
pub uninterp spec fn address_parse(text: Seq<char>) -> Result<AddressPrefix, Seq<char>>;

/// Parses `text` with `kaspa_addresses::Address::try_from(&str)` and keeps
/// the prefix of the address, or the error's text.
/// Claimed: the outcome is a function of the text alone, and a text
/// without `:` is refused (the source splits at the first `:` and reports
/// a missing prefix when there is none).
#[verifier::external_body]
fn parse_address_prefix(text: &str) -> (r: Result<AddressPrefix, String>)
    ensures
        match r {
            Ok(p) => address_parse(text@) == Ok::<AddressPrefix, Seq<char>>(p),
            Err(m) => address_parse(text@) == Err::<AddressPrefix, Seq<char>>(m@),
        },
        !text@.contains(':') ==> r is Err,
{
    match Address::try_from(text) {
        Ok(address) => Ok(match address.prefix {
            Prefix::Mainnet => AddressPrefix::Mainnet,
            Prefix::Testnet => AddressPrefix::Testnet,
            Prefix::Simnet => AddressPrefix::Simnet,
            Prefix::Devnet => AddressPrefix::Devnet,
        }),
        Err(err) => Err(err.to_string()),
    }
}

/// The status of a destination field whose text parsed with the given
/// outcome, on a network of type `network_type`.
pub open spec fn status_matches(status: AddressStatus, parsed: Result<AddressPrefix, Seq<char>>, network_type: NetworkType) -> bool {
    match parsed {
        Ok(p) => if type_of_prefix(p) == network_type {
            status is Valid
        } else {
            status matches AddressStatus::NetworkMismatch(t) && t == type_of_prefix(p)
        },
        Err(m) => status matches AddressStatus::Invalid(e) && e@ == m,
    }
}

/// The status of the destination field for a parse outcome.
pub fn status_of_parse(parsed: Result<AddressPrefix, String>, network_type: NetworkType) -> (r: AddressStatus)
    ensures
        status_matches(r, match parsed { Ok(p) => Ok(p), Err(m) => Err(m@) }, network_type),
{
    match parsed {
        Ok(prefix) => {
            let address_network_type = prefix.network_type();
            if address_network_type != network_type {
                AddressStatus::NetworkMismatch(address_network_type)
            } else {
                AddressStatus::Valid
            }
        },
        Err(err) => AddressStatus::Invalid(err),
    }
}

/// Checks the text of the destination field against the current network.
pub fn address_status(text: &str, network_type: NetworkType) -> (r: AddressStatus)
    ensures
        status_matches(r, address_parse(text@), network_type),
{
    let parsed = parse_address_prefix(text);
    status_of_parse(parsed, network_type)
}

/// The destination field's status as plain values.
pub enum AddressView {
    NotEntered,
    Valid,
    NetworkMismatch(NetworkType),
    Invalid(Seq<char>),
}

/// A destination status as plain values.
pub open spec fn address_view(a: AddressStatus) -> AddressView {
    match a {
        AddressStatus::NotEntered => AddressView::NotEntered,
        AddressStatus::Valid => AddressView::Valid,
        AddressStatus::NetworkMismatch(t) => AddressView::NetworkMismatch(t),
        AddressStatus::Invalid(m) => AddressView::Invalid(m@),
    }
}

/// What a payment is: to an address, or to another account of the wallet.
#[derive(Clone, Copy, Debug, PartialEq, Eq, Structural)]
pub enum TransactionKind {
    Send,
    Transfer,
}

/// Where the send panel of an account is.
#[derive(Clone, Copy, Debug, PartialEq, Eq, Structural)]
pub enum SendAction {
    /// No payment under way.
    Idle,
    /// The amount and destination are being entered and estimated.
    Estimating,
    /// The wallet secret is being entered.
    Sending,
    /// The payment was submitted and is awaited.
    Processing,
    /// The payment failed; the failure is shown.
    Failed,
}

/// What an estimate of the payment found (the figures of the wallet's
/// generator summary that the panel shows).
#[derive(Clone, Copy, Debug, PartialEq, Eq, Structural)]
pub struct GeneratorSummary {
    pub final_transaction_amount: Option<u64>,
    pub aggregated_fees: u64,
    pub number_of_generated_transactions: usize,
    pub aggregated_utxos: usize,
}

/// The estimate shown on the send panel.
pub enum EstimatorStatus {
    Nothing,
    Summary(GeneratorSummary),
    Error(String),
}

/// An estimate as plain values.
pub enum EstimateView {
    Nothing,
    Summary(GeneratorSummary),
    Error(Seq<char>),
}

/// An estimate as plain values.
pub open spec fn estimate_view(e: EstimatorStatus) -> EstimateView {
    match e {
        EstimatorStatus::Nothing => EstimateView::Nothing,
        EstimatorStatus::Summary(s) => EstimateView::Summary(s),
        EstimatorStatus::Error(m) => EstimateView::Error(m@),
    }
}

/// The send panel of an account: what is entered, estimated and under way.
pub struct ManagerContext {
    /// The account a transfer goes to.
    pub transfer_to_account: Option<u64>,
    pub destination_address_string: String,
    pub send_amount_text: String,
    pub send_amount_sompi: u64,
    pub enable_priority_fees: bool,
    pub priority_fees_text: String,
    pub priority_fees_sompi: u64,
    pub estimate: EstimatorStatus,
    /// An estimate asked for by another page, taken by the next pass.
    pub request_estimate: Option<bool>,
    pub address_status: AddressStatus,
    pub action: SendAction,
    /// The error shown while the payment is failed.
    pub failure: String,
    pub transaction_kind: Option<TransactionKind>,
    pub wallet_secret: String,
    pub payment_secret: String,
    /// Whether the account page waits for the account list to be reloaded.
    pub loading: bool,
}

/// The send panel as plain values.
pub struct ContextView {
    pub transfer_to_account: Option<u64>,
    pub destination: Seq<char>,
    pub amount_text: Seq<char>,
    pub send_amount_sompi: u64,
    pub enable_priority_fees: bool,
    pub fees_text: Seq<char>,
    pub priority_fees_sompi: u64,
    pub estimate: EstimateView,
    pub request_estimate: Option<bool>,
    pub address: AddressView,
    pub action: SendAction,
    pub failure: Seq<char>,
    pub kind: Option<TransactionKind>,
    pub wallet_secret: Seq<char>,
    pub payment_secret: Seq<char>,
    pub loading: bool,
}

impl View for ManagerContext {
    type V = ContextView;

    open spec fn view(&self) -> ContextView {
        ContextView {
            transfer_to_account: self.transfer_to_account,
            destination: self.destination_address_string@,
            amount_text: self.send_amount_text@,
            send_amount_sompi: self.send_amount_sompi,
            enable_priority_fees: self.enable_priority_fees,
            fees_text: self.priority_fees_text@,
            priority_fees_sompi: self.priority_fees_sompi,
            estimate: estimate_view(self.estimate),
            request_estimate: self.request_estimate,
            address: address_view(self.address_status),
            action: self.action,
            failure: self.failure@,
            kind: self.transaction_kind,
            wallet_secret: self.wallet_secret@,
            payment_secret: self.payment_secret@,
            loading: self.loading,
        }
    }
}

/// The panel with everything entered wiped: destination, amounts, fees,
/// estimate, kind of payment and secrets. What is under way stays.
pub open spec fn zeroized(v: ContextView) -> ContextView {
    ContextView {
        transfer_to_account: None,
        destination: Seq::empty(),
        amount_text: Seq::empty(),
        send_amount_sompi: 0,
        enable_priority_fees: false,
        fees_text: Seq::empty(),
        priority_fees_sompi: 0,
        estimate: EstimateView::Nothing,
        address: AddressView::NotEntered,
        kind: None,
        wallet_secret: Seq::empty(),
        payment_secret: Seq::empty(),
        ..v
    }
}

/// The panel back at rest: nothing under way, everything entered wiped.
pub open spec fn at_rest(v: ContextView) -> ContextView {
    ContextView { action: SendAction::Idle, failure: Seq::empty(), ..zeroized(v) }
}

/// The estimate shown after the amount and fee fields were read: a fee
/// error if the fees did not parse, else an amount error if the amount is
/// missing or did not parse, else the estimate shown before.
pub open spec fn estimate_after_args(before: EstimateView, amount: Result<Option<u64>, Seq<char>>, fees: Result<Option<u64>, Seq<char>>) -> EstimateView {
    match fees {
        Err(e) => EstimateView::Error("Invalid fee amount: "@ + e),
        Ok(_) => match amount {
            Ok(Some(_)) => before,
            Ok(None) => EstimateView::Error("Please enter an amount"@),
            Err(e) => EstimateView::Error("Invalid amount: "@ + e),
        },
    }
}

/// A parse outcome with its error as plain text.
pub open spec fn parse_view(p: Result<Option<u64>, String>) -> Result<Option<u64>, Seq<char>> {
    match p {
        Ok(v) => Ok(v),
        Err(e) => Err(e@),
    }
}

/// The panel after the amount and fee fields were read: a parsed amount is
/// kept, missing fees count as zero, and a field that does not parse (or a
/// missing amount) is reported in the estimate.
pub open spec fn with_args(v: ContextView, amount: Result<Option<u64>, Seq<char>>, fees: Result<Option<u64>, Seq<char>>) -> ContextView {
    ContextView {
        send_amount_sompi: match amount {
            Ok(Some(a)) => a,
            _ => v.send_amount_sompi,
        },
        priority_fees_sompi: match fees {
            Ok(Some(f)) => f,
            Ok(None) => 0,
            Err(_) => v.priority_fees_sompi,
        },
        estimate: estimate_after_args(v.estimate, amount, fees),
        ..v
    }
}

/// Whether both fields are usable: an amount is entered and parses, and the
/// fees parse.
pub open spec fn args_valid(amount: Result<Option<u64>, Seq<char>>, fees: Result<Option<u64>, Seq<char>>) -> bool {
    (amount matches Ok(Some(_))) && (fees is Ok)
}

/// Whether the estimate allows sending: an estimate was made, and the
/// destination is a valid address, or, for a transfer, an account.
pub open spec fn estimate_allows_send(v: ContextView) -> bool {
    &&& v.estimate is Summary
    &&& (v.address is Valid) || (v.kind == Some(TransactionKind::Transfer) && v.transfer_to_account is Some)
}

/// The send panel's invariant: a payment to an address has no destination
/// account, a transfer has no destination address, and a kind of payment is
/// chosen exactly while a payment is under way.
pub open spec fn context_inv(v: ContextView) -> bool {
    &&& v.kind == Some(TransactionKind::Send) ==> v.transfer_to_account is None
    &&& v.kind == Some(TransactionKind::Transfer) ==> v.destination.len() == 0
    &&& v.kind is None ==> v.transfer_to_account is None && v.destination.len() == 0
    &&& (v.action == SendAction::Estimating || v.action == SendAction::Sending || v.action == SendAction::Processing) ==> v.kind is Some
    &&& (v.action == SendAction::Idle || v.action == SendAction::Failed) ==> v.kind is None
}

/// What happens on the estimating part of the send panel.
#[derive(Clone, Copy, Debug, PartialEq, Eq, Structural)]
pub enum EstimatorEvent {
    /// A render pass without user action.
    Frame,
    /// The amount was edited.
    AmountEdited,
    /// The fees were edited.
    FeesEdited,
    /// Enter in the amount field.
    SubmitAmount,
    /// Enter in the fee field.
    SubmitFees,
    /// The priority-fee box was ticked or cleared.
    ToggleFees,
    /// The Send button.
    Send,
    Cancel,
}

/// The estimating pass: the panel after an event, given how the amount and
/// fee fields read, and whether a new estimate is asked for.
pub open spec fn estimator_next(v: ContextView, e: EstimatorEvent, amount: Result<Option<u64>, Seq<char>>, fees: Result<Option<u64>, Seq<char>>) -> (ContextView, bool) {
    let asked = match v.request_estimate {
        Some(b) => b,
        None => false,
    };
    let v0 = ContextView { request_estimate: None, ..v };
    if e is Cancel {
        (with_args(at_rest(v0), Ok(None), Ok(None)), false)
    } else {
        let enable = if e is ToggleFees { !v0.enable_priority_fees } else { v0.enable_priority_fees };
        let v1 = ContextView { enable_priority_fees: enable, ..v0 };
        let changed = (e is AmountEdited) || (enable && (e is FeesEdited));
        let v2 = if (e is SubmitAmount) && !v0.enable_priority_fees {
            let w = with_args(v1, amount, fees);
            if args_valid(amount, fees) { ContextView { action: SendAction::Sending, ..w } } else { w }
        } else if (e is SubmitFees) && enable {
            ContextView { action: SendAction::Sending, ..v1 }
        } else if (e is Send) && estimate_allows_send(v1) {
            ContextView { action: SendAction::Sending, ..v1 }
        } else {
            v1
        };
        let v3 = with_args(v2, amount, fees);
        (v3, args_valid(amount, fees) && (asked || changed) && v3.action == SendAction::Estimating)
    }
}

/// What the wallet is asked to do when a payment is submitted.
pub enum SendPlan {
    /// Pay to the entered address.
    Send { destination: String, amount_sompi: u64, priority_fee_sompi: u64, wallet_secret: String, payment_secret: Option<String> },
    /// Move funds to another account of the wallet.
    Transfer { destination_account: Option<u64>, amount_sompi: u64, priority_fee_sompi: u64, wallet_secret: String, payment_secret: Option<String> },
}

/// What happens on the wallet-secret part of the send panel.
#[derive(Clone, Copy, Debug, PartialEq, Eq, Structural)]
pub enum SecretEvent {
    Frame,
    /// Enter in the wallet-secret field.
    SubmitWalletSecret,
    /// Enter in the passphrase field.
    SubmitPaymentSecret,
    /// The Submit button.
    Submit,
    Cancel,
}

/// Whether the secret part submits the payment: Enter in the wallet-secret
/// field when no passphrase is needed, Enter in the passphrase field, or the
/// Submit button, each with the needed secrets entered.
pub open spec fn secret_submits(v: ContextView, e: SecretEvent, requires_passphrase: bool) -> bool {
    let ready = !(v.wallet_secret.len() == 0 || (requires_passphrase && v.payment_secret.len() == 0));
    match e {
        SecretEvent::SubmitWalletSecret => !requires_passphrase && v.wallet_secret.len() > 0,
        SecretEvent::SubmitPaymentSecret => requires_passphrase && v.wallet_secret.len() > 0 && v.payment_secret.len() > 0,
        SecretEvent::Submit => ready,
        _ => false,
    }
}

/// The payment submitted from the panel.
pub open spec fn plan_matches(p: SendPlan, v: ContextView, requires_passphrase: bool) -> bool {
    let passphrase_ok = |ps: Option<String>| if requires_passphrase {
        ps matches Some(x) && x@ == v.payment_secret
    } else {
        ps is None
    };
    match p {
        SendPlan::Send { destination, amount_sompi, priority_fee_sompi, wallet_secret, payment_secret } => {
            &&& v.kind == Some(TransactionKind::Send)
            &&& destination@ == v.destination
            &&& amount_sompi == v.send_amount_sompi
            &&& priority_fee_sompi == v.priority_fees_sompi
            &&& wallet_secret@ == v.wallet_secret
            &&& passphrase_ok(payment_secret)
        },
        SendPlan::Transfer { destination_account, amount_sompi, priority_fee_sompi, wallet_secret, payment_secret } => {
            &&& v.kind == Some(TransactionKind::Transfer)
            &&& destination_account == v.transfer_to_account
            &&& amount_sompi == v.send_amount_sompi
            &&& priority_fee_sompi == v.priority_fees_sompi
            &&& wallet_secret@ == v.wallet_secret
            &&& passphrase_ok(payment_secret)
        },
    }
}

/// The transfer destination offered by default: with exactly two accounts,
/// the other one; otherwise none, and a chosen destination that is the
/// account itself is dropped.
pub open spec fn transfer_default(current: Option<u64>, self_id: u64, accounts: Seq<u64>) -> Option<u64> {
    if accounts.len() == 2 {
        if accounts[0] != self_id {
            Some(accounts[0])
        } else if accounts[1] != self_id {
            Some(accounts[1])
        } else {
            None
        }
    } else if current == Some(self_id) {
        None
    } else {
        current
    }
}

fn address_not_entered() -> (r: AddressStatus)
    ensures
        address_view(r) == AddressView::NotEntered,
{
    AddressStatus::NotEntered
}

impl ManagerContext {
    /// A panel at rest with nothing entered.
    pub fn new() -> (r: Self)
        ensures
            r@ == at_rest(r@),
            r@.request_estimate is None,
            !r@.loading,
            context_inv(r@),
    {
        ManagerContext {
            transfer_to_account: None,
            destination_address_string: String::new(),
            send_amount_text: String::new(),
            send_amount_sompi: 0,
            enable_priority_fees: false,
            priority_fees_text: String::new(),
            priority_fees_sompi: 0,
            estimate: EstimatorStatus::Nothing,
            request_estimate: None,
            address_status: address_not_entered(),
            action: SendAction::Idle,
            failure: String::new(),
            transaction_kind: None,
            wallet_secret: String::new(),
            payment_secret: String::new(),
            loading: false,
        }
    }

    /// Wipes everything entered; what is under way stays.
    pub fn zeroize(&mut self)
        ensures
            final(self)@ == zeroized(old(self)@),
    {
        self.transfer_to_account = None;
        self.destination_address_string = String::new();
        self.send_amount_text = String::new();
        self.send_amount_sompi = 0;
        self.enable_priority_fees = false;
        self.priority_fees_text = String::new();
        self.priority_fees_sompi = 0;
        self.estimate = EstimatorStatus::Nothing;
        self.address_status = address_not_entered();
        self.transaction_kind = None;
        self.wallet_secret = String::new();
        self.payment_secret = String::new();
    }

    /// Puts the panel back at rest, wiping everything entered.
    pub fn reset_send_state(&mut self)
        ensures
            final(self)@ == at_rest(old(self)@),
            context_inv(final(self)@),
    {
        self.action = SendAction::Idle;
        self.failure = String::new();
        self.zeroize();
    }

    /// Asks the next estimating pass for a new estimate.
    pub fn request_estimate(&mut self)
        ensures
            final(self)@ == (ContextView { request_estimate: Some(true), ..old(self)@ }),
    {
        self.request_estimate = Some(true);
    }

    /// Starts a payment to an address (the Send button of a panel at rest).
    pub fn start_send(&mut self)
        requires
            context_inv(old(self)@),
        ensures
            final(self)@ == if old(self)@.action == SendAction::Idle {
                ContextView { action: SendAction::Estimating, kind: Some(TransactionKind::Send), ..old(self)@ }
            } else {
                old(self)@
            },
            context_inv(final(self)@),
    {
        if self.action == SendAction::Idle {
            self.action = SendAction::Estimating;
            self.transaction_kind = Some(TransactionKind::Send);
        }
    }

    /// Starts a transfer to another account (offered only when the wallet
    /// has more than one account).
    pub fn start_transfer(&mut self, account_count: usize)
        requires
            context_inv(old(self)@),
        ensures
            final(self)@ == if old(self)@.action == SendAction::Idle && account_count > 1 {
                ContextView { action: SendAction::Estimating, kind: Some(TransactionKind::Transfer), ..old(self)@ }
            } else {
                old(self)@
            },
            context_inv(final(self)@),
    {
        if self.action == SendAction::Idle && account_count > 1 {
            self.action = SendAction::Estimating;
            self.transaction_kind = Some(TransactionKind::Transfer);
        }
    }

    /// Dismisses a failure (its Continue button).
    pub fn dismiss_failure(&mut self)
        ensures
            final(self)@ == if old(self)@.action == SendAction::Failed {
                ContextView { action: SendAction::Idle, failure: Seq::empty(), ..old(self)@ }
            } else {
                old(self)@
            },
            context_inv(old(self)@) ==> context_inv(final(self)@),
    {
        if self.action == SendAction::Failed {
            self.action = SendAction::Idle;
            self.failure = String::new();
        }
    }

    /// Replaces the destination address of a payment to an address, and
    /// checks it against the network.
    pub fn edit_destination(&mut self, text: String, network_type: NetworkType)
        requires
            context_inv(old(self)@),
        ensures
            old(self)@.kind == Some(TransactionKind::Send) ==> {
                &&& final(self)@ == (ContextView { destination: text@, address: final(self)@.address, ..old(self)@ })
                &&& status_matches(final(self).address_status, address_parse(text@), network_type)
            },
            old(self)@.kind != Some(TransactionKind::Send) ==> final(self)@ == old(self)@,
            context_inv(final(self)@),
    {
        if self.transaction_kind == Some(TransactionKind::Send) {
            self.address_status = address_status(text.as_str(), network_type);
            self.destination_address_string = text;
        }
    }

    /// Replaces the amount text.
    pub fn edit_amount(&mut self, text: String)
        ensures
            final(self)@ == (ContextView { amount_text: text@, ..old(self)@ }),
    {
        self.send_amount_text = text;
    }

    /// Replaces the priority fee text.
    pub fn edit_fees(&mut self, text: String)
        ensures
            final(self)@ == (ContextView { fees_text: text@, ..old(self)@ }),
    {
        self.priority_fees_text = text;
    }

    /// Replaces a secret.
    pub fn edit_secrets(&mut self, wallet_secret: String, payment_secret: String)
        ensures
            final(self)@ == (ContextView { wallet_secret: wallet_secret@, payment_secret: payment_secret@, ..old(self)@ }),
    {
        self.wallet_secret = wallet_secret;
        self.payment_secret = payment_secret;
    }

    /// Takes in the parsed amount and priority fee fields: a parsed amount
    /// is kept, missing fees count as zero, and a field that does not parse
    /// (or a missing amount) is reported in the estimate. Returns whether
    /// both fields are usable.
    pub fn update_user_args(&mut self, amount: Result<Option<u64>, String>, fees: Result<Option<u64>, String>) -> (valid: bool)
        ensures
            valid == args_valid(parse_view(amount), parse_view(fees)),
            final(self)@ == with_args(old(self)@, parse_view(amount), parse_view(fees)),
    {
        let mut valid = true;
        match amount {
            Ok(Some(sompi)) => {
                self.send_amount_sompi = sompi;
            },
            Ok(None) => {
                self.estimate = EstimatorStatus::Error(owned("Please enter an amount"));
                valid = false;
            },
            Err(err) => {
                let mut message = owned("Invalid amount: ");
                message.append(err.as_str());
                self.estimate = EstimatorStatus::Error(message);
                valid = false;
            },
        }
        match fees {
            Ok(Some(sompi)) => {
                self.priority_fees_sompi = sompi;
            },
            Ok(None) => {
                self.priority_fees_sompi = 0;
            },
            Err(err) => {
                let mut message = owned("Invalid fee amount: ");
                message.append(err.as_str());
                self.estimate = EstimatorStatus::Error(message);
                valid = false;
            },
        }
        valid
    }

    /// Sets the destination of a transfer from the wallet's accounts: with
    /// exactly two accounts the other one is taken, otherwise a destination
    /// that is the account itself is dropped.
    pub fn transfer_destination(&mut self, self_id: u64, accounts: &Vec<u64>)
        requires
            context_inv(old(self)@),
            old(self)@.kind == Some(TransactionKind::Transfer),
        ensures
            final(self)@ == (ContextView { transfer_to_account: transfer_default(old(self)@.transfer_to_account, self_id, accounts@), ..old(self)@ }),
            context_inv(final(self)@),
    {
        if accounts.len() == 2 {
            if accounts[0] != self_id {
                self.transfer_to_account = Some(accounts[0]);
            } else if accounts[1] != self_id {
                self.transfer_to_account = Some(accounts[1]);
            } else {
                self.transfer_to_account = None;
            }
        } else if self.transfer_to_account == Some(self_id) {
            self.transfer_to_account = None;
        }
    }

    /// Chooses the destination account of a transfer.
    pub fn select_transfer_account(&mut self, id: u64)
        requires
            context_inv(old(self)@),
        ensures
            old(self)@.kind == Some(TransactionKind::Transfer) ==> final(self)@ == (ContextView { transfer_to_account: Some(id), ..old(self)@ }),
            old(self)@.kind != Some(TransactionKind::Transfer) ==> final(self)@ == old(self)@,
            context_inv(final(self)@),
    {
        if self.transaction_kind == Some(TransactionKind::Transfer) {
            self.transfer_to_account = Some(id);
        }
    }

    /// The estimating pass: handles an event given how the amount and fee
    /// fields read, and says whether a new estimate should be made.
    pub fn estimator_step(&mut self, event: EstimatorEvent, amount: Result<Option<u64>, String>, fees: Result<Option<u64>, String>) -> (request: bool)
        requires
            context_inv(old(self)@),
            old(self)@.action == SendAction::Estimating,
        ensures
            (final(self)@, request) == estimator_next(old(self)@, event, parse_view(amount), parse_view(fees)),
            context_inv(final(self)@),
    {
        let asked = match self.request_estimate {
            Some(b) => b,
            None => false,
        };
        self.request_estimate = None;
        if matches!(event, EstimatorEvent::Cancel) {
            self.reset_send_state();
            // The pass still reads the fields, now empty: no amount, no fees.
            self.update_user_args(Ok(None), Ok(None));
            return false;
        }
        let was_enabled = self.enable_priority_fees;
        if matches!(event, EstimatorEvent::ToggleFees) {
            self.enable_priority_fees = !self.enable_priority_fees;
        }
        let enable = self.enable_priority_fees;
        let changed = matches!(event, EstimatorEvent::AmountEdited) || (enable && matches!(event, EstimatorEvent::FeesEdited));
        if matches!(event, EstimatorEvent::SubmitAmount) && !was_enabled {
            let amount_copy = match &amount {
                Ok(a) => Ok(*a),
                Err(e) => Err(e.clone()),
            };
            let fees_copy = match &fees {
                Ok(f) => Ok(*f),
                Err(e) => Err(e.clone()),
            };
            if self.update_user_args(amount_copy, fees_copy) {
                self.action = SendAction::Sending;
            }
        } else if matches!(event, EstimatorEvent::SubmitFees) && enable {
            self.action = SendAction::Sending;
        } else if matches!(event, EstimatorEvent::Send) {
            let allowed = match &self.estimate {
                EstimatorStatus::Summary(_) => {
                    matches!(self.address_status, AddressStatus::Valid)
                        || (self.transaction_kind == Some(TransactionKind::Transfer) && self.transfer_to_account.is_some())
                },
                _ => false,
            };
            if allowed {
                self.action = SendAction::Sending;
            }
        }
        let valid = self.update_user_args(amount, fees);
        valid && (asked || changed) && self.action == SendAction::Estimating
    }

    /// Takes in a finished estimate: its summary, or its error.
    pub fn estimate_done(&mut self, result: Result<GeneratorSummary, String>)
        ensures
            final(self)@ == (ContextView {
                estimate: match result {
                    Ok(s) => EstimateView::Summary(s),
                    Err(m) => EstimateView::Error(m@),
                },
                ..old(self)@
            }),
    {
        self.estimate = match result {
            Ok(s) => EstimatorStatus::Summary(s),
            Err(m) => EstimatorStatus::Error(m),
        };
    }

    /// The wallet-secret pass: handles an event, and returns the payment to
    /// submit when it is submitted.
    pub fn secret_step(&mut self, event: SecretEvent, requires_passphrase: bool) -> (r: Option<SendPlan>)
        requires
            context_inv(old(self)@),
            old(self)@.action == SendAction::Sending,
        ensures
            secret_submits(old(self)@, event, requires_passphrase) ==> {
                &&& r matches Some(p) && plan_matches(p, old(self)@, requires_passphrase)
                &&& final(self)@ == (ContextView { action: SendAction::Processing, ..old(self)@ })
            },
            !secret_submits(old(self)@, event, requires_passphrase) ==> {
                &&& r is None
                &&& final(self)@ == if event is Cancel { ContextView { action: SendAction::Estimating, ..old(self)@ } } else { old(self)@ }
            },
            context_inv(final(self)@),
    {
        let has_wallet = self.wallet_secret.as_str().unicode_len() > 0;
        let has_payment = self.payment_secret.as_str().unicode_len() > 0;
        let submit = match event {
            SecretEvent::SubmitWalletSecret => !requires_passphrase && has_wallet,
            SecretEvent::SubmitPaymentSecret => requires_passphrase && has_wallet && has_payment,
            SecretEvent::Submit => !(!has_wallet || (requires_passphrase && !has_payment)),
            _ => false,
        };
        if submit {
            let payment_secret = if requires_passphrase { Some(self.payment_secret.clone()) } else { None };
            let plan = match self.transaction_kind {
                Some(TransactionKind::Transfer) => SendPlan::Transfer {
                    destination_account: self.transfer_to_account,
                    amount_sompi: self.send_amount_sompi,
                    priority_fee_sompi: self.priority_fees_sompi,
                    wallet_secret: self.wallet_secret.clone(),
                    payment_secret,
                },
                _ => SendPlan::Send {
                    destination: self.destination_address_string.clone(),
                    amount_sompi: self.send_amount_sompi,
                    priority_fee_sompi: self.priority_fees_sompi,
                    wallet_secret: self.wallet_secret.clone(),
                    payment_secret,
                },
            };
            self.action = SendAction::Processing;
            Some(plan)
        } else {
            if matches!(event, SecretEvent::Cancel) {
                self.action = SendAction::Estimating;
            }
            None
        }
    }

    /// Takes in the wallet's answer to a submitted payment: the panel goes
    /// back to rest, wiping everything entered, and shows a failure.
    pub fn send_done(&mut self, result: Result<(), String>)
        requires
            context_inv(old(self)@),
        ensures
            old(self)@.action == SendAction::Processing ==> final(self)@ == match result {
                Ok(()) => at_rest(old(self)@),
                Err(m) => ContextView { action: SendAction::Failed, failure: m@, ..at_rest(old(self)@) },
            },
            old(self)@.action != SendAction::Processing ==> final(self)@ == old(self)@,
            context_inv(final(self)@),
    {
        if self.action == SendAction::Processing {
            self.reset_send_state();
            if let Err(m) = result {
                self.action = SendAction::Failed;
                self.failure = m;
            }
        }
    }
}

/// Every way out of a payment (cancelling it, or the wallet's answer to it)
/// wipes the destination, amounts, fees and secrets; a cancelled payment
/// then asks for an amount, as the emptied amount field reads.
pub proof fn lemma_payment_end_wipes(v: ContextView, amount: Result<Option<u64>, Seq<char>>, fees: Result<Option<u64>, Seq<char>>)
    ensures
        estimator_next(v, EstimatorEvent::Cancel, amount, fees).0
            == (ContextView { estimate: EstimateView::Error("Please enter an amount"@), ..at_rest(ContextView { request_estimate: None, ..v }) }),
        at_rest(v).wallet_secret.len() == 0,
        at_rest(v).payment_secret.len() == 0,
        at_rest(v).destination.len() == 0,
        at_rest(v).amount_text.len() == 0,
        at_rest(v).transfer_to_account is None,
{
}

/// A payment is submitted only with the wallet secret entered, and the
/// passphrase too when the account needs one.
pub proof fn lemma_submit_needs_secrets(v: ContextView, e: SecretEvent, requires_passphrase: bool)
    requires
        secret_submits(v, e, requires_passphrase),
    ensures
        v.wallet_secret.len() > 0,
        requires_passphrase ==> v.payment_secret.len() > 0,
{
}

/// The estimating pass moves on to the secret only with a usable amount
/// and fees when the amount is submitted, or with an estimate that allows
/// sending when the Send button is used.
pub proof fn lemma_estimating_moves_on(v: ContextView, e: EstimatorEvent, amount: Result<Option<u64>, Seq<char>>, fees: Result<Option<u64>, Seq<char>>)
    requires
        v.action == SendAction::Estimating,
        estimator_next(v, e, amount, fees).0.action == SendAction::Sending,
    ensures
        e is SubmitAmount ==> args_valid(amount, fees),
        e is Send ==> estimate_allows_send(ContextView { request_estimate: None, ..v }),
        !(e is SubmitAmount || e is SubmitFees || e is Send) ==> false,
{
}

/// An estimate is asked for only while estimating, with usable fields, and
/// after an edit or a request by another page.
pub proof fn lemma_estimate_requests(v: ContextView, e: EstimatorEvent, amount: Result<Option<u64>, Seq<char>>, fees: Result<Option<u64>, Seq<char>>)
    requires
        estimator_next(v, e, amount, fees).1,
    ensures
        args_valid(amount, fees),
        v.request_estimate == Some(true) || (e is AmountEdited) || (e is FeesEdited),
        estimator_next(v, e, amount, fees).0.action == SendAction::Estimating,
{
}
/// An optional message as plain text.
pub open spec fn error_text(e: Option<String>) -> Option<Seq<char>> {
    match e {
        Some(m) => Some(m@),
        None => None,
    }
}

/// The amount and error of the payment request form once its amount field
/// parsed with the given outcome: an amount is kept, an empty field clears
/// both, and text that does not parse clears the amount and asks for a
/// valid one.
pub fn request_amount_entry(parsed: Result<Option<u64>, String>) -> (r: (Option<u64>, Option<String>))
    ensures
        match parsed {
            Ok(v) => r.0 == v && r.1 is None,
            Err(_) => r.0 is None && error_text(r.1) == Some("Please enter a valid amount of KAS"@),
        },
{
    match parsed {
        Ok(Some(sompi)) => (Some(sompi), None),
        Ok(None) => (None, None),
        Err(_) => (None, Some(owned("Please enter a valid amount of KAS"))),
    }
}

/// Whether a payment can be submitted: the wallet password is entered, and
/// so is the BIP39 passphrase when the account needs one.
pub fn is_ready_to_send(wallet_secret: &str, payment_secret: &str, requires_payment_passphrase: bool) -> (r: bool)
    ensures
        r == !(wallet_secret@.len() == 0 || (requires_payment_passphrase && payment_secret@.len() == 0)),
{
    !(wallet_secret.unicode_len() == 0 || (requires_payment_passphrase && payment_secret.unicode_len() == 0))
}

/// The note after the UTXO count of a balance: how many UTXOs are pending
/// and how many are being processed, when there are any.
pub open spec fn utxo_suffix_text(pending: nat, stasis: nat) -> Seq<char> {
    if pending != 0 && stasis != 0 {
        " ("@ + decimal(pending) + " pending, "@ + decimal(stasis) + " processing)"@
    } else if pending != 0 {
        " ("@ + decimal(pending) + " pending)"@
    } else if stasis != 0 {
        " ("@ + decimal(stasis) + " processing)"@
    } else {
        Seq::empty()
    }
}

/// Writes the note after the UTXO count of a balance.
pub fn utxo_count_suffix(pending_utxo_count: u64, stasis_utxo_count: u64) -> (r: String)
    ensures
        r@ == utxo_suffix_text(pending_utxo_count as nat, stasis_utxo_count as nat),
{
    let mut s = String::new();
    if pending_utxo_count != 0 && stasis_utxo_count != 0 {
        s.append(" (");
        append_digits(&mut s, pending_utxo_count, 10);
        s.append(" pending, ");
        append_digits(&mut s, stasis_utxo_count, 10);
        s.append(" processing)");
    } else if pending_utxo_count != 0 {
        s.append(" (");
        append_digits(&mut s, pending_utxo_count, 10);
        s.append(" pending)");
    } else if stasis_utxo_count != 0 {
        s.append(" (");
        append_digits(&mut s, stasis_utxo_count, 10);
        s.append(" processing)");
    }
    assert(s@ =~= utxo_suffix_text(pending_utxo_count as nat, stasis_utxo_count as nat));
    s
}

} // verus!

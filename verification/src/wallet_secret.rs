use vstd::prelude::*;

verus! {

/// The pages of the wallet-secret change.
#[derive(Clone, Copy, Debug, PartialEq, Eq, Structural)]
pub enum State {
    Start,
    WalletSecret,
    Processing,
    Error,
    Finish,
}

/// What the page reads of the application.
#[derive(Clone, Copy, Debug, PartialEq, Eq, Structural)]
pub struct Env {
    /// Whether a wallet is open.
    pub wallet_open: bool,
    /// Whether there is a previous module to go back to.
    pub has_stack: bool,
}

/// The text fields of the page.
#[derive(Clone, Copy, Debug, PartialEq, Eq, Structural)]
pub enum Field {
    OldSecret,
    NewSecret,
    NewSecretConfirm,
}

/// What happens on the page.
#[derive(Clone, Copy, Debug, PartialEq, Eq, Structural)]
pub enum Event {
    /// A render pass without user action.
    Frame,
    Back,
    /// The Close button.
    Close,
    /// The Change Secret button.
    Continue,
    /// The error page's Retry button.
    Retry,
    ToggleShowSecrets,
    /// Changing the secret finished; whether it succeeded.
    Finished { ok: bool },
}

/// What the application does besides changing the page.
pub enum Outcome {
    Nothing,
    /// Go back to the previous module.
    Leave,
    /// Open the account manager.
    OpenAccounts,
    /// Ask the wallet to change its secret from `old` to `new`.
    ChangeSecret { old: String, new: String },
}

/// The wallet-secret change page.
pub struct WalletSecret {
    pub state: State,
    pub old_secret: String,
    pub new_secret: String,
    pub new_secret_confirm: String,
    pub show_secrets: bool,
    /// Whether the wallet was asked to change its secret and has not
    /// answered.
    pub in_flight: bool,
}

/// The page as plain values.
pub struct SecretView {
    pub state: State,
    pub old_secret: Seq<char>,
    pub new_secret: Seq<char>,
    pub new_secret_confirm: Seq<char>,
    pub show_secrets: bool,
    pub in_flight: bool,
}

impl View for WalletSecret {
    type V = SecretView;

    open spec fn view(&self) -> SecretView {
        SecretView {
            state: self.state,
            old_secret: self.old_secret@,
            new_secret: self.new_secret@,
            new_secret_confirm: self.new_secret_confirm@,
            show_secrets: self.show_secrets,
            in_flight: self.in_flight,
        }
    }
}

/// The page with its secrets wiped and its check box cleared.
pub open spec fn zeroized(v: SecretView) -> SecretView {
    SecretView {
        old_secret: Seq::empty(),
        new_secret: Seq::empty(),
        new_secret_confirm: Seq::empty(),
        show_secrets: false,
        ..v
    }
}

/// Whether the Change Secret button is enabled: the current secret is
/// entered, and the new one is entered and confirmed identically.
pub open spec fn change_allowed(old: Seq<char>, new: Seq<char>, confirm: Seq<char>) -> bool {
    old.len() > 0 && new.len() > 0 && new == confirm
}

/// The page after an event.
pub open spec fn next(v: SecretView, env: Env, e: Event) -> SecretView {
    match v.state {
        State::Start => if env.wallet_open {
            SecretView { state: State::WalletSecret, ..v }
        } else {
            v
        },
        State::WalletSecret => match e {
            Event::Back => SecretView { state: State::Start, ..zeroized(v) },
            Event::ToggleShowSecrets => SecretView { show_secrets: !v.show_secrets, ..v },
            Event::Continue => if change_allowed(v.old_secret, v.new_secret, v.new_secret_confirm) {
                SecretView { state: State::Processing, ..v }
            } else {
                v
            },
            _ => v,
        },
        State::Processing => match e {
            Event::Finished { ok } => if !v.in_flight {
                SecretView { in_flight: true, ..v }
            } else if ok {
                SecretView { state: State::Finish, in_flight: false, ..zeroized(v) }
            } else {
                SecretView { state: State::Error, in_flight: false, ..v }
            },
            _ => SecretView { in_flight: true, ..v },
        },
        State::Error => match e {
            Event::Retry => SecretView { state: State::WalletSecret, ..v },
            Event::Close => SecretView { state: State::Start, ..zeroized(v) },
            _ => v,
        },
        State::Finish => match e {
            Event::Close => SecretView { state: State::Start, ..zeroized(v) },
            _ => v,
        },
    }
}

/// Where closing the error or finish page leads: back when there is a
/// previous module, else to the account manager.
pub open spec fn close_outcome(o: Outcome, env: Env) -> bool {
    if env.has_stack { o is Leave } else { o is OpenAccounts }
}

/// What the application does after an event, besides the page change.
pub open spec fn outcome_matches(o: Outcome, v: SecretView, env: Env, e: Event) -> bool {
    match v.state {
        State::Start => if !env.wallet_open && (e is Back || e is Close) { o is Leave } else { o is Nothing },
        State::WalletSecret => if e is Back { o is Leave } else { o is Nothing },
        State::Processing => if !v.in_flight {
            o matches Outcome::ChangeSecret { old, new } && old@ == v.old_secret && new@ == v.new_secret
        } else {
            o is Nothing
        },
        State::Error | State::Finish => if e is Close { close_outcome(o, env) } else { o is Nothing },
    }
}

/// The page's invariant: the wallet is only waited on while processing,
/// and processing starts only with a change the button allows.
pub open spec fn secret_inv(v: SecretView) -> bool {
    &&& v.in_flight ==> v.state == State::Processing
    &&& v.state == State::Processing ==> change_allowed(v.old_secret, v.new_secret, v.new_secret_confirm)
}

impl WalletSecret {
    /// A page at its start with nothing entered.
    pub fn new() -> (r: Self)
        ensures
            r@ == zeroized(r@),
            r@.state == State::Start,
            !r@.in_flight,
    {
        WalletSecret {
            state: State::Start,
            old_secret: String::new(),
            new_secret: String::new(),
            new_secret_confirm: String::new(),
            show_secrets: false,
            in_flight: false,
        }
    }

    /// Replaces the text of a field; the secrets are edited only on the
    /// secret page.
    pub fn edit(&mut self, field: Field, text: String)
        requires
            secret_inv(old(self)@),
        ensures
            final(self)@ == if old(self)@.state == State::WalletSecret {
                match field {
                    Field::OldSecret => SecretView { old_secret: text@, ..old(self)@ },
                    Field::NewSecret => SecretView { new_secret: text@, ..old(self)@ },
                    Field::NewSecretConfirm => SecretView { new_secret_confirm: text@, ..old(self)@ },
                }
            } else {
                old(self)@
            },
            secret_inv(final(self)@),
    {
        if self.state == State::WalletSecret {
            match field {
                Field::OldSecret => { self.old_secret = text; },
                Field::NewSecret => { self.new_secret = text; },
                Field::NewSecretConfirm => { self.new_secret_confirm = text; },
            }
        }
    }

    /// Wipes the secrets and returns to the start, as leaving the page does.
    pub fn zeroize(&mut self)
        ensures
            final(self)@ == (SecretView { state: State::Start, ..zeroized(old(self)@) }),
    {
        self.old_secret = String::new();
        self.new_secret = String::new();
        self.new_secret_confirm = String::new();
        self.show_secrets = false;
        self.state = State::Start;
    }

    /// Moves the page on after an event, and says what the application
    /// does besides.
    pub fn handle(&mut self, env: Env, event: Event) -> (r: Outcome)
        requires
            secret_inv(old(self)@),
        ensures
            final(self)@ == next(old(self)@, env, event),
            outcome_matches(r, old(self)@, env, event),
            secret_inv(final(self)@),
    {
        match self.state {
            State::Start => {
                if env.wallet_open {
                    self.state = State::WalletSecret;
                    Outcome::Nothing
                } else {
                    match event {
                        Event::Back | Event::Close => Outcome::Leave,
                        _ => Outcome::Nothing,
                    }
                }
            },
            State::WalletSecret => match event {
                Event::Back => {
                    self.zeroize();
                    Outcome::Leave
                },
                Event::ToggleShowSecrets => {
                    self.show_secrets = !self.show_secrets;
                    Outcome::Nothing
                },
                Event::Continue => {
                    if self.old_secret.as_str().unicode_len() > 0 && self.new_secret.as_str().unicode_len() > 0
                        && self.new_secret == self.new_secret_confirm {
                        self.state = State::Processing;
                    }
                    Outcome::Nothing
                },
                _ => Outcome::Nothing,
            },
            State::Processing => {
                let request = if !self.in_flight {
                    Outcome::ChangeSecret { old: self.old_secret.clone(), new: self.new_secret.clone() }
                } else {
                    Outcome::Nothing
                };
                match event {
                    Event::Finished { ok } => {
                        if !self.in_flight {
                            self.in_flight = true;
                        } else {
                            self.in_flight = false;
                            if ok {
                                self.old_secret = String::new();
                                self.new_secret = String::new();
                                self.new_secret_confirm = String::new();
                                self.show_secrets = false;
                                self.state = State::Finish;
                            } else {
                                self.state = State::Error;
                            }
                        }
                    },
                    _ => {
                        self.in_flight = true;
                    },
                }
                request
            },
            State::Error => match event {
                Event::Retry => {
                    self.state = State::WalletSecret;
                    Outcome::Nothing
                },
                Event::Close => {
                    self.zeroize();
                    if env.has_stack { Outcome::Leave } else { Outcome::OpenAccounts }
                },
                _ => Outcome::Nothing,
            },
            State::Finish => match event {
                Event::Close => {
                    self.zeroize();
                    if env.has_stack { Outcome::Leave } else { Outcome::OpenAccounts }
                },
                _ => Outcome::Nothing,
            },
        }
    }
}

/// The text the strength of the new secret is judged on: the new secret,
/// or its confirmation while the new secret is empty.
pub open spec fn score_subject(new: Seq<char>, confirm: Seq<char>) -> Option<Seq<char>> {
    if new.len() > 0 {
        Some(new)
    } else if confirm.len() > 0 {
        Some(confirm)
    } else {
        None
    }
}

/// Picks the text whose strength is shown after an edit of the new secret.
pub fn secret_to_score(new: &str, confirm: &str) -> (r: Option<String>)
    ensures
        match r {
            Some(s) => score_subject(new@, confirm@) == Some(s@),
            None => score_subject(new@, confirm@) is None,
        },
{
    if new.unicode_len() > 0 {
        Some(new.to_owned())
    } else if confirm.unicode_len() > 0 {
        Some(confirm.to_owned())
    } else {
        None
    }
}

/// The note under the secret fields.
#[derive(Clone, Copy, Debug, PartialEq, Eq, Structural)]
pub enum SecretNote {
    /// Nothing to say.
    Blank,
    /// The strength score is shown and is acceptable.
    Score,
    /// The strength score is shown with a request for a stronger secret.
    WeakScore,
    /// The confirmation differs from the new secret.
    Mismatch,
}

/// The note the page shows: the score when one was computed (asking for a
/// stronger secret when it is weak and restrictions apply), else a mismatch
/// between entered secrets.
pub open spec fn note_for(scored: Option<bool>, restrictions_disabled: bool, new: Seq<char>, confirm: Seq<char>) -> SecretNote {
    match scored {
        Some(weak) => if weak && !restrictions_disabled { SecretNote::WeakScore } else { SecretNote::Score },
        None => if confirm.len() > 0 && new != confirm { SecretNote::Mismatch } else { SecretNote::Blank },
    }
}

/// The note under the secret fields, given whether a score was computed
/// and whether it is below the accepted strength.
pub fn secret_note(scored: Option<bool>, restrictions_disabled: bool, new: &String, confirm: &String) -> (r: SecretNote)
    ensures
        r == note_for(scored, restrictions_disabled, new@, confirm@),
{
    match scored {
        Some(weak) => if weak && !restrictions_disabled { SecretNote::WeakScore } else { SecretNote::Score },
        None => if confirm.as_str().unicode_len() > 0 && !(*new == *confirm) { SecretNote::Mismatch } else { SecretNote::Blank },
    }
}

/// The wallet is asked to change its secret only after the button allowed
/// it, with the entered current and new secrets, once per attempt.
pub proof fn lemma_change_request(v: SecretView, env: Env, e: Event)
    requires
        secret_inv(v),
        v.state == State::Processing,
        !v.in_flight,
    ensures
        change_allowed(v.old_secret, v.new_secret, v.new_secret_confirm),
        next(v, env, e).in_flight ==> next(v, env, e).state == State::Processing,
        next(v, env, e).in_flight,
{
}

/// A successful change wipes every secret from the page.
pub proof fn lemma_success_wipes(v: SecretView, env: Env)
    requires
        v.state == State::Processing,
        v.in_flight,
    ensures
        next(v, env, (Event::Finished { ok: true })).state == State::Finish,
        next(v, env, (Event::Finished { ok: true })).old_secret.len() == 0,
        next(v, env, (Event::Finished { ok: true })).new_secret.len() == 0,
        next(v, env, (Event::Finished { ok: true })).new_secret_confirm.len() == 0,
{
}

/// A failed change keeps the entered secrets, so Retry shows them again.
pub proof fn lemma_retry_keeps_entries(v: SecretView, env: Env)
    requires
        v.state == State::Processing,
        v.in_flight,
    ensures
        next(next(v, env, (Event::Finished { ok: false })), env, Event::Retry) == (SecretView { state: State::WalletSecret, in_flight: false, ..v }),
{
}

/// Leaving the page, by Back or Close, wipes the secrets and returns it to
/// its start.
pub proof fn lemma_leaving_wipes(v: SecretView, env: Env, e: Event)
    requires
        (v.state == State::WalletSecret && (e is Back)) || ((v.state == State::Error || v.state == State::Finish) && (e is Close)),
    ensures
        next(v, env, e) == (SecretView { state: State::Start, ..zeroized(v) }),
{
}

} // verus!

use vstd::prelude::*;
use crate::text::owned;

verus! {

/// A wallet file of the wallet list: its title, if it has one, and its file
/// name.
pub struct WalletDescriptor {
    pub title: Option<String>,
    pub filename: String,
}

/// A wallet descriptor as plain values.
pub struct DescriptorView {
    pub title: Option<Seq<char>>,
    pub filename: Seq<char>,
}

/// A wallet descriptor as plain values.
pub open spec fn descriptor_view(d: WalletDescriptor) -> DescriptorView {
    DescriptorView {
        title: match d.title {
            Some(t) => Some(t@),
            None => None,
        },
        filename: d.filename@,
    }
}

/// The name a wallet is shown by on the list: its title, or `NO NAME`.
pub open spec fn list_title(d: DescriptorView) -> Seq<char> {
    match d.title {
        Some(t) => t,
        None => "NO NAME"@,
    }
}

/// The name a wallet is opened by: its title, or its file name.
pub open spec fn opening_name(d: DescriptorView) -> Seq<char> {
    match d.title {
        Some(t) => t,
        None => d.filename,
    }
}

/// The name a wallet is shown by on the list.
pub fn wallet_title(d: &WalletDescriptor) -> (r: String)
    ensures
        r@ == list_title(descriptor_view(*d)),
{
    match &d.title {
        Some(t) => t.clone(),
        None => owned("NO NAME"),
    }
}

/// The two lines a wallet of the list is drawn with: its title (or
/// `NO NAME`) and its file name.
pub fn wallet_descriptor_text(d: &WalletDescriptor) -> (r: String)
    ensures
        r@ == list_title(descriptor_view(*d)) + "\n"@ + d.filename@,
{
    let mut s = wallet_title(d);
    s.append("\n");
    s.append(d.filename.as_str());
    s
}

/// The line naming the wallet being opened: `Opening wallet: "<name>"`.
pub fn opening_line(d: &WalletDescriptor) -> (r: String)
    ensures
        r@ == "Opening wallet: \""@ + opening_name(descriptor_view(*d)) + "\""@,
{
    let mut s = owned("Opening wallet: \"");
    match &d.title {
        Some(t) => s.append(t.as_str()),
        None => s.append(d.filename.as_str()),
    }
    s.append("\"");
    s
}

/// The pages of the wallet-opening flow.
#[derive(Clone, Copy, Debug, PartialEq, Eq, Structural)]
pub enum State {
    /// Choosing a wallet.
    Select,
    /// Entering the password of the chosen wallet.
    Unlock,
    /// Waiting for the wallet to open.
    Unlocking,
}

/// What happens on a page of the flow.
#[derive(Clone, Copy, Debug, PartialEq, Eq, Structural)]
pub enum Event {
    /// A render pass without user action.
    Frame,
    Back,
    /// The Create new wallet button.
    CreateNew,
    /// Enter in the password field, or the Unlock button.
    Unlock,
}

/// What the application does besides changing the page.
pub enum Outcome {
    Nothing,
    /// Go back to the previous module.
    Leave,
    /// Open the wallet-creation flow.
    CreateWallet,
    /// Ask the wallet to open the file with the password.
    Open { wallet_secret: String, filename: String },
}

/// The wallet-opening flow.
pub struct WalletOpen {
    pub state: State,
    /// The chosen wallet.
    pub descriptor: Option<WalletDescriptor>,
    /// The error of the last attempt to open it.
    pub error: Option<String>,
    pub wallet_secret: String,
}

/// The flow as plain values.
pub struct OpenView {
    pub state: State,
    pub descriptor: Option<DescriptorView>,
    pub error: Option<Seq<char>>,
    pub wallet_secret: Seq<char>,
}

impl View for WalletOpen {
    type V = OpenView;

    open spec fn view(&self) -> OpenView {
        OpenView {
            state: self.state,
            descriptor: match self.descriptor {
                Some(d) => Some(descriptor_view(d)),
                None => None,
            },
            error: match self.error {
                Some(e) => Some(e@),
                None => None,
            },
            wallet_secret: self.wallet_secret@,
        }
    }
}

/// The flow's invariant: past the selection a wallet is chosen.
pub open spec fn open_inv(v: OpenView) -> bool {
    v.state != State::Select ==> v.descriptor is Some
}

impl WalletOpen {
    /// A flow choosing a wallet.
    pub fn new() -> (r: Self)
        ensures
            r@.state == State::Select,
            r@.descriptor is None,
            r@.error is None,
            r@.wallet_secret.len() == 0,
            open_inv(r@),
    {
        WalletOpen { state: State::Select, descriptor: None, error: None, wallet_secret: String::new() }
    }

    /// Chooses a wallet to open: the flow asks for its password.
    pub fn open(&mut self, descriptor: WalletDescriptor)
        ensures
            final(self)@ == (OpenView { state: State::Unlock, descriptor: Some(descriptor_view(descriptor)), error: None, ..old(self)@ }),
            open_inv(final(self)@),
    {
        self.descriptor = Some(descriptor);
        self.error = None;
        self.state = State::Unlock;
    }

    /// Replaces the password entered.
    pub fn edit_wallet_secret(&mut self, text: String)
        ensures
            final(self)@ == (OpenView { wallet_secret: text@, ..old(self)@ }),
    {
        self.wallet_secret = text;
    }

    /// Moves the flow on after an event, and says what the application does
    /// besides.
    pub fn handle(&mut self, event: Event) -> (r: Outcome)
        requires
            open_inv(old(self)@),
        ensures
            open_inv(final(self)@),
            old(self)@.state == State::Select ==> {
                &&& final(self)@ == old(self)@
                &&& match event {
                    Event::Back => r is Leave,
                    Event::CreateNew => r is CreateWallet,
                    _ => r is Nothing,
                }
            },
            old(self)@.state == State::Unlock ==> match event {
                Event::Back => final(self)@ == (OpenView { state: State::Select, ..old(self)@ }) && r is Nothing,
                Event::Unlock => {
                    &&& final(self)@ == (OpenView { state: State::Unlocking, wallet_secret: Seq::empty(), ..old(self)@ })
                    &&& r matches Outcome::Open { wallet_secret, filename }
                    &&& wallet_secret@ == old(self)@.wallet_secret
                    &&& filename@ == old(self)@.descriptor->0.filename
                },
                _ => final(self)@ == old(self)@ && r is Nothing,
            },
            old(self)@.state == State::Unlocking ==> final(self)@ == old(self)@ && r is Nothing,
    {
        match self.state {
            State::Select => match event {
                Event::Back => Outcome::Leave,
                Event::CreateNew => Outcome::CreateWallet,
                _ => Outcome::Nothing,
            },
            State::Unlock => match event {
                Event::Back => {
                    self.state = State::Select;
                    Outcome::Nothing
                },
                Event::Unlock => {
                    let filename = match &self.descriptor {
                        Some(d) => d.filename.clone(),
                        None => String::new(),
                    };
                    let wallet_secret = self.wallet_secret.clone();
                    self.wallet_secret = String::new();
                    self.state = State::Unlocking;
                    Outcome::Open { wallet_secret, filename }
                },
                _ => Outcome::Nothing,
            },
            State::Unlocking => Outcome::Nothing,
        }
    }

    /// Takes in whether the wallet opened: on success the flow goes back to
    /// choosing (and the account manager is opened, `true` is returned); on
    /// failure it asks for the password of the same wallet again, showing
    /// the error.
    pub fn unlocked(&mut self, result: Result<(), String>) -> (opened: bool)
        requires
            open_inv(old(self)@),
        ensures
            old(self)@.state == State::Unlocking ==> match result {
                Ok(()) => opened && final(self)@ == (OpenView { state: State::Select, ..old(self)@ }),
                Err(m) => !opened && final(self)@ == (OpenView { state: State::Unlock, error: Some(m@), ..old(self)@ }),
            },
            old(self)@.state != State::Unlocking ==> !opened && final(self)@ == old(self)@,
            open_inv(final(self)@),
    {
        if self.state == State::Unlocking {
            match result {
                Ok(()) => {
                    self.state = State::Select;
                    true
                },
                Err(m) => {
                    self.error = Some(m);
                    self.state = State::Unlock;
                    false
                },
            }
        } else {
            false
        }
    }
}

} // verus!

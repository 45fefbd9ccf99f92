use vstd::prelude::*;
use crate::text::{begins_with, has_prefix};
use kaspa_bip32::Language;

verus! {

/// The number of words of the English BIP39 word list.
pub const BIP39_WORD_COUNT: usize = 2048;

/// The word at a position of `kaspa_bip32`'s English BIP39 word list.
pub uninterp spec fn bip39_english_word(index: int) -> Option<Seq<char>>;

/// Reads the word at a position of `kaspa_bip32`'s English word list
/// (`Language::English.wordlist().iter()`).
/// Claimed: the word is a function of the position alone, and the list has
/// 2048 words (its source file holds 2048 words, one per line).
#[verifier::external_body]
fn english_word(index: usize) -> (r: Option<String>)
    ensures
        match r {
            Some(w) => bip39_english_word(index as int) == Some(w@),
            None => bip39_english_word(index as int) is None,
        },
        r is Some <==> index < BIP39_WORD_COUNT,
{
    match Language::English.wordlist().iter().nth(index) {
        Some(w) => Some(w.to_string()),
        None => None,
    }
}

/// The words among the first `n` of the list that begin with `prefix`, in
/// list order.
pub open spec fn words_with_prefix(prefix: Seq<char>, n: int) -> Seq<Seq<char>>
    decreases n,
{
    if n <= 0 {
        Seq::empty()
    } else {
        let rest = words_with_prefix(prefix, n - 1);
        match bip39_english_word(n - 1) {
            Some(w) => if begins_with(w, prefix) { rest.push(w) } else { rest },
            None => rest,
        }
    }
}

/// The texts of a list of strings.
pub open spec fn word_texts(v: Seq<String>) -> Seq<Seq<char>> {
    v.map_values(|x: String| x@)
}

/// The English BIP39 words that begin with what was typed, in list order:
/// the buttons the word page offers.
pub fn word_suggestions(prefix: &str) -> (r: Vec<String>)
    ensures
        word_texts(r@) == words_with_prefix(prefix@, BIP39_WORD_COUNT as int),
{
    let mut r: Vec<String> = Vec::new();
    let mut i: usize = 0;
    while i < BIP39_WORD_COUNT
        invariant
            i <= BIP39_WORD_COUNT,
            word_texts(r@) == words_with_prefix(prefix@, i as int),
        decreases BIP39_WORD_COUNT - i,
    {
        match english_word(i) {
            Some(w) => {
                if has_prefix(w.as_str(), prefix) {
                    let ghost before = r@;
                    r.push(w);
                    proof {
                        assert(word_texts(r@) =~= word_texts(before).push(r@[before.len() as int]@));
                    }
                }
            },
            None => {},
        }
        i = i + 1;
    }
    r
}

/// The pages of the legacy import module.
#[derive(Clone, Copy, Debug, PartialEq, Eq, Structural)]
pub enum State {
    /// Entering the mnemonic word by word.
    Words,
    /// Choosing the wallet file.
    Select,
    /// Entering the wallet password.
    Unlock,
    Unlocking,
}

/// What the application does besides changing the page.
pub enum Outcome {
    Nothing,
    /// Ask the wallet to open the chosen file with the password.
    Open { wallet_secret: String, filename: Option<String> },
}

/// The legacy import module.
pub struct Import {
    pub state: State,
    /// The word being typed.
    pub word: String,
    /// The words entered so far.
    pub mnemonic: Vec<String>,
    pub wallet_secret: String,
    /// The chosen wallet file.
    pub selected_wallet: Option<String>,
    /// The error of the last attempt to open the wallet.
    pub message: Option<String>,
}

/// An optional string as plain text.
pub open spec fn opt_text(o: Option<String>) -> Option<Seq<char>> {
    match o {
        Some(s) => Some(s@),
        None => None,
    }
}

impl Import {
    /// A module on its word page with nothing entered.
    pub fn new() -> (r: Self)
        ensures
            r.state == State::Words,
            r.word@.len() == 0,
            r.mnemonic@.len() == 0,
            r.wallet_secret@.len() == 0,
            r.selected_wallet is None,
            r.message is None,
    {
        Import {
            state: State::Words,
            word: String::new(),
            mnemonic: Vec::new(),
            wallet_secret: String::new(),
            selected_wallet: None,
            message: None,
        }
    }

    /// Asks for the password again.
    pub fn lock(&mut self)
        ensures
            final(self).state == State::Unlock,
            final(self).message is None,
            final(self).word@ == old(self).word@,
            word_texts(final(self).mnemonic@) == word_texts(old(self).mnemonic@),
            final(self).wallet_secret@ == old(self).wallet_secret@,
            opt_text(final(self).selected_wallet) == opt_text(old(self).selected_wallet),
    {
        self.state = State::Unlock;
        self.message = None;
    }

    /// A suggested word was chosen on the word page: it is added to the
    /// mnemonic and the typed word is cleared.
    pub fn choose_word(&mut self, word: String)
        ensures
            old(self).state == State::Words ==> {
                &&& word_texts(final(self).mnemonic@) == word_texts(old(self).mnemonic@).push(word@)
                &&& final(self).word@.len() == 0
            },
            old(self).state != State::Words ==> word_texts(final(self).mnemonic@) == word_texts(old(self).mnemonic@) && final(self).word@ == old(self).word@,
            final(self).state == old(self).state,
            final(self).wallet_secret@ == old(self).wallet_secret@,
    {
        if self.state == State::Words {
            let ghost before = self.mnemonic@;
            self.mnemonic.push(word);
            self.word = String::new();
            proof {
                assert(word_texts(self.mnemonic@) =~= word_texts(before).push(self.mnemonic@[before.len() as int]@));
            }
        }
    }

    /// A wallet file was chosen on the selection page.
    pub fn select_wallet(&mut self, filename: String)
        ensures
            old(self).state == State::Select ==> {
                &&& final(self).state == State::Unlock
                &&& final(self).message is None
                &&& opt_text(final(self).selected_wallet) == Some(filename@)
            },
            old(self).state != State::Select ==> final(self).state == old(self).state
                && opt_text(final(self).selected_wallet) == opt_text(old(self).selected_wallet),
            final(self).wallet_secret@ == old(self).wallet_secret@,
    {
        if self.state == State::Select {
            self.selected_wallet = Some(filename);
            self.message = None;
            self.state = State::Unlock;
        }
    }

    /// The password page's Select a different wallet button.
    pub fn choose_other_wallet(&mut self)
        ensures
            final(self).state == if old(self).state == State::Unlock { State::Select } else { old(self).state },
            final(self).wallet_secret@ == old(self).wallet_secret@,
    {
        if self.state == State::Unlock {
            self.state = State::Select;
        }
    }

    /// The password page's Unlock button: the password is handed over and
    /// wiped, and the module waits for the wallet.
    pub fn unlock(&mut self) -> (r: Outcome)
        ensures
            old(self).state == State::Unlock ==> {
                &&& final(self).state == State::Unlocking
                &&& final(self).wallet_secret@.len() == 0
                &&& r matches Outcome::Open { wallet_secret, filename }
                &&& wallet_secret@ == old(self).wallet_secret@
                &&& opt_text(filename) == opt_text(old(self).selected_wallet)
            },
            old(self).state != State::Unlock ==> final(self).state == old(self).state && r is Nothing
                && final(self).wallet_secret@ == old(self).wallet_secret@,
    {
        if self.state == State::Unlock {
            let wallet_secret = self.wallet_secret.clone();
            self.wallet_secret = String::new();
            self.state = State::Unlocking;
            Outcome::Open { wallet_secret, filename: self.selected_wallet.clone() }
        } else {
            Outcome::Nothing
        }
    }

    /// Takes in whether the wallet opened: on failure the password page shows
    /// the error; on success the account manager is opened (`true`).
    pub fn unlocked(&mut self, result: Result<(), String>) -> (opened: bool)
        ensures
            old(self).state == State::Unlocking ==> match result {
                Ok(()) => opened && final(self).state == State::Unlocking,
                Err(m) => !opened && final(self).state == State::Unlock && opt_text(final(self).message) == Some(m@),
            },
            old(self).state != State::Unlocking ==> !opened && final(self).state == old(self).state,
    {
        if self.state == State::Unlocking {
            match result {
                Ok(()) => true,
                Err(m) => {
                    self.message = Some(m);
                    self.state = State::Unlock;
                    false
                },
            }
        } else {
            false
        }
    }
}

} // verus!

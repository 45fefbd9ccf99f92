use vstd::prelude::*;
use crate::account_create::KeyChoice;

verus! {

/// The kind of an account, as far as its description goes.
#[derive(Clone, Copy, Debug, PartialEq, Eq, Structural)]
pub enum AccountKindClass {
    Legacy,
    Bip32,
    MultiSig,
    Keypair,
    /// A kind the wallet does not describe.
    Other,
}

/// The name of an account kind and the wallets that make such accounts.
pub open spec fn account_description(k: AccountKindClass) -> (Seq<char>, Seq<char>) {
    match k {
        AccountKindClass::Legacy => ("Legacy Account"@, "KDX, PWA (kaspanet.io)"@),
        AccountKindClass::Bip32 => ("Kaspa Core BIP32"@, "kaspawallet, kaspium"@),
        AccountKindClass::MultiSig => ("Multi-Signature"@, ""@),
        AccountKindClass::Keypair => ("Keypair"@, "secp256k1"@),
        AccountKindClass::Other => (""@, ""@),
    }
}

/// Account kinds that describe themselves: a name and the wallets that
/// make such accounts.
pub trait DescribeAccount {
    fn describe(&self) -> (&'static str, &'static str);
}

impl DescribeAccount for AccountKindClass {
    fn describe(&self) -> (r: (&'static str, &'static str))
        ensures
            (r.0@, r.1@) == account_description(*self),
    {
        match self {
            AccountKindClass::Legacy => ("Legacy Account", "KDX, PWA (kaspanet.io)"),
            AccountKindClass::Bip32 => ("Kaspa Core BIP32", "kaspawallet, kaspium"),
            AccountKindClass::MultiSig => ("Multi-Signature", ""),
            AccountKindClass::Keypair => ("Keypair", "secp256k1"),
            AccountKindClass::Other => ("", ""),
        }
    }
}


/// Whether one of the given private key ids belongs to a key of the list
/// that is protected by a BIP39 passphrase.
pub open spec fn some_key_needs_passphrase(key_ids: Seq<u64>, keys: Seq<KeyChoice>) -> bool {
    exists|i: int, j: int| #![trigger key_ids[i], keys[j]] 0 <= i < key_ids.len() && 0 <= j < keys.len()
        && key_ids[i] == keys[j].id && keys[j].requires_bip39_passphrase
}

/// Whether one of the account's private keys, looked up among the wallet's
/// keys, is protected by a BIP39 passphrase.
pub open spec fn needs_bip39_passphrase(key_ids: Seq<u64>, keys: Option<Seq<KeyChoice>>) -> bool {
    match keys {
        Some(k) => some_key_needs_passphrase(key_ids, k),
        None => false,
    }
}

fn any_key_needs_passphrase(key_ids: &Vec<u64>, k: &Vec<KeyChoice>) -> (r: bool)
    ensures
        r == some_key_needs_passphrase(key_ids@, k@),
{
    let mut i: usize = 0;
    while i < key_ids.len()
        invariant
            i <= key_ids@.len(),
            forall|x: int, j: int| 0 <= x < i && 0 <= j < k@.len() && #[trigger] key_ids@[x] == #[trigger] k@[j].id
                ==> !k@[j].requires_bip39_passphrase,
        decreases key_ids@.len() - i,
    {
        let id = key_ids[i];
        let mut j: usize = 0;
        while j < k.len()
            invariant
                i < key_ids@.len(),
                id == key_ids@[i as int],
                j <= k@.len(),
                forall|x: int, y: int| 0 <= x < i && 0 <= y < k@.len() && #[trigger] key_ids@[x] == #[trigger] k@[y].id
                    ==> !k@[y].requires_bip39_passphrase,
                forall|y: int| 0 <= y < j && #[trigger] k@[y].id == id ==> !k@[y].requires_bip39_passphrase,
            decreases k@.len() - j,
        {
            if k[j].id == id && k[j].requires_bip39_passphrase {
                proof {
                    let (a, b) = (i as int, j as int);
                    assert(0 <= a < key_ids@.len() && 0 <= b < k@.len());
                    assert(key_ids@[a] == k@[b].id && k@[b].requires_bip39_passphrase);
                }
                return true;
            }
            j = j + 1;
        }
        i = i + 1;
    }
    false
}

/// Whether an account whose private keys have the given ids needs a BIP39
/// passphrase, given the wallet's private keys (none when they are not
/// loaded).
pub fn requires_bip39_passphrase(key_ids: &Vec<u64>, keys: Option<&Vec<KeyChoice>>) -> (r: bool)
    ensures
        r == needs_bip39_passphrase(key_ids@, match keys { Some(k) => Some(k@), None => None }),
{
    match keys {
        None => false,
        Some(k) => any_key_needs_passphrase(key_ids, k),
    }
}

} // verus!

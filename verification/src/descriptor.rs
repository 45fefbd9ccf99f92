use vstd::prelude::*;
use crate::text::owned;
use convert_case::{Case, Casing};

verus! {

/// The upper camel case `convert_case` makes of a text (`bip32` gives
/// `Bip32`).
pub uninterp spec fn upper_camel_of(text: Seq<char>) -> Seq<char>;

/// Converts a text to upper camel case with `convert_case`'s
/// `Casing::to_case(Case::UpperCamel)`.
/// Claimed: the result is a function of the text alone.
#[verifier::external_body]
fn upper_camel_case(text: &str) -> (r: String)
    ensures
        r@ == upper_camel_of(text@),
{
    text.to_case(Case::UpperCamel)
}

/// The type line of an account descriptor: its account kind in upper camel
/// case.
pub fn account_kind_title(kind: &str) -> (r: String)
    ensures
        r@ == upper_camel_of(kind@),
{
    upper_camel_case(kind)
}

/// The name line of an account descriptor: its name, or `...` when it has
/// none.
pub fn account_name_text(name: Option<&str>) -> (r: String)
    ensures
        r@ == match name {
            Some(n) => n@,
            None => "..."@,
        },
{
    match name {
        Some(n) => owned(n),
        None => owned("..."),
    }
}

/// An address line of an account descriptor: the address, or `N/A` when
/// there is none.
pub fn address_text(address: Option<&str>) -> (r: String)
    ensures
        r@ == match address {
            Some(a) => a@,
            None => "N/A"@,
        },
{
    match address {
        Some(a) => owned(a),
        None => owned("N/A"),
    }
}

/// The explorer page of an address: `<explorer>/addresses/<address>`.
pub fn explorer_address_link(explorer: &str, address: &str) -> (r: String)
    ensures
        r@ == explorer@ + "/addresses/"@ + address@,
{
    let mut s = owned(explorer);
    s.append("/addresses/");
    s.append(address);
    s
}

/// The explorer page of a transaction: `<explorer>/txs/<id>`.
pub fn explorer_transaction_link(explorer: &str, transaction_id: &str) -> (r: String)
    ensures
        r@ == explorer@ + "/txs/"@ + transaction_id@,
{
    let mut s = owned(explorer);
    s.append("/txs/");
    s.append(transaction_id);
    s
}

} // verus!

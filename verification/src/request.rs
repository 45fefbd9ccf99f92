use vstd::prelude::*;
use vstd::string::*;
use crate::text::{hex_lower, hex_string, owned};

verus! {

/// A payment request: an address, an optional amount in sompi and an
/// optional label.
pub struct RequestUri {
    pub address: String,
    pub amount_sompi: Option<u64>,
    pub label: Option<String>,
}

/// The text of a payment request URI, given how its amount is written in
/// KAS: the address, then `?amount=` and the amount when there is one, then
/// `?label=` and the label when there is one.
pub open spec fn request_uri_text(address: Seq<char>, has_amount: bool, amount_kas: Seq<char>, label: Option<Seq<char>>) -> Seq<char> {
    let with_amount = if has_amount { address + "?amount="@ + amount_kas } else { address };
    match label {
        Some(l) => with_amount + "?label="@ + l,
        None => with_amount,
    }
}

/// The label of a request as plain text.
pub open spec fn label_text(label: Option<String>) -> Option<Seq<char>> {
    match label {
        Some(l) => Some(l@),
        None => None,
    }
}

impl RequestUri {
    /// A request to `address` for an optional amount with an optional label.
    pub fn new(address: String, amount_sompi: Option<u64>, label: Option<String>) -> (r: Self)
        ensures
            r.address@ == address@,
            r.amount_sompi == amount_sompi,
            label_text(r.label) == label_text(label),
    {
        RequestUri { address, amount_sompi, label }
    }

    /// The URI of the request, with the amount written as `amount_kas`
    /// (the amount in KAS as the caller formats it).
    pub fn to_uri(&self, amount_kas: &str) -> (r: String)
        ensures
            r@ == request_uri_text(self.address@, self.amount_sompi is Some, amount_kas@, label_text(self.label)),
    {
        let mut uri = self.address.clone();
        if self.amount_sompi.is_some() {
            uri.append("?amount=");
            uri.append(amount_kas);
        }
        match &self.label {
            Some(label) => {
                uri.append("?label=");
                uri.append(label.as_str());
            },
            None => {},
        }
        uri
    }
}

/// The 64-bit XXH3 hash of the UTF-8 bytes of a text.
pub uninterp spec fn xxh3_64_of(text: Seq<char>) -> u64;

/// Hashes the UTF-8 bytes of `text` with `xxhash_rust::xxh3::xxh3_64`.
/// Claimed: the hash is a function of the text alone.
#[verifier::external_body]
fn xxh3_of_text(text: &str) -> (r: u64)
    ensures
        r == xxh3_64_of(text@),
{
    xxhash_rust::xxh3::xxh3_64(text.as_bytes())
}

/// The name a QR image is cached under, and its image URI
/// `bytes://<name>.svg`, for a hash: the name is the hash in lower-case
/// hexadecimal.
pub fn qr_image_key(hash: u64) -> (r: (String, String))
    ensures
        r.0@ == hex_lower(hash as nat),
        r.1@ == "bytes://"@ + hex_lower(hash as nat) + ".svg"@,
{
    let name = hex_string(hash);
    let mut uri = owned("bytes://");
    uri.append(name.as_str());
    uri.append(".svg");
    (name, uri)
}

/// The cache name and image URI of the QR code of a request URI drawn in a
/// theme: the hash of the URI followed by the theme's name.
pub fn qr_cache_key(request_uri: &str, theme_name: &str) -> (r: (String, String))
    ensures
        r.0@ == hex_lower(xxh3_64_of(request_uri@ + theme_name@) as nat),
        r.1@ == "bytes://"@ + hex_lower(xxh3_64_of(request_uri@ + theme_name@) as nat) + ".svg"@,
{
    let mut text = owned(request_uri);
    text.append(theme_name);
    let hash = xxh3_of_text(text.as_str());
    qr_image_key(hash)
}

/// The image URI an account's QR code is cached under:
/// `bytes://<address>-<theme>.svg`.
pub fn account_qr_uri(address: &str, theme_name: &str) -> (r: String)
    ensures
        r@ == "bytes://"@ + address@ + "-"@ + theme_name@ + ".svg"@,
{
    let mut uri = owned("bytes://");
    uri.append(address);
    uri.append("-");
    uri.append(theme_name);
    uri.append(".svg");
    uri
}

} // verus!

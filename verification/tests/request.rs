use kaspa_ng::request::{account_qr_uri, qr_cache_key, qr_image_key, RequestUri};

#[test]
fn request_uri_text() {
    let r = RequestUri::new("kaspa:abc".to_string(), None, None);
    assert_eq!(r.to_uri("1.5"), "kaspa:abc");
    let r = RequestUri::new("kaspa:abc".to_string(), Some(150_000_000), None);
    assert_eq!(r.to_uri("1.5"), "kaspa:abc?amount=1.5");
    let r = RequestUri::new("kaspa:abc".to_string(), Some(150_000_000), Some("tea".to_string()));
    assert_eq!(r.to_uri("1.5"), "kaspa:abc?amount=1.5?label=tea");
    let r = RequestUri::new("kaspa:abc".to_string(), None, Some("tea".to_string()));
    assert_eq!(r.to_uri("ignored"), "kaspa:abc?label=tea");
}

#[test]
fn qr_image_key_hex() {
    let (name, uri) = qr_image_key(0xbeef);
    assert_eq!(name, "beef");
    assert_eq!(uri, "bytes://beef.svg");
    let (name, _) = qr_image_key(0);
    assert_eq!(name, "0");
    let (name, _) = qr_image_key(u64::MAX);
    assert_eq!(name, "ffffffffffffffff");
}

#[test]
fn qr_cache_key_hashes_uri_and_theme() {
    let (name, uri) = qr_cache_key("kaspa:abc?amount=1", "dark");
    let expected = format!("{:x}", xxhash_rust::xxh3::xxh3_64("kaspa:abc?amount=1dark".as_bytes()));
    assert_eq!(name, expected);
    assert_eq!(uri, format!("bytes://{expected}.svg"));
    let (other, _) = qr_cache_key("kaspa:abc?amount=1", "light");
    assert_ne!(name, other);
}

#[test]
fn account_qr_uri_text() {
    assert_eq!(account_qr_uri("kaspa:xyz", "dark"), "bytes://kaspa:xyz-dark.svg");
}

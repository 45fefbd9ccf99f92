use kaspa_ng::descriptor::{
    account_kind_title, account_name_text, address_text, explorer_address_link, explorer_transaction_link,
};

#[test]
fn account_kind_titles() {
    assert_eq!(account_kind_title("bip32"), "Bip32");
    assert_eq!(account_kind_title("legacy"), "Legacy");
    assert_eq!(account_kind_title("multisig"), "Multisig");
    assert_eq!(account_kind_title("keypair"), "Keypair");
}

#[test]
fn descriptor_fields() {
    assert_eq!(account_name_text(Some("Savings")), "Savings");
    assert_eq!(account_name_text(None), "...");
    assert_eq!(address_text(Some("kaspa:abc")), "kaspa:abc");
    assert_eq!(address_text(None), "N/A");
}

#[test]
fn explorer_links() {
    assert_eq!(explorer_address_link("https://explorer.example", "kaspa:abc"), "https://explorer.example/addresses/kaspa:abc");
    assert_eq!(explorer_transaction_link("https://explorer.example", "f00d"), "https://explorer.example/txs/f00d");
}

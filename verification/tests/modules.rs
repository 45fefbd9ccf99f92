use kaspa_ng::account::{requires_bip39_passphrase, AccountKindClass, DescribeAccount};
use kaspa_ng::account_create::KeyChoice;
use kaspa_ng::export::ExportKind;

#[test]
fn export_kind_info() {
    assert_eq!(
        ExportKind::Mnemonic.info(),
        ("Private Key Mnemonic", "Private key mnemonic stored in this wallet")
    );
    assert_eq!(ExportKind::Transportable.info().0, "Transportable");
    let mut kind = ExportKind::Transportable;
    kind.zeroize();
    assert_eq!(kind, ExportKind::Mnemonic);
    assert_eq!(ExportKind::default(), ExportKind::Mnemonic);
}

#[test]
fn account_kind_descriptions() {
    assert_eq!(AccountKindClass::Legacy.describe(), ("Legacy Account", "KDX, PWA (kaspanet.io)"));
    assert_eq!(AccountKindClass::Bip32.describe(), ("Kaspa Core BIP32", "kaspawallet, kaspium"));
    assert_eq!(AccountKindClass::MultiSig.describe(), ("Multi-Signature", ""));
    assert_eq!(AccountKindClass::Keypair.describe(), ("Keypair", "secp256k1"));
    assert_eq!(AccountKindClass::Other.describe(), ("", ""));
}

#[test]
fn bip39_passphrase_lookup() {
    let keys = vec![
        KeyChoice { id: 1, requires_bip39_passphrase: false },
        KeyChoice { id: 2, requires_bip39_passphrase: true },
    ];
    assert!(!requires_bip39_passphrase(&vec![1], Some(&keys)));
    assert!(requires_bip39_passphrase(&vec![1, 2], Some(&keys)));
    assert!(!requires_bip39_passphrase(&vec![3], Some(&keys)));
    assert!(!requires_bip39_passphrase(&vec![2], None));
    assert!(!requires_bip39_passphrase(&vec![], Some(&keys)));
}

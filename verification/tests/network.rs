use kaspa_ng::error::Error;
use kaspa_ng::network::{
    above_capacity, below_capacity, kaspa_suffix, pressure_is_high, AddressPrefix, Network, NetworkId, NetworkType,
    BASIC_TRANSACTION_MASS,
};

#[test]
fn network_text_round_trip() {
    for network in Network::iter() {
        let text = network.to_string();
        assert_eq!(Network::from_str(text.as_str()).ok(), Some(network));
    }
}

#[test]
fn network_texts() {
    assert_eq!(Network::Mainnet.to_string(), "mainnet");
    assert_eq!(Network::Testnet10.to_string(), "testnet-10");
}

#[test]
fn network_from_str_rejects_other_text() {
    match Network::from_str("testnet-11") {
        Err(Error::InvalidNetwork(text)) => assert_eq!(text, "testnet-11"),
        _ => panic!("expected an invalid network error"),
    }
    assert!(Network::from_str("Mainnet").is_err());
    assert!(Network::from_str("").is_err());
}

#[test]
fn network_iter_lists_both() {
    assert_eq!(Network::iter(), vec![Network::Mainnet, Network::Testnet10]);
}

#[test]
fn network_names_and_descriptions() {
    assert_eq!(Network::Mainnet.name(), "Mainnet");
    assert_eq!(Network::Testnet10.name(), "Testnet 10");
    assert_eq!(Network::Mainnet.describe(), "Main Kaspa network");
    assert_eq!(Network::Testnet10.describe(), "10 BPS test network");
}

#[test]
fn network_default_is_mainnet() {
    assert_eq!(Network::default(), Network::Mainnet);
}

#[test]
fn network_ids_round_trip() {
    for network in Network::iter() {
        let id = network.network_id();
        assert_eq!(id.network_type, network.network_type());
        assert_eq!(Network::from_network_id(id), network);
    }
    assert_eq!(
        Network::Testnet10.network_id(),
        NetworkId { network_type: NetworkType::Testnet, suffix: Some(10) }
    );
    let suffixed_mainnet = NetworkId { network_type: NetworkType::Mainnet, suffix: Some(3) };
    assert_eq!(Network::from_network_id(suffixed_mainnet), Network::Mainnet);
}

#[test]
fn network_address_prefixes() {
    assert_eq!(Network::Mainnet.address_prefix(), AddressPrefix::Mainnet);
    assert_eq!(Network::Testnet10.address_prefix(), AddressPrefix::Testnet);
    assert_eq!(AddressPrefix::Mainnet.as_str(), "kaspa");
    assert_eq!(AddressPrefix::Testnet.as_str(), "kaspatest");
    assert_eq!(AddressPrefix::Simnet.as_str(), "kaspasim");
    assert_eq!(AddressPrefix::Devnet.as_str(), "kaspadev");
    for t in [NetworkType::Mainnet, NetworkType::Testnet, NetworkType::Devnet, NetworkType::Simnet] {
        assert_eq!(t.address_prefix().network_type(), t);
    }
}

#[test]
fn network_type_texts_and_suffixes() {
    assert_eq!(NetworkType::Mainnet.to_string(), "mainnet");
    assert_eq!(NetworkType::Testnet.to_string(), "testnet");
    assert_eq!(NetworkType::Devnet.to_string(), "devnet");
    assert_eq!(NetworkType::Simnet.to_string(), "simnet");
    assert_eq!(kaspa_suffix(&NetworkType::Mainnet), "KAS");
    assert_eq!(kaspa_suffix(&NetworkType::Testnet), "TKAS");
    assert_eq!(kaspa_suffix(&NetworkType::Simnet), "SKAS");
    assert_eq!(kaspa_suffix(&NetworkType::Devnet), "DKAS");
}

#[test]
fn network_tps_from_consensus_params() {
    // 500 000 mass per block holds 245 basic transactions; 10 blocks per second.
    assert_eq!(Network::Mainnet.tps(), 2450);
    assert_eq!(Network::Testnet10.tps(), 2450);
}

#[test]
fn tps_for_capacity_formula() {
    assert_eq!(BASIC_TRANSACTION_MASS, 2036);
    assert_eq!(kaspa_ng::network::tps_for_capacity(500_000, 10), 2450);
    assert_eq!(kaspa_ng::network::tps_for_capacity(2035, 1000), 0);
    assert_eq!(kaspa_ng::network::tps_for_capacity(u64::MAX, 1000), u64::MAX / 2036 * 1000);
}

#[test]
fn pressure_hysteresis_and_capacity() {
    assert!(pressure_is_high(true, true, false));
    assert!(!pressure_is_high(true, false, false));
    assert!(!pressure_is_high(false, true, false));
    assert!(pressure_is_high(false, true, true));
    assert!(above_capacity(91));
    assert!(!above_capacity(90));
    assert!(below_capacity(90));
    assert!(!below_capacity(100));
}

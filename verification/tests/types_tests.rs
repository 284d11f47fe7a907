use inscribe::types::{
    block_headers_request, transform_network, BitcoinNetwork, EcdsaCurve, EcdsaKeyIds, Chain,
};

#[test]
fn networks_map_to_bitcoin_networks() {
    assert_eq!(transform_network(BitcoinNetwork::Mainnet), Chain::Bitcoin);
    assert_eq!(transform_network(BitcoinNetwork::Testnet), Chain::Testnet);
    assert_eq!(transform_network(BitcoinNetwork::Regtest), Chain::Regtest);
}

#[test]
fn ecdsa_key_ids() {
    assert_eq!(EcdsaKeyIds::TestKey1.to_key_id().name, "test_key_1");
    assert_eq!(EcdsaKeyIds::ProductionKey.to_key_id().name, "key_1");
    assert_eq!(EcdsaKeyIds::TestKeyLocalDevelopment.to_key_id().name, "dfx_test_key");
    assert_eq!(EcdsaKeyIds::ProductionKey.to_key_id().curve, EcdsaCurve::Secp256k1);
}

#[test]
fn block_header_requests_pay_cycles_off_regtest() {
    let (req, cycles) = block_headers_request(BitcoinNetwork::Mainnet, 10, Some(20));
    assert_eq!(req.start_height, 10);
    assert_eq!(req.end_height, Some(20));
    assert_eq!(req.network, BitcoinNetwork::Mainnet);
    assert_eq!(cycles, 10_000_000_000);
    assert_eq!(block_headers_request(BitcoinNetwork::Testnet, 0, None).1, 10_000_000_000);
    assert_eq!(block_headers_request(BitcoinNetwork::Regtest, 0, None).1, 0);
}

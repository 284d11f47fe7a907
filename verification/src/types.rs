//! The canister's argument and configuration types.
use vstd::prelude::*;

verus! {

/// The Bitcoin network that the management canister serves.
#[derive(Debug, Clone, Copy, PartialEq, Eq, Structural)]
pub enum BitcoinNetwork {
    Mainnet,
    Testnet,
    Regtest,
}

/// The network as the `bitcoin` crate names it.
#[derive(Debug, Clone, Copy, PartialEq, Eq, Structural)]
pub enum Chain {
    Bitcoin,
    Testnet,
    Signet,
    Regtest,
}

pub open spec fn spec_transform_network(network: BitcoinNetwork) -> Chain {
    match network {
        BitcoinNetwork::Mainnet => Chain::Bitcoin,
        BitcoinNetwork::Testnet => Chain::Testnet,
        BitcoinNetwork::Regtest => Chain::Regtest,
    }
}

/// Maps the management canister's network to the `bitcoin` crate's one.
pub fn transform_network(network: BitcoinNetwork) -> (r: Chain)
    ensures
        r == spec_transform_network(network),
        network == BitcoinNetwork::Mainnet ==> r == Chain::Bitcoin,
        network == BitcoinNetwork::Testnet ==> r == Chain::Testnet,
        network == BitcoinNetwork::Regtest ==> r == Chain::Regtest,
{
    match network {
        BitcoinNetwork::Mainnet => Chain::Bitcoin,
        BitcoinNetwork::Testnet => Chain::Testnet,
        BitcoinNetwork::Regtest => Chain::Regtest,
    }
}

/// The threshold-ECDSA keys that the canister may sign with.
#[derive(Debug, Clone, Copy, PartialEq, Eq, Structural)]
pub enum EcdsaKeyIds {
    TestKey1,
    ProductionKey,
    TestKeyLocalDevelopment,
}

/// The curve of a threshold-ECDSA key.
#[derive(Debug, Clone, Copy, PartialEq, Eq, Structural)]
pub enum EcdsaCurve {
    Secp256k1,
}

/// A threshold-ECDSA key as the management canister names it.
#[derive(Debug, Clone)]
pub struct EcdsaKeyId {
    pub curve: EcdsaCurve,
    pub name: String,
}

/// The management canister's name of each key.
pub open spec fn ecdsa_key_name(key: EcdsaKeyIds) -> Seq<char> {
    match key {
        EcdsaKeyIds::TestKey1 => "test_key_1"@,
        EcdsaKeyIds::ProductionKey => "key_1"@,
        EcdsaKeyIds::TestKeyLocalDevelopment => "dfx_test_key"@,
    }
}

impl EcdsaKeyIds {
    /// The key id that the management canister expects for this key.
    pub fn to_key_id(&self) -> (id: EcdsaKeyId)
        ensures
            id.curve == EcdsaCurve::Secp256k1,
            id.name@ == ecdsa_key_name(*self),
    {
        let name = match self {
            EcdsaKeyIds::TestKey1 => String::from_str("test_key_1"),
            EcdsaKeyIds::ProductionKey => String::from_str("key_1"),
            EcdsaKeyIds::TestKeyLocalDevelopment => String::from_str("dfx_test_key"),
        };
        EcdsaKeyId { curve: EcdsaCurve::Secp256k1, name }
    }
}

/// The signature scheme of a threshold-Schnorr key.
#[derive(Debug, Clone, Copy, PartialEq, Eq, Structural)]
pub enum SchnorrAlgorithm {
    Bip340Secp256k1,
}

/// A threshold-Schnorr key as the management canister names it.
#[derive(Debug, Clone)]
pub struct SchnorrKeyId {
    pub name: String,
    pub algorithm: SchnorrAlgorithm,
}

/// What the caller asks for when etching a rune.
#[derive(Debug, Clone)]
pub struct EtchingArgs {
    pub divisibility: u8,
    pub symbol: u32,
    pub rune: String,
    pub amount: u128,
    pub cap: u128,
    pub turbo: bool,
    pub premine: u128,
    pub height: Option<(u64, u64)>,
    pub offset: Option<(u64, u64)>,
    pub fee_rate: Option<u64>,
}

/// The id of an etched rune: the block it was etched in and the
/// transaction's index in that block.
#[derive(Debug, Clone, Copy, PartialEq, Eq, Structural)]
pub struct RuneMintId {
    pub block: u64,
    pub tx: u32,
}

/// What the caller asks for when minting a rune.
#[derive(Debug, Clone)]
pub struct MintArgs {
    pub rune_id: RuneMintId,
    pub amount: u64,
    pub dst: String,
    pub fee_rate: Option<u64>,
}

/// A transaction output as the management canister points at it.
#[derive(Debug, Clone)]
pub struct Outpoint {
    pub txid: Vec<u8>,
    pub vout: u32,
}

/// An unspent output as the management canister reports it.
#[derive(Debug, Clone)]
pub struct Utxo {
    pub outpoint: Outpoint,
    pub value: u64,
    pub height: u32,
}

/// A request for the block headers in a height range.
#[derive(Debug, Clone, Copy, PartialEq, Eq, Structural)]
pub struct GetBlockHeadersRequest {
    pub start_height: u32,
    pub end_height: Option<u32>,
    pub network: BitcoinNetwork,
}

/// The block headers from a given height, with the current tip.
#[derive(Debug, Clone)]
pub struct GetBlockHeadersResponse {
    pub tip_height: u32,
    pub block_headers: Vec<Vec<u8>>,
}

pub open spec fn spec_block_headers_cycles(network: BitcoinNetwork) -> u128 {
    match network {
        BitcoinNetwork::Mainnet => 10_000_000_000,
        BitcoinNetwork::Testnet => 10_000_000_000,
        BitcoinNetwork::Regtest => 0,
    }
}

/// The cycles attached to a `bitcoin_get_block_headers` call, and the
/// request that goes with them.
pub fn block_headers_request(network: BitcoinNetwork, start_height: u32, end_height: Option<u32>)
    -> (r: (GetBlockHeadersRequest, u128))
    ensures
        r.0 == (GetBlockHeadersRequest { start_height, end_height, network }),
        r.1 == spec_block_headers_cycles(network),
{
    let cycles: u128 = match network {
        BitcoinNetwork::Mainnet => 10_000_000_000,
        BitcoinNetwork::Testnet => 10_000_000_000,
        BitcoinNetwork::Regtest => 0,
    };
    (GetBlockHeadersRequest { start_height, end_height, network }, cycles)
}

/// A Schnorr public key, hex-encoded.
#[derive(Debug, Clone)]
pub struct PublicKeyReply {
    pub public_key_hex: String,
}

/// A Schnorr signature and the digest it signs, both hex-encoded.
#[derive(Debug, Clone)]
pub struct SignatureReply {
    pub signature_hex: String,
    pub message: String,
}

} // verus!

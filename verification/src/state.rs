//! The canister's state: its configuration, and the queue of reveal
//! transactions that wait for their commitment to confirm.
use crate::types::{BitcoinNetwork, EcdsaKeyIds, SchnorrAlgorithm, SchnorrKeyId};
use std::collections::HashMap;
use vstd::prelude::*;

verus! {

broadcast use vstd::std_specs::hash::group_hash_axioms;

/// A signed transaction of the `bitcoin` crate, carried as it is.
#[verifier::external_type_specification]
#[verifier::external_body]
pub struct ExTransaction(bitcoin::Transaction);

/// The key of a timer, as `slotmap` hands it out, carried as it is.
#[verifier::external_type_specification]
#[verifier::external_body]
pub struct ExKeyData(slotmap::KeyData);

/// The id of a canister or user, carried as it is.
#[verifier::external_type_specification]
#[verifier::external_body]
pub struct ExPrincipal(candid::Principal);

/// A reveal transaction waiting for its commitment: the transaction, the
/// timer that retries it, and the address whose UTXO it spends.
#[derive(Debug)]
pub struct QueuedRevealTxn {
    pub reveal_txn: bitcoin::Transaction,
    pub timer_id: slotmap::KeyData,
    pub commit_tx_address: String,
}

/// The canister's state.
#[derive(Debug)]
pub struct State {
    pub ckbtc_ledger: Option<candid::Principal>,
    pub ckbtc_minter: Option<candid::Principal>,
    pub network: Option<BitcoinNetwork>,
    pub ecdsa_key: Option<EcdsaKeyIds>,
    pub schnorr_key: Option<SchnorrKeyId>,
    pub queue_count: u128,
    pub timer_for_reveal_txn: u32,
    pub reveal_txn_in_queue: HashMap<u128, QueuedRevealTxn>,
}

/// The arguments the canister is installed with.
#[derive(Debug)]
pub struct InitArgs {
    pub ckbtc_ledger: candid::Principal,
    pub ckbtc_minter: candid::Principal,
    pub network: BitcoinNetwork,
    /// Minutes between attempts to send a queued reveal.
    pub timer_for_reveal_txn: u32,
}

/// The ECDSA key that the canister signs with on each network.
pub open spec fn ecdsa_key_for(network: BitcoinNetwork) -> EcdsaKeyIds {
    match network {
        BitcoinNetwork::Mainnet => EcdsaKeyIds::ProductionKey,
        BitcoinNetwork::Regtest => EcdsaKeyIds::TestKeyLocalDevelopment,
        BitcoinNetwork::Testnet => EcdsaKeyIds::TestKey1,
    }
}

/// The name of the Schnorr key that the canister signs with on each network.
pub open spec fn schnorr_key_name_for(network: BitcoinNetwork) -> Seq<char> {
    match network {
        BitcoinNetwork::Mainnet => "test_key_1"@,
        BitcoinNetwork::Regtest => "dfx_test_key"@,
        BitcoinNetwork::Testnet => "test_key_1"@,
    }
}

/// The threshold keys that the canister uses on a network.
pub fn keys_for_network(network: BitcoinNetwork) -> (r: (EcdsaKeyIds, SchnorrKeyId))
    ensures
        r.0 == ecdsa_key_for(network),
        r.1.name@ == schnorr_key_name_for(network),
        r.1.algorithm == SchnorrAlgorithm::Bip340Secp256k1,
{
    match network {
        BitcoinNetwork::Mainnet => (
            EcdsaKeyIds::ProductionKey,
            SchnorrKeyId {
                name: String::from_str("test_key_1"),
                algorithm: SchnorrAlgorithm::Bip340Secp256k1,
            },
        ),
        BitcoinNetwork::Regtest => (
            EcdsaKeyIds::TestKeyLocalDevelopment,
            SchnorrKeyId {
                name: String::from_str("dfx_test_key"),
                algorithm: SchnorrAlgorithm::Bip340Secp256k1,
            },
        ),
        BitcoinNetwork::Testnet => (
            EcdsaKeyIds::TestKey1,
            SchnorrKeyId {
                name: String::from_str("test_key_1"),
                algorithm: SchnorrAlgorithm::Bip340Secp256k1,
            },
        ),
    }
}

/// The queue of reveals behaves as a map keyed by fresh ids: the id that
/// `next_queue_id` hands out holds no reveal yet; once a reveal is queued
/// under it, looking it up gives that reveal back and leaves every other
/// id as it was; the queue keeps every id below the count; and once it is
/// dequeued the id holds nothing.
pub proof fn law_queue_reads_back_fresh_ids(
    queue: Map<u128, QueuedRevealTxn>,
    count: u128,
    txn: QueuedRevealTxn,
    other: u128,
)
    requires
        forall|id: u128| #[trigger] queue.contains_key(id) ==> id < count,
        count < u128::MAX,
    ensures
        !queue.contains_key(count),
        queue.insert(count, txn).contains_key(count),
        queue.insert(count, txn)[count] == txn,
        other != count ==> (queue.insert(count, txn).contains_key(other) == queue.contains_key(
            other,
        )),
        other != count && queue.contains_key(other) ==> queue.insert(count, txn)[other]
            == queue[other],
        forall|id: u128| #[trigger] queue.insert(count, txn).contains_key(id) ==> id < count + 1,
        !queue.insert(count, txn).remove(count).contains_key(count),
{
}

impl State {
    /// Every queued reveal has an id below `queue_count`, so the next id
    /// handed out is free.
    pub open spec fn wf(&self) -> bool {
        forall|id: u128| #[trigger] self.reveal_txn_in_queue@.contains_key(id) ==> id < self.queue_count
    }

    /// The state before installation: nothing configured, an empty queue.
    pub fn new() -> (s: State)
        ensures
            s.ckbtc_ledger is None,
            s.ckbtc_minter is None,
            s.network is None,
            s.ecdsa_key is None,
            s.schnorr_key is None,
            s.queue_count == 0,
            s.timer_for_reveal_txn == 0,
            s.reveal_txn_in_queue@ == Map::<u128, QueuedRevealTxn>::empty(),
            s.wf(),
    {
        State {
            ckbtc_ledger: None,
            ckbtc_minter: None,
            network: None,
            ecdsa_key: None,
            schnorr_key: None,
            queue_count: 0,
            timer_for_reveal_txn: 0,
            reveal_txn_in_queue: HashMap::new(),
        }
    }

    /// Installs the configuration: the ckBTC canisters, the network, the
    /// keys for that network and the reveal timer. The queue is kept.
    pub fn init(&mut self, arg: InitArgs)
        ensures
            final(self).network == Some(arg.network),
            final(self).ckbtc_minter == Some(arg.ckbtc_minter),
            final(self).ckbtc_ledger == Some(arg.ckbtc_ledger),
            final(self).ecdsa_key == Some(ecdsa_key_for(arg.network)),
            final(self).schnorr_key matches Some(k) && k.name@ == schnorr_key_name_for(arg.network)
                && k.algorithm == SchnorrAlgorithm::Bip340Secp256k1,
            final(self).timer_for_reveal_txn == arg.timer_for_reveal_txn,
            final(self).queue_count == old(self).queue_count,
            final(self).reveal_txn_in_queue@ == old(self).reveal_txn_in_queue@,
    {
        let (ecdsa_key_id, schnorr_key) = keys_for_network(arg.network);
        self.network = Some(arg.network);
        self.ckbtc_minter = Some(arg.ckbtc_minter);
        self.ckbtc_ledger = Some(arg.ckbtc_ledger);
        self.ecdsa_key = Some(ecdsa_key_id);
        self.schnorr_key = Some(schnorr_key);
        self.timer_for_reveal_txn = arg.timer_for_reveal_txn;
    }

    /// Hands out the id of the next queued reveal.
    pub fn next_queue_id(&mut self) -> (id: u128)
        requires
            old(self).queue_count < u128::MAX,
        ensures
            id == old(self).queue_count,
            final(self).queue_count == old(self).queue_count + 1,
            final(self).reveal_txn_in_queue@ == old(self).reveal_txn_in_queue@,
            final(self).network == old(self).network,
            final(self).timer_for_reveal_txn == old(self).timer_for_reveal_txn,
            old(self).wf() ==> final(self).wf() && !final(self).reveal_txn_in_queue@.contains_key(id),
    {
        let id = self.queue_count;
        self.queue_count = self.queue_count + 1;
        id
    }

    /// Seconds between attempts to send a queued reveal.
    pub fn reveal_timer_secs(&self) -> (secs: u64)
        ensures
            secs == self.timer_for_reveal_txn * 60,
    {
        self.timer_for_reveal_txn as u64 * 60
    }

    /// Queues a reveal under `id`, replacing any reveal queued under it.
    pub fn queue_reveal(&mut self, id: u128, txn: QueuedRevealTxn)
        ensures
            final(self).reveal_txn_in_queue@ == old(self).reveal_txn_in_queue@.insert(id, txn),
            final(self).queue_count == old(self).queue_count,
            final(self).network == old(self).network,
            old(self).wf() && id < old(self).queue_count ==> final(self).wf(),
    {
        self.reveal_txn_in_queue.insert(id, txn);
    }

    /// The reveal queued under `id`, if any.
    pub fn queued_reveal(&self, id: u128) -> (r: Option<&QueuedRevealTxn>)
        ensures
            match r {
                Some(t) => self.reveal_txn_in_queue@.contains_key(id) && *t
                    == self.reveal_txn_in_queue@[id],
                None => !self.reveal_txn_in_queue@.contains_key(id),
            },
    {
        self.reveal_txn_in_queue.get(&id)
    }

    /// Drops the reveal queued under `id`, once it has been sent.
    pub fn dequeue_reveal(&mut self, id: u128)
        ensures
            final(self).reveal_txn_in_queue@ == old(self).reveal_txn_in_queue@.remove(id),
            final(self).queue_count == old(self).queue_count,
            final(self).network == old(self).network,
            old(self).wf() ==> final(self).wf(),
    {
        self.reveal_txn_in_queue.remove(&id);
    }
}

} // verus!

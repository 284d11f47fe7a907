use inscribe::state::{keys_for_network, InitArgs, QueuedRevealTxn, State};
use inscribe::types::{BitcoinNetwork, EcdsaKeyIds, SchnorrAlgorithm};
use inscribe::upgrade::{frame_state_bytes, read_framed_state};

fn empty_tx() -> bitcoin::Transaction {
    bitcoin::Transaction {
        version: bitcoin::transaction::Version(2),
        lock_time: bitcoin::absolute::LockTime::ZERO,
        input: vec![],
        output: vec![],
    }
}

fn queued(address: &str, timer: u64) -> QueuedRevealTxn {
    QueuedRevealTxn {
        reveal_txn: empty_tx(),
        timer_id: slotmap::KeyData::from_ffi(timer),
        commit_tx_address: address.to_string(),
    }
}

fn principal(b: u8) -> candid::Principal {
    candid::Principal::from_slice(&[b])
}

#[test]
fn keys_per_network() {
    let (e, s) = keys_for_network(BitcoinNetwork::Mainnet);
    assert_eq!(e, EcdsaKeyIds::ProductionKey);
    assert_eq!(s.name, "test_key_1");
    assert_eq!(s.algorithm, SchnorrAlgorithm::Bip340Secp256k1);
    let (e, s) = keys_for_network(BitcoinNetwork::Regtest);
    assert_eq!(e, EcdsaKeyIds::TestKeyLocalDevelopment);
    assert_eq!(s.name, "dfx_test_key");
    let (e, s) = keys_for_network(BitcoinNetwork::Testnet);
    assert_eq!(e, EcdsaKeyIds::TestKey1);
    assert_eq!(s.name, "test_key_1");
}

#[test]
fn init_configures_the_state() {
    let mut state = State::new();
    assert!(state.network.is_none());
    state.init(InitArgs {
        ckbtc_ledger: principal(1),
        ckbtc_minter: principal(2),
        network: BitcoinNetwork::Regtest,
        timer_for_reveal_txn: 3,
    });
    assert_eq!(state.network, Some(BitcoinNetwork::Regtest));
    assert_eq!(state.ckbtc_ledger, Some(principal(1)));
    assert_eq!(state.ckbtc_minter, Some(principal(2)));
    assert_eq!(state.ecdsa_key, Some(EcdsaKeyIds::TestKeyLocalDevelopment));
    assert_eq!(state.schnorr_key.as_ref().unwrap().name, "dfx_test_key");
    assert_eq!(state.timer_for_reveal_txn, 3);
    assert_eq!(state.reveal_timer_secs(), 180);
    assert_eq!(state.queue_count, 0);
}

#[test]
fn queued_reveals_read_back_under_fresh_ids() {
    let mut state = State::new();
    let a = state.next_queue_id();
    let b = state.next_queue_id();
    assert_eq!((a, b), (0, 1));
    assert_eq!(state.queue_count, 2);
    assert!(state.queued_reveal(a).is_none());
    state.queue_reveal(a, queued("addr-a", 7));
    state.queue_reveal(b, queued("addr-b", 8));
    assert_eq!(state.queued_reveal(a).unwrap().commit_tx_address, "addr-a");
    assert_eq!(state.queued_reveal(b).unwrap().timer_id, slotmap::KeyData::from_ffi(8));
    state.dequeue_reveal(a);
    assert!(state.queued_reveal(a).is_none());
    assert_eq!(state.queued_reveal(b).unwrap().commit_tx_address, "addr-b");
    let c = state.next_queue_id();
    assert_eq!(c, 2);
    assert!(state.queued_reveal(c).is_none());
}

#[test]
fn upgrade_frame_round_trips() {
    let bytes: Vec<u8> = (0..300u32).map(|i| (i % 251) as u8).collect();
    let framed = frame_state_bytes(&bytes);
    assert_eq!(&framed[..4], &[0x2c, 0x01, 0, 0]);
    assert_eq!(&framed[..4], &(bytes.len() as u32).to_le_bytes());
    let mut memory = framed.clone();
    memory.extend(vec![0xEE; 1000]);
    assert_eq!(read_framed_state(&memory), bytes);
    assert_eq!(read_framed_state(&frame_state_bytes(&[])), Vec::<u8>::new());
}

#[test]
fn frame_length_reads_little_endian() {
    assert_eq!(inscribe::upgrade::frame_length(&[0x01, 0x02, 0x00, 0x00, 0xff]), 0x0201);
    assert_eq!(inscribe::upgrade::frame_length(&[0xff, 0xff, 0xff, 0xff]), u32::MAX);
}

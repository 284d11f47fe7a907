use bitcoin::secp256k1::{Message, PublicKey, Secp256k1, SecretKey};
use inscribe::mint::{
    all_signatures_fit, mint_fee_round, mock_signer, p2pkh_sighashes, sign_p2pkh_inputs,
    utxo_txids_valid, FeeRound, MintError,
};
use inscribe::txplan::{total_from_end, TxPlan};
use inscribe::types::{MintArgs, Outpoint, RuneMintId, Utxo};

fn secret() -> SecretKey {
    let mut bytes = [0u8; 32];
    bytes[31] = 2;
    SecretKey::from_slice(&bytes).unwrap()
}

fn public_key() -> Vec<u8> {
    PublicKey::from_secret_key(&Secp256k1::new(), &secret()).serialize().to_vec()
}

fn own_script() -> Vec<u8> {
    let pk = bitcoin::PublicKey::from_slice(&public_key()).unwrap();
    bitcoin::ScriptBuf::new_p2pkh(&pk.pubkey_hash()).to_bytes()
}

fn utxo(tag: u8, value: u64) -> Utxo {
    Utxo { outpoint: Outpoint { txid: vec![tag; 32], vout: 0 }, value, height: 3 }
}

fn args() -> MintArgs {
    MintArgs { rune_id: RuneMintId { block: 840_000, tx: 3 }, amount: 1, dst: String::new(), fee_rate: None }
}

fn to_bitcoin(tx: &TxPlan) -> bitcoin::Transaction {
    bitcoin::Transaction {
        version: bitcoin::transaction::Version(tx.version),
        lock_time: bitcoin::absolute::LockTime::from_consensus(tx.lock_time),
        input: tx
            .inputs
            .iter()
            .map(|i| bitcoin::TxIn {
                previous_output: bitcoin::OutPoint {
                    txid: <bitcoin::Txid as bitcoin::hashes::Hash>::from_slice(&i.txid).unwrap(),
                    vout: i.vout,
                },
                script_sig: bitcoin::ScriptBuf::from_bytes(i.script_sig.clone()),
                sequence: bitcoin::Sequence(i.sequence),
                witness: bitcoin::Witness::from_slice(&i.witness),
            })
            .collect(),
        output: tx
            .outputs
            .iter()
            .map(|o| bitcoin::TxOut {
                value: bitcoin::Amount::from_sat(o.value),
                script_pubkey: bitcoin::ScriptBuf::from_bytes(o.script_pubkey.clone()),
            })
            .collect(),
    }
}

#[test]
fn the_mint_fee_loop_settles_on_the_size_of_the_signed_transaction() {
    let utxos = vec![utxo(1, 50_000), utxo(2, 70_000)];
    let script = own_script();
    let pk = public_key();
    let mut fee = 0;
    let mut rounds = 0;
    let tx = loop {
        rounds += 1;
        match mint_fee_round(&utxos, &script, &pk, &args(), fee, 2_000).unwrap() {
            FeeRound::Settled(tx) => break tx,
            FeeRound::Retry(next) => {
                assert_ne!(next, fee);
                fee = next;
            }
        }
    };
    assert!(rounds >= 2);
    assert_eq!(tx.inputs.len(), 2);
    assert_eq!(tx.outputs[1].value, 120_000 - fee);
    let mut mock = tx.clone();
    let sigs: Vec<Vec<u8>> = (0..2).map(|_| mock_signer("", &vec![], &[])).collect();
    sign_p2pkh_inputs(&mut mock, &sigs, &pk);
    assert_eq!(fee, to_bitcoin(&mock).vsize() as u64 * 2_000 / 1_000);
}

#[test]
fn the_mint_fee_round_refuses_what_the_canister_refuses() {
    let utxos = vec![utxo(1, 50_000)];
    let pk = public_key();
    assert_eq!(
        mint_fee_round(&utxos, &[0x51, 0x20, 1], &pk, &args(), 0, 2_000).err(),
        Some(MintError::NotP2pkh)
    );
    assert_eq!(
        mint_fee_round(&utxos, &own_script(), &pk, &args(), 0, u64::MAX).err(),
        Some(MintError::FeeOverflow)
    );
}

#[test]
fn signing_a_mint_puts_valid_signatures_in_every_input() {
    let secp = Secp256k1::new();
    let utxos = vec![utxo(1, 50_000), utxo(2, 70_000)];
    let script = own_script();
    let pk = public_key();
    let tx = match mint_fee_round(&utxos, &script, &pk, &args(), 600, 2_000).unwrap() {
        FeeRound::Settled(tx) => tx,
        FeeRound::Retry(fee) => match mint_fee_round(&utxos, &script, &pk, &args(), fee, 2_000).unwrap() {
            FeeRound::Settled(tx) => tx,
            FeeRound::Retry(_) => panic!("the fee did not settle"),
        },
    };
    let hashes = p2pkh_sighashes(&tx, &script);
    let unsigned = to_bitcoin(&tx);
    let cache = bitcoin::sighash::SighashCache::new(&unsigned);
    let spk = bitcoin::ScriptBuf::from_bytes(script.clone());
    for (i, h) in hashes.iter().enumerate() {
        let expected = cache.legacy_signature_hash(i, &spk, 1).unwrap();
        assert_eq!(
            h,
            &<bitcoin::sighash::LegacySighash as bitcoin::hashes::Hash>::to_byte_array(expected).to_vec()
        );
    }
    let sigs: Vec<Vec<u8>> = hashes
        .iter()
        .map(|h| {
            secp.sign_ecdsa(&Message::from_digest_slice(h).unwrap(), &secret())
                .serialize_compact()
                .to_vec()
        })
        .collect();
    assert!(all_signatures_fit(&sigs));
    assert!(!all_signatures_fit(&vec![vec![1u8; 20]]));
    let mut signed = tx.clone();
    sign_p2pkh_inputs(&mut signed, &sigs, &pk);
    let key = PublicKey::from_slice(&pk).unwrap();
    for (i, input) in to_bitcoin(&signed).input.iter().enumerate() {
        let mut pushes = input.script_sig.instructions();
        let sig = pushes.next().unwrap().unwrap().push_bytes().unwrap().as_bytes().to_vec();
        let der = bitcoin::secp256k1::ecdsa::Signature::from_der(&sig[..sig.len() - 1]).unwrap();
        let msg = Message::from_digest_slice(&hashes[i]).unwrap();
        assert!(secp.verify_ecdsa(&msg, &der, &key).is_ok());
    }
}

#[test]
fn utxo_checks() {
    assert!(utxo_txids_valid(&[utxo(1, 1), utxo(2, 2)]));
    let bad = Utxo { outpoint: Outpoint { txid: vec![1; 31], vout: 0 }, value: 1, height: 1 };
    assert!(!utxo_txids_valid(&[utxo(1, 1), bad]));
    assert_eq!(total_from_end(&[utxo(1, 5), utxo(2, 7)]), Some(12));
    assert_eq!(total_from_end(&[]), Some(0));
    assert_eq!(total_from_end(&[utxo(1, u64::MAX), utxo(2, 1)]), None);
}

#[test]
fn the_mint_fee_settles_in_the_library_loop() {
    let utxos = vec![utxo(1, 50_000), utxo(2, 70_000)];
    let script = own_script();
    let pk = public_key();
    let tx = inscribe::mint::build_p2pkh_spend_tx(&pk, &script, &utxos, 2_000, &args()).unwrap();
    let fee = 120_000 - tx.outputs[1].value;
    let mut mock = tx.clone();
    let sigs: Vec<Vec<u8>> = (0..2).map(|_| mock_signer("", &vec![], &[])).collect();
    sign_p2pkh_inputs(&mut mock, &sigs, &pk);
    assert_eq!(fee, to_bitcoin(&mock).vsize() as u64 * 2_000 / 1_000);
    assert_eq!(
        inscribe::mint::build_p2pkh_spend_tx(&pk, &[0x51], &utxos, 2_000, &args()).err(),
        Some(MintError::NotP2pkh)
    );
    assert_eq!(
        inscribe::mint::build_p2pkh_spend_tx(&pk, &script, &[utxo(1, 100)], 2_000, &args()).err(),
        Some(MintError::FeeExceedsFunds)
    );
}

#[test]
fn mint_runestones_are_short() {
    let utxos = vec![utxo(1, 50_000)];
    let big = MintArgs { rune_id: RuneMintId { block: u64::MAX, tx: u32::MAX }, amount: 1, dst: String::new(), fee_rate: None };
    let (tx, _) = inscribe::mint::build_transaction_mint_with_fee(&utxos, &own_script(), 0, &big).unwrap();
    assert!(tx.outputs[0].script_pubkey.len() <= 20);
}

#[test]
fn transaction_ids_in_hex() {
    let tx = TxPlan {
        version: 2,
        lock_time: 0,
        inputs: vec![inscribe::txplan::TxInputPlan {
            txid: vec![3u8; 32],
            vout: 1,
            sequence: 5,
            script_sig: vec![],
            witness: vec![],
        }],
        outputs: vec![inscribe::txplan::TxOutputPlan { script_pubkey: vec![0x6a], value: 0 }],
    };
    assert!(inscribe::txplan::txids_valid(&tx));
    let id = to_bitcoin(&tx).compute_txid();
    assert_eq!(inscribe::txplan::txid_hex(&tx), hex::encode(id));
    let mut bad = tx.clone();
    bad.inputs[0].txid = vec![1u8; 31];
    assert!(!inscribe::txplan::txids_valid(&bad));
}

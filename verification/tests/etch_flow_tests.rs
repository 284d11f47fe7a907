use bitcoin::secp256k1::{Keypair, Message, PublicKey, Secp256k1, SecretKey};
use inscribe::etch_flow::{
    begin_etching, estimate_etching_transaction_fees, finish_reveal, setup_reveal, sign_commit,
};
use inscribe::etching::EtchingError;
use inscribe::txplan::TxPlan;
use inscribe::types::{BitcoinNetwork, EtchingArgs, Outpoint, Utxo};

fn secret() -> SecretKey {
    let mut bytes = [0u8; 32];
    bytes[31] = 1;
    SecretKey::from_slice(&bytes).unwrap()
}

fn public_key() -> Vec<u8> {
    let secp = Secp256k1::new();
    PublicKey::from_secret_key(&secp, &secret()).serialize().to_vec()
}

fn caller_address() -> bitcoin::Address {
    let pk = bitcoin::PublicKey::from_slice(&public_key()).unwrap();
    bitcoin::Address::p2pkh(pk.pubkey_hash(), bitcoin::Network::Bitcoin)
}

fn args(premine: u128) -> EtchingArgs {
    EtchingArgs {
        divisibility: 2,
        symbol: 'R' as u32,
        rune: "ABCDEFGHIJKLM".to_string(),
        amount: 1_000,
        cap: 21_000,
        turbo: false,
        premine,
        height: Some((840_000, 850_000)),
        offset: None,
        fee_rate: Some(10),
    }
}

fn utxo(tag: u8, value: u64) -> Utxo {
    Utxo { outpoint: Outpoint { txid: vec![tag; 32], vout: tag as u32 }, value, height: 1 }
}

fn to_bitcoin(tx: &TxPlan) -> bitcoin::Transaction {
    bitcoin::Transaction {
        version: bitcoin::transaction::Version(tx.version),
        lock_time: bitcoin::absolute::LockTime::from_consensus(tx.lock_time),
        input: tx
            .inputs
            .iter()
            .map(|i| bitcoin::TxIn {
                previous_output: bitcoin::OutPoint {
                    txid: <bitcoin::Txid as bitcoin::hashes::Hash>::from_slice(&i.txid).unwrap(),
                    vout: i.vout,
                },
                script_sig: bitcoin::ScriptBuf::from_bytes(i.script_sig.clone()),
                sequence: bitcoin::Sequence(i.sequence),
                witness: bitcoin::Witness::from_slice(&i.witness),
            })
            .collect(),
        output: tx
            .outputs
            .iter()
            .map(|o| bitcoin::TxOut {
                value: bitcoin::Amount::from_sat(o.value),
                script_pubkey: bitcoin::ScriptBuf::from_bytes(o.script_pubkey.clone()),
            })
            .collect(),
    }
}

fn expected_runestone(a: &EtchingArgs, pointer: Option<u32>) -> ordinals::Runestone {
    let spaced: ordinals::SpacedRune = a.rune.parse().unwrap();
    ordinals::Runestone {
        edicts: vec![],
        etching: Some(ordinals::Etching {
            divisibility: Some(a.divisibility),
            premine: Some(a.premine),
            rune: Some(spaced.rune),
            spacers: Some(spaced.spacers),
            symbol: char::from_u32(a.symbol),
            terms: Some(ordinals::Terms {
                amount: Some(a.amount),
                cap: Some(a.cap),
                height: (a.height.map(|h| h.0), a.height.map(|h| h.1)),
                offset: (a.offset.map(|o| o.0), a.offset.map(|o| o.1)),
            }),
            turbo: a.turbo,
        }),
        mint: None,
        pointer,
    }
}

#[test]
fn setup_refuses_bad_inputs_in_order() {
    let address = caller_address().to_string();
    let pk = public_key();
    let mut a = args(0);
    a.rune = "abc".to_string();
    assert_eq!(
        setup_reveal(&pk, &address, BitcoinNetwork::Mainnet, &a).err().unwrap() as u8,
        EtchingError::InvalidRuneName as u8
    );
    let mut a = args(0);
    a.symbol = 0xDFFF;
    assert_eq!(
        setup_reveal(&pk, &address, BitcoinNetwork::Mainnet, &a).err().unwrap() as u8,
        EtchingError::InvalidSymbol as u8
    );
    assert_eq!(
        setup_reveal(&[2u8; 3], &address, BitcoinNetwork::Mainnet, &args(0)).err().unwrap() as u8,
        EtchingError::InvalidPublicKey as u8
    );
    assert_eq!(
        setup_reveal(&pk, "not an address", BitcoinNetwork::Mainnet, &args(0)).err().unwrap() as u8,
        EtchingError::InvalidAddress as u8
    );
    let mut a = args(0);
    a.height = None;
    assert_eq!(
        setup_reveal(&pk, &address, BitcoinNetwork::Mainnet, &a).err().unwrap() as u8,
        EtchingError::NoTermSet as u8
    );
}

#[test]
fn setup_builds_the_taproot_commitment_to_the_reveal_script() {
    let address = caller_address();
    let setup = setup_reveal(&public_key(), &address.to_string(), BitcoinNetwork::Mainnet, &args(7))
        .unwrap();
    let secp = Secp256k1::new();
    let xonly = PublicKey::from_secret_key(&secp, &secret()).x_only_public_key().0;
    assert_eq!(setup.schnorr_key, xonly.serialize().to_vec());
    let script = bitcoin::ScriptBuf::from_bytes(setup.reveal_script.clone());
    let info = bitcoin::taproot::TaprootBuilder::new()
        .add_leaf(0, script.clone())
        .unwrap()
        .finalize(&secp, xonly)
        .unwrap();
    let commit_address = bitcoin::Address::p2tr_tweaked(info.output_key(), bitcoin::Network::Bitcoin);
    assert_eq!(setup.commit_address, commit_address.to_string());
    assert_eq!(setup.commit_script, commit_address.script_pubkey().to_bytes());
    let control = info
        .control_block(&(script, bitcoin::taproot::LeafVersion::TapScript))
        .unwrap();
    assert_eq!(setup.control_block, control.serialize());
    assert_eq!(setup.caller_script, address.script_pubkey().to_bytes());
    assert_eq!(setup.reveal_outputs.len(), 2);
    assert_eq!(setup.reveal_outputs[0].value, 10_000);
    assert_eq!(setup.reveal_outputs[0].script_pubkey, address.script_pubkey().to_bytes());
    assert_eq!(
        setup.reveal_outputs[1].script_pubkey,
        expected_runestone(&args(7), Some(0)).encipher().to_bytes()
    );
}

#[test]
fn an_etching_goes_from_commit_to_signed_reveal() {
    let secp = Secp256k1::new();
    let address = caller_address();
    let caller_script = address.script_pubkey();
    let pk = public_key();
    let a = args(500);
    let utxos = vec![utxo(1, 60_000_000), utxo(2, 40_000_000)];
    let signing = begin_etching(&pk, &address.to_string(), BitcoinNetwork::Mainnet, &a, &utxos)
        .unwrap();

    let commit = &signing.commit_tx;
    assert_eq!(commit.inputs.len(), 2);
    assert_eq!(commit.inputs[0].txid, vec![1u8; 32]);
    assert_eq!(commit.inputs[1].vout, 2);
    assert!(commit.inputs.iter().all(|i| i.sequence == 0xFFFF_FFFD));
    let vsize = to_bitcoin(commit).vsize() as u64;
    let commit_fee = (2_500 * vsize + 73) * 250;
    assert_eq!(commit.outputs.len(), 1);
    assert_eq!(commit.outputs[0].value, 100_000_000 - commit_fee);
    assert_eq!(commit.outputs[0].script_pubkey, signing.setup.commit_script);

    let mut probe = bitcoin::Witness::new();
    probe.push([0u8; 64]);
    probe.push(&signing.setup.reveal_script);
    probe.push(&signing.setup.control_block);
    let probe_tx = bitcoin::Transaction {
        version: bitcoin::transaction::Version(2),
        lock_time: bitcoin::absolute::LockTime::ZERO,
        input: vec![bitcoin::TxIn {
            previous_output: bitcoin::OutPoint::null(),
            script_sig: bitcoin::ScriptBuf::new(),
            sequence: bitcoin::Sequence(5),
            witness: probe,
        }],
        output: to_bitcoin(&TxPlan {
            version: 2,
            lock_time: 0,
            inputs: vec![],
            outputs: signing.setup.reveal_outputs.clone(),
        })
        .output,
    };
    let reveal_fee = 2_500 * probe_tx.vsize() as u64;
    assert_eq!(signing.reveal_outputs.len(), 3);
    assert_eq!(signing.reveal_outputs[0].value, 10_000);
    assert_eq!(signing.reveal_outputs[2].value, 100_000_000 - commit_fee - reveal_fee);
    assert_eq!(signing.reveal_outputs[2].script_pubkey, caller_script.to_bytes());
    let paid_out: u64 = signing.reveal_outputs.iter().map(|o| o.value).sum();
    assert_eq!(paid_out + reveal_fee + commit_fee, 100_000_000 + 10_000);

    let unsigned = to_bitcoin(commit);
    let cache = bitcoin::sighash::SighashCache::new(&unsigned);
    for (i, h) in signing.sighashes.iter().enumerate() {
        let expected = cache.legacy_signature_hash(i, &caller_script, 1).unwrap();
        assert_eq!(
            h,
            &<bitcoin::sighash::LegacySighash as bitcoin::hashes::Hash>::to_byte_array(expected).to_vec()
        );
    }

    let signatures: Vec<Vec<u8>> = signing
        .sighashes
        .iter()
        .map(|h| {
            let msg = Message::from_digest_slice(h).unwrap();
            secp.sign_ecdsa(&msg, &secret()).serialize_compact().to_vec()
        })
        .collect();
    assert_eq!(
        sign_commit(signing.clone(), &signatures[..1].to_vec(), &pk).err().unwrap() as u8,
        EtchingError::InvalidSignature as u8
    );
    let revealing = sign_commit(signing, &signatures, &pk).unwrap();
    let signed_commit = to_bitcoin(&revealing.commit_tx);
    for (i, input) in signed_commit.input.iter().enumerate() {
        let mut pushes = input.script_sig.instructions();
        let sig = pushes.next().unwrap().unwrap().push_bytes().unwrap().as_bytes().to_vec();
        let key = pushes.next().unwrap().unwrap().push_bytes().unwrap().as_bytes().to_vec();
        assert_eq!(key, pk);
        assert_eq!(*sig.last().unwrap(), 1u8);
        let der = bitcoin::secp256k1::ecdsa::Signature::from_der(&sig[..sig.len() - 1]).unwrap();
        assert_eq!(der.serialize_compact().to_vec(), signatures[i]);
        assert!(input.witness.is_empty());
    }
    let reveal_tx = to_bitcoin(&revealing.reveal_tx);
    assert_eq!(reveal_tx.input.len(), 1);
    assert_eq!(reveal_tx.input[0].previous_output.txid, signed_commit.compute_txid());
    assert_eq!(reveal_tx.input[0].previous_output.vout, 0);
    assert_eq!(reveal_tx.input[0].sequence, bitcoin::Sequence(5));
    let prevout = signed_commit.output[0].clone();
    let leaf = bitcoin::TapLeafHash::from_script(
        bitcoin::Script::from_bytes(&revealing.setup.reveal_script),
        bitcoin::taproot::LeafVersion::TapScript,
    );
    let expected_digest = bitcoin::sighash::SighashCache::new(&reveal_tx)
        .taproot_script_spend_signature_hash(
            0,
            &bitcoin::sighash::Prevouts::All(&[prevout]),
            leaf,
            bitcoin::TapSighashType::Default,
        )
        .unwrap();
    assert_eq!(
        revealing.digest,
        <bitcoin::TapSighash as bitcoin::hashes::Hash>::to_byte_array(expected_digest).to_vec()
    );

    let keypair = Keypair::from_secret_key(&secp, &secret());
    let msg = Message::from_digest_slice(&revealing.digest).unwrap();
    let schnorr = secp.sign_schnorr_no_aux_rand(&msg, &keypair);
    assert_eq!(
        finish_reveal(revealing.clone(), &[1u8; 10]).err().unwrap() as u8,
        EtchingError::InvalidSignature as u8
    );
    assert_eq!(
        finish_reveal(revealing.clone(), &[1u8; 64]).err().unwrap() as u8,
        EtchingError::SignatureRejected as u8
    );
    let mut altered = revealing.clone();
    altered.setup.runestone.pointer = None;
    assert_eq!(
        finish_reveal(altered, schnorr.as_ref()).err().unwrap() as u8,
        EtchingError::RunestoneMismatch as u8
    );
    let commit_address = revealing.setup.commit_address.clone();
    let (addr, commit_done, reveal_done) = finish_reveal(revealing, schnorr.as_ref()).unwrap();
    assert_eq!(addr, commit_address);
    assert!(addr.starts_with("bc1p"));
    assert_eq!(to_bitcoin(&commit_done), signed_commit);
    let reveal_btc = to_bitcoin(&reveal_done);
    let witness: Vec<Vec<u8>> = reveal_btc.input[0].witness.iter().map(|w| w.to_vec()).collect();
    assert_eq!(witness.len(), 3);
    assert_eq!(witness[0], schnorr.as_ref().to_vec());
    assert_eq!(
        ordinals::Runestone::decipher(&reveal_btc),
        Some(ordinals::Artifact::Runestone(expected_runestone(&a, Some(0))))
    );
}

#[test]
fn an_etching_without_enough_funds_is_refused() {
    let address = caller_address().to_string();
    let utxos = vec![utxo(1, 50_000)];
    assert_eq!(
        begin_etching(&public_key(), &address, BitcoinNetwork::Mainnet, &args(0), &utxos)
            .err()
            .unwrap() as u8,
        EtchingError::InsufficientFunds as u8
    );
}

#[test]
fn an_etching_whose_change_is_dust_is_refused() {
    let address = caller_address().to_string();
    let a = args(0);
    let probe = begin_etching(
        &public_key(),
        &address,
        BitcoinNetwork::Mainnet,
        &a,
        &[utxo(1, 100_000_000)],
    )
    .unwrap();
    let change = probe.reveal_outputs.last().unwrap().value;
    let exact = 100_000_000 - change;
    let r = begin_etching(&public_key(), &address, BitcoinNetwork::Mainnet, &a, &[utxo(1, exact + 100)]);
    assert_eq!(r.err().unwrap() as u8, EtchingError::DustOutput as u8);
}

#[test]
fn a_fee_estimate_counts_one_input_per_utxo() {
    let address = caller_address().to_string();
    let utxos = vec![utxo(1, 1), utxo(2, 2), utxo(3, 3)];
    let (commit, reveal, total) =
        estimate_etching_transaction_fees(&utxos, &public_key(), &address, &args(0)).unwrap();
    assert_eq!(commit, format!("Commit fee: {}", (2_500 * 4 + 73) * 250));
    let reveal_fee: u64 = reveal.strip_prefix("Reveal fee: ").unwrap().parse().unwrap();
    assert!(reveal_fee > 0 && reveal_fee % 2_500 == 0);
    assert_eq!(total, format!("Total fees: {}", (2_500 * 4 + 73) * 250 + reveal_fee));
    assert_eq!(
        estimate_etching_transaction_fees(&utxos, &[0u8; 33], &address, &args(0))
            .err()
            .unwrap() as u8,
        EtchingError::InvalidPublicKey as u8
    );
}

use inscribe::etching::{
    apply_commit_fee, build_commit_transaction, build_estimate_runestone, build_etching_runestone,
    build_reveal_transaction, check_etching, commit_fee, estimate_etching_fees, reveal_transaction,
    etching_fee_rate_kwu, find_output_index, outputs_clear_dust, reveal_change_output,
    reveal_premine_outputs, runestone_output, tap_sighash_digest, uppercase_rune_name,
    EtchingError,
};
use inscribe::txplan::TxOutputPlan;
use inscribe::types::{BitcoinNetwork, EtchingArgs, Outpoint, Utxo};

fn args() -> EtchingArgs {
    EtchingArgs {
        divisibility: 2,
        symbol: 'X' as u32,
        rune: "HELLO".to_string(),
        amount: 100,
        cap: 1_000,
        turbo: true,
        premine: 0,
        height: Some((10, 20)),
        offset: None,
        fee_rate: None,
    }
}

fn rune_number(name: &str) -> u128 {
    name.parse::<ordinals::SpacedRune>().unwrap().rune.0
}

#[test]
fn a_valid_etching_passes() {
    assert_eq!(check_etching(300_000, BitcoinNetwork::Regtest, &args()), Ok(()));
    let mut a = args();
    a.height = None;
    a.offset = Some((0, 1));
    a.rune = "HELLO•WORLD".to_string();
    assert_eq!(check_etching(300_000, BitcoinNetwork::Regtest, &a), Ok(()));
}

#[test]
fn etching_errors_in_order() {
    let net = BitcoinNetwork::Regtest;
    let mut a = args();
    a.height = None;
    a.offset = None;
    a.rune = "bad".to_string();
    assert_eq!(check_etching(300_000, net, &a), Err(EtchingError::NoMintTerm));
    let mut a = args();
    a.rune = "hello".to_string();
    assert_eq!(check_etching(300_000, net, &a), Err(EtchingError::InvalidRuneName));
    let mut a = args();
    a.rune = "A".repeat(27);
    assert_eq!(check_etching(300_000, net, &a), Err(EtchingError::RuneReserved));
    let mut a = args();
    a.symbol = 0xD800;
    assert_eq!(check_etching(300_000, net, &a), Err(EtchingError::InvalidSymbol));
    let mut a = args();
    a.amount = 0;
    assert_eq!(check_etching(300_000, net, &a), Err(EtchingError::ZeroAmountOrCap));
    let mut a = args();
    a.cap = 0;
    assert_eq!(check_etching(300_000, net, &a), Err(EtchingError::ZeroAmountOrCap));
    let mut a = args();
    a.divisibility = 39;
    assert_eq!(check_etching(300_000, net, &a), Err(EtchingError::DivisibilityTooLarge));
    let mut a = args();
    a.divisibility = 38;
    assert_eq!(check_etching(300_000, net, &a), Ok(()));
    let mut a = args();
    a.height = Some((5, 5));
    assert_eq!(check_etching(300_000, net, &a), Err(EtchingError::EmptyHeightRange));
    let mut a = args();
    a.offset = Some((3, 1));
    assert_eq!(check_etching(300_000, net, &a), Err(EtchingError::EmptyOffsetRange));
}

#[test]
fn short_names_are_locked_early_on_mainnet() {
    let mut a = args();
    a.rune = "Z".repeat(12);
    assert_eq!(check_etching(0, BitcoinNetwork::Mainnet, &a), Err(EtchingError::RuneBelowMinimum));
    a.rune = "A".repeat(13);
    assert_eq!(check_etching(0, BitcoinNetwork::Mainnet, &a), Ok(()));
}

#[test]
fn etching_error_messages() {
    assert_eq!(EtchingError::NoMintTerm.message(), "No mint term selected");
    assert_eq!(EtchingError::RuneBelowMinimum.message(), "Rune is less than Minimum");
    assert_eq!(EtchingError::RuneReserved.message(), "Rune is reserved");
    assert_eq!(EtchingError::InvalidSymbol.message(), "Failed to validate symbol");
    assert_eq!(EtchingError::ZeroAmountOrCap.message(), "Can't be Zero");
    assert_eq!(EtchingError::DivisibilityTooLarge.message(), "Exceeds max allowed divisibility");
    assert_eq!(
        EtchingError::EmptyHeightRange.message(),
        "Height Start must be lower than Height Stop"
    );
    assert_eq!(
        EtchingError::EmptyOffsetRange.message(),
        "Offset Start must be lower than Offset Stop"
    );
    assert_eq!(EtchingError::NoTermSet.message(), "No Term Set");
    assert_eq!(EtchingError::OpReturnTooLarge.message(), "Exceeds OP_RETURN size of 82");
    assert_eq!(EtchingError::InvalidRuneName.message(), "Invalid rune name");
}

#[test]
fn etching_runestone_matches_ordinals() {
    let mut a = args();
    a.rune = "HELLO•WORLD".to_string();
    a.premine = 5;
    let stone = build_etching_runestone(&a, Some(0)).unwrap();
    let out = runestone_output(&stone).unwrap();
    let expected = ordinals::Runestone {
        edicts: vec![],
        etching: Some(ordinals::Etching {
            divisibility: Some(2),
            premine: Some(5),
            rune: Some(ordinals::Rune(rune_number("HELLOWORLD"))),
            spacers: Some(0b10000),
            symbol: Some('X'),
            terms: Some(ordinals::Terms {
                amount: Some(100),
                cap: Some(1_000),
                height: (Some(10), Some(20)),
                offset: (None, None),
            }),
            turbo: true,
        }),
        mint: None,
        pointer: Some(0),
    };
    assert_eq!(out.script_pubkey, expected.encipher().into_bytes());
    assert_eq!(out.value, 0);
}

#[test]
fn etching_runestone_errors() {
    let mut a = args();
    a.rune = "A•".to_string();
    assert_eq!(build_etching_runestone(&a, None), Err(EtchingError::InvalidRuneName));
    let mut a = args();
    a.symbol = 0x110000;
    assert_eq!(build_etching_runestone(&a, None), Err(EtchingError::InvalidSymbol));
    let mut a = args();
    a.height = None;
    assert_eq!(build_etching_runestone(&a, None), Err(EtchingError::NoTermSet));
    assert!(build_estimate_runestone(&a).is_ok());
    assert_eq!(build_estimate_runestone(&a).unwrap().pointer, None);
}

#[test]
fn oversized_runestone_is_refused() {
    let mut a = args();
    a.rune = "BCGDENLQRQWDSLRUGSNLBTMFIJAV".to_string();
    a.premine = u128::MAX;
    a.amount = u128::MAX;
    a.cap = u128::MAX;
    a.symbol = 0x10FFFF;
    a.height = Some((u64::MAX - 1, u64::MAX));
    a.offset = Some((u64::MAX - 1, u64::MAX));
    let stone = build_etching_runestone(&a, Some(u32::MAX)).unwrap();
    assert!(matches!(runestone_output(&stone), Err(EtchingError::OpReturnTooLarge)));
}

#[test]
fn uppercasing_rune_names() {
    let mut a = args();
    a.rune = "hello•World.x1".to_string();
    let up = uppercase_rune_name(a);
    assert_eq!(up.rune, "HELLO•WORLD.X1");
    assert_eq!(up.cap, 1_000);
}

#[test]
fn premine_output_comes_first() {
    let (outs, pointer) = reveal_premine_outputs(1, &[1, 2, 3]);
    assert_eq!(outs.len(), 1);
    assert_eq!(outs[0].script_pubkey, vec![1, 2, 3]);
    assert_eq!(outs[0].value, 10_000);
    assert_eq!(pointer, Some(0));
    let (outs, pointer) = reveal_premine_outputs(0, &[1, 2, 3]);
    assert!(outs.is_empty());
    assert_eq!(pointer, None);
}

fn utxo(tag: u8, value: u64) -> Utxo {
    Utxo { outpoint: Outpoint { txid: vec![tag; 32], vout: tag as u32 }, value, height: 1 }
}

#[test]
fn commit_transaction_spends_in_order_and_pays_the_commit_fee() {
    let utxos = vec![utxo(1, 70_000_000), utxo(2, 30_000_000)];
    let (mut tx, total) = build_commit_transaction(&utxos, &[0x51, 0x20]);
    assert_eq!(total, 100_000_000);
    assert_eq!(tx.inputs[0].txid, vec![1u8; 32]);
    assert_eq!(tx.inputs[1].vout, 2);
    assert!(tx.inputs.iter().all(|i| i.sequence == 0xFFFF_FFFD));
    assert_eq!(tx.outputs.len(), 1);
    assert_eq!(tx.outputs[0].value, 100_000_000);
    let fee = commit_fee(2_500, 100);
    assert_eq!(fee, (2_500 * 100 + 73) * 250);
    apply_commit_fee(&mut tx, total, fee);
    assert_eq!(tx.outputs[0].value, 100_000_000 - 62_518_250);
    assert_eq!(tx.outputs[0].script_pubkey, vec![0x51, 0x20]);
    assert_eq!(tx.inputs.len(), 2);
}

#[test]
fn fee_rates() {
    assert_eq!(etching_fee_rate_kwu(None), 2_500);
    assert_eq!(etching_fee_rate_kwu(Some(20)), 5_000);
}

#[test]
fn finding_the_commit_output() {
    let outs = vec![
        TxOutputPlan { script_pubkey: vec![1], value: 1 },
        TxOutputPlan { script_pubkey: vec![2, 2], value: 2 },
        TxOutputPlan { script_pubkey: vec![2, 2], value: 3 },
    ];
    assert_eq!(find_output_index(&outs, &[2, 2]), Some(1));
    assert_eq!(find_output_index(&outs, &[3]), None);
}

#[test]
fn reveal_transaction_locks_its_inputs_for_five_blocks() {
    let input = vec![Outpoint { txid: vec![7; 32], vout: 0 }];
    let output = vec![TxOutputPlan { script_pubkey: vec![0x6a], value: 0 }];
    let tx = reveal_transaction(&input, output);
    assert_eq!(tx.inputs.len(), 1);
    assert_eq!(tx.inputs[0].sequence, 5);
    assert_eq!(tx.inputs[0].txid, vec![7; 32]);
    assert_eq!(tx.outputs.len(), 1);
    assert_eq!(tx.version, 2);
    let change = reveal_change_output(&[9], 100_000, 60_000, 1_500);
    assert_eq!(change.value, 38_500);
    assert_eq!(change.script_pubkey, vec![9]);
}

#[test]
fn dust_check() {
    let mut p2pkh = vec![0x76, 0xa9, 0x14];
    p2pkh.extend([0u8; 20]);
    p2pkh.extend([0x88, 0xac]);
    let ok = vec![
        TxOutputPlan { script_pubkey: vec![0x6a, 0x5d], value: 0 },
        TxOutputPlan { script_pubkey: p2pkh.clone(), value: 546 },
    ];
    assert!(outputs_clear_dust(&ok));
    let dust = vec![TxOutputPlan { script_pubkey: p2pkh, value: 545 }];
    assert!(!outputs_clear_dust(&dust));
}

#[test]
fn tap_sighash_digest_is_the_tagged_hash() {
    let data = vec![1u8, 2, 3, 4, 5];
    let digest = <bitcoin::TapSighash as bitcoin::hashes::Hash>::hash(&data);
    let expected = <bitcoin::TapSighash as bitcoin::hashes::Hash>::to_byte_array(digest).to_vec();
    assert_eq!(tap_sighash_digest(&data), expected);
}

#[test]
fn fee_estimate_lines() {
    let (c, r, t) = estimate_etching_fees(2, None, 1_234);
    assert_eq!(c, "Commit fee: 1893250");
    assert_eq!(r, "Reveal fee: 1234");
    assert_eq!(t, "Total fees: 1894484");
    let (c, _, _) = estimate_etching_fees(0, Some(1), 0);
    assert_eq!(c, "Commit fee: 80750");
}

#[test]
fn reveal_fee_pays_for_the_signed_size() {
    let input = vec![Outpoint { txid: vec![0; 32], vout: u32::MAX }];
    let output = vec![TxOutputPlan { script_pubkey: vec![0x6a, 0x5d, 0x01, 0x00], value: 0 }];
    let script = vec![0x51u8; 40];
    let control = vec![0xc0u8; 33];
    let (tx, fee) = build_reveal_transaction(0, &control, 2_500, output.clone(), &input, &script);
    assert!(tx.inputs[0].witness.is_empty());
    let mut witness = bitcoin::Witness::new();
    witness.push([0u8; 64]);
    witness.push(&script);
    witness.push(&control);
    let probe = bitcoin::Transaction {
        version: bitcoin::transaction::Version(2),
        lock_time: bitcoin::absolute::LockTime::ZERO,
        input: vec![bitcoin::TxIn {
            previous_output: bitcoin::OutPoint::null(),
            script_sig: bitcoin::ScriptBuf::new(),
            sequence: bitcoin::Sequence(5),
            witness,
        }],
        output: vec![bitcoin::TxOut {
            value: bitcoin::Amount::ZERO,
            script_pubkey: bitcoin::ScriptBuf::from_bytes(output[0].script_pubkey.clone()),
        }],
    };
    assert_eq!(fee, 2_500 * probe.vsize() as u64);
    let vsize = probe.vsize();
    let big = (1u64 << 60) + 12_345;
    let (tx_big, fee_big) = build_reveal_transaction(0, &control, big, output.clone(), &input, &script);
    assert_eq!(tx_big.outputs.len(), tx.outputs.len());
    assert_eq!(fee_big, (big as f64 * vsize as f64).round() as u64);
    let (_, fee_max) = build_reveal_transaction(0, &control, u64::MAX / 2, output, &input, &script);
    assert_eq!(fee_max, u64::MAX);
}

#[test]
fn reveal_fees_round_as_floats_do() {
    let cases: Vec<(u64, u64)> = vec![
        (2_500, 150),
        (0, 0),
        (7, 0),
        (0, 9),
        ((1u64 << 53) + 1, 1),
        ((1u64 << 53) + 3, 3),
        ((1u64 << 55) + 7, 117),
        (u64::MAX / 3, 777),
        (u64::MAX, 1),
        (u64::MAX, 2),
        (123_456_789_012_345, 98_765),
        (9_007_199_254_740_993, 9_007_199_254_740_993),
    ];
    for (rate, vsize) in cases {
        let expected = (rate as f64 * vsize as f64).round() as u64;
        assert_eq!(inscribe::etching::reveal_fee_of(rate, vsize), expected, "{} {}", rate, vsize);
    }
    let mut x: u64 = 0x9E37_79B9_7F4A_7C15;
    for _ in 0..2000 {
        x ^= x << 13;
        x ^= x >> 7;
        x ^= x << 17;
        let rate = x >> (x % 50);
        let vsize = (x % 100_000) + 1;
        let expected = (rate as f64 * vsize as f64).round() as u64;
        assert_eq!(inscribe::etching::reveal_fee_of(rate, vsize), expected, "{} {}", rate, vsize);
    }
}

#[test]
fn rune_names_that_parse_without_overflow() {
    assert!(inscribe::etching::rune_name_parse_safe("HELLO•WORLD"));
    assert!(inscribe::etching::rune_name_parse_safe(&"A".repeat(40)));
    let mut long = "A".repeat(32);
    long.push('.');
    long.push('B');
    assert!(inscribe::etching::rune_name_parse_safe(&long));
    let mut over = "A".repeat(33);
    over.push('.');
    over.push('B');
    assert!(!inscribe::etching::rune_name_parse_safe(&over));
    let mut stopped = "A".repeat(33);
    stopped.insert(3, 'x');
    stopped.push('.');
    assert!(inscribe::etching::rune_name_parse_safe(&stopped));
}

#[test]
fn utxo_totals_in_list_order() {
    assert_eq!(inscribe::etching::total_in_order(&[utxo(1, 3), utxo(2, 4)]), Some(7));
    assert_eq!(inscribe::etching::total_in_order(&[utxo(1, u64::MAX), utxo(2, 1)]), None);
}

#[test]
fn dust_thresholds_of_witness_programs() {
    let mut p2wpkh = vec![0x00, 0x14];
    p2wpkh.extend([7u8; 20]);
    let at = vec![TxOutputPlan { script_pubkey: p2wpkh.clone(), value: 294 }];
    assert!(outputs_clear_dust(&at));
    let below = vec![TxOutputPlan { script_pubkey: p2wpkh, value: 293 }];
    assert!(!outputs_clear_dust(&below));
    let mut p2tr = vec![0x51, 0x20];
    p2tr.extend([7u8; 32]);
    let taproot = vec![TxOutputPlan { script_pubkey: p2tr, value: 330 }];
    assert!(outputs_clear_dust(&taproot));
}

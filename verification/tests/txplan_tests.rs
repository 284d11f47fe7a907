use inscribe::txplan::{build_transaction_with_fee, TxOutputPlan, DUST_THRESHOLD};
use inscribe::types::{Outpoint, Utxo};

fn utxo(tag: u8, vout: u32, value: u64) -> Utxo {
    Utxo { outpoint: Outpoint { txid: vec![tag; 32], vout }, value, height: 100 }
}

fn out(script: &[u8], value: u64) -> (Vec<u8>, u64) {
    (script.to_vec(), value)
}

fn view(outs: &[TxOutputPlan]) -> Vec<(Vec<u8>, u64)> {
    outs.iter().map(|o| (o.script_pubkey.clone(), o.value)).collect()
}

const OWN: &[u8] = &[0x76, 0xa9, 0x14, 1, 2, 3];
const DST: &[u8] = &[0x00, 0x14, 9, 9];

#[test]
fn spends_newest_utxos_first_and_stops_when_covered() {
    let utxos = vec![utxo(1, 0, 5_000), utxo(2, 1, 3_000), utxo(3, 2, 4_000)];
    let (tx, prevouts) = build_transaction_with_fee(&utxos, OWN, DST, 5_000, 1_000).unwrap();
    assert_eq!(tx.version, 2);
    assert_eq!(tx.lock_time, 0);
    assert_eq!(tx.inputs.len(), 2);
    assert_eq!(tx.inputs[0].txid, vec![3u8; 32]);
    assert_eq!(tx.inputs[0].vout, 2);
    assert_eq!(tx.inputs[1].txid, vec![2u8; 32]);
    assert!(tx.inputs.iter().all(|i| i.sequence == 0xFFFF_FFFF));
    assert_eq!(view(&prevouts), vec![out(OWN, 4_000), out(OWN, 3_000)]);
    assert_eq!(view(&tx.outputs), vec![out(DST, 5_000), out(OWN, 1_000)]);
}

#[test]
fn dust_change_is_left_as_fee() {
    let utxos = vec![utxo(1, 0, 6_999)];
    let (tx, _) = build_transaction_with_fee(&utxos, OWN, DST, 5_000, 1_000).unwrap();
    assert_eq!(view(&tx.outputs), vec![out(DST, 5_000)]);
    let utxos = vec![utxo(1, 0, 7_000)];
    let (tx, _) = build_transaction_with_fee(&utxos, OWN, DST, 5_000, 1_000).unwrap();
    assert_eq!(view(&tx.outputs), vec![out(DST, 5_000), out(OWN, DUST_THRESHOLD)]);
}

#[test]
fn insufficient_balance_is_refused_with_the_total() {
    let utxos = vec![utxo(1, 0, 1_000), utxo(2, 0, 2_000)];
    let err = build_transaction_with_fee(&utxos, OWN, DST, 5_000, 100).unwrap_err();
    assert_eq!(err, "Insufficient balance: 3000, trying to transfer 5000 satoshi with fee 100");
}

#[test]
fn no_utxos_refuses_any_positive_transfer() {
    let err = build_transaction_with_fee(&[], OWN, DST, 1, 0).unwrap_err();
    assert_eq!(err, "Insufficient balance: 0, trying to transfer 1 satoshi with fee 0");
    let (tx, prevouts) = build_transaction_with_fee(&[], OWN, DST, 0, 0).unwrap();
    assert!(tx.inputs.is_empty());
    assert!(prevouts.is_empty());
    assert_eq!(view(&tx.outputs), vec![out(DST, 0)]);
}

#[test]
fn a_zero_transfer_still_spends_one_utxo() {
    let utxos = vec![utxo(1, 0, 500), utxo(2, 0, 800)];
    let (tx, _) = build_transaction_with_fee(&utxos, OWN, DST, 0, 0).unwrap();
    assert_eq!(tx.inputs.len(), 1);
    assert_eq!(tx.inputs[0].txid, vec![2u8; 32]);
}

#[test]
fn inputs_cover_outputs_and_fee() {
    let utxos = vec![utxo(1, 0, 10_000), utxo(2, 0, 20_000), utxo(3, 0, 1_500)];
    let (tx, prevouts) = build_transaction_with_fee(&utxos, OWN, DST, 15_000, 2_000).unwrap();
    let spent: u64 = prevouts.iter().map(|p| p.value).sum();
    let paid: u64 = tx.outputs.iter().map(|o| o.value).sum();
    assert_eq!(spent, 21_500);
    assert_eq!(spent, paid + 2_000);
}

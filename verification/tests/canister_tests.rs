use inscribe::canister::{
    check_commit_confirmations, conversion_amount, estimated_conversion_fee, has_enough_balance,
    RevealError,
};
use inscribe::types::{Outpoint, Utxo};

fn at(height: u32) -> Utxo {
    Utxo { outpoint: Outpoint { txid: vec![0; 32], vout: 0 }, value: 1, height }
}

#[test]
fn minimum_balance() {
    assert!(!has_enough_balance(9_999_999));
    assert!(has_enough_balance(10_000_000));
}

#[test]
fn conversion_fee_sums_the_fees() {
    assert_eq!(estimated_conversion_fee(1_500, 100), 1_600);
}

#[test]
fn conversion_needs_more_than_fees_and_margin() {
    assert_eq!(conversion_amount(100_000, 1_000, 500, 200), Ok(100_000 - 10 - 1_500 - 200));
    assert_eq!(
        conversion_amount(21_700, 1_000, 500, 200),
        Err("Balance too Low! Current Balance: 21700, Expected atleast 21700".to_string())
    );
    assert_eq!(conversion_amount(21_701, 1_000, 500, 200), Ok(19_991));
}

#[test]
fn reveal_waits_for_confirmations() {
    assert_eq!(check_commit_confirmations(100, &[]), Err(RevealError::NoUtxos));
    assert_eq!(check_commit_confirmations(104, &[at(100)]), Err(RevealError::NotEnoughConfirmations));
    assert_eq!(check_commit_confirmations(105, &[at(100), at(200)]), Ok(()));
    assert_eq!(RevealError::NoUtxos.message(), "No UTXOs Found");
    assert_eq!(RevealError::NotEnoughConfirmations.message(), "Not enough commit confirmation");
}

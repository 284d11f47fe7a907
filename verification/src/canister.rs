//! The decisions that the canister's endpoints take between their calls to
//! other canisters: balance checks, the ckBTC conversion amount, and when
//! a queued reveal may be sent.
use crate::foreign::{commit_confirmations, u64_to_decimal};
use crate::text::decimal;
use crate::types::Utxo;
use vstd::prelude::*;

verus! {

/// The balance, in satoshis, below which etching and minting are refused.
pub const MIN_BALANCE: u64 = 10_000_000;

/// Whether a balance is enough to etch or mint; below it the canister
/// answers "Not enough balance".
pub fn has_enough_balance(balance: u64) -> (r: bool)
    ensures
        r == (balance >= MIN_BALANCE),
{
    balance >= MIN_BALANCE
}

/// What the minter charges for a withdrawal: its own fee plus the Bitcoin
/// network fee.
pub fn estimated_conversion_fee(bitcoin_fee: u64, minter_fee: u64) -> (r: u64)
    requires
        bitcoin_fee + minter_fee <= u64::MAX,
    ensures
        r == bitcoin_fee + minter_fee,
{
    bitcoin_fee + minter_fee
}

/// The margin, in satoshis, that a conversion keeps above its fees.
pub const CONVERSION_MARGIN: u64 = 20_000;

/// The satoshis held back from a converted balance besides the fees.
pub const CONVERSION_RESERVE: u64 = 10;

/// The message of a balance too low to convert.
pub open spec fn low_balance_message(balance: u64, needed: int) -> Seq<char> {
    "Balance too Low! Current Balance: "@ + decimal(balance as nat) + ", Expected atleast "@
        + decimal(needed as nat)
}

/// How much BTC a ckBTC balance converts to. The balance must exceed the
/// withdrawal fees, the deposit fee and `CONVERSION_MARGIN`; the amount
/// withdrawn is the balance less those fees and `CONVERSION_RESERVE`.
pub fn conversion_amount(balance: u64, bitcoin_fee: u64, minter_fee: u64, deposit_fee: u64) -> (r:
    Result<u64, String>)
    requires
        bitcoin_fee + minter_fee + deposit_fee + CONVERSION_MARGIN <= u64::MAX,
    ensures
        ({
            let needed = bitcoin_fee + minter_fee + deposit_fee + CONVERSION_MARGIN;
            match r {
                Ok(amount) => balance > needed && amount == balance - CONVERSION_RESERVE
                    - bitcoin_fee - minter_fee - deposit_fee,
                Err(msg) => balance <= needed && msg@ == low_balance_message(balance, needed),
            }
        }),
{
    let total_fee = bitcoin_fee + minter_fee;
    let needed = total_fee + deposit_fee + CONVERSION_MARGIN;
    if balance <= needed {
        let mut msg = String::from_str("Balance too Low! Current Balance: ");
        let b = u64_to_decimal(balance);
        msg.append(b.as_str());
        msg.append(", Expected atleast ");
        let n = u64_to_decimal(needed);
        msg.append(n.as_str());
        return Err(msg);
    }
    Ok(balance - CONVERSION_RESERVE - total_fee - deposit_fee)
}

/// A converted amount and the fees and reserve held back add up to the
/// balance, and the amount is more than the margin less the reserve.
pub proof fn law_conversion_accounts_for_balance(
    balance: u64,
    bitcoin_fee: u64,
    minter_fee: u64,
    deposit_fee: u64,
)
    requires
        balance > bitcoin_fee + minter_fee + deposit_fee + CONVERSION_MARGIN,
    ensures
        ({
            let amount = balance - CONVERSION_RESERVE - bitcoin_fee - minter_fee - deposit_fee;
            &&& amount + bitcoin_fee + minter_fee + deposit_fee + CONVERSION_RESERVE == balance
            &&& amount > CONVERSION_MARGIN - CONVERSION_RESERVE
        }),
{
}

/// Why a queued reveal is not sent yet.
#[derive(Debug, Clone, Copy, PartialEq, Eq, Structural)]
pub enum RevealError {
    /// The commitment's address holds no UTXO.
    NoUtxos,
    /// The commitment has fewer confirmations than the reveal needs.
    NotEnoughConfirmations,
}

pub open spec fn reveal_error_message(e: RevealError) -> Seq<char> {
    match e {
        RevealError::NoUtxos => "No UTXOs Found"@,
        RevealError::NotEnoughConfirmations => "Not enough commit confirmation"@,
    }
}

impl RevealError {
    /// The text with which the canister gives up this attempt.
    pub fn message(&self) -> (s: String)
        ensures
            s@ == reveal_error_message(*self),
    {
        match self {
            RevealError::NoUtxos => String::from_str("No UTXOs Found"),
            RevealError::NotEnoughConfirmations => String::from_str("Not enough commit confirmation"),
        }
    }
}

/// Whether the reveal may go out: the commitment's address holds a UTXO,
/// and the first of them is at least one block fewer than the commit
/// confirmations below the chain's tip.
pub fn check_commit_confirmations(tip_height: u32, utxos: &[Utxo]) -> (r: Result<(), RevealError>)
    requires
        utxos@.len() > 0 ==> utxos@[0].height <= tip_height,
    ensures
        r == (if utxos@.len() == 0 {
            Err(RevealError::NoUtxos)
        } else if tip_height - utxos@[0].height < 5 {
            Err(RevealError::NotEnoughConfirmations)
        } else {
            Ok(())
        }),
{
    if utxos.len() == 0 {
        return Err(RevealError::NoUtxos);
    }
    let confirmations = commit_confirmations() as u32;
    if tip_height - utxos[0].height < confirmations - 1 {
        return Err(RevealError::NotEnoughConfirmations);
    }
    Ok(())
}

} // verus!

//! Etching a rune: checking the request, the etching runestone, and the
//! commit and reveal transactions that put it on chain.
use crate::bytes::{bytes_equal, copy_bytes, push_range};
use crate::foreign::{
    char_from_u32, fee_rate_kwu_from_sat_per_vb, rune_is_reserved, rune_minimum,
    rune_minimum_at_height, rune_reserved_from, runestone_encipher, runestone_script,
    spaced_rune_from_str, spaced_rune_of, spaced_rune_parse_safe, is_rune_letter, is_spacer,
    letters_before, u64_to_decimal, ascii_upper,
    to_ascii_uppercase, sequence_rbf_no_locktime, commit_confirmations, sequence_from_height,
    script_dust_threshold, dust_threshold, sha256, sha256_of, taproot_signature_bytes, tx_vsize,
    vsize_of,
};
use crate::txplan::{
    copy_outputs, input_model, inputs_unsigned, inputs_view, output_view, outputs_view, tx_model,
    TxInputPlan, TxModel, TxOutputPlan, TxPlan,
};
use crate::mint::{op_return_too_large_message, MAX_OP_RETURN_SCRIPT};
use crate::runes::{EtchingData, RunestoneData, TermsData};
use crate::text::decimal;
use crate::types::{
    spec_transform_network, transform_network, BitcoinNetwork, Chain, EtchingArgs, Outpoint, Utxo,
};
use vstd::prelude::*;

verus! {

/// The largest divisibility that a rune may have.
pub const MAX_DIVISIBILITY: u8 = 38;

/// Why an etching request is refused.
#[derive(Debug, Clone, Copy, PartialEq, Eq, Structural)]
pub enum EtchingError {
    /// Neither a height range nor an offset range was given.
    NoMintTerm,
    /// The rune name is not a valid spaced rune.
    InvalidRuneName,
    /// The rune is below the minimum unlocked at the current height.
    RuneBelowMinimum,
    /// The rune is in the reserved range.
    RuneReserved,
    /// The symbol is not a Unicode scalar value.
    InvalidSymbol,
    /// The mint amount or the cap is zero.
    ZeroAmountOrCap,
    /// The divisibility exceeds `MAX_DIVISIBILITY`.
    DivisibilityTooLarge,
    /// The height range does not start before it stops.
    EmptyHeightRange,
    /// The offset range does not start before it stops.
    EmptyOffsetRange,
    /// Building the runestone found no term to put in it.
    NoTermSet,
    /// The runestone's script exceeds `MAX_OP_RETURN_SCRIPT` bytes.
    OpReturnTooLarge,
    /// The Schnorr public key is not a point of the curve.
    InvalidPublicKey,
    /// The caller's address does not parse.
    InvalidAddress,
    /// A fee, or the sum of the fees, does not fit in 64 bits.
    FeeOverflow,
    /// The UTXOs do not cover the fees.
    InsufficientFunds,
    /// A reveal output would carry less than its dust threshold.
    DustOutput,
    /// The Schnorr signature is not 64 bytes long.
    InvalidSignature,
    /// The Schnorr signature does not verify.
    SignatureRejected,
    /// The reveal transaction does not carry the intended runestone.
    RunestoneMismatch,
}

/// The text with which the canister refuses a request for each reason.
pub open spec fn etching_error_message(e: EtchingError) -> Seq<char> {
    match e {
        EtchingError::NoMintTerm => "No mint term selected"@,
        EtchingError::InvalidRuneName => "Invalid rune name"@,
        EtchingError::RuneBelowMinimum => "Rune is less than Minimum"@,
        EtchingError::RuneReserved => "Rune is reserved"@,
        EtchingError::InvalidSymbol => "Failed to validate symbol"@,
        EtchingError::ZeroAmountOrCap => "Can't be Zero"@,
        EtchingError::DivisibilityTooLarge => "Exceeds max allowed divisibility"@,
        EtchingError::EmptyHeightRange => "Height Start must be lower than Height Stop"@,
        EtchingError::EmptyOffsetRange => "Offset Start must be lower than Offset Stop"@,
        EtchingError::NoTermSet => "No Term Set"@,
        EtchingError::OpReturnTooLarge => op_return_too_large_message(),
        EtchingError::InvalidPublicKey => "Invalid public key"@,
        EtchingError::InvalidAddress => "Invalid address"@,
        EtchingError::FeeOverflow => "Fee overflow"@,
        EtchingError::InsufficientFunds => "Insufficient funds"@,
        EtchingError::DustOutput => "commit txn output would be dust"@,
        EtchingError::InvalidSignature => "Invalid signature"@,
        EtchingError::SignatureRejected => "Signature verification failed"@,
        EtchingError::RunestoneMismatch => "Runestone mismatched"@,
    }
}

impl EtchingError {
    /// The text with which the canister refuses the request.
    pub fn message(&self) -> (s: String)
        ensures
            s@ == etching_error_message(*self),
    {
        match self {
            EtchingError::NoMintTerm => String::from_str("No mint term selected"),
            EtchingError::InvalidRuneName => String::from_str("Invalid rune name"),
            EtchingError::RuneBelowMinimum => String::from_str("Rune is less than Minimum"),
            EtchingError::RuneReserved => String::from_str("Rune is reserved"),
            EtchingError::InvalidSymbol => String::from_str("Failed to validate symbol"),
            EtchingError::ZeroAmountOrCap => String::from_str("Can't be Zero"),
            EtchingError::DivisibilityTooLarge => String::from_str(
                "Exceeds max allowed divisibility",
            ),
            EtchingError::EmptyHeightRange => String::from_str(
                "Height Start must be lower than Height Stop",
            ),
            EtchingError::EmptyOffsetRange => String::from_str(
                "Offset Start must be lower than Offset Stop",
            ),
            EtchingError::NoTermSet => String::from_str("No Term Set"),
            EtchingError::OpReturnTooLarge => String::from_str("Exceeds OP_RETURN size of 82"),
            EtchingError::InvalidPublicKey => String::from_str("Invalid public key"),
            EtchingError::InvalidAddress => String::from_str("Invalid address"),
            EtchingError::FeeOverflow => String::from_str("Fee overflow"),
            EtchingError::InsufficientFunds => String::from_str("Insufficient funds"),
            EtchingError::DustOutput => String::from_str("commit txn output would be dust"),
            EtchingError::InvalidSignature => String::from_str("Invalid signature"),
            EtchingError::SignatureRejected => String::from_str("Signature verification failed"),
            EtchingError::RunestoneMismatch => String::from_str("Runestone mismatched"),
        }
    }
}

/// A Unicode scalar value: what `char::from_u32` accepts.
pub open spec fn is_scalar_value(v: u32) -> bool {
    v <= 0x10FFFF && !(0xD800 <= v && v <= 0xDFFF)
}

/// A range that starts before it stops, or no range.
pub open spec fn range_ok(range: Option<(u64, u64)>) -> bool {
    match range {
        Some((start, stop)) => start < stop,
        None => true,
    }
}

/// The verdict on an etching request at block `height`: the first check
/// that fails, in the order the canister makes them.
pub open spec fn spec_check_etching(height: u32, network: BitcoinNetwork, arg: EtchingArgs) -> Result<
    (),
    EtchingError,
> {
    let minimum = rune_minimum(spec_transform_network(network), height);
    if arg.height is None && arg.offset is None {
        Err(EtchingError::NoMintTerm)
    } else if spaced_rune_of(arg.rune@) is None {
        Err(EtchingError::InvalidRuneName)
    } else if spaced_rune_of(arg.rune@).unwrap().0 < minimum {
        Err(EtchingError::RuneBelowMinimum)
    } else if spaced_rune_of(arg.rune@).unwrap().0 >= rune_reserved_from() {
        Err(EtchingError::RuneReserved)
    } else if !is_scalar_value(arg.symbol) {
        Err(EtchingError::InvalidSymbol)
    } else if arg.amount == 0 || arg.cap == 0 {
        Err(EtchingError::ZeroAmountOrCap)
    } else if arg.divisibility > MAX_DIVISIBILITY {
        Err(EtchingError::DivisibilityTooLarge)
    } else if !range_ok(arg.height) {
        Err(EtchingError::EmptyHeightRange)
    } else if !range_ok(arg.offset) {
        Err(EtchingError::EmptyOffsetRange)
    } else {
        Ok(())
    }
}

/// A valid etching request: every check passes.
pub open spec fn etching_valid(height: u32, network: BitcoinNetwork, arg: EtchingArgs) -> bool {
    &&& (arg.height is Some || arg.offset is Some)
    &&& spaced_rune_of(arg.rune@) matches Some((rune, _)) && rune_minimum(
        spec_transform_network(network),
        height,
    ) <= rune && rune < rune_reserved_from()
    &&& is_scalar_value(arg.symbol)
    &&& arg.amount > 0 && arg.cap > 0
    &&& arg.divisibility <= MAX_DIVISIBILITY
    &&& range_ok(arg.height)
    &&& range_ok(arg.offset)
}

/// Checks an etching request against the chain at block `height` on
/// `network`: a mint term is set, the rune name parses and is unlocked
/// and not reserved, the symbol is a character, amount and cap are
/// positive, the divisibility is at most 38, and each range is non-empty.
pub fn check_etching(height: u32, network: BitcoinNetwork, arg: &EtchingArgs) -> (r: Result<
    (),
    EtchingError,
>)
    requires
        spaced_rune_parse_safe(arg.rune@),
    ensures
        r == spec_check_etching(height, network, *arg),
        r is Ok <==> etching_valid(height, network, *arg),
        r is Ok ==> {
            &&& arg.height is Some || arg.offset is Some
            &&& spaced_rune_of(arg.rune@) matches Some((rune, _)) && rune_minimum(
                match network {
                    BitcoinNetwork::Mainnet => Chain::Bitcoin,
                    BitcoinNetwork::Testnet => Chain::Testnet,
                    BitcoinNetwork::Regtest => Chain::Regtest,
                },
                height,
            ) <= rune && rune < 6402364363415443603228541259936211926u128
            &&& arg.symbol <= 0x10FFFF && !(0xD800 <= arg.symbol && arg.symbol <= 0xDFFF)
            &&& arg.amount > 0 && arg.cap > 0
            &&& arg.divisibility <= 38
            &&& arg.height matches Some((start, stop)) ==> start < stop
            &&& arg.offset matches Some((start, stop)) ==> start < stop
        },
        r == Err::<(), EtchingError>(EtchingError::RuneBelowMinimum) ==> (spaced_rune_of(arg.rune@) matches Some((rune, _))
            && rune < rune_minimum(
            match network {
                BitcoinNetwork::Mainnet => Chain::Bitcoin,
                BitcoinNetwork::Testnet => Chain::Testnet,
                BitcoinNetwork::Regtest => Chain::Regtest,
            },
            height,
        )),
        r == Err::<(), EtchingError>(EtchingError::EmptyHeightRange) ==> (arg.height matches Some((start, stop))
            && start >= stop),
        r == Err::<(), EtchingError>(EtchingError::EmptyOffsetRange) ==> (arg.offset matches Some((start, stop))
            && start >= stop),
{
    if arg.height.is_none() && arg.offset.is_none() {
        return Err(EtchingError::NoMintTerm);
    }
    let minimum = rune_minimum_at_height(transform_network(network), height);
    let rune = match spaced_rune_from_str(arg.rune.as_str()) {
        Some((rune, _spacers)) => rune,
        None => {
            return Err(EtchingError::InvalidRuneName);
        },
    };
    if rune < minimum {
        return Err(EtchingError::RuneBelowMinimum);
    }
    if rune_is_reserved(rune) {
        return Err(EtchingError::RuneReserved);
    }
    if char_from_u32(arg.symbol).is_none() {
        return Err(EtchingError::InvalidSymbol);
    }
    if arg.amount == 0 || arg.cap == 0 {
        return Err(EtchingError::ZeroAmountOrCap);
    }
    if arg.divisibility > MAX_DIVISIBILITY {
        return Err(EtchingError::DivisibilityTooLarge);
    }
    if let Some((start, stop)) = arg.height {
        if start >= stop {
            return Err(EtchingError::EmptyHeightRange);
        }
    }
    if let Some((start, stop)) = arg.offset {
        if start >= stop {
            return Err(EtchingError::EmptyOffsetRange);
        }
    }
    Ok(())
}

/// What an accepted etching request is: a mint term is given, the name
/// parses to a rune that the chain at `height` on `network` has unlocked
/// (the minimum of the network of the same name) and that is not reserved,
/// the symbol is a character, amount and cap are positive, the
/// divisibility is at most 38, and every given range starts before it
/// stops. A name below the minimum is refused as such, and a range that
/// does not start before it stops as such.
pub proof fn law_check_etching_verdict(height: u32, network: BitcoinNetwork, arg: EtchingArgs)
    ensures
        spec_check_etching(height, network, arg) is Ok ==> {
            &&& arg.height is Some || arg.offset is Some
            &&& spaced_rune_of(arg.rune@) matches Some((rune, _)) && rune_minimum(
                match network {
                    BitcoinNetwork::Mainnet => Chain::Bitcoin,
                    BitcoinNetwork::Testnet => Chain::Testnet,
                    BitcoinNetwork::Regtest => Chain::Regtest,
                },
                height,
            ) <= rune && rune < 6402364363415443603228541259936211926u128
            &&& arg.symbol <= 0x10FFFF && !(0xD800 <= arg.symbol && arg.symbol <= 0xDFFF)
            &&& arg.amount > 0 && arg.cap > 0
            &&& arg.divisibility <= 38
            &&& arg.height matches Some((start, stop)) ==> start < stop
            &&& arg.offset matches Some((start, stop)) ==> start < stop
        },
        spec_check_etching(height, network, arg) == Err::<(), EtchingError>(
            EtchingError::RuneBelowMinimum,
        ) ==> (spaced_rune_of(arg.rune@) matches Some((rune, _)) && rune < rune_minimum(
            match network {
                BitcoinNetwork::Mainnet => Chain::Bitcoin,
                BitcoinNetwork::Testnet => Chain::Testnet,
                BitcoinNetwork::Regtest => Chain::Regtest,
            },
            height,
        )),
        spec_check_etching(height, network, arg) == Err::<(), EtchingError>(
            EtchingError::EmptyHeightRange,
        ) ==> (arg.height matches Some((start, stop)) && start >= stop),
        spec_check_etching(height, network, arg) == Err::<(), EtchingError>(
            EtchingError::EmptyOffsetRange,
        ) ==> (arg.offset matches Some((start, stop)) && start >= stop),
        (arg.height is Some || arg.offset is Some) ==> (spaced_rune_of(arg.rune@) matches Some((rune, _))
            ==> (rune < rune_minimum(
            match network {
                BitcoinNetwork::Mainnet => Chain::Bitcoin,
                BitcoinNetwork::Testnet => Chain::Testnet,
                BitcoinNetwork::Regtest => Chain::Regtest,
            },
            height,
        ) ==> spec_check_etching(height, network, arg) == Err::<(), EtchingError>(
            EtchingError::RuneBelowMinimum,
        ))),
{
}

/// The etching runestone of a request holds what was asked for: the rune,
/// its spacers and symbol, divisibility, premine and turbo flag, and terms
/// with the amount, the cap, and each range given as its two bounds (a range
/// not given as no bounds); it mints nothing and points where it is told.
pub proof fn law_etching_runestone_carries_request(
    arg: EtchingArgs,
    rune: u128,
    spacers: u32,
    symbol: char,
    pointer: Option<u32>,
)
    ensures
        ({
            let stone = etching_runestone(arg, rune, spacers, symbol, pointer);
            &&& stone.mint is None
            &&& stone.pointer == pointer
            &&& stone.etching is Some
            &&& stone.etching.unwrap().terms is Some
            &&& stone.etching.unwrap().rune == Some(rune)
            &&& stone.etching.unwrap().spacers == Some(spacers)
            &&& stone.etching.unwrap().symbol == Some(symbol)
            &&& stone.etching.unwrap().divisibility == Some(arg.divisibility)
            &&& stone.etching.unwrap().premine == Some(arg.premine)
            &&& stone.etching.unwrap().turbo == arg.turbo
            &&& stone.etching.unwrap().terms.unwrap().amount == Some(arg.amount)
            &&& stone.etching.unwrap().terms.unwrap().cap == Some(arg.cap)
            &&& stone.etching.unwrap().terms.unwrap().height == (match arg.height {
                Some((start, stop)) => (Some(start), Some(stop)),
                None => (None::<u64>, None::<u64>),
            })
            &&& stone.etching.unwrap().terms.unwrap().offset == (match arg.offset {
                Some((start, stop)) => (Some(start), Some(stop)),
                None => (None::<u64>, None::<u64>),
            })
        }),
{
}

/// A range as the pair of optional bounds that a runestone's terms hold.
pub open spec fn range_bounds(range: Option<(u64, u64)>) -> (Option<u64>, Option<u64>) {
    match range {
        Some((start, stop)) => (Some(start), Some(stop)),
        None => (None, None),
    }
}

fn bounds_of(range: Option<(u64, u64)>) -> (r: (Option<u64>, Option<u64>))
    ensures
        r == range_bounds(range),
{
    match range {
        Some((start, stop)) => (Some(start), Some(stop)),
        None => (None, None),
    }
}

/// The etching runestone for a request, given the parsed rune and symbol.
pub open spec fn etching_runestone(
    arg: EtchingArgs,
    rune: u128,
    spacers: u32,
    symbol: char,
    pointer: Option<u32>,
) -> RunestoneData {
    RunestoneData {
        etching: Some(
            EtchingData {
                divisibility: Some(arg.divisibility),
                premine: Some(arg.premine),
                rune: Some(rune),
                spacers: Some(spacers),
                symbol: Some(symbol),
                terms: Some(
                    TermsData {
                        amount: Some(arg.amount),
                        cap: Some(arg.cap),
                        height: range_bounds(arg.height),
                        offset: range_bounds(arg.offset),
                    },
                ),
                turbo: arg.turbo,
            },
        ),
        mint: None,
        pointer,
    }
}

/// The runestone that etches the requested rune, its premine (if any)
/// pointed at output `pointer`. It fails when the name does not parse, when
/// the symbol is no character, and when neither range is given.
pub fn build_etching_runestone(arg: &EtchingArgs, pointer: Option<u32>) -> (r: Result<
    RunestoneData,
    EtchingError,
>)
    requires
        spaced_rune_parse_safe(arg.rune@),
    ensures
        match r {
            Ok(stone) => {
                &&& spaced_rune_of(arg.rune@) matches Some((rune, spacers))
                &&& is_scalar_value(arg.symbol)
                &&& (arg.height is Some || arg.offset is Some)
                &&& stone == etching_runestone(*arg, rune, spacers, arg.symbol as char, pointer)
                &&& stone.mint is None
                &&& stone.pointer == pointer
                &&& stone.etching is Some
                &&& stone.etching.unwrap().terms is Some
                &&& stone.etching.unwrap().rune == Some(rune)
                &&& stone.etching.unwrap().spacers == Some(spacers)
                &&& stone.etching.unwrap().symbol == Some(arg.symbol as char)
                &&& stone.etching.unwrap().divisibility == Some(arg.divisibility)
                &&& stone.etching.unwrap().premine == Some(arg.premine)
                &&& stone.etching.unwrap().turbo == arg.turbo
                &&& stone.etching.unwrap().terms.unwrap().amount == Some(arg.amount)
                &&& stone.etching.unwrap().terms.unwrap().cap == Some(arg.cap)
                &&& stone.etching.unwrap().terms.unwrap().height == (match arg.height {
                    Some((start, stop)) => (Some(start), Some(stop)),
                    None => (None::<u64>, None::<u64>),
                })
                &&& stone.etching.unwrap().terms.unwrap().offset == (match arg.offset {
                    Some((start, stop)) => (Some(start), Some(stop)),
                    None => (None::<u64>, None::<u64>),
                })
            },
            Err(e) => {
                &&& e == (if spaced_rune_of(arg.rune@) is None {
                    EtchingError::InvalidRuneName
                } else if !is_scalar_value(arg.symbol) {
                    EtchingError::InvalidSymbol
                } else {
                    EtchingError::NoTermSet
                })
                &&& (spaced_rune_of(arg.rune@) is None || !is_scalar_value(arg.symbol) || (
                arg.height is None && arg.offset is None))
            },
        },
{
    let (rune, spacers) = match spaced_rune_from_str(arg.rune.as_str()) {
        Some(parsed) => parsed,
        None => {
            return Err(EtchingError::InvalidRuneName);
        },
    };
    let symbol = match char_from_u32(arg.symbol) {
        Some(c) => c,
        None => {
            return Err(EtchingError::InvalidSymbol);
        },
    };
    if arg.height.is_none() && arg.offset.is_none() {
        return Err(EtchingError::NoTermSet);
    }
    let terms = TermsData {
        amount: Some(arg.amount),
        cap: Some(arg.cap),
        height: bounds_of(arg.height),
        offset: bounds_of(arg.offset),
    };
    let etching = EtchingData {
        divisibility: Some(arg.divisibility),
        premine: Some(arg.premine),
        rune: Some(rune),
        spacers: Some(spacers),
        symbol: Some(symbol),
        terms: Some(terms),
        turbo: arg.turbo,
    };
    Ok(RunestoneData { etching: Some(etching), mint: None, pointer })
}

/// The runestone that the fee estimate measures: like the etching's, but
/// each range kept as given (a missing one as no bounds) and no pointer.
pub fn build_estimate_runestone(arg: &EtchingArgs) -> (r: Result<RunestoneData, EtchingError>)
    requires
        spaced_rune_parse_safe(arg.rune@),
    ensures
        match r {
            Ok(stone) => {
                &&& spaced_rune_of(arg.rune@) matches Some((rune, spacers))
                &&& is_scalar_value(arg.symbol)
                &&& stone == etching_runestone(*arg, rune, spacers, arg.symbol as char, None)
                &&& stone.mint is None
                &&& stone.pointer == None::<u32>
                &&& stone.etching is Some
                &&& stone.etching.unwrap().terms is Some
                &&& stone.etching.unwrap().rune == Some(rune)
                &&& stone.etching.unwrap().spacers == Some(spacers)
                &&& stone.etching.unwrap().symbol == Some(arg.symbol as char)
                &&& stone.etching.unwrap().divisibility == Some(arg.divisibility)
                &&& stone.etching.unwrap().premine == Some(arg.premine)
                &&& stone.etching.unwrap().turbo == arg.turbo
                &&& stone.etching.unwrap().terms.unwrap().amount == Some(arg.amount)
                &&& stone.etching.unwrap().terms.unwrap().cap == Some(arg.cap)
                &&& stone.etching.unwrap().terms.unwrap().height == (match arg.height {
                    Some((start, stop)) => (Some(start), Some(stop)),
                    None => (None::<u64>, None::<u64>),
                })
                &&& stone.etching.unwrap().terms.unwrap().offset == (match arg.offset {
                    Some((start, stop)) => (Some(start), Some(stop)),
                    None => (None::<u64>, None::<u64>),
                })
            },
            Err(e) => e == (if spaced_rune_of(arg.rune@) is None {
                EtchingError::InvalidRuneName
            } else {
                EtchingError::InvalidSymbol
            }) && (spaced_rune_of(arg.rune@) is None || !is_scalar_value(arg.symbol)),
        },
{
    let (rune, spacers) = match spaced_rune_from_str(arg.rune.as_str()) {
        Some(parsed) => parsed,
        None => {
            return Err(EtchingError::InvalidRuneName);
        },
    };
    let symbol = match char_from_u32(arg.symbol) {
        Some(c) => c,
        None => {
            return Err(EtchingError::InvalidSymbol);
        },
    };
    let terms = TermsData {
        amount: Some(arg.amount),
        cap: Some(arg.cap),
        height: bounds_of(arg.height),
        offset: bounds_of(arg.offset),
    };
    let etching = EtchingData {
        divisibility: Some(arg.divisibility),
        premine: Some(arg.premine),
        rune: Some(rune),
        spacers: Some(spacers),
        symbol: Some(symbol),
        terms: Some(terms),
        turbo: arg.turbo,
    };
    Ok(RunestoneData { etching: Some(etching), mint: None, pointer: None })
}

/// The request with its rune name in upper case, the form that rune names
/// are parsed in.
pub fn uppercase_rune_name(args: EtchingArgs) -> (r: EtchingArgs)
    ensures
        r.rune@ == args.rune@.map_values(|c: char| ascii_upper(c)),
        r == (EtchingArgs { rune: r.rune, ..args }),
{
    let rune = to_ascii_uppercase(args.rune.as_str());
    EtchingArgs { rune, ..args }
}

/// The value of the output that receives a premine.
pub const PREMINE_OUTPUT_VALUE: u64 = 10_000;

/// The reveal outputs that come before the runestone: one to the caller
/// when there is a premine, which the runestone then points at.
pub fn reveal_premine_outputs(premine: u128, caller_script: &[u8]) -> (r: (Vec<TxOutputPlan>, Option<u32>))
    ensures
        premine > 0 ==> outputs_view(r.0@) == seq![(caller_script@, PREMINE_OUTPUT_VALUE)] && r.1
            == Some(0u32),
        premine == 0 ==> r.0@.len() == 0 && r.1 is None,
{
    let mut outputs: Vec<TxOutputPlan> = Vec::new();
    let mut pointer: Option<u32> = None;
    if premine > 0 {
        outputs.push(TxOutputPlan { script_pubkey: copy_bytes(caller_script), value: PREMINE_OUTPUT_VALUE });
        pointer = Some(0u32);
        assert(outputs_view(outputs@) =~= seq![(caller_script@, PREMINE_OUTPUT_VALUE)]);
    }
    (outputs, pointer)
}

/// The OP_RETURN output that carries a runestone, with value 0; refused
/// when the script exceeds `MAX_OP_RETURN_SCRIPT` bytes.
pub fn runestone_output(stone: &RunestoneData) -> (r: Result<TxOutputPlan, EtchingError>)
    ensures
        match r {
            Ok(out) => output_view(out) == (runestone_script(*stone), 0u64) && runestone_script(
                *stone,
            ).len() <= MAX_OP_RETURN_SCRIPT,
            Err(e) => e == EtchingError::OpReturnTooLarge && runestone_script(*stone).len()
                > MAX_OP_RETURN_SCRIPT,
        },
{
    let script_pubkey = runestone_encipher(stone);
    if script_pubkey.len() > MAX_OP_RETURN_SCRIPT {
        return Err(EtchingError::OpReturnTooLarge);
    }
    Ok(TxOutputPlan { script_pubkey, value: 0 })
}

/// The value of the first `k` UTXOs, in list order.
pub open spec fn spent_forward(utxos: Seq<Utxo>, k: nat) -> int
    decreases k,
{
    if k == 0 {
        0
    } else {
        spent_forward(utxos, (k - 1) as nat) + utxos[k - 1].value
    }
}

proof fn lemma_spent_forward_monotone(utxos: Seq<Utxo>, j: nat, k: nat)
    requires
        j <= k <= utxos.len(),
    ensures
        0 <= spent_forward(utxos, j) <= spent_forward(utxos, k),
    decreases k,
{
    if j < k {
        lemma_spent_forward_monotone(utxos, j, (k - 1) as nat);
    } else if k > 0 {
        lemma_spent_forward_monotone(utxos, 0, (k - 1) as nat);
    }
}

/// Inputs that spend every UTXO in list order.
pub open spec fn inputs_in_order(utxos: Seq<Utxo>, sequence: u32) -> Seq<(Seq<u8>, u32, u32)> {
    Seq::new(
        utxos.len(),
        |j: int| (utxos[j].outpoint.txid@, utxos[j].outpoint.vout, sequence),
    )
}

/// The commit transaction before its fee is taken: every UTXO, in list
/// order and open to replacement, pays into the one output that the reveal
/// will spend. Returns it with the total it spends.
pub fn build_commit_transaction(owned_utxos: &[Utxo], commit_script: &[u8]) -> (r: (TxPlan, u64))
    requires
        spent_forward(owned_utxos@, owned_utxos@.len()) <= u64::MAX,
    ensures
        r.1 == spent_forward(owned_utxos@, owned_utxos@.len()),
        r.0.version == 2,
        r.0.lock_time == 0,
        inputs_view(r.0.inputs@) == inputs_in_order(owned_utxos@, 0xFFFF_FFFD),
        inputs_unsigned(r.0.inputs@),
        outputs_view(r.0.outputs@) == seq![(commit_script@, r.1)],
{
    let ghost utxos = owned_utxos@;
    let n = owned_utxos.len();
    let rbf = sequence_rbf_no_locktime();
    let mut inputs: Vec<TxInputPlan> = Vec::new();
    let mut total_spent: u64 = 0;
    let mut i: usize = 0;
    while i < n
        invariant
            n == utxos.len(),
            utxos == owned_utxos@,
            spent_forward(utxos, n as nat) <= u64::MAX,
            i <= n,
            total_spent == spent_forward(utxos, i as nat),
            rbf == 0xFFFF_FFFD,
            inputs@.len() == i,
            inputs_view(inputs@) == inputs_in_order(utxos.subrange(0, i as int), rbf),
            inputs_unsigned(inputs@),
        decreases n - i,
    {
        proof {
            lemma_spent_forward_monotone(utxos, (i + 1) as nat, n as nat);
        }
        let ghost old_inputs = inputs@;
        let utxo = &owned_utxos[i];
        total_spent = total_spent + utxo.value;
        let txid = copy_bytes(utxo.outpoint.txid.as_slice());
        inputs.push(TxInputPlan::unsigned(txid, utxo.outpoint.vout, rbf));
        i = i + 1;
        assert forall|j: int| 0 <= j < i implies #[trigger] inputs_view(inputs@)[j]
            == inputs_in_order(utxos.subrange(0, i as int), rbf)[j] by {
            if j < i - 1 {
                assert(inputs@[j] == old_inputs[j]);
                assert(inputs_view(old_inputs)[j] == inputs_in_order(utxos.subrange(0, i - 1), rbf)[j]);
            }
        }
        assert(inputs_view(inputs@) =~= inputs_in_order(utxos.subrange(0, i as int), rbf));
    }
    assert(utxos.subrange(0, n as int) =~= utxos);
    let mut outputs: Vec<TxOutputPlan> = Vec::new();
    outputs.push(TxOutputPlan { script_pubkey: copy_bytes(commit_script), value: total_spent });
    assert(outputs_view(outputs@) =~= seq![(commit_script@, total_spent)]);
    (TxPlan { version: 2, lock_time: 0, inputs, outputs }, total_spent)
}

/// The bytes that the commit fee counts for each signature.
pub const SIGNATURE_BYTES: u64 = 73;

/// The commit fee in satoshis as the canister computes it:
/// `FeeRate::from_sat_per_vb(rate * vsize + 73)` read in sat/kwu.
pub open spec fn spec_commit_fee(fee_rate_kwu: u64, vsize: u64) -> int {
    (fee_rate_kwu * vsize + SIGNATURE_BYTES) * 250
}

/// The commit fee for a commit transaction of `commit_vsize` virtual bytes
/// at `fee_rate_kwu` satoshis per kilo-weight-unit.
pub fn commit_fee(fee_rate_kwu: u64, commit_vsize: u64) -> (r: u64)
    requires
        spec_commit_fee(fee_rate_kwu, commit_vsize) <= u64::MAX,
    ensures
        r == spec_commit_fee(fee_rate_kwu, commit_vsize),
{
    assert(fee_rate_kwu * commit_vsize + SIGNATURE_BYTES <= u64::MAX);
    let per_vb = fee_rate_kwu * commit_vsize + SIGNATURE_BYTES;
    fee_rate_kwu_from_sat_per_vb(per_vb).unwrap()
}

/// The fee rate that an etching pays, in sat/kwu: the requested rate in
/// sat/vB, 10 when none is given, times 250.
pub open spec fn spec_etching_fee_rate(fee_rate: Option<u64>) -> int {
    match fee_rate {
        Some(r) => r * 250,
        None => 2500,
    }
}

/// A request without a fee rate pays 10 sat/vB: the same as one that asks
/// for 10.
pub proof fn law_default_fee_rate()
    ensures
        spec_etching_fee_rate(None) == spec_etching_fee_rate(Some(10)),
{
}

/// The fee rate of an etching request in sat/kwu.
pub fn etching_fee_rate_kwu(fee_rate: Option<u64>) -> (r: u64)
    requires
        spec_etching_fee_rate(fee_rate) <= u64::MAX,
    ensures
        r == spec_etching_fee_rate(fee_rate),
        fee_rate matches Some(sat_vb) ==> r == sat_vb * 250,
        fee_rate is None ==> r == 2500,
{
    let sat_vb = match fee_rate {
        Some(r) => r,
        None => 10,
    };
    fee_rate_kwu_from_sat_per_vb(sat_vb).unwrap()
}

/// Takes the commit fee out of the commit transaction's single output.
pub fn apply_commit_fee(commit: &mut TxPlan, total_spent: u64, fee: u64)
    requires
        old(commit).outputs@.len() == 1,
        fee <= total_spent,
    ensures
        final(commit).version == old(commit).version,
        final(commit).lock_time == old(commit).lock_time,
        final(commit).inputs@ == old(commit).inputs@,
        outputs_view(final(commit).outputs@) == seq![
            (old(commit).outputs@[0].script_pubkey@, (total_spent - fee) as u64),
        ],
{
    let script = copy_bytes(commit.outputs[0].script_pubkey.as_slice());
    commit.outputs.set(0, TxOutputPlan { script_pubkey: script, value: total_spent - fee });
    assert(outputs_view(commit.outputs@) =~= seq![
        (old(commit).outputs@[0].script_pubkey@, (total_spent - fee) as u64),
    ]);
}

/// The index of the first output that pays to `script`.
pub fn find_output_index(outputs: &[TxOutputPlan], script: &[u8]) -> (r: Option<usize>)
    ensures
        match r {
            Some(i) => i < outputs@.len() && outputs@[i as int].script_pubkey@ == script@ && forall|
                j: int,
            | 0 <= j < i ==> outputs@[j].script_pubkey@ != script@,
            None => forall|j: int|
                0 <= j < outputs@.len() ==> outputs@[j].script_pubkey@ != script@,
        },
{
    let mut i: usize = 0;
    while i < outputs.len()
        invariant
            i <= outputs@.len(),
            forall|j: int| 0 <= j < i ==> outputs@[j].script_pubkey@ != script@,
        decreases outputs@.len() - i,
    {
        if bytes_equal(outputs[i].script_pubkey.as_slice(), script) {
            return Some(i);
        }
        i = i + 1;
    }
    None
}

/// The reveal input's sequence: a relative lock of one block fewer than
/// the confirmations that a commitment needs.
pub open spec fn reveal_sequence() -> u32 {
    5
}

/// The reveal transaction spending the given outpoints, each locked for
/// `reveal_sequence()` blocks, with the given outputs.
pub fn reveal_transaction(input: &[Outpoint], output: Vec<TxOutputPlan>) -> (r: TxPlan)
    ensures
        r.version == 2,
        r.lock_time == 0,
        inputs_view(r.inputs@) == Seq::new(
            input@.len(),
            |j: int| (input@[j].txid@, input@[j].vout, reveal_sequence()),
        ),
        inputs_unsigned(r.inputs@),
        r.outputs@ == output@,
{
    let confirmations = commit_confirmations();
    let sequence = sequence_from_height(confirmations - 1);
    let mut inputs: Vec<TxInputPlan> = Vec::new();
    let mut i: usize = 0;
    while i < input.len()
        invariant
            i <= input@.len(),
            sequence == reveal_sequence(),
            inputs@.len() == i,
            inputs_view(inputs@) == Seq::new(
                i as nat,
                |j: int| (input@[j].txid@, input@[j].vout, reveal_sequence()),
            ),
            inputs_unsigned(inputs@),
        decreases input@.len() - i,
    {
        let ghost old_inputs = inputs@;
        let txid = copy_bytes(input[i].txid.as_slice());
        inputs.push(TxInputPlan::unsigned(txid, input[i].vout, sequence));
        i = i + 1;
        assert forall|j: int| 0 <= j < i implies #[trigger] inputs_view(inputs@)[j] == (
        input@[j].txid@, input@[j].vout, reveal_sequence()) by {
            if j < i - 1 {
                assert(inputs@[j] == old_inputs[j]);
                assert(inputs_view(old_inputs)[j] == (input@[j].txid@, input@[j].vout, reveal_sequence()));
            }
        }
        assert(inputs_view(inputs@) =~= Seq::new(
            i as nat,
            |j: int| (input@[j].txid@, input@[j].vout, reveal_sequence()),
        ));
    }
    TxPlan { version: 2, lock_time: 0, inputs, outputs: output }
}

/// 2 to the power `e`.
pub open spec fn pow2_nat(e: nat) -> nat
    decreases e,
{
    if e == 0 {
        1
    } else {
        2 * pow2_nat((e - 1) as nat)
    }
}

/// How many low bits of `x` an `f64` drops: none below 2^53, where every
/// integer is a float, one more for each doubling above.
pub open spec fn float_scale(x: nat) -> nat
    decreases x,
{
    if x < 0x20_0000_0000_0000 {
        0
    } else {
        1 + float_scale(x / 2)
    }
}

/// The `f64` nearest to the integer `x`, ties to the even mantissa (what
/// `as f64` and a float product give), as an integer.
pub open spec fn to_f64(x: nat) -> nat {
    let p = pow2_nat(float_scale(x));
    let q = x / p;
    let r = x % p;
    if float_scale(x) == 0 {
        x
    } else if r * 2 > p || (r * 2 == p && q % 2 == 1) {
        (q + 1) * p
    } else {
        q * p
    }
}

/// The fee that `(rate as f64 * vsize as f64).round() as u64` gives: the
/// product of the two floats, rounded to a float (an integer, so `round`
/// keeps it), then cast, which saturates at `u64::MAX`. A product of 2^64
/// or more rounds to a float of at least 2^64, since 2^64 is a float.
pub open spec fn float_fee(rate: u64, vsize: u64) -> nat {
    let x = to_f64(rate as nat) * to_f64(vsize as nat);
    if x >= 0x1_0000_0000_0000_0000 {
        u64::MAX as nat
    } else if to_f64(x) > u64::MAX {
        u64::MAX as nat
    } else {
        to_f64(x)
    }
}

/// The `f64` nearest to `x`, as an integer; `None` where it exceeds
/// `u128::MAX`.
fn round_to_f64(x: u128) -> (r: Option<u128>)
    ensures
        match r {
            Some(v) => v == to_f64(x as nat),
            None => to_f64(x as nat) > u128::MAX,
        },
        x < 0x1_0000_0000_0000_0000 ==> r is Some,
{
    let mut y = x;
    let mut p: u128 = 1;
    let ghost mut e: nat = 0;
    while y >= 0x20_0000_0000_0000
        invariant
            p == pow2_nat(e),
            p >= 1,
            y == x / p,
            p * y <= x,
            e > 0 ==> p * 0x10_0000_0000_0000 <= x,
            (e == 0) == (p == 1),
            float_scale(x as nat) == e + float_scale(y as nat),
        decreases y,
    {
        assert(p * 0x20_0000_0000_0000 <= x) by (nonlinear_arith)
            requires
                p * y <= x,
                y >= 0x20_0000_0000_0000,
                p >= 1,
        ;
        proof {
            vstd::arithmetic::div_mod::lemma_div_denominator(x as int, p as int, 2);
        }
        assert(2 * p * (y / 2) <= x) by (nonlinear_arith)
            requires
                p * y <= x,
                p >= 1,
        ;
        y = y / 2;
        p = p * 2;
        proof {
            e = e + 1;
        }
    }
    assert(float_scale(y as nat) == 0);
    if p == 1 {
        return Some(x);
    }
    let rem = x % p;
    let q = y;
    let q2 = if rem * 2 > p || (rem * 2 == p && q % 2 == 1) {
        q + 1
    } else {
        q
    };
    if x < 0x1_0000_0000_0000_0000 {
        assert(q2 * p <= u128::MAX) by (nonlinear_arith)
            requires
                p * 0x10_0000_0000_0000 <= x,
                x < 0x1_0000_0000_0000_0000,
                q2 <= 0x20_0000_0000_0000,
        ;
    }
    q2.checked_mul(p)
}

/// The reveal fee as the canister computes it with floats (see
/// `float_fee`).
pub fn reveal_fee_of(rate: u64, vsize: u64) -> (r: u64)
    ensures
        r == float_fee(rate, vsize),
{
    if vsize == 0 {
        assert(to_f64(0) == 0);
        assert(to_f64(rate as nat) * to_f64(vsize as nat) == 0) by (nonlinear_arith)
            requires
                to_f64(vsize as nat) == 0,
        ;
        return 0;
    }
    let b = match round_to_f64(vsize as u128) {
        Some(b) => b,
        None => {
            return 0;
        },
    };
    let a = match round_to_f64(rate as u128) {
        Some(a) => a,
        None => {
            return 0;
        },
    };
    assert(a as nat * b as nat == to_f64(rate as nat) * to_f64(vsize as nat));
    let x = match a.checked_mul(b) {
        Some(x) => x,
        None => {
            return u64::MAX;
        },
    };
    if x >= 0x1_0000_0000_0000_0000 {
        return u64::MAX;
    }
    match round_to_f64(x) {
        Some(v) => {
            if v > u64::MAX as u128 {
                u64::MAX
            } else {
                v as u64
            }
        },
        None => u64::MAX,
    }
}

/// `n` zero bytes.
pub open spec fn zero_bytes(n: nat) -> Seq<u8> {
    Seq::new(n, |i: int| 0u8)
}

/// The witness that the reveal fee is measured with: a zero signature, and
/// on the input that spends the commit output also the script and the
/// control block.
pub open spec fn probe_witness(spends_commit: bool, script: Seq<u8>, control_block: Seq<u8>) -> Seq<
    Seq<u8>,
> {
    if spends_commit {
        seq![zero_bytes(64), script, control_block]
    } else {
        seq![zero_bytes(64)]
    }
}

/// The reveal transaction with the witnesses that its fee pays for.
pub open spec fn reveal_probe_model(
    commit_input_index: int,
    control_block: Seq<u8>,
    outputs: Seq<(Seq<u8>, u64)>,
    input: Seq<(Seq<u8>, u32)>,
    script: Seq<u8>,
) -> TxModel {
    (
        2,
        0,
        Seq::new(
            input.len(),
            |j: int|
                (
                    input[j].0,
                    input[j].1,
                    reveal_sequence(),
                    Seq::<u8>::empty(),
                    probe_witness(j == commit_input_index, script, control_block),
                ),
        ),
        outputs,
    )
}

/// Outpoints as (txid, vout).
pub open spec fn outpoints_view(s: Seq<Outpoint>) -> Seq<(Seq<u8>, u32)> {
    s.map_values(|o: Outpoint| (o.txid@, o.vout))
}

fn zero_vec(n: usize) -> (r: Vec<u8>)
    ensures
        r@ == zero_bytes(n as nat),
{
    let mut v: Vec<u8> = Vec::new();
    let mut i: usize = 0;
    while i < n
        invariant
            i <= n,
            v@ == zero_bytes(i as nat),
        decreases n - i,
    {
        v.push(0u8);
        i = i + 1;
        assert(v@ =~= zero_bytes(i as nat));
    }
    v
}

fn probe_witness_vec(spends_commit: bool, script: &[u8], control_block: &[u8]) -> (r: Vec<Vec<u8>>)
    ensures
        r@.map_values(|w: Vec<u8>| w@) == probe_witness(spends_commit, script@, control_block@),
{
    let zeros = zero_vec(64);
    let sig = taproot_signature_bytes(zeros.as_slice());
    let mut w: Vec<Vec<u8>> = Vec::new();
    w.push(sig);
    if spends_commit {
        w.push(copy_bytes(script));
        w.push(copy_bytes(control_block));
    }
    assert(w@.map_values(|w: Vec<u8>| w@) =~= probe_witness(spends_commit, script@, control_block@));
    w
}

/// The reveal transaction spending `input` with outputs `output`, and the
/// fee it pays at `fee_rate_kwu` sat/kwu for its size once signed: the
/// input at `commit_input_index` with a signature, the script and the
/// control block, the others with a signature each. The fee is the rate
/// times the size, multiplied as floats and cast back (see `float_fee`).
pub fn build_reveal_transaction(
    commit_input_index: usize,
    control_block: &[u8],
    fee_rate_kwu: u64,
    output: Vec<TxOutputPlan>,
    input: &[Outpoint],
    script: &[u8],
) -> (r: (TxPlan, u64))
    requires
        forall|j: int| 0 <= j < input@.len() ==> (#[trigger] input@[j]).txid@.len() == 32,
    ensures
        ({
            let size = vsize_of(
                reveal_probe_model(
                    commit_input_index as int,
                    control_block@,
                    outputs_view(output@),
                    outpoints_view(input@),
                    script@,
                ),
            );
            let (tx, fee) = r;
            &&& tx.version == 2
            &&& tx.lock_time == 0
            &&& inputs_view(tx.inputs@) == Seq::new(
                input@.len(),
                |j: int| (input@[j].txid@, input@[j].vout, reveal_sequence()),
            )
            &&& inputs_unsigned(tx.inputs@)
            &&& tx.outputs@ == output@
            &&& fee == float_fee(fee_rate_kwu, size)
        }),
{
    let confirmations = commit_confirmations();
    let sequence = sequence_from_height(confirmations - 1);
    let mut inputs: Vec<TxInputPlan> = Vec::new();
    let mut j: usize = 0;
    while j < input.len()
        invariant
            j <= input@.len(),
            sequence == reveal_sequence(),
            forall|k: int| 0 <= k < input@.len() ==> (#[trigger] input@[k]).txid@.len() == 32,
            inputs@.len() == j,
            forall|k: int|
                #![trigger inputs@[k]]
                0 <= k < j ==> inputs@[k].txid@.len() == 32 && input_model(inputs@[k]) == (
                    input@[k].txid@,
                    input@[k].vout,
                    reveal_sequence(),
                    Seq::<u8>::empty(),
                    probe_witness(k == commit_input_index, script@, control_block@),
                ),
        decreases input@.len() - j,
    {
        let witness = probe_witness_vec(j == commit_input_index, script, control_block);
        let txid = copy_bytes(input[j].txid.as_slice());
        inputs.push(
            TxInputPlan { txid, vout: input[j].vout, sequence, script_sig: Vec::new(), witness },
        );
        j = j + 1;
    }
    let outputs = copy_outputs(&output);
    let probe = TxPlan { version: 2, lock_time: 0, inputs, outputs };
    assert(tx_model(probe).2 =~= reveal_probe_model(
        commit_input_index as int,
        control_block@,
        outputs_view(output@),
        outpoints_view(input@),
        script@,
    ).2);
    let size = tx_vsize(&probe);
    let tx = reveal_transaction(input, output);
    (tx, reveal_fee_of(fee_rate_kwu, size))
}

/// The reveal's last output: what is left for the caller once the commit
/// and reveal fees are paid.
pub fn reveal_change_output(caller_script: &[u8], total_spent: u64, commit_fee: u64, reveal_fee: u64)
    -> (r: TxOutputPlan)
    requires
        commit_fee + reveal_fee <= total_spent,
    ensures
        output_view(r) == (caller_script@, (total_spent - commit_fee - reveal_fee) as u64),
{
    TxOutputPlan { script_pubkey: copy_bytes(caller_script), value: total_spent - commit_fee - reveal_fee }
}

/// Whether every output carries at least the dust threshold of its script.
pub fn outputs_clear_dust(outputs: &[TxOutputPlan]) -> (r: bool)
    requires
        forall|j: int| 0 <= j < outputs@.len() ==> outputs@[j].script_pubkey@.len() <= u32::MAX,
    ensures
        r == forall|j: int|
            0 <= j < outputs@.len() ==> outputs@[j].value >= dust_threshold(
                #[trigger] outputs@[j].script_pubkey@,
            ),
{
    let mut i: usize = 0;
    while i < outputs.len()
        invariant
            i <= outputs@.len(),
            forall|j: int| 0 <= j < outputs@.len() ==> outputs@[j].script_pubkey@.len() <= u32::MAX,
            forall|j: int|
                0 <= j < i ==> outputs@[j].value >= dust_threshold(
                    #[trigger] outputs@[j].script_pubkey@,
                ),
        decreases outputs@.len() - i,
    {
        let threshold = script_dust_threshold(outputs[i].script_pubkey.as_slice());
        if outputs[i].value < threshold {
            return false;
        }
        i = i + 1;
    }
    true
}

/// The tag of BIP-341 signature hashes, "TapSighash", as bytes.
pub open spec fn tap_sighash_tag() -> Seq<u8> {
    seq![0x54u8, 0x61, 0x70, 0x53, 0x69, 0x67, 0x68, 0x61, 0x73, 0x68]
}

/// The BIP-340 tagged hash of the taproot signing data: SHA-256 over the
/// tag's digest twice and then the data.
pub open spec fn spec_tap_sighash_digest(signing_data: Seq<u8>) -> Seq<u8> {
    let tag = sha256_of(tap_sighash_tag());
    sha256_of(tag + tag + signing_data)
}

/// The digest that the reveal's Schnorr signature signs.
pub fn tap_sighash_digest(signing_data: &[u8]) -> (r: Vec<u8>)
    ensures
        r@ == spec_tap_sighash_digest(signing_data@),
        r@.len() == 32,
{
    let tag: Vec<u8> = vec![0x54u8, 0x61, 0x70, 0x53, 0x69, 0x67, 0x68, 0x61, 0x73, 0x68];
    assert(tag@ =~= tap_sighash_tag());
    let hashed_tag = sha256(tag.as_slice());
    let mut prefix = copy_bytes(hashed_tag.as_slice());
    push_range(&mut prefix, hashed_tag.as_slice(), 0, hashed_tag.len());
    push_range(&mut prefix, signing_data, 0, signing_data.len());
    assert(hashed_tag@.subrange(0, hashed_tag@.len() as int) =~= hashed_tag@);
    assert(signing_data@.subrange(0, signing_data@.len() as int) =~= signing_data@);
    sha256(prefix.as_slice())
}

/// The fee estimate of an etching, as three lines of text.
pub open spec fn fee_estimate_lines(commit: u64, reveal: u64) -> (Seq<char>, Seq<char>, Seq<char>) {
    (
        "Commit fee: "@ + decimal(commit as nat),
        "Reveal fee: "@ + decimal(reveal as nat),
        "Total fees: "@ + decimal((commit + reveal) as nat),
    )
}

fn labelled(label: &str, n: u64) -> (r: String)
    ensures
        r@ == label@ + decimal(n as nat),
{
    let mut s = String::from_str(label);
    let d = u64_to_decimal(n);
    s.append(d.as_str());
    s
}

/// What an etching costs, given how many UTXOs the commit spends, the
/// requested fee rate, and the reveal fee measured on the reveal
/// transaction: the commit fee counts one input per UTXO plus the output,
/// and one signature.
pub fn estimate_etching_fees(utxo_count: usize, fee_rate: Option<u64>, reveal_fee: u64) -> (r: (
    String,
    String,
    String,
))
    requires
        spec_etching_fee_rate(fee_rate) <= u64::MAX,
        utxo_count < usize::MAX,
        spec_commit_fee(spec_etching_fee_rate(fee_rate) as u64, (utxo_count + 1) as u64) + reveal_fee
            <= u64::MAX,
    ensures
        ({
            let commit = spec_commit_fee(spec_etching_fee_rate(fee_rate) as u64, (utxo_count + 1) as u64);
            let lines = fee_estimate_lines(commit as u64, reveal_fee);
            r.0@ == lines.0 && r.1@ == lines.1 && r.2@ == lines.2
        }),
{
    let rate = etching_fee_rate_kwu(fee_rate);
    let commit = commit_fee(rate, (utxo_count + 1) as u64);
    let total = commit + reveal_fee;
    (labelled("Commit fee: ", commit), labelled("Reveal fee: ", reveal_fee), labelled("Total fees: ", total))
}

/// The value of all the UTXOs, summed in list order as the commit spends
/// them; `None` where it does not fit in 64 bits.
pub fn total_in_order(utxos: &[Utxo]) -> (r: Option<u64>)
    ensures
        match r {
            Some(t) => t == spent_forward(utxos@, utxos@.len()),
            None => spent_forward(utxos@, utxos@.len()) > u64::MAX,
        },
{
    let n = utxos.len();
    let mut total: u64 = 0;
    let mut k: usize = 0;
    while k < n
        invariant
            n == utxos@.len(),
            k <= n,
            total == spent_forward(utxos@, k as nat),
        decreases n - k,
    {
        match total.checked_add(utxos[k].value) {
            Some(t) => {
                total = t;
            },
            None => {
                proof {
                    lemma_spent_forward_monotone(utxos@, (k + 1) as nat, n as nat);
                }
                return None;
            },
        }
        k = k + 1;
    }
    Some(total)
}

/// Whether a rune name is one that `SpacedRune::from_str` can parse without
/// overflowing (see `spaced_rune_parse_safe`).
pub fn rune_name_parse_safe(name: &str) -> (r: bool)
    ensures
        r == spaced_rune_parse_safe(name@),
{
    let n = name.unicode_len();
    if n as u64 > 0xFFFF_FFFFu64 {
        return false;
    }
    let ghost s = name@;
    let mut letters: usize = 0;
    let mut i: usize = 0;
    while i < n
        invariant
            n == s.len(),
            n <= u32::MAX,
            s == name@,
            i <= n,
            letters == letters_before(s, i as int),
            letters <= i,
            forall|j: int| 0 <= j < i ==> is_rune_letter(s[j]) || is_spacer(s[j]),
            forall|k: int|
                0 <= k < i && is_spacer(#[trigger] s[k]) ==> letters_before(s, k) <= 32,
        decreases n - i,
    {
        let c = name.get_char(i);
        if 'A' <= c && c <= 'Z' {
            letters = letters + 1;
        } else if c == '.' || c == '•' {
            if letters > 32 {
                return false;
            }
        } else {
            assert forall|k: int|
                0 <= k < s.len() && is_spacer(#[trigger] s[k]) && (forall|j: int|
                    0 <= j < k ==> is_rune_letter(s[j]) || is_spacer(s[j])) implies letters_before(s, k)
                <= 32 by {
                if k > i {
                    assert(!(is_rune_letter(s[i as int]) || is_spacer(s[i as int])));
                }
            }
            return true;
        }
        i = i + 1;
    }
    true
}

} // verus!

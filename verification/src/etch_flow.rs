//! The etching of a rune as a sequence of steps between signatures: the
//! canister builds the commit and reveal transactions here, and hands out
//! what the management canister has to sign at each step.
use crate::bytes::copy_bytes;
use crate::text::decimal;
use crate::etching::{
    apply_commit_fee, build_commit_transaction, build_estimate_runestone, build_etching_runestone,
    build_reveal_transaction, estimate_etching_fees, etching_fee_rate_kwu, etching_runestone,
    fee_estimate_lines, find_output_index, inputs_in_order, is_scalar_value, outputs_clear_dust,
    reveal_change_output, reveal_premine_outputs, reveal_probe_model, reveal_sequence,
    reveal_transaction, runestone_output, spec_commit_fee, spec_etching_fee_rate,
    spec_tap_sighash_digest, spent_forward, tap_sighash_digest, zero_bytes, EtchingError,
    float_fee, PREMINE_OUTPUT_VALUE, SIGNATURE_BYTES,
};
use crate::foreign::{
    address_script_of, address_script_pubkey, deciphers_as, dust_threshold,
    fee_rate_kwu_from_sat_per_vb, legacy_sighash_of, null_outpoint, p2tr_address, p2tr_address_of,
    runestone_decipher_matches, runestone_script, schnorr_signature_parses, schnorr_verifies,
    spaced_rune_of, spaced_rune_parse_safe, tap_signing_data, tap_signing_data_of,
    taproot_signature_bytes, taproot_spend, taproot_spend_of, tx_txid, tx_vsize, txid_of,
    verify_schnorr, vsize_of, xonly_key_valid, xonly_of_public_key, xonly_public_key,
};
use crate::mint::{
    all_signatures_fit, p2pkh_sighashes, p2pkh_signed, sign_p2pkh_inputs, signatures_fit, sigs_view,
    utxo_txids_well_formed, MAX_OP_RETURN_SCRIPT,
};
use crate::runes::RunestoneData;
use crate::script::{
    estimate_reveal_script, reveal_script, spec_estimate_reveal_script, spec_reveal_script,
};
use crate::txplan::{
    copy_outputs, inputs_unsigned, inputs_view, output_view, outputs_view, tx_model,
    txids_well_formed, value_sum, TxModel, TxOutputPlan, TxPlan,
};
use crate::types::{
    spec_transform_network, transform_network, BitcoinNetwork, EtchingArgs, Outpoint, Utxo,
};
use vstd::prelude::*;

verus! {

/// The output that an etching's premine goes to, if there is one.
pub open spec fn spec_pointer(premine: u128) -> Option<u32> {
    if premine > 0 {
        Some(0u32)
    } else {
        None
    }
}

/// The reveal outputs before the runestone.
pub open spec fn premine_prefix(premine: u128, caller_script: Seq<u8>) -> Seq<(Seq<u8>, u64)> {
    if premine > 0 {
        seq![(caller_script, PREMINE_OUTPUT_VALUE)]
    } else {
        Seq::empty()
    }
}

/// What the reveal of an etching is built from: the x-only Schnorr key it
/// is signed with, the script whose envelope carries the rune's commitment,
/// the taproot output that commits to that script, the caller's script,
/// the runestone and the reveal outputs so far.
#[derive(Debug, Clone)]
pub struct RevealSetup {
    pub schnorr_key: Vec<u8>,
    pub reveal_script: Vec<u8>,
    pub control_block: Vec<u8>,
    pub commit_address: String,
    pub commit_script: Vec<u8>,
    pub caller_script: Vec<u8>,
    pub runestone: RunestoneData,
    pub reveal_outputs: Vec<TxOutputPlan>,
}

/// The first check of an etching's setup that fails, in the order the
/// canister makes them.
pub open spec fn reveal_setup_error(
    schnorr_public_key: Seq<u8>,
    caller_address: Seq<char>,
    args: EtchingArgs,
) -> Option<EtchingError> {
    if spaced_rune_of(args.rune@) is None {
        Some(EtchingError::InvalidRuneName)
    } else if !is_scalar_value(args.symbol) {
        Some(EtchingError::InvalidSymbol)
    } else if xonly_of_public_key(schnorr_public_key) is None {
        Some(EtchingError::InvalidPublicKey)
    } else if address_script_of(caller_address) is None {
        Some(EtchingError::InvalidAddress)
    } else if args.height is None && args.offset is None {
        Some(EtchingError::NoTermSet)
    } else if runestone_script(
        etching_runestone(
            args,
            spaced_rune_of(args.rune@).unwrap().0,
            spaced_rune_of(args.rune@).unwrap().1,
            args.symbol as char,
            spec_pointer(args.premine),
        ),
    ).len() > MAX_OP_RETURN_SCRIPT {
        Some(EtchingError::OpReturnTooLarge)
    } else {
        None
    }
}

/// The setup of a reveal, as the inputs determine it.
pub open spec fn reveal_setup_ok(
    setup: RevealSetup,
    schnorr_public_key: Seq<u8>,
    caller_address: Seq<char>,
    network: BitcoinNetwork,
    args: EtchingArgs,
) -> bool {
    &&& spaced_rune_of(args.rune@) matches Some((rune, spacers))
    &&& xonly_of_public_key(schnorr_public_key) == Some(setup.schnorr_key@)
    &&& setup.schnorr_key@.len() == 32
    &&& xonly_key_valid(setup.schnorr_key@)
    &&& setup.reveal_script@ == spec_reveal_script(setup.schnorr_key@, rune)
    &&& setup.control_block@ == taproot_spend_of(setup.schnorr_key@, setup.reveal_script@).1
    &&& setup.commit_address@ == p2tr_address_of(
        taproot_spend_of(setup.schnorr_key@, setup.reveal_script@).0,
        spec_transform_network(network),
    )
    &&& setup.commit_script@ == seq![0x51u8, 0x20] + taproot_spend_of(
        setup.schnorr_key@,
        setup.reveal_script@,
    ).0
    &&& address_script_of(caller_address) == Some(setup.caller_script@)
    &&& setup.caller_script@.len() <= 42
    &&& setup.runestone == etching_runestone(
        args,
        rune,
        spacers,
        args.symbol as char,
        spec_pointer(args.premine),
    )
    &&& runestone_script(setup.runestone).len() <= MAX_OP_RETURN_SCRIPT
    &&& outputs_view(setup.reveal_outputs@) == premine_prefix(args.premine, setup.caller_script@)
        + seq![(runestone_script(setup.runestone), 0u64)]
}

/// Builds what the reveal of an etching needs: parses the rune, the symbol,
/// the Schnorr key and the caller's address, builds the reveal script and
/// the taproot output that commits to it, and the reveal outputs: the
/// premine output (when there is a premine) and the runestone.
pub fn setup_reveal(
    schnorr_public_key: &[u8],
    caller_p2pkh_address: &str,
    network: BitcoinNetwork,
    args: &EtchingArgs,
) -> (r: Result<RevealSetup, EtchingError>)
    requires
        spaced_rune_parse_safe(args.rune@),
    ensures
        match r {
            Ok(setup) => reveal_setup_error(schnorr_public_key@, caller_p2pkh_address@, *args)
                is None && reveal_setup_ok(
                setup,
                schnorr_public_key@,
                caller_p2pkh_address@,
                network,
                *args,
            ),
            Err(e) => reveal_setup_error(schnorr_public_key@, caller_p2pkh_address@, *args) == Some(
                e,
            ),
        },
{
    // The runestone is checked first: a bad name or symbol is refused
    // before anything else, with a pointer that does not change the verdict.
    let probe = build_etching_runestone(args, None);
    match probe {
        Err(EtchingError::InvalidRuneName) => {
            return Err(EtchingError::InvalidRuneName);
        },
        Err(EtchingError::InvalidSymbol) => {
            return Err(EtchingError::InvalidSymbol);
        },
        _ => {},
    }
    let schnorr_key = match xonly_public_key(schnorr_public_key) {
        Some(key) => key,
        None => {
            return Err(EtchingError::InvalidPublicKey);
        },
    };
    let rune = match &probe {
        Ok(stone) => stone.etching.unwrap().rune.unwrap(),
        Err(_) => {
            // Only a missing term is left, and it is reported after the
            // address; the rune is needed for the script before that.
            proof {
                assert(spaced_rune_of(args.rune@) is Some);
            }
            match crate::foreign::spaced_rune_from_str(args.rune.as_str()) {
                Some((rune, _)) => rune,
                None => {
                    return Err(EtchingError::InvalidRuneName);
                },
            }
        },
    };
    let script = reveal_script(schnorr_key.as_slice(), rune);
    let (output_key, control_block) = taproot_spend(schnorr_key.as_slice(), script.as_slice());
    let chain = transform_network(network);
    let caller_script = match address_script_pubkey(caller_p2pkh_address) {
        Some(s) => s,
        None => {
            return Err(EtchingError::InvalidAddress);
        },
    };
    let (commit_address, commit_script) = p2tr_address(output_key.as_slice(), chain);
    let (mut reveal_outputs, pointer) = reveal_premine_outputs(args.premine, caller_script.as_slice());
    let runestone = build_etching_runestone(args, pointer)?;
    let op_return = runestone_output(&runestone)?;
    let ghost prefix = outputs_view(reveal_outputs@);
    reveal_outputs.push(op_return);
    assert(outputs_view(reveal_outputs@) =~= prefix + seq![(runestone_script(runestone), 0u64)]);
    Ok(
        RevealSetup {
            schnorr_key,
            reveal_script: script,
            control_block,
            commit_address,
            commit_script,
            caller_script,
            runestone,
            reveal_outputs,
        },
    )
}

/// What the rest of an etching is built from, as plain values:
/// (reveal script, control block, reveal outputs before the change,
/// commit script, caller's script).
pub type RevealPlan = (Seq<u8>, Seq<u8>, Seq<(Seq<u8>, u64)>, Seq<u8>, Seq<u8>);

/// The plan that a setup holds.
pub open spec fn setup_plan(setup: RevealSetup) -> RevealPlan {
    (
        setup.reveal_script@,
        setup.control_block@,
        outputs_view(setup.reveal_outputs@),
        setup.commit_script@,
        setup.caller_script@,
    )
}

/// The plan that the inputs of an etching determine.
pub open spec fn reveal_plan(
    schnorr_public_key: Seq<u8>,
    caller_address: Seq<char>,
    args: EtchingArgs,
) -> RevealPlan {
    let key = xonly_of_public_key(schnorr_public_key).unwrap();
    let rune = spaced_rune_of(args.rune@).unwrap().0;
    let spacers = spaced_rune_of(args.rune@).unwrap().1;
    let script = spec_reveal_script(key, rune);
    let spend = taproot_spend_of(key, script);
    let caller = address_script_of(caller_address).unwrap();
    let stone = etching_runestone(args, rune, spacers, args.symbol as char, spec_pointer(args.premine));
    (
        script,
        spend.1,
        premine_prefix(args.premine, caller) + seq![(runestone_script(stone), 0u64)],
        seq![0x51u8, 0x20] + spend.0,
        caller,
    )
}

/// The commit transaction: every UTXO in list order, open to replacement,
/// paying `value` to the commit script.
pub open spec fn commit_model(utxos: Seq<Utxo>, commit_script: Seq<u8>, value: u64) -> TxModel {
    (
        2,
        0,
        Seq::new(
            utxos.len(),
            |j: int|
                (
                    utxos[j].outpoint.txid@,
                    utxos[j].outpoint.vout,
                    0xFFFF_FFFDu32,
                    Seq::<u8>::empty(),
                    Seq::<Seq<u8>>::empty(),
                ),
        ),
        seq![(commit_script, value)],
    )
}

/// The reveal whose size the reveal fee pays: it spends the null outpoint
/// with a zero signature, the script and the control block.
pub open spec fn fee_probe_model(plan: RevealPlan) -> TxModel {
    reveal_probe_model(0, plan.1, plan.2, seq![(zero_bytes(32), u32::MAX)], plan.0)
}

/// The reveal fee at `rate` sat/kwu.
pub open spec fn plan_reveal_fee(plan: RevealPlan, rate: u64) -> int {
    float_fee(rate, vsize_of(fee_probe_model(plan))) as int
}

/// The commit fee at `rate` sat/kwu, counted on the commit transaction
/// before its fee is taken.
pub open spec fn plan_commit_fee(plan: RevealPlan, utxos: Seq<Utxo>, rate: u64) -> int {
    spec_commit_fee(rate, vsize_of(commit_model(utxos, plan.3, spent_forward(utxos, utxos.len()) as u64)))
}

/// What the caller gets back once both fees are paid.
pub open spec fn plan_change(plan: RevealPlan, utxos: Seq<Utxo>, rate: u64) -> int {
    spent_forward(utxos, utxos.len()) - plan_commit_fee(plan, utxos, rate) - plan_reveal_fee(plan, rate)
}

/// The reveal outputs: the planned ones and the change.
pub open spec fn plan_reveal_outputs(plan: RevealPlan, utxos: Seq<Utxo>, rate: u64) -> Seq<(Seq<u8>, u64)> {
    plan.2.push((plan.4, plan_change(plan, utxos, rate) as u64))
}

/// Every output carries at least its script's dust threshold.
pub open spec fn clear_of_dust(outputs: Seq<(Seq<u8>, u64)>) -> bool {
    forall|j: int| 0 <= j < outputs.len() ==> (#[trigger] outputs[j]).1 >= dust_threshold(outputs[j].0)
}

/// Why the UTXOs cannot fund the plan at `rate`, if they cannot.
pub open spec fn funding_error(plan: RevealPlan, utxos: Seq<Utxo>, rate: u64) -> Option<EtchingError> {
    if plan_commit_fee(plan, utxos, rate) > u64::MAX {
        Some(EtchingError::FeeOverflow)
    } else if plan_change(plan, utxos, rate) < 0 {
        Some(EtchingError::InsufficientFunds)
    } else if !clear_of_dust(plan_reveal_outputs(plan, utxos, rate)) {
        Some(EtchingError::DustOutput)
    } else {
        None
    }
}

/// Why an etching cannot start, if it cannot.
pub open spec fn etching_start_error(
    schnorr_public_key: Seq<u8>,
    caller_address: Seq<char>,
    args: EtchingArgs,
    utxos: Seq<Utxo>,
) -> Option<EtchingError> {
    match reveal_setup_error(schnorr_public_key, caller_address, args) {
        Some(e) => Some(e),
        None => funding_error(
            reveal_plan(schnorr_public_key, caller_address, args),
            utxos,
            spec_etching_fee_rate(args.fee_rate) as u64,
        ),
    }
}

/// An etching waiting for the signatures of its commit transaction: the
/// setup, the commit transaction with its fee taken, the reveal outputs
/// with the change, and the hash that each commit input's signature signs.
#[derive(Debug, Clone)]
pub struct CommitSigning {
    pub setup: RevealSetup,
    pub commit_tx: TxPlan,
    pub reveal_outputs: Vec<TxOutputPlan>,
    pub sighashes: Vec<Vec<u8>>,
}

/// What the next step needs of an etching waiting for commit signatures.
pub open spec fn commit_signing_wf(s: CommitSigning) -> bool {
    &&& txids_well_formed(s.commit_tx)
    &&& s.commit_tx.outputs@.len() == 1
    &&& s.commit_tx.outputs@[0].script_pubkey@ == s.setup.commit_script@
    &&& s.setup.schnorr_key@.len() == 32
    &&& xonly_key_valid(s.setup.schnorr_key@)
}

/// The commit step as the UTXOs and the rate determine it.
pub open spec fn commit_signing_ready(s: CommitSigning, utxos: Seq<Utxo>, rate: u64) -> bool {
    let plan = setup_plan(s.setup);
    let total = spent_forward(utxos, utxos.len());
    &&& tx_model(s.commit_tx) == commit_model(
        utxos,
        plan.3,
        (total - plan_commit_fee(plan, utxos, rate)) as u64,
    )
    &&& outputs_view(s.reveal_outputs@) == plan_reveal_outputs(plan, utxos, rate)
    &&& s.sighashes@.len() == utxos.len()
    &&& forall|j: int|
        0 <= j < utxos.len() ==> (#[trigger] s.sighashes@[j])@ == legacy_sighash_of(
            tx_model(s.commit_tx),
            j as usize,
            plan.4,
            1,
        )
    &&& commit_signing_wf(s)
}

proof fn lemma_setup_plan(
    setup: RevealSetup,
    schnorr_public_key: Seq<u8>,
    caller_address: Seq<char>,
    network: BitcoinNetwork,
    args: EtchingArgs,
)
    requires
        reveal_setup_ok(setup, schnorr_public_key, caller_address, network, args),
    ensures
        setup_plan(setup) == reveal_plan(schnorr_public_key, caller_address, args),
{
}

proof fn lemma_commit_model(utxos: Seq<Utxo>, script: Seq<u8>, value: u64, tx: TxPlan)
    requires
        tx.version == 2,
        tx.lock_time == 0,
        inputs_view(tx.inputs@) == inputs_in_order(utxos, 0xFFFF_FFFD),
        inputs_unsigned(tx.inputs@),
        outputs_view(tx.outputs@) == seq![(script, value)],
        utxo_txids_well_formed(utxos),
    ensures
        tx_model(tx) == commit_model(utxos, script, value),
        txids_well_formed(tx),
        tx.inputs@.len() == utxos.len(),
        tx.outputs@.len() == 1,
        tx.outputs@[0].script_pubkey@ == script,
{
    let n = utxos.len();
    assert(tx.inputs@.len() == n) by {
        assert(inputs_view(tx.inputs@).len() == tx.inputs@.len());
    }
    assert(tx.outputs@.len() == 1) by {
        assert(outputs_view(tx.outputs@).len() == tx.outputs@.len());
    }
    assert(outputs_view(tx.outputs@)[0] == (script, value));
    assert forall|j: int| 0 <= j < n implies #[trigger] tx_model(tx).2[j] == commit_model(
        utxos,
        script,
        value,
    ).2[j] by {
        assert(inputs_view(tx.inputs@)[j] == inputs_in_order(utxos, 0xFFFF_FFFD)[j]);
        assert(tx.inputs@[j].witness@.map_values(|w: Vec<u8>| w@) =~= Seq::<Seq<u8>>::empty());
        assert(tx.inputs@[j].script_sig@ =~= Seq::<u8>::empty());
    }
    assert(tx_model(tx).2 =~= commit_model(utxos, script, value).2);
    assert forall|j: int| 0 <= j < tx.inputs@.len() implies (#[trigger] tx.inputs@[j]).txid@.len() == 32 by {
        assert(inputs_view(tx.inputs@)[j] == inputs_in_order(utxos, 0xFFFF_FFFD)[j]);
    }
}

/// Starts an etching: sets up the reveal (see `setup_reveal`), measures the
/// reveal fee on a reveal that spends the null outpoint, builds the commit
/// transaction from every UTXO, takes the commit fee out of it, adds the
/// change to the reveal outputs and checks them against dust, and hands
/// out the hashes that the commit inputs' signatures sign.
pub fn begin_etching(
    schnorr_public_key: &[u8],
    caller_p2pkh_address: &str,
    network: BitcoinNetwork,
    args: &EtchingArgs,
    owned_utxos: &[Utxo],
) -> (r: Result<CommitSigning, EtchingError>)
    requires
        spaced_rune_parse_safe(args.rune@),
        spec_etching_fee_rate(args.fee_rate) <= u64::MAX,
        spent_forward(owned_utxos@, owned_utxos@.len()) <= u64::MAX,
        utxo_txids_well_formed(owned_utxos@),
    ensures
        match r {
            Ok(s) => {
                &&& etching_start_error(schnorr_public_key@, caller_p2pkh_address@, *args, owned_utxos@)
                    is None
                &&& reveal_setup_ok(s.setup, schnorr_public_key@, caller_p2pkh_address@, network, *args)
                &&& commit_signing_ready(
                    s,
                    owned_utxos@,
                    spec_etching_fee_rate(args.fee_rate) as u64,
                )
            },
            Err(e) => etching_start_error(schnorr_public_key@, caller_p2pkh_address@, *args, owned_utxos@)
                == Some(e),
        },
{
    let setup = setup_reveal(schnorr_public_key, caller_p2pkh_address, network, args)?;
    let ghost plan = setup_plan(setup);
    proof {
        lemma_setup_plan(setup, schnorr_public_key@, caller_p2pkh_address@, network, *args);
    }
    let ghost utxos = owned_utxos@;
    let rate = etching_fee_rate_kwu(args.fee_rate);
    let (null_txid, null_vout) = null_outpoint();
    let probe_input = vec![Outpoint { txid: null_txid, vout: null_vout }];
    proof {
        assert(crate::etching::outpoints_view(probe_input@) =~= seq![(zero_bytes(32), u32::MAX)]);
    }
    let (_probe, reveal_fee) = build_reveal_transaction(
        0,
        setup.control_block.as_slice(),
        rate,
        copy_outputs(&setup.reveal_outputs),
        probe_input.as_slice(),
        setup.reveal_script.as_slice(),
    );
    let (mut commit_tx, total_spent) = build_commit_transaction(
        owned_utxos,
        setup.commit_script.as_slice(),
    );
    proof {
        lemma_commit_model(utxos, plan.3, total_spent, commit_tx);
    }
    let commit_vsize = tx_vsize(&commit_tx);
    let per_vb = match rate.checked_mul(commit_vsize) {
        Some(p) => match p.checked_add(SIGNATURE_BYTES) {
            Some(q) => q,
            None => {
                return Err(EtchingError::FeeOverflow);
            },
        },
        None => {
            return Err(EtchingError::FeeOverflow);
        },
    };
    let commit_fee = match fee_rate_kwu_from_sat_per_vb(per_vb) {
        Some(fee) => fee,
        None => {
            return Err(EtchingError::FeeOverflow);
        },
    };
    if commit_fee > total_spent || reveal_fee > total_spent - commit_fee {
        return Err(EtchingError::InsufficientFunds);
    }
    let ghost unsigned = commit_tx;
    apply_commit_fee(&mut commit_tx, total_spent, commit_fee);
    proof {
        lemma_commit_model(utxos, plan.3, (total_spent - commit_fee) as u64, commit_tx);
    }
    let mut reveal_outputs = copy_outputs(&setup.reveal_outputs);
    let change = reveal_change_output(
        setup.caller_script.as_slice(),
        total_spent,
        commit_fee,
        reveal_fee,
    );
    let ghost before = outputs_view(reveal_outputs@);
    reveal_outputs.push(change);
    proof {
        assert(outputs_view(reveal_outputs@) =~= before.push(output_view(change)));
        assert forall|j: int| 0 <= j < reveal_outputs@.len() implies (
        #[trigger] reveal_outputs@[j]).script_pubkey@.len() <= u32::MAX by {
            assert(outputs_view(reveal_outputs@)[j] == output_view(reveal_outputs@[j]));
            if j < before.len() - 1 {
                assert(plan.2[j] == premine_prefix(args.premine, plan.4)[j]);
            }
        }
    }
    if !outputs_clear_dust(reveal_outputs.as_slice()) {
        proof {
            let k = choose|j: int|
                0 <= j < reveal_outputs@.len() && !(reveal_outputs@[j].value >= dust_threshold(
                    reveal_outputs@[j].script_pubkey@,
                ));
            assert(outputs_view(reveal_outputs@)[k] == output_view(reveal_outputs@[k]));
        }
        return Err(EtchingError::DustOutput);
    }
    proof {
        assert forall|j: int| 0 <= j < plan_reveal_outputs(plan, utxos, rate).len() implies (
        #[trigger] plan_reveal_outputs(plan, utxos, rate)[j]).1 >= dust_threshold(
            plan_reveal_outputs(plan, utxos, rate)[j].0,
        ) by {
            assert(outputs_view(reveal_outputs@)[j] == output_view(reveal_outputs@[j]));
        }
    }
    let sighashes = p2pkh_sighashes(&commit_tx, setup.caller_script.as_slice());
    Ok(CommitSigning { setup, commit_tx, reveal_outputs, sighashes })
}

/// Signatures that can sign the commit: one per input, each fitting a
/// P2PKH script, under a public key that fits a push.
pub open spec fn commit_signatures_ok(s: CommitSigning, signatures: Seq<Vec<u8>>, public_key: Seq<u8>) -> bool {
    &&& signatures.len() == s.commit_tx.inputs@.len()
    &&& signatures_fit(signatures)
    &&& public_key.len() < 0x1_0000_0000
}

/// The reveal transaction before its witness: it spends output `vout` of
/// the commit transaction with the reveal's relative lock and pays
/// `outputs`.
pub open spec fn reveal_model(commit_txid: Seq<u8>, vout: u32, outputs: Seq<(Seq<u8>, u64)>) -> TxModel {
    (
        2,
        0,
        seq![(commit_txid, vout, reveal_sequence(), Seq::<u8>::empty(), Seq::<Seq<u8>>::empty())],
        outputs,
    )
}

/// An etching waiting for the Schnorr signature of its reveal: the setup,
/// the signed commit transaction, the reveal transaction, and the digest
/// that the signature signs.
#[derive(Debug, Clone)]
pub struct RevealSigning {
    pub setup: RevealSetup,
    pub commit_tx: TxPlan,
    pub reveal_tx: TxPlan,
    pub digest: Vec<u8>,
}

/// What the last step needs of an etching waiting for its reveal signature.
pub open spec fn reveal_signing_wf(s: RevealSigning) -> bool {
    &&& txids_well_formed(s.reveal_tx)
    &&& s.reveal_tx.inputs@.len() == 1
    &&& s.digest@.len() == 32
    &&& s.setup.schnorr_key@.len() == 32
    &&& xonly_key_valid(s.setup.schnorr_key@)
}

/// Signs the commit with one signature per input (in input order) under
/// `ecdsa_public_key`, then builds the reveal that spends the commit's
/// output and the digest that the reveal's Schnorr signature signs. Refused
/// when the signatures do not fit the inputs.
pub fn sign_commit(s: CommitSigning, signatures: &Vec<Vec<u8>>, ecdsa_public_key: &[u8]) -> (r:
    Result<RevealSigning, EtchingError>)
    requires
        commit_signing_wf(s),
    ensures
        match r {
            Ok(next) => {
                &&& commit_signatures_ok(s, signatures@, ecdsa_public_key@)
                &&& next.setup == s.setup
                &&& tx_model(next.commit_tx) == p2pkh_signed(
                    tx_model(s.commit_tx),
                    sigs_view(signatures@),
                    ecdsa_public_key@,
                )
                &&& tx_model(next.reveal_tx) == reveal_model(
                    txid_of(tx_model(next.commit_tx)),
                    0,
                    outputs_view(s.reveal_outputs@),
                )
                &&& next.digest@ == spec_tap_sighash_digest(
                    tap_signing_data_of(
                        tx_model(next.reveal_tx),
                        s.setup.commit_script@,
                        s.commit_tx.outputs@[0].value,
                        s.setup.reveal_script@,
                    ),
                )
                &&& reveal_signing_wf(next)
            },
            Err(e) => e == EtchingError::InvalidSignature && !commit_signatures_ok(
                s,
                signatures@,
                ecdsa_public_key@,
            ),
        },
{
    if signatures.len() != s.commit_tx.inputs.len() || ecdsa_public_key.len() as u64
        >= 0x1_0000_0000u64 || !all_signatures_fit(signatures) {
        return Err(EtchingError::InvalidSignature);
    }
    let ghost unsigned = s.commit_tx;
    let CommitSigning { setup, commit_tx, reveal_outputs, sighashes: _ } = s;
    let mut commit_tx = commit_tx;
    sign_p2pkh_inputs(&mut commit_tx, signatures, ecdsa_public_key);
    assert(outputs_view(commit_tx.outputs@) == outputs_view(unsigned.outputs@));
    assert(commit_tx.outputs@.len() == 1) by {
        assert(outputs_view(commit_tx.outputs@).len() == commit_tx.outputs@.len());
        assert(outputs_view(unsigned.outputs@).len() == unsigned.outputs@.len());
    }
    assert(commit_tx.outputs@[0].script_pubkey@ == setup.commit_script@) by {
        assert(outputs_view(commit_tx.outputs@)[0] == outputs_view(unsigned.outputs@)[0]);
    }
    let vout = match find_output_index(commit_tx.outputs.as_slice(), setup.commit_script.as_slice()) {
        Some(v) => v,
        None => {
            proof {
                assert(false);
            }
            return Err(EtchingError::InvalidSignature);
        },
    };
    assert(vout == 0);
    let txid = tx_txid(&commit_tx);
    let input = vec![Outpoint { txid, vout: vout as u32 }];
    let ghost outs = outputs_view(reveal_outputs@);
    let reveal_tx = reveal_transaction(input.as_slice(), reveal_outputs);
    proof {
        assert(reveal_tx.inputs@.len() == 1) by {
            assert(inputs_view(reveal_tx.inputs@).len() == reveal_tx.inputs@.len());
        }
        assert(inputs_view(reveal_tx.inputs@)[0] == (txid@, 0u32, reveal_sequence()));
        assert(reveal_tx.inputs@[0].witness@.map_values(|w: Vec<u8>| w@) =~= Seq::<Seq<u8>>::empty());
        assert(reveal_tx.inputs@[0].script_sig@ =~= Seq::<u8>::empty());
        assert(tx_model(reveal_tx).2 =~= reveal_model(txid@, 0, outs).2);
    }
    let prevout = &commit_tx.outputs[vout];
    assert(prevout.value == unsigned.outputs@[0].value) by {
        assert(outputs_view(commit_tx.outputs@)[0] == outputs_view(unsigned.outputs@)[0]);
    }
    let data = tap_signing_data(
        &reveal_tx,
        prevout.script_pubkey.as_slice(),
        prevout.value,
        setup.reveal_script.as_slice(),
    );
    let digest = tap_sighash_digest(data.as_slice());
    Ok(RevealSigning { setup, commit_tx, reveal_tx, digest })
}

/// The reveal with the witness of its first input extended by the
/// signature, the reveal script and the control block.
pub open spec fn with_reveal_witness(m: TxModel, sig: Seq<u8>, script: Seq<u8>, control_block: Seq<u8>) -> TxModel {
    let i = m.2[0];
    (m.0, m.1, m.2.update(0, (i.0, i.1, i.2, i.3, i.4 + seq![sig, script, control_block])), m.3)
}

/// The witness that finishing a reveal gives its input is the one a
/// BIP-341 script-path spend needs: what the input held, then the
/// signature, then the leaf script, and the control block last; the rest of
/// the transaction is kept. On the reveal that `sign_commit` builds, whose
/// input has an empty witness, it is exactly [signature, script, control
/// block].
pub proof fn law_reveal_witness_order(
    m: TxModel,
    sig: Seq<u8>,
    script: Seq<u8>,
    control_block: Seq<u8>,
    commit_txid: Seq<u8>,
    outputs: Seq<(Seq<u8>, u64)>,
)
    requires
        m.2.len() >= 1,
    ensures
        ({
            let w = with_reveal_witness(m, sig, script, control_block);
            &&& w.0 == m.0 && w.1 == m.1 && w.3 == m.3
            &&& w.2.len() == m.2.len()
            &&& w.2[0].0 == m.2[0].0 && w.2[0].1 == m.2[0].1 && w.2[0].2 == m.2[0].2
            &&& w.2[0].3 == m.2[0].3
            &&& w.2[0].4 == m.2[0].4 + seq![sig, script, control_block]
            &&& w.2[0].4.last() == control_block
            &&& w.2[0].4[w.2[0].4.len() - 2] == script
            &&& forall|j: int| 1 <= j < m.2.len() ==> w.2[j] == m.2[j]
        }),
        with_reveal_witness(reveal_model(commit_txid, 0, outputs), sig, script, control_block).2[0].4
            == seq![sig, script, control_block],
{
    let w = with_reveal_witness(m, sig, script, control_block);
    assert(w.2[0].4 == m.2[0].4 + seq![sig, script, control_block]);
    assert(w.2[0].4.last() == control_block);
    assert(w.2[0].4[w.2[0].4.len() - 2] == script);
    let r = reveal_model(commit_txid, 0, outputs);
    assert(with_reveal_witness(r, sig, script, control_block).2[0].4 =~= seq![
        sig,
        script,
        control_block,
    ]);
}

/// Why the reveal cannot be finished with `sig`, if it cannot.
pub open spec fn reveal_finish_error(s: RevealSigning, sig: Seq<u8>) -> Option<EtchingError> {
    if sig.len() != 64 {
        Some(EtchingError::InvalidSignature)
    } else if !schnorr_verifies(sig, s.digest@, s.setup.schnorr_key@) {
        Some(EtchingError::SignatureRejected)
    } else if deciphers_as(
        with_reveal_witness(
            tx_model(s.reveal_tx),
            sig,
            s.setup.reveal_script@,
            s.setup.control_block@,
        ),
        s.setup.runestone,
    ) != Some(true) {
        Some(EtchingError::RunestoneMismatch)
    } else {
        None
    }
}

/// Finishes an etching with the Schnorr signature of the reveal: checks it
/// against the digest and the key, puts it with the reveal script and the
/// control block into the reveal's witness, and checks that the reveal
/// carries the etching's runestone. Gives the commit address and the two
/// transactions.
pub fn finish_reveal(s: RevealSigning, schnorr_signature: &[u8]) -> (r: Result<
    (String, TxPlan, TxPlan),
    EtchingError,
>)
    requires
        reveal_signing_wf(s),
    ensures
        match r {
            Ok((address, commit, reveal)) => {
                &&& reveal_finish_error(s, schnorr_signature@) is None
                &&& address@ == s.setup.commit_address@
                &&& tx_model(commit) == tx_model(s.commit_tx)
                &&& tx_model(reveal) == with_reveal_witness(
                    tx_model(s.reveal_tx),
                    schnorr_signature@,
                    s.setup.reveal_script@,
                    s.setup.control_block@,
                )
                &&& tx_model(reveal).0 == tx_model(s.reveal_tx).0
                &&& tx_model(reveal).1 == tx_model(s.reveal_tx).1
                &&& tx_model(reveal).3 == tx_model(s.reveal_tx).3
                &&& tx_model(reveal).2.len() == 1
                &&& tx_model(reveal).2[0].0 == tx_model(s.reveal_tx).2[0].0
                &&& tx_model(reveal).2[0].1 == tx_model(s.reveal_tx).2[0].1
                &&& tx_model(reveal).2[0].2 == tx_model(s.reveal_tx).2[0].2
                &&& tx_model(reveal).2[0].3 == tx_model(s.reveal_tx).2[0].3
                &&& tx_model(reveal).2[0].4 == tx_model(s.reveal_tx).2[0].4 + seq![
                    schnorr_signature@,
                    s.setup.reveal_script@,
                    s.setup.control_block@,
                ]
            },
            Err(e) => reveal_finish_error(s, schnorr_signature@) == Some(e),
        },
{
    if !schnorr_signature_parses(schnorr_signature) {
        return Err(EtchingError::InvalidSignature);
    }
    if !verify_schnorr(schnorr_signature, s.digest.as_slice(), s.setup.schnorr_key.as_slice()) {
        return Err(EtchingError::SignatureRejected);
    }
    let ghost unsigned = s.reveal_tx;
    let RevealSigning { setup, commit_tx, reveal_tx, digest: _ } = s;
    let mut reveal_tx = reveal_tx;
    let mut input = reveal_tx.inputs[0].copy();
    let ghost old_witness = input.witness@;
    input.witness.push(taproot_signature_bytes(schnorr_signature));
    input.witness.push(copy_bytes(setup.reveal_script.as_slice()));
    input.witness.push(copy_bytes(setup.control_block.as_slice()));
    proof {
        assert(input.witness@.map_values(|w: Vec<u8>| w@) =~= old_witness.map_values(
            |w: Vec<u8>| w@,
        ) + seq![schnorr_signature@, setup.reveal_script@, setup.control_block@]);
    }
    reveal_tx.inputs.set(0, input);
    proof {
        assert(tx_model(reveal_tx).2 =~= with_reveal_witness(
            tx_model(unsigned),
            schnorr_signature@,
            setup.reveal_script@,
            setup.control_block@,
        ).2);
    }
    match runestone_decipher_matches(&reveal_tx, &setup.runestone) {
        Some(true) => Ok((setup.commit_address, commit_tx, reveal_tx)),
        _ => Err(EtchingError::RunestoneMismatch),
    }
}

/// The first check of a fee estimate's setup that fails, in the order the
/// canister makes them.
pub open spec fn estimate_setup_error(
    schnorr_public_key: Seq<u8>,
    caller_address: Seq<char>,
    args: EtchingArgs,
) -> Option<EtchingError> {
    if spaced_rune_of(args.rune@) is None {
        Some(EtchingError::InvalidRuneName)
    } else if !is_scalar_value(args.symbol) {
        Some(EtchingError::InvalidSymbol)
    } else if xonly_of_public_key(schnorr_public_key) is None {
        Some(EtchingError::InvalidPublicKey)
    } else if address_script_of(caller_address) is None {
        Some(EtchingError::InvalidAddress)
    } else if runestone_script(
        etching_runestone(
            args,
            spaced_rune_of(args.rune@).unwrap().0,
            spaced_rune_of(args.rune@).unwrap().1,
            args.symbol as char,
            None,
        ),
    ).len() > MAX_OP_RETURN_SCRIPT {
        Some(EtchingError::OpReturnTooLarge)
    } else {
        None
    }
}

/// The reveal that a fee estimate measures: its script has an empty
/// envelope, its runestone points nowhere, and it spends the null outpoint
/// with a zero signature, the script and the control block.
pub open spec fn estimate_probe_model(
    schnorr_public_key: Seq<u8>,
    caller_address: Seq<char>,
    args: EtchingArgs,
) -> TxModel {
    let key = xonly_of_public_key(schnorr_public_key).unwrap();
    let script = spec_estimate_reveal_script(key);
    let caller = address_script_of(caller_address).unwrap();
    let stone = etching_runestone(
        args,
        spaced_rune_of(args.rune@).unwrap().0,
        spaced_rune_of(args.rune@).unwrap().1,
        args.symbol as char,
        None,
    );
    reveal_probe_model(
        0,
        taproot_spend_of(key, script).1,
        premine_prefix(args.premine, caller) + seq![(runestone_script(stone), 0u64)],
        seq![(zero_bytes(32), u32::MAX)],
        script,
    )
}

/// The reveal fee that a fee estimate gives.
pub open spec fn estimated_reveal_fee(
    schnorr_public_key: Seq<u8>,
    caller_address: Seq<char>,
    args: EtchingArgs,
) -> int {
    float_fee(
        spec_etching_fee_rate(args.fee_rate) as u64,
        vsize_of(estimate_probe_model(schnorr_public_key, caller_address, args)),
    ) as int
}

/// The commit fee that a fee estimate gives for `utxo_count` UTXOs.
pub open spec fn estimated_commit_fee(utxo_count: nat, args: EtchingArgs) -> int {
    spec_commit_fee(spec_etching_fee_rate(args.fee_rate) as u64, (utxo_count + 1) as u64)
}

/// A fee estimate charges the rate that the request asks for (10 sat/vB
/// when it asks for none), the rate an etching is charged at: the commit
/// fee is (250 rate (n + 1) + 73) 250 for `n` UTXOs, the reveal fee is the
/// float product of 250 rate and the reveal's size, and a higher rate
/// gives a higher commit fee.
pub proof fn law_estimate_uses_requested_rate(
    utxo_count: nat,
    schnorr_public_key: Seq<u8>,
    caller_address: Seq<char>,
    args: EtchingArgs,
    other: EtchingArgs,
)
    requires
        spec_etching_fee_rate(args.fee_rate) <= u64::MAX,
        spec_etching_fee_rate(other.fee_rate) <= u64::MAX,
        utxo_count + 1 <= u64::MAX,
    ensures
        ({
            let rate: int = match args.fee_rate {
                Some(sat_vb) => sat_vb * 250,
                None => 2500,
            };
            &&& estimated_commit_fee(utxo_count, args) == (rate * (utxo_count + 1) + 73) * 250
            &&& estimated_reveal_fee(schnorr_public_key, caller_address, args) == float_fee(
                rate as u64,
                vsize_of(estimate_probe_model(schnorr_public_key, caller_address, args)),
            )
        }),
        (args.fee_rate matches Some(r) && other.fee_rate matches Some(r2) && r < r2)
            ==> estimated_commit_fee(utxo_count, args) < estimated_commit_fee(utxo_count, other),
        spec_etching_fee_rate(None) == spec_etching_fee_rate(Some(10u64)),
{
    if args.fee_rate is Some && other.fee_rate is Some {
        let r = args.fee_rate.unwrap();
        let r2 = other.fee_rate.unwrap();
        if r < r2 {
            let n = utxo_count + 1;
            assert((r * 250 * n + 73) * 250 < (r2 * 250 * n + 73) * 250) by (nonlinear_arith)
                requires
                    r < r2,
                    n >= 1,
            ;
        }
    }
}

/// Why a fee estimate fails, if it does.
pub open spec fn estimate_error(
    schnorr_public_key: Seq<u8>,
    caller_address: Seq<char>,
    args: EtchingArgs,
    utxo_count: nat,
) -> Option<EtchingError> {
    match estimate_setup_error(schnorr_public_key, caller_address, args) {
        Some(e) => Some(e),
        None => if estimated_commit_fee(utxo_count, args) + estimated_reveal_fee(
            schnorr_public_key,
            caller_address,
            args,
        ) > u64::MAX {
            Some(EtchingError::FeeOverflow)
        } else {
            None
        },
    }
}

/// Estimates what etching a rune costs before anything is signed: the
/// commit fee for one input per UTXO, the reveal fee measured on a reveal
/// with an empty envelope, and their total, as three lines of text.
pub fn estimate_etching_transaction_fees(
    owned_utxos: &[Utxo],
    schnorr_public_key: &[u8],
    caller_p2pkh_address: &str,
    etching_args: &EtchingArgs,
) -> (r: Result<(String, String, String), EtchingError>)
    requires
        spaced_rune_parse_safe(etching_args.rune@),
        spec_etching_fee_rate(etching_args.fee_rate) <= u64::MAX,
        owned_utxos@.len() < usize::MAX,
    ensures
        match r {
            Ok(lines) => {
                let commit = estimated_commit_fee(owned_utxos@.len(), *etching_args);
                let reveal = estimated_reveal_fee(
                    schnorr_public_key@,
                    caller_p2pkh_address@,
                    *etching_args,
                );
                let expected = fee_estimate_lines(commit as u64, reveal as u64);
                let rate: int = match etching_args.fee_rate {
                    Some(sat_vb) => sat_vb * 250,
                    None => 2500,
                };
                &&& commit == (rate * (owned_utxos@.len() + 1) + 73) * 250
                &&& reveal == float_fee(
                    rate as u64,
                    vsize_of(
                        estimate_probe_model(
                            schnorr_public_key@,
                            caller_p2pkh_address@,
                            *etching_args,
                        ),
                    ),
                )
                &&& lines.0@ == "Commit fee: "@ + decimal(
                    ((rate * (owned_utxos@.len() + 1) + 73) * 250) as nat,
                )
                &&& estimate_error(
                    schnorr_public_key@,
                    caller_p2pkh_address@,
                    *etching_args,
                    owned_utxos@.len(),
                ) is None
                &&& lines.0@ == expected.0 && lines.1@ == expected.1 && lines.2@ == expected.2
            },
            Err(e) => estimate_error(
                schnorr_public_key@,
                caller_p2pkh_address@,
                *etching_args,
                owned_utxos@.len(),
            ) == Some(e),
        },
{
    let stone = build_estimate_runestone(etching_args)?;
    let key = match xonly_public_key(schnorr_public_key) {
        Some(key) => key,
        None => {
            return Err(EtchingError::InvalidPublicKey);
        },
    };
    let script = estimate_reveal_script(key.as_slice());
    let (_output_key, control_block) = taproot_spend(key.as_slice(), script.as_slice());
    let caller_script = match address_script_pubkey(caller_p2pkh_address) {
        Some(s) => s,
        None => {
            return Err(EtchingError::InvalidAddress);
        },
    };
    let (mut outputs, _pointer) = reveal_premine_outputs(etching_args.premine, caller_script.as_slice());
    let op_return = runestone_output(&stone)?;
    let ghost prefix = outputs_view(outputs@);
    outputs.push(op_return);
    assert(outputs_view(outputs@) =~= prefix + seq![(runestone_script(stone), 0u64)]);
    let rate = etching_fee_rate_kwu(etching_args.fee_rate);
    let (null_txid, null_vout) = null_outpoint();
    let probe_input = vec![Outpoint { txid: null_txid, vout: null_vout }];
    proof {
        assert(crate::etching::outpoints_view(probe_input@) =~= seq![(zero_bytes(32), u32::MAX)]);
    }
    let (_probe, reveal_fee) = build_reveal_transaction(
        0,
        control_block.as_slice(),
        rate,
        outputs,
        probe_input.as_slice(),
        script.as_slice(),
    );
    let n = owned_utxos.len();
    let per_vb = match rate.checked_mul((n + 1) as u64) {
        Some(p) => match p.checked_add(SIGNATURE_BYTES) {
            Some(q) => q,
            None => {
                return Err(EtchingError::FeeOverflow);
            },
        },
        None => {
            return Err(EtchingError::FeeOverflow);
        },
    };
    let commit = match fee_rate_kwu_from_sat_per_vb(per_vb) {
        Some(fee) => fee,
        None => {
            return Err(EtchingError::FeeOverflow);
        },
    };
    if commit.checked_add(reveal_fee).is_none() {
        return Err(EtchingError::FeeOverflow);
    }
    Ok(estimate_etching_fees(n, etching_args.fee_rate, reveal_fee))
}

/// Where the value of an etching goes: the commit output holds what the
/// UTXOs hold less the commit fee, and the reveal pays out what the UTXOs
/// hold less both fees, plus the value of the premine output (when there
/// is a premine), which no input of the reveal funds.
pub proof fn law_etching_value_flow(
    schnorr_public_key: Seq<u8>,
    caller_address: Seq<char>,
    args: EtchingArgs,
    utxos: Seq<Utxo>,
)
    requires
        etching_start_error(schnorr_public_key, caller_address, args, utxos) is None,
        spec_etching_fee_rate(args.fee_rate) <= u64::MAX,
        spent_forward(utxos, utxos.len()) <= u64::MAX,
    ensures
        ({
            let plan = reveal_plan(schnorr_public_key, caller_address, args);
            let rate = spec_etching_fee_rate(args.fee_rate) as u64;
            let total = spent_forward(utxos, utxos.len());
            let commit_value = total - plan_commit_fee(plan, utxos, rate);
            let premine_value: int = if args.premine > 0 {
                PREMINE_OUTPUT_VALUE as int
            } else {
                0
            };
            &&& 0 <= plan_reveal_fee(plan, rate) <= commit_value <= total
            &&& value_sum(plan_reveal_outputs(plan, utxos, rate)) == commit_value - plan_reveal_fee(
                plan,
                rate,
            ) + premine_value
        }),
{
    let plan = reveal_plan(schnorr_public_key, caller_address, args);
    let rate = spec_etching_fee_rate(args.fee_rate) as u64;
    let outs = plan_reveal_outputs(plan, utxos, rate);
    let change = plan_change(plan, utxos, rate);
    let empty = Seq::<(Seq<u8>, u64)>::empty();
    assert(value_sum(empty) == 0);
    assert(outs.drop_last() =~= plan.2);
    assert(outs.last().1 == change);
    let stone_out = plan.2.last();
    assert(stone_out.1 == 0);
    if args.premine > 0 {
        let first = plan.2.drop_last();
        assert(first.len() == 1);
        assert(first.drop_last() =~= empty);
        assert(value_sum(first) == PREMINE_OUTPUT_VALUE);
        assert(value_sum(plan.2) == PREMINE_OUTPUT_VALUE);
    } else {
        assert(plan.2.drop_last() =~= empty);
        assert(value_sum(plan.2) == 0);
    }
}

} // verus!

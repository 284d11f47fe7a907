//! Minting an etched rune: the transaction that carries the mint runestone,
//! the fee-rate choice, and the step of the loop that settles the fee.
use crate::bytes::copy_bytes;
use crate::der::{
    der_integer_body, script_signature_fits, sec1_r, sec1_s, sec1_to_der_fits, spec_script_signature,
};
use crate::foreign::{rune_id_new, runestone_encipher, runestone_script};
use crate::runes::RunestoneData;
use crate::txplan::{
    total_from_end, inputs_from_end, inputs_view, outputs_view, prevouts_from_end, spent_from_end, TxInputPlan,
    TxOutputPlan, TxPlan, DUST_THRESHOLD, spend_from_end, inputs_unsigned, input_model, tx_model,
    txids_well_formed, InputModel, TxModel, from_end,
};
use crate::types::{MintArgs, Utxo};
use crate::script::{p2pkh_script_sig, spec_p2pkh_script_sig};
use crate::foreign::{legacy_sighash, legacy_sighash_of, sighash_all, tx_vsize, vsize_of};
use vstd::prelude::*;

verus! {

/// The largest script that an OP_RETURN output may carry and still relay.
pub const MAX_OP_RETURN_SCRIPT: usize = 82;

/// The rune id that `ordinals::RuneId::new` makes of a block and index.
pub open spec fn spec_rune_id(block: u64, tx: u32) -> Option<(u64, u32)> {
    if block == 0 && tx > 0 {
        None
    } else {
        Some((block, tx))
    }
}

/// The runestone that mints the rune with this id.
pub open spec fn mint_runestone(block: u64, tx: u32) -> RunestoneData {
    RunestoneData { etching: None, mint: spec_rune_id(block, tx), pointer: None }
}

/// The outputs of a mint: the runestone, then the change back to the
/// sender when it is not dust.
pub open spec fn mint_outputs(runestone: Seq<u8>, own: Seq<u8>, change: int) -> Seq<(Seq<u8>, u64)> {
    if change >= DUST_THRESHOLD {
        seq![(runestone, 0u64), (own, change as u64)]
    } else {
        seq![(runestone, 0u64)]
    }
}

/// The mint transaction around a given runestone script: it spends every
/// UTXO, newest first, pays `fee`, and returns the rest when it is not dust.
pub fn assemble_mint_transaction(own_utxos: &[Utxo], own_script: &[u8], fee: u64, runestone: &[u8])
    -> (r: (TxPlan, Vec<TxOutputPlan>))
    requires
        runestone@.len() <= MAX_OP_RETURN_SCRIPT,
        fee <= spent_from_end(own_utxos@, own_utxos@.len()) <= u64::MAX,
    ensures
        ({
            let n = own_utxos@.len();
            let total = spent_from_end(own_utxos@, n);
            &&& r.0.version == 2
            &&& r.0.lock_time == 0
            &&& inputs_view(r.0.inputs@) == inputs_from_end(own_utxos@, n, 0xFFFF_FFFF)
            &&& inputs_unsigned(r.0.inputs@)
            &&& outputs_view(r.1@) == prevouts_from_end(own_utxos@, n, own_script@)
            &&& outputs_view(r.0.outputs@) == mint_outputs(runestone@, own_script@, total - fee)
        }),
{
    let (inputs, prevouts, total_spent) = spend_from_end(own_utxos, own_script, own_utxos.len());
    let mut outputs: Vec<TxOutputPlan> = Vec::new();
    outputs.push(TxOutputPlan { script_pubkey: copy_bytes(runestone), value: 0 });
    let remaining_amount = total_spent - fee;
    if remaining_amount >= DUST_THRESHOLD {
        outputs.push(TxOutputPlan { script_pubkey: copy_bytes(own_script), value: remaining_amount });
    }
    assert(outputs_view(outputs@) =~= mint_outputs(runestone@, own_script@, total_spent - fee));
    (TxPlan { version: 2, lock_time: 0, inputs, outputs }, prevouts)
}

/// The message of a runestone that does not fit in an OP_RETURN output.
pub open spec fn op_return_too_large_message() -> Seq<char> {
    "Exceeds OP_RETURN size of 82"@
}

/// Builds the transaction that mints `mint_args.rune_id`, spending every
/// UTXO of the canister with the given `fee`. It fails, with the message
/// "Exceeds OP_RETURN size of 82", when the mint runestone's script is
/// longer than `MAX_OP_RETURN_SCRIPT`.
pub fn build_transaction_mint_with_fee(
    own_utxos: &[Utxo],
    own_script: &[u8],
    fee: u64,
    mint_args: &MintArgs,
) -> (r: Result<(TxPlan, Vec<TxOutputPlan>), String>)
    requires
        fee <= spent_from_end(own_utxos@, own_utxos@.len()) <= u64::MAX,
    ensures
        ({
            let n = own_utxos@.len();
            let total = spent_from_end(own_utxos@, n);
            let script = runestone_script(
                mint_runestone(mint_args.rune_id.block, mint_args.rune_id.tx),
            );
            match r {
                Ok((tx, prevouts)) => {
                    &&& script.len() <= MAX_OP_RETURN_SCRIPT
                    &&& tx.version == 2
                    &&& tx.lock_time == 0
                    &&& inputs_view(tx.inputs@) == inputs_from_end(own_utxos@, n, 0xFFFF_FFFF)
                    &&& inputs_unsigned(tx.inputs@)
                    &&& outputs_view(prevouts@) == prevouts_from_end(own_utxos@, n, own_script@)
                    &&& outputs_view(tx.outputs@) == mint_outputs(script, own_script@, total - fee)
                },
                Err(msg) => script.len() > MAX_OP_RETURN_SCRIPT && msg@
                    == op_return_too_large_message(),
            }
        }),
        runestone_script(mint_runestone(mint_args.rune_id.block, mint_args.rune_id.tx)).len() <= 20,
        r is Ok,
{
    let rune_id = rune_id_new(mint_args.rune_id.block, mint_args.rune_id.tx);
    let runestone = RunestoneData { etching: None, mint: rune_id, pointer: None };
    let script_pubkey = runestone_encipher(&runestone);
    if script_pubkey.len() > MAX_OP_RETURN_SCRIPT {
        return Err(String::from_str("Exceeds OP_RETURN size of 82"));
    }
    Ok(assemble_mint_transaction(own_utxos, own_script, fee, script_pubkey.as_slice()))
}

/// The next step of the loop that settles a transaction's fee: the fee
/// that a transaction of `tx_vsize` virtual bytes needs at
/// `fee_per_vbyte` millisatoshi per byte.
#[derive(Debug, Clone, Copy, PartialEq, Eq, Structural)]
pub enum FeeStep {
    /// The transaction built with the current fee already pays its size.
    Settled,
    /// Rebuild the transaction with this fee.
    Retry(u64),
}

/// The fee in satoshis for `vsize` virtual bytes at `rate` millisatoshi
/// per byte, rounded down.
pub open spec fn fee_for_size(vsize: u64, rate: u64) -> int {
    (vsize * rate) / 1000
}

/// One round of the fee loop: the transaction built with `total_fee`
/// measures `tx_vsize` once signed; the fee is settled when it pays exactly
/// for that size, and is otherwise replaced by what that size costs.
pub fn next_fee_step(total_fee: u64, tx_vsize: u64, fee_per_vbyte: u64) -> (r: FeeStep)
    requires
        tx_vsize * fee_per_vbyte <= u64::MAX,
    ensures
        r == (if fee_for_size(tx_vsize, fee_per_vbyte) == total_fee {
            FeeStep::Settled
        } else {
            FeeStep::Retry(fee_for_size(tx_vsize, fee_per_vbyte) as u64)
        }),
{
    let fee = (tx_vsize * fee_per_vbyte) / 1000;
    if fee == total_fee {
        FeeStep::Settled
    } else {
        FeeStep::Retry(fee)
    }
}

/// The fee rate to pay, from the network's current fee percentiles: the
/// median (the 50th percentile), or 2000 millisatoshi per byte (2 satoshi
/// per byte) when there are none, as on a fresh regtest network.
pub fn fee_per_byte_from_percentiles(fee_percentiles: &[u64]) -> (r: u64)
    requires
        fee_percentiles@.len() == 0 || fee_percentiles@.len() > 50,
    ensures
        r == (if fee_percentiles@.len() == 0 { 2000 } else { fee_percentiles@[50] }),
{
    if fee_percentiles.len() == 0 {
        2000
    } else {
        fee_percentiles[50]
    }
}

/// The signature that the fee loop signs with: 64 bytes of 0xff, the
/// largest a SEC1 signature can be once converted to DER.
pub open spec fn mock_signature() -> Seq<u8> {
    Seq::new(64, |i: int| 0xffu8)
}

/// A signer that rubber-stamps every message, for measuring the size of a
/// signed transaction.
pub fn mock_signer(_key_name: &str, _derivation_path: &Vec<Vec<u8>>, _message_hash: &[u8]) -> (sig: Vec<u8>)
    ensures
        sig@ == mock_signature(),
{
    let mut sig: Vec<u8> = Vec::new();
    let mut i: usize = 0;
    while i < 64
        invariant
            i <= 64,
            sig@ == Seq::new(i as nat, |j: int| 0xffu8),
        decreases 64 - i,
    {
        sig.push(0xffu8);
        i = i + 1;
        assert(sig@ =~= Seq::new(i as nat, |j: int| 0xffu8));
    }
    sig
}

/// The mock signature takes 73 bytes in an input's script, DER form and
/// flag byte together: the size that the fee estimates count per signature.
pub proof fn law_mock_script_signature_len()
    ensures
        sec1_to_der_fits(mock_signature()),
        spec_script_signature(mock_signature()).len() == 73,
{
    let m = mock_signature();
    assert(sec1_r(m)[0] == 0xffu8);
    assert(sec1_s(m)[0] == 0xffu8);
    assert(der_integer_body(sec1_r(m)).len() == 33);
    assert(der_integer_body(sec1_s(m)).len() == 33);
}

/// A P2PKH locking script: `OP_DUP OP_HASH160 <20 bytes> OP_EQUALVERIFY
/// OP_CHECKSIG`, the script of the addresses the canister signs for.
pub open spec fn is_p2pkh_script(s: Seq<u8>) -> bool {
    &&& s.len() == 25
    &&& s[0] == 0x76 && s[1] == 0xa9 && s[2] == 0x14
    &&& s[23] == 0x88 && s[24] == 0xac
}

/// Whether a script is a P2PKH locking script.
pub fn check_p2pkh_script(s: &[u8]) -> (r: bool)
    ensures
        r == is_p2pkh_script(s@),
{
    s.len() == 25 && s[0] == 0x76 && s[1] == 0xa9 && s[2] == 0x14 && s[23] == 0x88 && s[24] == 0xac
}

/// Signatures that can stand in a P2PKH input's script.
pub open spec fn signatures_fit(signatures: Seq<Vec<u8>>) -> bool {
    forall|j: int|
        0 <= j < signatures.len() ==> sec1_to_der_fits((#[trigger] signatures[j])@)
            && spec_script_signature(signatures[j]@).len() < 0x1_0000_0000
}

/// Whether every signature can stand in a P2PKH input's script.
pub fn all_signatures_fit(signatures: &Vec<Vec<u8>>) -> (r: bool)
    ensures
        r == signatures_fit(signatures@),
{
    let mut j: usize = 0;
    while j < signatures.len()
        invariant
            j <= signatures@.len(),
            forall|k: int|
                0 <= k < j ==> sec1_to_der_fits((#[trigger] signatures@[k])@)
                    && spec_script_signature(signatures@[k]@).len() < 0x1_0000_0000,
        decreases signatures@.len() - j,
    {
        if !script_signature_fits(signatures[j].as_slice()) {
            return false;
        }
        j = j + 1;
    }
    true
}

/// The inputs of `old` with the P2PKH unlocking scripts for the given
/// signatures and no witnesses.
pub open spec fn p2pkh_signed_inputs(old: Seq<InputModel>, signatures: Seq<Seq<u8>>, public_key: Seq<u8>) -> Seq<InputModel> {
    Seq::new(
        old.len(),
        |j: int|
            (
                old[j].0,
                old[j].1,
                old[j].2,
                spec_p2pkh_script_sig(signatures[j], public_key),
                Seq::<Seq<u8>>::empty(),
            ),
    )
}

/// The transaction `old` with every input signed.
pub open spec fn p2pkh_signed(old: TxModel, signatures: Seq<Seq<u8>>, public_key: Seq<u8>) -> TxModel {
    (old.0, old.1, p2pkh_signed_inputs(old.2, signatures, public_key), old.3)
}

pub open spec fn sigs_view(signatures: Seq<Vec<u8>>) -> Seq<Seq<u8>> {
    signatures.map_values(|v: Vec<u8>| v@)
}

/// Puts into each input of `tx` the P2PKH unlocking script made of its
/// signature, in input order, and the public key, and empties its witness.
pub fn sign_p2pkh_inputs(tx: &mut TxPlan, signatures: &Vec<Vec<u8>>, own_public_key: &[u8])
    requires
        signatures@.len() == old(tx).inputs@.len(),
        signatures_fit(signatures@),
        own_public_key@.len() < 0x1_0000_0000,
    ensures
        tx_model(*final(tx)) == p2pkh_signed(tx_model(*old(tx)), sigs_view(signatures@), own_public_key@),
        txids_well_formed(*old(tx)) ==> txids_well_formed(*final(tx)),
{
    let ghost before = tx_model(*tx);
    let n = tx.inputs.len();
    let mut j: usize = 0;
    while j < n
        invariant
            n == tx.inputs@.len(),
            n == signatures@.len(),
            j <= n,
            signatures_fit(signatures@),
            own_public_key@.len() < 0x1_0000_0000,
            tx.version == before.0,
            tx.lock_time == before.1,
            outputs_view(tx.outputs@) == before.3,
            before.2.len() == n,
            forall|k: int| 0 <= k < n ==> (#[trigger] tx.inputs@[k]).txid@ == before.2[k].0,
            forall|k: int|
                #![trigger tx.inputs@[k]]
                0 <= k < n ==> tx.inputs@[k].vout == before.2[k].1 && tx.inputs@[k].sequence
                    == before.2[k].2,
            forall|k: int|
                #![trigger tx.inputs@[k]]
                0 <= k < j ==> tx.inputs@[k].script_sig@ == spec_p2pkh_script_sig(
                    signatures@[k]@,
                    own_public_key@,
                ) && tx.inputs@[k].witness@.len() == 0,
            forall|k: int|
                #![trigger tx.inputs@[k]]
                j <= k < n ==> input_model(tx.inputs@[k]) == before.2[k],
        decreases n - j,
    {
        let script_sig = p2pkh_script_sig(signatures[j].as_slice(), own_public_key);
        let txid = copy_bytes(tx.inputs[j].txid.as_slice());
        let input = TxInputPlan {
            txid,
            vout: tx.inputs[j].vout,
            sequence: tx.inputs[j].sequence,
            script_sig,
            witness: Vec::new(),
        };
        tx.inputs.set(j, input);
        j = j + 1;
    }
    assert(tx_model(*tx).2 =~= p2pkh_signed_inputs(before.2, sigs_view(signatures@), own_public_key@)) by {
        assert forall|k: int| 0 <= k < n implies #[trigger] tx_model(*tx).2[k]
            == p2pkh_signed_inputs(before.2, sigs_view(signatures@), own_public_key@)[k] by {
            assert(tx.inputs@[k].witness@.map_values(|w: Vec<u8>| w@) =~= Seq::<Seq<u8>>::empty());
        }
    }
}

/// The legacy signature hashes (SIGHASH_ALL) of every input of `tx`, each
/// spending an output locked by `own_script`: what the signer signs.
pub fn p2pkh_sighashes(tx: &TxPlan, own_script: &[u8]) -> (r: Vec<Vec<u8>>)
    requires
        txids_well_formed(*tx),
    ensures
        r@.len() == tx.inputs@.len(),
        forall|j: int|
            0 <= j < r@.len() ==> (#[trigger] r@[j])@ == legacy_sighash_of(
                tx_model(*tx),
                j as usize,
                own_script@,
                1,
            ),
{
    let flag = sighash_all();
    let mut hashes: Vec<Vec<u8>> = Vec::new();
    let mut j: usize = 0;
    while j < tx.inputs.len()
        invariant
            j <= tx.inputs@.len(),
            txids_well_formed(*tx),
            flag == 1,
            hashes@.len() == j,
            forall|k: int|
                0 <= k < j ==> (#[trigger] hashes@[k])@ == legacy_sighash_of(
                    tx_model(*tx),
                    k as usize,
                    own_script@,
                    1,
                ),
        decreases tx.inputs@.len() - j,
    {
        let h = legacy_sighash(tx, j, own_script, flag);
        hashes.push(h);
        j = j + 1;
    }
    hashes
}

/// Signatures of the mock signer, one per input.
fn mock_signatures(n: usize) -> (r: Vec<Vec<u8>>)
    ensures
        r@.len() == n,
        forall|j: int| 0 <= j < n ==> (#[trigger] r@[j])@ == mock_signature(),
{
    let mut sigs: Vec<Vec<u8>> = Vec::new();
    let mut j: usize = 0;
    while j < n
        invariant
            j <= n,
            sigs@.len() == j,
            forall|k: int| 0 <= k < j ==> (#[trigger] sigs@[k])@ == mock_signature(),
        decreases n - j,
    {
        sigs.push(mock_signer("", &Vec::new(), &[]));
        j = j + 1;
    }
    sigs
}

/// The model of the unsigned mint transaction for a fee and a runestone.
pub open spec fn mint_tx_model(utxos: Seq<Utxo>, own_script: Seq<u8>, fee: u64, runestone: Seq<u8>) -> TxModel {
    let n = utxos.len();
    (
        2,
        0,
        Seq::new(
            n,
            |j: int|
                (
                    from_end(utxos, j).outpoint.txid@,
                    from_end(utxos, j).outpoint.vout,
                    0xFFFF_FFFFu32,
                    Seq::<u8>::empty(),
                    Seq::<Seq<u8>>::empty(),
                ),
        ),
        mint_outputs(runestone, own_script, spent_from_end(utxos, n) - fee),
    )
}

/// The mint transaction signed by the mock signer, whose size the fee pays.
pub open spec fn mock_signed_mint_model(utxos: Seq<Utxo>, own_script: Seq<u8>, fee: u64, runestone: Seq<u8>, public_key: Seq<u8>) -> TxModel {
    p2pkh_signed(
        mint_tx_model(utxos, own_script, fee, runestone),
        Seq::new(utxos.len(), |j: int| mock_signature()),
        public_key,
    )
}

proof fn lemma_mint_model(utxos: Seq<Utxo>, own_script: Seq<u8>, fee: u64, script: Seq<u8>, tx: TxPlan)
    requires
        tx.version == 2,
        tx.lock_time == 0,
        inputs_view(tx.inputs@) == inputs_from_end(utxos, utxos.len(), 0xFFFF_FFFF),
        inputs_unsigned(tx.inputs@),
        outputs_view(tx.outputs@) == mint_outputs(script, own_script, spent_from_end(utxos, utxos.len()) - fee),
        utxo_txids_well_formed(utxos),
    ensures
        tx_model(tx) == mint_tx_model(utxos, own_script, fee, script),
        txids_well_formed(tx),
{
    let n = utxos.len();
    assert(tx.inputs@.len() == n) by {
        assert(inputs_view(tx.inputs@).len() == tx.inputs@.len());
    }
    assert forall|j: int| 0 <= j < n implies #[trigger] tx_model(tx).2[j] == mint_tx_model(
        utxos,
        own_script,
        fee,
        script,
    ).2[j] by {
        assert(inputs_view(tx.inputs@)[j] == inputs_from_end(utxos, n, 0xFFFF_FFFF)[j]);
        assert(tx.inputs@[j].witness@.map_values(|w: Vec<u8>| w@) =~= Seq::<Seq<u8>>::empty());
        assert(tx.inputs@[j].script_sig@ =~= Seq::<u8>::empty());
    }
    assert(tx_model(tx).2 =~= mint_tx_model(utxos, own_script, fee, script).2);
    assert forall|j: int| 0 <= j < tx.inputs@.len() implies (#[trigger] tx.inputs@[j]).txid@.len() == 32 by {
        assert(inputs_view(tx.inputs@)[j] == inputs_from_end(utxos, n, 0xFFFF_FFFF)[j]);
        assert(utxos[n - 1 - j].outpoint.txid@.len() == 32);
    }
}

/// One round of the mint's fee loop.
#[derive(Debug, Clone)]
pub enum FeeRound {
    /// The transaction built with the current fee pays for its own size.
    Settled(TxPlan),
    /// Build it again with this fee.
    Retry(u64),
}

/// Why a mint transaction cannot be built.
#[derive(Debug, Clone, Copy, PartialEq, Eq, Structural)]
pub enum MintError {
    /// The mint runestone's script exceeds `MAX_OP_RETURN_SCRIPT` bytes.
    OpReturnTooLarge,
    /// The canister's own script is not P2PKH, the only kind it signs.
    NotP2pkh,
    /// The size times the fee rate does not fit in 64 bits.
    FeeOverflow,
    /// The fee that the loop reached exceeds what the UTXOs hold.
    FeeExceedsFunds,
    /// The fee did not settle within `MAX_FEE_ROUNDS` rounds.
    FeeUnsettled,
}

/// The UTXOs' transaction ids are all 32 bytes long.
pub open spec fn utxo_txids_well_formed(utxos: Seq<Utxo>) -> bool {
    forall|j: int| 0 <= j < utxos.len() ==> (#[trigger] utxos[j]).outpoint.txid@.len() == 32
}

/// One round of the loop that settles the fee of a mint: builds the mint
/// transaction with `total_fee`, signs a copy with the mock signer, and
/// compares what its size costs at `fee_per_vbyte` millisatoshi per byte
/// with `total_fee`.
pub fn mint_fee_round(
    own_utxos: &[Utxo],
    own_script: &[u8],
    own_public_key: &[u8],
    mint_args: &MintArgs,
    total_fee: u64,
    fee_per_vbyte: u64,
) -> (r: Result<FeeRound, MintError>)
    requires
        total_fee <= spent_from_end(own_utxos@, own_utxos@.len()) <= u64::MAX,
        utxo_txids_well_formed(own_utxos@),
        own_public_key@.len() < 0x1_0000_0000,
    ensures
        ({
            let script = runestone_script(
                mint_runestone(mint_args.rune_id.block, mint_args.rune_id.tx),
            );
            let signed = mock_signed_mint_model(own_utxos@, own_script@, total_fee, script, own_public_key@);
            let size = vsize_of(signed);
            match r {
                Ok(FeeRound::Settled(tx)) => {
                    &&& script.len() <= MAX_OP_RETURN_SCRIPT
                    &&& is_p2pkh_script(own_script@)
                    &&& size * fee_per_vbyte <= u64::MAX
                    &&& fee_for_size(size, fee_per_vbyte) == total_fee
                    &&& tx_model(tx) == mint_tx_model(own_utxos@, own_script@, total_fee, script)
                    &&& txids_well_formed(tx)
                },
                Ok(FeeRound::Retry(fee)) => {
                    &&& script.len() <= MAX_OP_RETURN_SCRIPT
                    &&& is_p2pkh_script(own_script@)
                    &&& size * fee_per_vbyte <= u64::MAX
                    &&& fee == fee_for_size(size, fee_per_vbyte)
                    &&& fee != total_fee
                },
                Err(e) => e == (if script.len() > MAX_OP_RETURN_SCRIPT {
                    MintError::OpReturnTooLarge
                } else if !is_p2pkh_script(own_script@) {
                    MintError::NotP2pkh
                } else {
                    MintError::FeeOverflow
                }) && (script.len() > MAX_OP_RETURN_SCRIPT || !is_p2pkh_script(own_script@)
                    || size * fee_per_vbyte > u64::MAX),
            }
        }),
        runestone_script(mint_runestone(mint_args.rune_id.block, mint_args.rune_id.tx)).len() <= 20,
{
    let ghost script = runestone_script(mint_runestone(mint_args.rune_id.block, mint_args.rune_id.tx));
    let (tx, _prevouts) = match build_transaction_mint_with_fee(own_utxos, own_script, total_fee, mint_args) {
        Ok(built) => built,
        Err(_) => {
            return Err(MintError::OpReturnTooLarge);
        },
    };
    proof {
        lemma_mint_model(own_utxos@, own_script@, total_fee, script, tx);
        law_mock_script_signature_len();
    }
    if !check_p2pkh_script(own_script) {
        return Err(MintError::NotP2pkh);
    }
    let mut signed = tx.clone_plan();
    let sigs = mock_signatures(signed.inputs.len());
    sign_p2pkh_inputs(&mut signed, &sigs, own_public_key);
    assert(sigs_view(sigs@) =~= Seq::new(own_utxos@.len(), |j: int| mock_signature()));
    let size = tx_vsize(&signed);
    match size.checked_mul(fee_per_vbyte) {
        Some(product) => {
            let fee = product / 1000;
            if fee == total_fee {
                Ok(FeeRound::Settled(tx))
            } else {
                Ok(FeeRound::Retry(fee))
            }
        },
        None => Err(MintError::FeeOverflow),
    }
}

/// Whether every UTXO names its transaction by 32 bytes.
pub fn utxo_txids_valid(utxos: &[Utxo]) -> (r: bool)
    ensures
        r == utxo_txids_well_formed(utxos@),
{
    let mut j: usize = 0;
    while j < utxos.len()
        invariant
            j <= utxos@.len(),
            forall|k: int| 0 <= k < j ==> (#[trigger] utxos@[k]).outpoint.txid@.len() == 32,
        decreases utxos@.len() - j,
    {
        if utxos[j].outpoint.txid.len() != 32 {
            return false;
        }
        j = j + 1;
    }
    true
}

/// The rounds that the fee loop takes at most. The mock-signed size of a
/// mint depends only on whether it has a change output, so a fee that has
/// not settled in three rounds alternates between two values for ever.
pub const MAX_FEE_ROUNDS: usize = 10;

/// Where the fee loop ends when it starts a round with `fee` and has
/// `rounds` rounds left: the settled fee, or why it stops.
pub open spec fn fee_loop(
    utxos: Seq<Utxo>,
    own_script: Seq<u8>,
    public_key: Seq<u8>,
    block: u64,
    tx: u32,
    rate: u64,
    fee: u64,
    rounds: nat,
) -> Result<u64, MintError>
    decreases rounds,
{
    let script = runestone_script(mint_runestone(block, tx));
    let size = vsize_of(mock_signed_mint_model(utxos, own_script, fee, script, public_key));
    if rounds == 0 {
        Err(MintError::FeeUnsettled)
    } else if fee > spent_from_end(utxos, utxos.len()) {
        Err(MintError::FeeExceedsFunds)
    } else if script.len() > MAX_OP_RETURN_SCRIPT {
        Err(MintError::OpReturnTooLarge)
    } else if !is_p2pkh_script(own_script) {
        Err(MintError::NotP2pkh)
    } else if size * rate > u64::MAX {
        Err(MintError::FeeOverflow)
    } else if fee_for_size(size, rate) == fee {
        Ok(fee)
    } else {
        fee_loop(
            utxos,
            own_script,
            public_key,
            block,
            tx,
            rate,
            fee_for_size(size, rate) as u64,
            (rounds - 1) as nat,
        )
    }
}

/// Settles the fee of a mint: starting from no fee, builds the mint
/// transaction, measures it signed by the mock signer at `fee_per_vbyte`
/// millisatoshi per byte, and builds it again with the fee that its size
/// costs, until the fee pays exactly for the size. Gives the transaction
/// built with the settled fee.
pub fn build_p2pkh_spend_tx(
    own_public_key: &[u8],
    own_script: &[u8],
    own_utxos: &[Utxo],
    fee_per_vbyte: u64,
    mint_args: &MintArgs,
) -> (r: Result<TxPlan, MintError>)
    requires
        spent_from_end(own_utxos@, own_utxos@.len()) <= u64::MAX,
        utxo_txids_well_formed(own_utxos@),
        own_public_key@.len() < 0x1_0000_0000,
    ensures
        ({
            let outcome = fee_loop(
                own_utxos@,
                own_script@,
                own_public_key@,
                mint_args.rune_id.block,
                mint_args.rune_id.tx,
                fee_per_vbyte,
                0,
                MAX_FEE_ROUNDS as nat,
            );
            match r {
                Ok(tx) => outcome matches Ok(fee) && tx_model(tx) == mint_tx_model(
                    own_utxos@,
                    own_script@,
                    fee,
                    runestone_script(mint_runestone(mint_args.rune_id.block, mint_args.rune_id.tx)),
                ) && txids_well_formed(tx),
                Err(e) => outcome == Err::<u64, MintError>(e),
            }
        }),
        runestone_script(mint_runestone(mint_args.rune_id.block, mint_args.rune_id.tx)).len() <= 20,
{
    let ghost outcome = fee_loop(
        own_utxos@,
        own_script@,
        own_public_key@,
        mint_args.rune_id.block,
        mint_args.rune_id.tx,
        fee_per_vbyte,
        0,
        MAX_FEE_ROUNDS as nat,
    );
    let total = match total_from_end(own_utxos) {
        Some(t) => t,
        None => {
            proof {
                assert(false);
            }
            return Err(MintError::FeeOverflow);
        },
    };
    let mut total_fee: u64 = 0;
    let mut rounds: usize = MAX_FEE_ROUNDS;
    loop
        invariant
            total == spent_from_end(own_utxos@, own_utxos@.len()),
            rounds <= MAX_FEE_ROUNDS,
            rounds == MAX_FEE_ROUNDS ==> total_fee == 0,
            rounds < MAX_FEE_ROUNDS ==> runestone_script(
                mint_runestone(mint_args.rune_id.block, mint_args.rune_id.tx),
            ).len() <= 20,
            outcome == fee_loop(
                own_utxos@,
                own_script@,
                own_public_key@,
                mint_args.rune_id.block,
                mint_args.rune_id.tx,
                fee_per_vbyte,
                0,
                MAX_FEE_ROUNDS as nat,
            ),
            utxo_txids_well_formed(own_utxos@),
            own_public_key@.len() < 0x1_0000_0000,
            outcome == fee_loop(
                own_utxos@,
                own_script@,
                own_public_key@,
                mint_args.rune_id.block,
                mint_args.rune_id.tx,
                fee_per_vbyte,
                total_fee,
                rounds as nat,
            ),
        decreases rounds,
    {
        if rounds == 0 {
            return Err(MintError::FeeUnsettled);
        }
        if total_fee > total {
            return Err(MintError::FeeExceedsFunds);
        }
        match mint_fee_round(own_utxos, own_script, own_public_key, mint_args, total_fee, fee_per_vbyte) {
            Ok(FeeRound::Settled(tx)) => {
                return Ok(tx);
            },
            Ok(FeeRound::Retry(fee)) => {
                total_fee = fee;
                rounds = rounds - 1;
            },
            Err(e) => {
                return Err(e);
            },
        }
    }
}

} // verus!

//! Unsigned transactions as plain values, and the coin selection that
//! builds a transfer from the canister's own UTXOs.
use crate::bytes::copy_bytes;
use crate::foreign::{hex_encode, hex_text, sequence_max, tx_txid, txid_of, u64_to_decimal};
use crate::text::decimal;
use crate::types::Utxo;
use vstd::prelude::*;

verus! {

/// Any change below this many satoshis is dust and is left to the miners.
pub const DUST_THRESHOLD: u64 = 1_000;

/// A transaction input: the output it spends, its sequence number, and
/// what unlocks it (empty until it is signed).
#[derive(Debug, Clone)]
pub struct TxInputPlan {
    pub txid: Vec<u8>,
    pub vout: u32,
    pub sequence: u32,
    pub script_sig: Vec<u8>,
    pub witness: Vec<Vec<u8>>,
}

impl TxInputPlan {
    /// An input that spends `txid:vout`, not signed yet.
    pub fn unsigned(txid: Vec<u8>, vout: u32, sequence: u32) -> (r: TxInputPlan)
        ensures
            r.txid == txid,
            r.vout == vout,
            r.sequence == sequence,
            r.script_sig@.len() == 0,
            r.witness@.len() == 0,
    {
        TxInputPlan { txid, vout, sequence, script_sig: Vec::new(), witness: Vec::new() }
    }
}

/// Inputs with no script and no witness yet.
pub open spec fn inputs_unsigned(s: Seq<TxInputPlan>) -> bool {
    forall|j: int| 0 <= j < s.len() ==> (#[trigger] s[j]).script_sig@.len() == 0 && s[j].witness@.len() == 0
}

/// A transaction output: where the value goes and how much.
#[derive(Debug, Clone)]
pub struct TxOutputPlan {
    pub script_pubkey: Vec<u8>,
    pub value: u64,
}

/// An unsigned transaction.
#[derive(Debug, Clone)]
pub struct TxPlan {
    pub version: i32,
    pub lock_time: u32,
    pub inputs: Vec<TxInputPlan>,
    pub outputs: Vec<TxOutputPlan>,
}

/// An input in full: (txid, vout, sequence, script, witness).
pub type InputModel = (Seq<u8>, u32, u32, Seq<u8>, Seq<Seq<u8>>);

/// A transaction in full: (version, lock time, inputs, outputs).
pub type TxModel = (i32, u32, Seq<InputModel>, Seq<(Seq<u8>, u64)>);

pub open spec fn input_model(i: TxInputPlan) -> InputModel {
    (i.txid@, i.vout, i.sequence, i.script_sig@, i.witness@.map_values(|w: Vec<u8>| w@))
}

/// The transaction as plain values, signatures included.
pub open spec fn tx_model(tx: TxPlan) -> TxModel {
    (
        tx.version,
        tx.lock_time,
        tx.inputs@.map_values(|i: TxInputPlan| input_model(i)),
        outputs_view(tx.outputs@),
    )
}

/// Every input spends an output named by a 32-byte transaction id.
pub open spec fn txids_well_formed(tx: TxPlan) -> bool {
    forall|j: int| 0 <= j < tx.inputs@.len() ==> (#[trigger] tx.inputs@[j]).txid@.len() == 32
}

fn copy_witness(w: &Vec<Vec<u8>>) -> (r: Vec<Vec<u8>>)
    ensures
        r@.map_values(|e: Vec<u8>| e@) == w@.map_values(|e: Vec<u8>| e@),
        r@.len() == w@.len(),
{
    let mut r: Vec<Vec<u8>> = Vec::new();
    let mut j: usize = 0;
    while j < w.len()
        invariant
            j <= w@.len(),
            r@.len() == j,
            forall|k: int| 0 <= k < j ==> (#[trigger] r@[k])@ == w@[k]@,
        decreases w@.len() - j,
    {
        r.push(copy_bytes(w[j].as_slice()));
        j = j + 1;
    }
    assert(r@.map_values(|e: Vec<u8>| e@) =~= w@.map_values(|e: Vec<u8>| e@));
    r
}

impl TxInputPlan {
    /// A copy of the input.
    pub fn copy(&self) -> (r: TxInputPlan)
        ensures
            input_model(r) == input_model(*self),
            r.txid@ == self.txid@,
            r.vout == self.vout,
            r.sequence == self.sequence,
            r.script_sig@ == self.script_sig@,
            r.witness@.len() == self.witness@.len(),
    {
        TxInputPlan {
            txid: copy_bytes(self.txid.as_slice()),
            vout: self.vout,
            sequence: self.sequence,
            script_sig: copy_bytes(self.script_sig.as_slice()),
            witness: copy_witness(&self.witness),
        }
    }
}

impl TxOutputPlan {
    /// A copy of the output.
    pub fn copy(&self) -> (r: TxOutputPlan)
        ensures
            output_view(r) == output_view(*self),
    {
        TxOutputPlan { script_pubkey: copy_bytes(self.script_pubkey.as_slice()), value: self.value }
    }
}

/// A copy of some outputs.
pub fn copy_outputs(outputs: &Vec<TxOutputPlan>) -> (r: Vec<TxOutputPlan>)
    ensures
        outputs_view(r@) == outputs_view(outputs@),
{
    let mut r: Vec<TxOutputPlan> = Vec::new();
    let mut j: usize = 0;
    while j < outputs.len()
        invariant
            j <= outputs@.len(),
            r@.len() == j,
            forall|k: int| 0 <= k < j ==> output_view(#[trigger] r@[k]) == output_view(outputs@[k]),
        decreases outputs@.len() - j,
    {
        r.push(outputs[j].copy());
        j = j + 1;
    }
    assert(outputs_view(r@) =~= outputs_view(outputs@));
    r
}

impl TxPlan {
    /// A copy of the transaction.
    pub fn clone_plan(&self) -> (r: TxPlan)
        ensures
            tx_model(r) == tx_model(*self),
            r.inputs@.len() == self.inputs@.len(),
            txids_well_formed(*self) ==> txids_well_formed(r),
            inputs_view(r.inputs@) == inputs_view(self.inputs@),
            outputs_view(r.outputs@) == outputs_view(self.outputs@),
    {
        let mut inputs: Vec<TxInputPlan> = Vec::new();
        let mut j: usize = 0;
        while j < self.inputs.len()
            invariant
                j <= self.inputs@.len(),
                inputs@.len() == j,
                forall|k: int|
                    #![trigger inputs@[k]]
                    0 <= k < j ==> input_model(inputs@[k]) == input_model(self.inputs@[k])
                        && inputs@[k].txid@ == self.inputs@[k].txid@,
            decreases self.inputs@.len() - j,
        {
            inputs.push(self.inputs[j].copy());
            j = j + 1;
        }
        let r = TxPlan {
            version: self.version,
            lock_time: self.lock_time,
            inputs,
            outputs: copy_outputs(&self.outputs),
        };
        assert(r.inputs@.map_values(|i: TxInputPlan| input_model(i)) =~= self.inputs@.map_values(
            |i: TxInputPlan| input_model(i),
        ));
        assert(inputs_view(r.inputs@) =~= inputs_view(self.inputs@));
        r
    }
}

/// An input as (txid, vout, sequence).
pub open spec fn input_view(i: TxInputPlan) -> (Seq<u8>, u32, u32) {
    (i.txid@, i.vout, i.sequence)
}

/// An output as (script, value).
pub open spec fn output_view(o: TxOutputPlan) -> (Seq<u8>, u64) {
    (o.script_pubkey@, o.value)
}

pub open spec fn inputs_view(s: Seq<TxInputPlan>) -> Seq<(Seq<u8>, u32, u32)> {
    s.map_values(|i: TxInputPlan| input_view(i))
}

pub open spec fn outputs_view(s: Seq<TxOutputPlan>) -> Seq<(Seq<u8>, u64)> {
    s.map_values(|o: TxOutputPlan| output_view(o))
}

/// The total value of some outputs.
pub open spec fn value_sum(s: Seq<(Seq<u8>, u64)>) -> int
    decreases s.len(),
{
    if s.len() == 0 {
        0
    } else {
        value_sum(s.drop_last()) + s.last().1
    }
}

/// The value of the last `k` UTXOs, the ones a walk from the end visits first.
pub open spec fn spent_from_end(utxos: Seq<Utxo>, k: nat) -> int
    decreases k,
{
    if k == 0 {
        0
    } else {
        spent_from_end(utxos, (k - 1) as nat) + utxos[utxos.len() - k].value
    }
}

/// How many UTXOs, taken from the end, a transfer of `target` spends when
/// the walk starts after the first `k` of them: it stops at the first that
/// brings the total to `target`, or at the start of the list.
pub open spec fn selection_len_from(utxos: Seq<Utxo>, target: int, k: nat) -> nat
    decreases utxos.len() - k,
{
    if k >= utxos.len() {
        utxos.len()
    } else if spent_from_end(utxos, k + 1) >= target {
        k + 1
    } else {
        selection_len_from(utxos, target, k + 1)
    }
}

/// How many UTXOs, taken from the end, a transfer of `target` spends.
pub open spec fn selection_len(utxos: Seq<Utxo>, target: int) -> nat {
    selection_len_from(utxos, target, 0)
}

/// The `j`-th UTXO from the end.
pub open spec fn from_end(utxos: Seq<Utxo>, j: int) -> Utxo {
    utxos[utxos.len() - 1 - j]
}

/// Inputs that spend the last `k` UTXOs, latest first.
pub open spec fn inputs_from_end(utxos: Seq<Utxo>, k: nat, sequence: u32) -> Seq<(Seq<u8>, u32, u32)> {
    Seq::new(
        k,
        |j: int| (from_end(utxos, j).outpoint.txid@, from_end(utxos, j).outpoint.vout, sequence),
    )
}

/// The outputs that those inputs spend, all locked by `script`.
pub open spec fn prevouts_from_end(utxos: Seq<Utxo>, k: nat, script: Seq<u8>) -> Seq<(Seq<u8>, u64)> {
    Seq::new(k, |j: int| (script, from_end(utxos, j).value))
}

/// The outputs of a transfer: `amount` to the destination, and the change
/// back to the sender when it is not dust.
pub open spec fn transfer_outputs(dst: Seq<u8>, amount: u64, own: Seq<u8>, change: int) -> Seq<(Seq<u8>, u64)> {
    if change >= DUST_THRESHOLD {
        seq![(dst, amount), (own, change as u64)]
    } else {
        seq![(dst, amount)]
    }
}

/// The message of a refused transfer.
pub open spec fn insufficient_balance_message(total: int, amount: u64, fee: u64) -> Seq<char> {
    "Insufficient balance: "@ + decimal(total as nat) + ", trying to transfer "@ + decimal(
        amount as nat,
    ) + " satoshi with fee "@ + decimal(fee as nat)
}

pub proof fn lemma_spent_monotone(utxos: Seq<Utxo>, j: nat, k: nat)
    requires
        j <= k <= utxos.len(),
    ensures
        0 <= spent_from_end(utxos, j) <= spent_from_end(utxos, k),
    decreases k,
{
    if j < k {
        lemma_spent_monotone(utxos, j, (k - 1) as nat);
    } else if k > 0 {
        lemma_spent_monotone(utxos, 0, (k - 1) as nat);
    }
}

pub proof fn lemma_selection_bounds(utxos: Seq<Utxo>, target: int, k: nat)
    requires
        k <= utxos.len(),
    ensures
        k < utxos.len() ==> k + 1 <= selection_len_from(utxos, target, k),
        selection_len_from(utxos, target, k) <= utxos.len(),
        k == utxos.len() ==> selection_len_from(utxos, target, k) == k,
    decreases utxos.len() - k,
{
    if k < utxos.len() {
        lemma_selection_bounds(utxos, target, k + 1);
    }
}

/// The walk stops once the total reaches `target`, or when the UTXOs run out.
pub proof fn lemma_selection_reaches(utxos: Seq<Utxo>, target: int, k: nat)
    requires
        k <= utxos.len(),
    ensures
        ({
            let s = selection_len_from(utxos, target, k);
            &&& spent_from_end(utxos, s) >= target || s == utxos.len()
            &&& forall|j: nat| k < j < s ==> spent_from_end(utxos, j) < target
        }),
    decreases utxos.len() - k,
{
    if k < utxos.len() {
        lemma_selection_reaches(utxos, target, k + 1);
    }
}

pub proof fn lemma_prevouts_sum(utxos: Seq<Utxo>, k: nat, script: Seq<u8>)
    requires
        k <= utxos.len(),
    ensures
        value_sum(prevouts_from_end(utxos, k, script)) == spent_from_end(utxos, k),
    decreases k,
{
    if k > 0 {
        lemma_prevouts_sum(utxos, (k - 1) as nat, script);
        assert(prevouts_from_end(utxos, k, script).drop_last() =~= prevouts_from_end(
            utxos,
            (k - 1) as nat,
            script,
        ));
    }
}

/// A transfer succeeds exactly when all the canister's UTXOs together cover
/// `amount + fee`: the walk from the end stops early only once it has
/// enough.
pub proof fn law_transfer_succeeds_iff_funds_suffice(utxos: Seq<Utxo>, target: int)
    ensures
        spent_from_end(utxos, selection_len(utxos, target)) >= target <==> spent_from_end(
            utxos,
            utxos.len(),
        ) >= target,
{
    lemma_selection_reaches(utxos, target, 0);
    lemma_selection_bounds(utxos, target, 0);
    lemma_spent_monotone(utxos, selection_len(utxos, target), utxos.len());
}

/// A transfer spends no more UTXOs than it needs: every shorter run of
/// UTXOs from the end falls short of `amount + fee`.
pub proof fn law_transfer_selection_is_minimal(utxos: Seq<Utxo>, target: int, j: nat)
    requires
        0 < j < selection_len(utxos, target),
    ensures
        spent_from_end(utxos, j) < target,
{
    lemma_selection_reaches(utxos, target, 0);
}

/// What a transfer's inputs spend is what its outputs pay, plus the fee,
/// plus the change when it is dust (below `DUST_THRESHOLD`) and dropped.
pub proof fn law_transfer_conserves_value(
    utxos: Seq<Utxo>,
    own: Seq<u8>,
    dst: Seq<u8>,
    amount: u64,
    fee: u64,
)
    requires
        amount + fee <= spent_from_end(utxos, selection_len(utxos, amount + fee)) <= u64::MAX,
    ensures
        ({
            let k = selection_len(utxos, amount + fee);
            let change = spent_from_end(utxos, k) - amount - fee;
            let dropped = if change >= DUST_THRESHOLD { 0 } else { change };
            &&& value_sum(prevouts_from_end(utxos, k, own)) == value_sum(
                transfer_outputs(dst, amount, own, change),
            ) + fee + dropped
            &&& 0 <= dropped < DUST_THRESHOLD
        }),
{
    let k = selection_len(utxos, amount + fee);
    lemma_selection_bounds(utxos, amount + fee, 0);
    lemma_prevouts_sum(utxos, k, own);
    let change = spent_from_end(utxos, k) - amount - fee;
    let outs = transfer_outputs(dst, amount, own, change);
    if change >= DUST_THRESHOLD {
        let one = seq![(dst, amount)];
        assert(outs.drop_last() =~= one);
        assert(one.drop_last() =~= Seq::<(Seq<u8>, u64)>::empty());
        assert(value_sum(Seq::<(Seq<u8>, u64)>::empty()) == 0);
        assert(one.last().1 == amount);
        assert(value_sum(one) == amount);
        assert(outs.last().1 == change);
        assert(value_sum(outs) == amount + change);
    } else {
        assert(outs.drop_last() =~= Seq::<(Seq<u8>, u64)>::empty());
        assert(value_sum(Seq::<(Seq<u8>, u64)>::empty()) == 0);
        assert(outs.last().1 == amount);
        assert(value_sum(outs) == amount);
    }
}

/// The message of a refused transfer, rendered.
fn insufficient_balance(total: u64, amount: u64, fee: u64) -> (msg: String)
    ensures
        msg@ == insufficient_balance_message(total as int, amount, fee),
{
    let mut msg = String::from_str("Insufficient balance: ");
    let t = u64_to_decimal(total);
    msg.append(t.as_str());
    msg.append(", trying to transfer ");
    let a = u64_to_decimal(amount);
    msg.append(a.as_str());
    msg.append(" satoshi with fee ");
    let f = u64_to_decimal(fee);
    msg.append(f.as_str());
    msg
}

/// Inputs spending the last `count` UTXOs, newest first and final, with the
/// outputs they spend (locked by `own_script`) and their total value.
pub fn spend_from_end(own_utxos: &[Utxo], own_script: &[u8], count: usize) -> (r: (
    Vec<TxInputPlan>,
    Vec<TxOutputPlan>,
    u64,
))
    requires
        count <= own_utxos@.len(),
        spent_from_end(own_utxos@, count as nat) <= u64::MAX,
    ensures
        inputs_view(r.0@) == inputs_from_end(own_utxos@, count as nat, 0xFFFF_FFFF),
        inputs_unsigned(r.0@),
        outputs_view(r.1@) == prevouts_from_end(own_utxos@, count as nat, own_script@),
        r.2 == spent_from_end(own_utxos@, count as nat),
{
    let ghost utxos = own_utxos@;
    let n = own_utxos.len();
    let seq_final = sequence_max();
    let mut inputs: Vec<TxInputPlan> = Vec::new();
    let mut prevouts: Vec<TxOutputPlan> = Vec::new();
    let mut total_spent: u64 = 0;
    let mut i: usize = 0;
    while i < count
        invariant
            n == utxos.len(),
            utxos == own_utxos@,
            count <= n,
            spent_from_end(utxos, count as nat) <= u64::MAX,
            i <= count,
            total_spent == spent_from_end(utxos, i as nat),
            seq_final == 0xFFFF_FFFF,
            inputs@.len() == i,
            prevouts@.len() == i,
            inputs_view(inputs@) == inputs_from_end(utxos, i as nat, seq_final),
            outputs_view(prevouts@) == prevouts_from_end(utxos, i as nat, own_script@),
            inputs_unsigned(inputs@),
        decreases count - i,
    {
        proof {
            lemma_spent_monotone(utxos, (i + 1) as nat, count as nat);
        }
        let ghost old_inputs = inputs@;
        let ghost old_prevouts = prevouts@;
        let utxo = &own_utxos[n - 1 - i];
        assert(*utxo == from_end(utxos, i as int));
        total_spent = total_spent + utxo.value;
        let txid = copy_bytes(utxo.outpoint.txid.as_slice());
        inputs.push(TxInputPlan::unsigned(txid, utxo.outpoint.vout, seq_final));
        let script = copy_bytes(own_script);
        prevouts.push(TxOutputPlan { script_pubkey: script, value: utxo.value });
        i = i + 1;
        assert forall|j: int| 0 <= j < i implies #[trigger] inputs_view(inputs@)[j]
            == inputs_from_end(utxos, i as nat, seq_final)[j] by {
            if j < i - 1 {
                assert(inputs@[j] == old_inputs[j]);
                assert(inputs_view(old_inputs)[j] == inputs_from_end(utxos, (i - 1) as nat, seq_final)[j]);
            }
        }
        assert forall|j: int| 0 <= j < i implies #[trigger] outputs_view(prevouts@)[j]
            == prevouts_from_end(utxos, i as nat, own_script@)[j] by {
            if j < i - 1 {
                assert(prevouts@[j] == old_prevouts[j]);
                assert(outputs_view(old_prevouts)[j] == prevouts_from_end(utxos, (i - 1) as nat, own_script@)[j]);
            }
        }
        assert(inputs_view(inputs@) =~= inputs_from_end(utxos, i as nat, seq_final));
        assert(outputs_view(prevouts@) =~= prevouts_from_end(utxos, i as nat, own_script@));
    }
    (inputs, prevouts, total_spent)
}

/// Builds a transfer of `amount` satoshis to `dst_script` with the given
/// `fee`, spending the canister's UTXOs from the newest (the end of the list)
/// backwards until they cover `amount + fee`. Change of at least
/// `DUST_THRESHOLD` goes back to `own_script`; smaller change is left as
/// fee. Returns the transaction and the outputs that its inputs spend.
pub fn build_transaction_with_fee(
    own_utxos: &[Utxo],
    own_script: &[u8],
    dst_script: &[u8],
    amount: u64,
    fee: u64,
) -> (r: Result<(TxPlan, Vec<TxOutputPlan>), String>)
    requires
        amount + fee <= u64::MAX,
        spent_from_end(own_utxos@, selection_len(own_utxos@, amount + fee)) <= u64::MAX,
    ensures
        ({
            let target = amount + fee;
            let k = selection_len(own_utxos@, target);
            let total = spent_from_end(own_utxos@, k);
            match r {
                Ok((tx, prevouts)) => {
                    &&& total >= target
                    &&& tx.version == 2
                    &&& tx.lock_time == 0
                    &&& inputs_view(tx.inputs@) == inputs_from_end(own_utxos@, k, 0xFFFF_FFFF)
                    &&& inputs_unsigned(tx.inputs@)
                    &&& outputs_view(prevouts@) == prevouts_from_end(own_utxos@, k, own_script@)
                    &&& outputs_view(tx.outputs@) == transfer_outputs(
                        dst_script@,
                        amount,
                        own_script@,
                        total - target,
                    )
                },
                Err(msg) => {
                    &&& total < target
                    &&& msg@ == insufficient_balance_message(total, amount, fee)
                },
            }
        }),
{
    let ghost utxos = own_utxos@;
    let ghost target: int = amount + fee;
    let ghost k = selection_len(utxos, target);
    let n = own_utxos.len();
    let mut total_spent: u64 = 0;
    let mut i: usize = 0;
    proof {
        lemma_selection_bounds(utxos, target, 0);
    }
    while i < n && (i == 0 || total_spent < amount + fee)
        invariant
            n == utxos.len(),
            utxos == own_utxos@,
            target == amount + fee,
            amount + fee <= u64::MAX,
            k == selection_len(utxos, target),
            spent_from_end(utxos, k) <= u64::MAX,
            k <= n,
            n > 0 ==> k >= 1,
            i <= n,
            i > 0 ==> k == selection_len_from(utxos, target, (i - 1) as nat),
            i <= k,
            total_spent == spent_from_end(utxos, i as nat),
        decreases n - i,
    {
        proof {
            if i > 0 {
                lemma_selection_bounds(utxos, target, i as nat);
                assert(k == selection_len_from(utxos, target, i as nat));
            }
            lemma_spent_monotone(utxos, (i + 1) as nat, k);
        }
        total_spent = total_spent + own_utxos[n - 1 - i].value;
        i = i + 1;
    }
    proof {
        if i > 0 {
            lemma_selection_bounds(utxos, target, i as nat);
        }
        assert(i == k);
    }
    if total_spent < amount + fee {
        return Err(insufficient_balance(total_spent, amount, fee));
    }
    let (inputs, prevouts, _) = spend_from_end(own_utxos, own_script, i);
    let mut outputs: Vec<TxOutputPlan> = Vec::new();
    outputs.push(TxOutputPlan { script_pubkey: copy_bytes(dst_script), value: amount });
    let remaining_amount = total_spent - amount - fee;
    if remaining_amount >= DUST_THRESHOLD {
        outputs.push(TxOutputPlan { script_pubkey: copy_bytes(own_script), value: remaining_amount });
    }
    assert(outputs_view(outputs@) =~= transfer_outputs(
        dst_script@,
        amount,
        own_script@,
        total_spent - target,
    ));
    Ok((TxPlan { version: 2, lock_time: 0, inputs, outputs }, prevouts))
}

/// The value of all the UTXOs, summed from the end of the list as a
/// transfer spends them; `None` where it does not fit in 64 bits.
pub fn total_from_end(utxos: &[Utxo]) -> (r: Option<u64>)
    ensures
        match r {
            Some(t) => t == spent_from_end(utxos@, utxos@.len()),
            None => spent_from_end(utxos@, utxos@.len()) > u64::MAX,
        },
{
    let n = utxos.len();
    let mut total: u64 = 0;
    let mut k: usize = 0;
    while k < n
        invariant
            n == utxos@.len(),
            k <= n,
            total == spent_from_end(utxos@, k as nat),
        decreases n - k,
    {
        match total.checked_add(utxos[n - 1 - k].value) {
            Some(t) => {
                total = t;
            },
            None => {
                proof {
                    lemma_spent_monotone(utxos@, (k + 1) as nat, n as nat);
                }
                return None;
            },
        }
        k = k + 1;
    }
    Some(total)
}

/// Whether every input names the transaction it spends by 32 bytes.
pub fn txids_valid(tx: &TxPlan) -> (r: bool)
    ensures
        r == txids_well_formed(*tx),
{
    let mut j: usize = 0;
    while j < tx.inputs.len()
        invariant
            j <= tx.inputs@.len(),
            forall|k: int| 0 <= k < j ==> (#[trigger] tx.inputs@[k]).txid@.len() == 32,
        decreases tx.inputs@.len() - j,
    {
        if tx.inputs[j].txid.len() != 32 {
            return false;
        }
        j = j + 1;
    }
    true
}

/// The transaction's id in hex, its bytes in the order that
/// `Transaction::compute_txid` gives them (the order in which the canister
/// reports ids).
pub fn txid_hex(tx: &TxPlan) -> (r: String)
    requires
        txids_well_formed(*tx),
    ensures
        r@ == hex_text(txid_of(tx_model(*tx))),
{
    let id = tx_txid(tx);
    hex_encode(id.as_slice())
}

} // verus!

//! Data pushes in Bitcoin script, and the script that unlocks a P2PKH
//! output.
use crate::bytes::push_range;
use crate::foreign::{le_bytes_trimmed, rune_commitment};
use crate::der::{script_signature, sec1_to_der_fits, spec_script_signature};
use vstd::prelude::*;

verus! {

/// The opcodes that push 1, 2 and 4 length bytes before the data.
pub const OP_PUSHDATA1: u8 = 0x4c;
pub const OP_PUSHDATA2: u8 = 0x4d;
pub const OP_PUSHDATA4: u8 = 0x4e;

/// The instruction that pushes `data`: a length prefix of the shortest
/// form that holds it (the length itself below 76, else OP_PUSHDATA1, 2 or
/// 4 with the length in little-endian), then the data. This is the
/// encoding of `bitcoin::ScriptBuf::push_slice`.
pub open spec fn spec_push_data(data: Seq<u8>) -> Seq<u8> {
    let n = data.len();
    if n < 76 {
        seq![n as u8] + data
    } else if n < 0x100 {
        seq![OP_PUSHDATA1, n as u8] + data
    } else if n < 0x10000 {
        seq![OP_PUSHDATA2, (n % 0x100) as u8, (n / 0x100) as u8] + data
    } else {
        seq![
            OP_PUSHDATA4,
            (n % 0x100) as u8,
            ((n / 0x100) % 0x100) as u8,
            ((n / 0x10000) % 0x100) as u8,
            (n / 0x1000000) as u8,
        ] + data
    }
}

/// Appends to `script` the instruction that pushes `data`.
pub fn push_data(script: &mut Vec<u8>, data: &[u8])
    requires
        data@.len() < 0x1_0000_0000,
    ensures
        final(script)@ == old(script)@ + spec_push_data(data@),
{
    let n = data.len();
    if n < 76 {
        script.push(n as u8);
    } else if n < 0x100 {
        script.push(OP_PUSHDATA1);
        script.push(n as u8);
    } else if n < 0x10000 {
        script.push(OP_PUSHDATA2);
        script.push((n % 0x100) as u8);
        script.push((n / 0x100) as u8);
    } else {
        script.push(OP_PUSHDATA4);
        script.push((n % 0x100) as u8);
        script.push(((n / 0x100) % 0x100) as u8);
        script.push(((n / 0x10000) % 0x100) as u8);
        script.push((n / 0x1000000) as u8);
    }
    push_range(script, data, 0, n);
    assert(data@.subrange(0, n as int) =~= data@);
    assert(script@ =~= old(script)@ + spec_push_data(data@));
}

/// The script that spends a P2PKH output: the signature (DER with the
/// SIGHASH_ALL flag), then the public key.
pub open spec fn spec_p2pkh_script_sig(sec1_signature: Seq<u8>, public_key: Seq<u8>) -> Seq<u8> {
    spec_push_data(spec_script_signature(sec1_signature)) + spec_push_data(public_key)
}

/// The unlocking script of a P2PKH input signed with `sec1_signature`
/// under `public_key`.
pub fn p2pkh_script_sig(sec1_signature: &[u8], public_key: &[u8]) -> (r: Vec<u8>)
    requires
        sec1_to_der_fits(sec1_signature@),
        spec_script_signature(sec1_signature@).len() < 0x1_0000_0000,
        public_key@.len() < 0x1_0000_0000,
    ensures
        r@ == spec_p2pkh_script_sig(sec1_signature@, public_key@),
{
    let sig = script_signature(sec1_signature);
    let mut script: Vec<u8> = Vec::new();
    push_data(&mut script, sig.as_slice());
    push_data(&mut script, public_key);
    assert(script@ =~= spec_p2pkh_script_sig(sec1_signature@, public_key@));
    script
}

pub const OP_FALSE: u8 = 0x00;
pub const OP_IF: u8 = 0x63;
pub const OP_ENDIF: u8 = 0x68;
pub const OP_CHECKSIG: u8 = 0xac;

/// The tag that marks a rune's commitment in an envelope.
pub const TAG_RUNE: u8 = 13;

/// "ord", the protocol id of an envelope.
pub open spec fn protocol_id() -> Seq<u8> {
    seq![0x6fu8, 0x72, 0x64]
}

/// The start of the reveal script: a check of the Schnorr signature under
/// the x-only key, then an envelope (`OP_FALSE OP_IF "ord"`) that is never
/// executed.
pub open spec fn envelope_head(xonly_key: Seq<u8>) -> Seq<u8> {
    spec_push_data(xonly_key) + seq![OP_CHECKSIG, OP_FALSE, OP_IF] + spec_push_data(protocol_id())
}

/// The reveal script of an etching: the envelope carries the rune's
/// commitment under the rune tag.
pub open spec fn spec_reveal_script(xonly_key: Seq<u8>, rune: u128) -> Seq<u8> {
    envelope_head(xonly_key) + spec_push_data(seq![TAG_RUNE]) + spec_push_data(
        le_bytes_trimmed(rune as nat),
    ) + seq![OP_ENDIF]
}

/// The reveal script that the fee estimate measures: the envelope holds no
/// commitment.
pub open spec fn spec_estimate_reveal_script(xonly_key: Seq<u8>) -> Seq<u8> {
    envelope_head(xonly_key) + seq![OP_ENDIF]
}

fn push_envelope_head(script: &mut Vec<u8>, xonly_key: &[u8])
    requires
        xonly_key@.len() < 0x1_0000_0000,
    ensures
        final(script)@ == old(script)@ + envelope_head(xonly_key@),
{
    push_data(script, xonly_key);
    script.push(OP_CHECKSIG);
    script.push(OP_FALSE);
    script.push(OP_IF);
    let id: Vec<u8> = vec![0x6fu8, 0x72, 0x64];
    assert(id@ =~= protocol_id());
    push_data(script, id.as_slice());
    assert(script@ =~= old(script)@ + envelope_head(xonly_key@));
}

/// The reveal script of an etching of `rune` whose reveal is signed under
/// the x-only key `xonly_key`.
pub fn reveal_script(xonly_key: &[u8], rune: u128) -> (r: Vec<u8>)
    requires
        xonly_key@.len() < 0x1_0000_0000,
    ensures
        r@ == spec_reveal_script(xonly_key@, rune),
{
    let mut script: Vec<u8> = Vec::new();
    push_envelope_head(&mut script, xonly_key);
    let tag: Vec<u8> = vec![TAG_RUNE];
    assert(tag@ =~= seq![TAG_RUNE]);
    push_data(&mut script, tag.as_slice());
    let commitment = rune_commitment(rune);
    push_data(&mut script, commitment.as_slice());
    script.push(OP_ENDIF);
    assert(script@ =~= spec_reveal_script(xonly_key@, rune));
    script
}

/// The reveal script that the fee estimate measures.
pub fn estimate_reveal_script(xonly_key: &[u8]) -> (r: Vec<u8>)
    requires
        xonly_key@.len() < 0x1_0000_0000,
    ensures
        r@ == spec_estimate_reveal_script(xonly_key@),
{
    let mut script: Vec<u8> = Vec::new();
    push_envelope_head(&mut script, xonly_key);
    script.push(OP_ENDIF);
    assert(script@ =~= spec_estimate_reveal_script(xonly_key@));
    script
}

} // verus!

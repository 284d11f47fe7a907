//! The points where the library calls into `bitcoin`, `ordinals`, `hex`,
//! `candid`, `icrc-ledger-types` and std without a specification of its
//! own. Each wrapper's contract is what the called code does, as its source
//! shows it; Verus takes it on trust.
use crate::runes::RunestoneData;
use crate::txplan::{tx_model, txids_well_formed, TxModel, TxPlan};
use crate::text::decimal;
use crate::types::Chain;
use bitcoin::{Amount, OutPoint, ScriptBuf, Sequence, TxIn, TxOut, Txid, Witness};
use vstd::prelude::*;

verus! {

/// What `ordinals::SpacedRune::from_str` gives for a string: the rune's
/// number and the spacer bits, or `None` where it returns an error.
pub uninterp spec fn spaced_rune_of(s: Seq<char>) -> Option<(u128, u32)>;

/// What `ordinals::Rune::minimum_at_height` gives, as a number.
pub uninterp spec fn rune_minimum(network: Chain, height: u32) -> u128;

/// The bytes of the script that `ordinals::Runestone::encipher` builds.
pub uninterp spec fn runestone_script(stone: RunestoneData) -> Seq<u8>;


/// The SHA-256 digest of `data`, as `bitcoin::hashes::sha256` computes it.
pub uninterp spec fn sha256_of(data: Seq<u8>) -> Seq<u8>;

/// Whether `secp256k1::XOnlyPublicKey::from_slice` accepts `bytes`.
pub uninterp spec fn xonly_key_valid(bytes: Seq<u8>) -> bool;

/// Whether `secp256k1::Secp256k1::verify_schnorr` accepts the signature
/// `sig` of the 32-byte digest `msg` under the x-only key `key`.
pub uninterp spec fn schnorr_verifies(sig: Seq<u8>, msg: Seq<u8>, key: Seq<u8>) -> bool;

/// A character of a rune name: an upper-case letter or a spacer.
pub open spec fn is_rune_letter(c: char) -> bool {
    'A' <= c && c <= 'Z'
}

/// A spacer between the letters of a rune name.
pub open spec fn is_spacer(c: char) -> bool {
    c == '.' || c == '•'
}

/// How many letters stand among the first `i` characters.
pub open spec fn letters_before(s: Seq<char>, i: int) -> int
    decreases i,
{
    if i <= 0 {
        0
    } else {
        letters_before(s, i - 1) + if is_rune_letter(s[i - 1]) {
            1int
        } else {
            0int
        }
    }
}

/// The strings that `SpacedRune::from_str` reads without overflowing: every
/// spacer that it reaches (all characters before it being letters or
/// spacers) follows at most 32 letters, so that the spacer's bit fits in a
/// `u32`, and the length fits in 32 bits.
pub open spec fn spaced_rune_parse_safe(s: Seq<char>) -> bool {
    &&& s.len() <= u32::MAX
    &&& forall|i: int|
        0 <= i < s.len() && is_spacer(#[trigger] s[i]) && (forall|j: int|
            0 <= j < i ==> is_rune_letter(s[j]) || is_spacer(s[j])) ==> letters_before(s, i) <= 32
}

/// `ordinals::SpacedRune::from_str`, its result as (rune number, spacers).
#[verifier::external_body]
pub(crate) fn spaced_rune_from_str(s: &str) -> (r: Option<(u128, u32)>)
    requires
        spaced_rune_parse_safe(s@),
    ensures
        r == spaced_rune_of(s@),
{
    <ordinals::SpacedRune as std::str::FromStr>::from_str(s).ok().map(|sr| (sr.rune.0, sr.spacers))
}

/// `ordinals::Rune::minimum_at_height` for the network and block height.
#[verifier::external_body]
pub(crate) fn rune_minimum_at_height(network: Chain, height: u32) -> (r: u128)
    ensures
        r == rune_minimum(network, height),
{
    ordinals::Rune::minimum_at_height(to_bitcoin_network(network), ordinals::Height(height)).0
}

/// `ordinals::Rune::RESERVED`: runes from this number on are reserved.
pub open spec fn rune_reserved_from() -> u128 {
    6402364363415443603228541259936211926
}

/// `ordinals::Rune::is_reserved`, which compares with `Rune::RESERVED`.
#[verifier::external_body]
pub(crate) fn rune_is_reserved(rune: u128) -> (r: bool)
    ensures
        r == (rune >= rune_reserved_from()),
{
    ordinals::Rune(rune).is_reserved()
}

/// A number's little-endian bytes without the zero bytes at the top.
pub open spec fn le_bytes_trimmed(n: nat) -> Seq<u8>
    decreases n,
{
    if n == 0 {
        Seq::empty()
    } else {
        seq![(n % 256) as u8] + le_bytes_trimmed(n / 256)
    }
}

/// `ordinals::Rune::commitment`: the rune's number in little-endian bytes,
/// the trailing zero bytes cut off; at most the 16 bytes of a `u128`.
#[verifier::external_body]
pub(crate) fn rune_commitment(rune: u128) -> (r: Vec<u8>)
    ensures
        r@ == le_bytes_trimmed(rune as nat),
        r@.len() <= 16,
{
    ordinals::Rune(rune).commitment()
}

/// `ordinals::RuneId::new`, which refuses a transaction index in block 0.
#[verifier::external_body]
pub(crate) fn rune_id_new(block: u64, tx: u32) -> (r: Option<(u64, u32)>)
    ensures
        r == (if block == 0 && tx > 0 { None } else { Some((block, tx)) }),
{
    ordinals::RuneId::new(block, tx).map(|id| (id.block, id.tx))
}

/// The `bitcoin` crate's network, carried as it is.
#[verifier::external_type_specification]
#[verifier::external_body]
pub struct ExBitcoinNetwork(bitcoin::Network);

/// A runestone of the `ordinals` crate, carried as it is.
#[verifier::external_type_specification]
#[verifier::external_body]
pub struct ExRunestone(ordinals::Runestone);

/// The `ordinals::Runestone` with these fields and no edicts: the
/// conversion that the two wrappers below share. It states nothing; their
/// contracts do.
#[verifier::external_body]
fn to_ordinals_runestone(stone: &RunestoneData) -> ordinals::Runestone {
    let e = stone.etching.map(|e| ordinals::Etching { divisibility: e.divisibility, premine: e.premine, rune: e.rune.map(ordinals::Rune), spacers: e.spacers, symbol: e.symbol, terms: e.terms.map(|t| ordinals::Terms { amount: t.amount, cap: t.cap, height: t.height, offset: t.offset }), turbo: e.turbo });
    let m = stone.mint.map(|(block, tx)| ordinals::RuneId { block, tx });
    ordinals::Runestone { edicts: Vec::new(), etching: e, mint: m, pointer: stone.pointer }
}

/// `ordinals::Runestone::encipher` of the runestone with these fields and no
/// edicts, as script bytes. Without an etching and a pointer, the payload
/// holds at most the mint tag twice, a block (a varint of at most 10 bytes)
/// and a transaction index (at most 5), so the script (OP_RETURN, OP_13,
/// one push) has at most 20 bytes.
#[verifier::external_body]
pub(crate) fn runestone_encipher(stone: &RunestoneData) -> (r: Vec<u8>)
    ensures
        r@ == runestone_script(*stone),
        stone.etching is None && stone.pointer is None ==> r@.len() <= 20,
{
    to_ordinals_runestone(stone).encipher().into_bytes()
}

/// What `ordinals::Runestone::decipher` finds in a transaction, compared
/// with a runestone: `None` when it finds no artifact at all.
pub uninterp spec fn deciphers_as(tx: TxModel, stone: RunestoneData) -> Option<bool>;

/// `ordinals::Runestone::decipher` of the transaction, compared with
/// `Artifact::Runestone` of the given runestone.
#[verifier::external_body]
pub(crate) fn runestone_decipher_matches(tx: &TxPlan, stone: &RunestoneData) -> (r: Option<bool>)
    requires
        txids_well_formed(*tx),
    ensures
        r == deciphers_as(tx_model(*tx), *stone),
{
    let found = ordinals::Runestone::decipher(&to_bitcoin_transaction(tx));
    found.map(|artifact| artifact == ordinals::Artifact::Runestone(to_ordinals_runestone(stone)))
}

/// The `bitcoin::Transaction` with these fields: the conversion that the
/// wrappers below share. It states nothing; their contracts do.
#[verifier::external_body]
fn to_bitcoin_transaction(tx: &TxPlan) -> bitcoin::Transaction
    requires
        txids_well_formed(*tx),
{
    let input = tx.inputs.iter().map(|i| TxIn {
        previous_output: OutPoint { txid: <Txid as bitcoin::hashes::Hash>::from_slice(&i.txid).unwrap(), vout: i.vout },
        script_sig: ScriptBuf::from_bytes(i.script_sig.clone()),
        sequence: Sequence(i.sequence),
        witness: Witness::from_slice(&i.witness),
    });
    let output = tx.outputs.iter().map(|o| TxOut { value: Amount::from_sat(o.value), script_pubkey: ScriptBuf::from_bytes(o.script_pubkey.clone()) });
    let lock_time = bitcoin::absolute::LockTime::from_consensus(tx.lock_time);
    bitcoin::Transaction { version: bitcoin::transaction::Version(tx.version), lock_time, input: input.collect(), output: output.collect() }
}

/// What `bitcoin::Transaction::vsize` gives for a transaction.
pub uninterp spec fn vsize_of(tx: TxModel) -> u64;

/// `bitcoin::Transaction::vsize`: the transaction's size in virtual bytes.
#[verifier::external_body]
pub(crate) fn tx_vsize(tx: &TxPlan) -> (r: u64)
    requires
        txids_well_formed(*tx),
    ensures
        r == vsize_of(tx_model(*tx)),
{
    to_bitcoin_transaction(tx).vsize() as u64
}

/// What `bitcoin::Transaction::compute_txid` gives, as bytes.
pub uninterp spec fn txid_of(tx: TxModel) -> Seq<u8>;

/// `bitcoin::Transaction::compute_txid`, as its 32 bytes.
#[verifier::external_body]
pub(crate) fn tx_txid(tx: &TxPlan) -> (r: Vec<u8>)
    requires
        txids_well_formed(*tx),
    ensures
        r@ == txid_of(tx_model(*tx)),
        r@.len() == 32,
{
    <bitcoin::Txid as bitcoin::hashes::Hash>::to_byte_array(to_bitcoin_transaction(tx).compute_txid()).to_vec()
}

/// What `bitcoin::sighash::SighashCache::legacy_signature_hash` gives.
pub uninterp spec fn legacy_sighash_of(tx: TxModel, index: usize, script_pubkey: Seq<u8>, sighash_type: u32) -> Seq<u8>;

/// `SighashCache::legacy_signature_hash` of input `index`, which spends an
/// output locked by `script_pubkey`; it fails only for an index past the
/// inputs.
#[verifier::external_body]
pub(crate) fn legacy_sighash(tx: &TxPlan, index: usize, script_pubkey: &[u8], sighash_type: u32) -> (r: Vec<u8>)
    requires
        txids_well_formed(*tx),
        index < tx.inputs@.len(),
    ensures
        r@ == legacy_sighash_of(tx_model(*tx), index, script_pubkey@, sighash_type),
        r@.len() == 32,
{
    let btx = to_bitcoin_transaction(tx);
    let script = bitcoin::Script::from_bytes(script_pubkey);
    let hash = bitcoin::sighash::SighashCache::new(&btx).legacy_signature_hash(index, script, sighash_type).unwrap();
    <bitcoin::sighash::LegacySighash as bitcoin::hashes::Hash>::to_byte_array(hash).to_vec()
}

/// What `SighashCache::taproot_encode_signing_data_to` writes.
pub uninterp spec fn tap_signing_data_of(tx: TxModel, prevout_script: Seq<u8>, prevout_value: u64, leaf_script: Seq<u8>) -> Seq<u8>;

/// `SighashCache::taproot_encode_signing_data_to` for the first and only
/// input, spending `prevout` through the tapscript leaf `leaf_script` with
/// the default sighash type and no code separator.
#[verifier::external_body]
pub(crate) fn tap_signing_data(tx: &TxPlan, prevout_script: &[u8], prevout_value: u64, leaf_script: &[u8]) -> (r: Vec<u8>)
    requires
        txids_well_formed(*tx),
        tx.inputs@.len() == 1,
    ensures
        r@ == tap_signing_data_of(tx_model(*tx), prevout_script@, prevout_value, leaf_script@),
{
    let prevout = bitcoin::TxOut { value: bitcoin::Amount::from_sat(prevout_value), script_pubkey: bitcoin::ScriptBuf::from_bytes(prevout_script.to_vec()) };
    let leaf = bitcoin::TapLeafHash::from_script(bitcoin::Script::from_bytes(leaf_script), bitcoin::taproot::LeafVersion::TapScript);
    let mut data = Vec::new();
    let btx = to_bitcoin_transaction(tx);
    bitcoin::sighash::SighashCache::new(&btx).taproot_encode_signing_data_to(&mut data, 0, &bitcoin::sighash::Prevouts::All(&[prevout]), None, Some((leaf, 0xFFFFFFFF)), bitcoin::TapSighashType::Default).unwrap();
    data
}

/// What a taproot output committing to one tapscript leaf is: its tweaked
/// output key and the control block that spends through the leaf.
pub uninterp spec fn taproot_spend_of(internal_key: Seq<u8>, leaf_script: Seq<u8>) -> (Seq<u8>, Seq<u8>);

/// `bitcoin::taproot::TaprootBuilder` with the one leaf `leaf_script` at
/// depth 0, finalized with the x-only `internal_key`: the output key and
/// the leaf's control block, serialized. The output key is a valid 32-byte
/// x-only key.
#[verifier::external_body]
pub(crate) fn taproot_spend(internal_key: &[u8], leaf_script: &[u8]) -> (r: (Vec<u8>, Vec<u8>))
    requires
        xonly_key_valid(internal_key@),
    ensures
        (r.0@, r.1@) == taproot_spend_of(internal_key@, leaf_script@),
        r.0@.len() == 32,
        xonly_key_valid(r.0@),
{
    let key = bitcoin::secp256k1::XOnlyPublicKey::from_slice(internal_key).unwrap();
    let script = bitcoin::ScriptBuf::from_bytes(leaf_script.to_vec());
    let info = bitcoin::taproot::TaprootBuilder::new().add_leaf(0, script.clone()).unwrap().finalize(&bitcoin::secp256k1::Secp256k1::new(), key).unwrap();
    let control = info.control_block(&(script, bitcoin::taproot::LeafVersion::TapScript)).unwrap();
    (info.output_key().to_x_only_public_key().serialize().to_vec(), control.serialize())
}

/// The P2TR address of an output key on a network, and its script.
pub uninterp spec fn p2tr_address_of(output_key: Seq<u8>, network: Chain) -> Seq<char>;

/// `bitcoin::Address::p2tr_tweaked` for the output key: its text and its
/// `script_pubkey`, which is OP_1 followed by a push of the 32-byte key.
#[verifier::external_body]
pub(crate) fn p2tr_address(output_key: &[u8], network: Chain) -> (r: (String, Vec<u8>))
    requires
        xonly_key_valid(output_key@),
    ensures
        r.0@ == p2tr_address_of(output_key@, network),
        r.1@ == seq![0x51u8, 0x20] + output_key@,
{
    let key = bitcoin::secp256k1::XOnlyPublicKey::from_slice(output_key).unwrap();
    let tweaked = bitcoin::key::TweakedPublicKey::dangerous_assume_tweaked(key);
    let address = bitcoin::Address::p2tr_tweaked(tweaked, to_bitcoin_network(network));
    (address.to_string(), address.script_pubkey().into_bytes())
}

/// The `bitcoin::Network` of the same name.
#[verifier::external_body]
fn to_bitcoin_network(network: Chain) -> bitcoin::Network {
    match network {
        Chain::Bitcoin => bitcoin::Network::Bitcoin,
        Chain::Testnet => bitcoin::Network::Testnet,
        Chain::Signet => bitcoin::Network::Signet,
        Chain::Regtest => bitcoin::Network::Regtest,
    }
}

/// The script of the address a string names, when it parses.
pub uninterp spec fn address_script_of(address: Seq<char>) -> Option<Seq<u8>>;

/// `bitcoin::Address::from_str`, taken as checked for any network, then its
/// `script_pubkey`; `None` where the string is no address. The script is
/// P2PKH (25 bytes), P2SH (23) or a witness program of at most 40 bytes
/// behind its version and length bytes, so it has at most 42 bytes.
#[verifier::external_body]
pub(crate) fn address_script_pubkey(address: &str) -> (r: Option<Vec<u8>>)
    ensures
        r matches Some(s) ==> address_script_of(address@) == Some(s@) && s@.len() <= 42,
        r is None ==> address_script_of(address@) is None,
{
    let parsed = <bitcoin::Address<bitcoin::address::NetworkUnchecked> as std::str::FromStr>::from_str(address).ok();
    parsed.map(|a| a.assume_checked().script_pubkey().into_bytes())
}

/// The x-only form of a SEC1 public key, when it parses.
pub uninterp spec fn xonly_of_public_key(public_key: Seq<u8>) -> Option<Seq<u8>>;

/// `bitcoin::secp256k1::PublicKey::from_slice`, then its x-only key,
/// serialized; a key that parses gives a valid 32-byte x-only key.
#[verifier::external_body]
pub(crate) fn xonly_public_key(public_key: &[u8]) -> (r: Option<Vec<u8>>)
    ensures
        r matches Some(x) ==> xonly_of_public_key(public_key@) == Some(x@) && x@.len() == 32
            && xonly_key_valid(x@),
        r is None ==> xonly_of_public_key(public_key@) is None,
{
    let key = bitcoin::secp256k1::PublicKey::from_slice(public_key).ok();
    key.map(|k| bitcoin::secp256k1::XOnlyPublicKey::from(k).serialize().to_vec())
}

/// `ordinals::Runestone::COMMIT_CONFIRMATIONS`: the confirmations an
/// etching's commitment needs before the reveal may spend it.
#[verifier::external_body]
pub(crate) fn commit_confirmations() -> (r: u16)
    ensures
        r == 6,
{
    ordinals::Runestone::COMMIT_CONFIRMATIONS
}

/// `bitcoin::EcdsaSighashType::All.to_u32()`, the SIGHASH_ALL flag.
#[verifier::external_body]
pub(crate) fn sighash_all() -> (r: u32)
    ensures
        r == 1,
{
    bitcoin::sighash::EcdsaSighashType::All.to_u32()
}

/// `bitcoin::OutPoint::null()`: the all-zero transaction id and output
/// `u32::MAX`, the placeholder a transaction spends before its input is
/// known.
#[verifier::external_body]
pub(crate) fn null_outpoint() -> (r: (Vec<u8>, u32))
    ensures
        r.0@ == Seq::new(32, |i: int| 0u8),
        r.1 == u32::MAX,
{
    let outpoint = bitcoin::OutPoint::null();
    (<bitcoin::Txid as bitcoin::hashes::Hash>::to_byte_array(outpoint.txid).to_vec(), outpoint.vout)
}

/// `bitcoin::Sequence::MAX`: final, no relative lock time, no RBF.
#[verifier::external_body]
pub(crate) fn sequence_max() -> (r: u32)
    ensures
        r == 0xFFFF_FFFF,
{
    bitcoin::Sequence::MAX.0
}

/// `bitcoin::Sequence::ENABLE_RBF_NO_LOCKTIME`.
#[verifier::external_body]
pub(crate) fn sequence_rbf_no_locktime() -> (r: u32)
    ensures
        r == 0xFFFF_FFFD,
{
    bitcoin::Sequence::ENABLE_RBF_NO_LOCKTIME.0
}

/// `bitcoin::Sequence::from_height`: a relative lock of `height` blocks.
#[verifier::external_body]
pub(crate) fn sequence_from_height(height: u16) -> (r: u32)
    ensures
        r == height as u32,
{
    bitcoin::Sequence::from_height(height).0
}

/// `bitcoin::FeeRate::from_sat_per_vb`, read back in sat/kwu: the rate
/// times 250, or `None` when that overflows.
#[verifier::external_body]
pub(crate) fn fee_rate_kwu_from_sat_per_vb(sat_vb: u64) -> (r: Option<u64>)
    ensures
        r == (if sat_vb * 250 <= u64::MAX { Some((sat_vb * 250) as u64) } else { None::<u64> }),
{
    bitcoin::FeeRate::from_sat_per_vb(sat_vb).map(|rate| rate.to_sat_per_kwu())
}

/// A witness program: a version opcode (OP_0 or OP_1 to OP_16), then a
/// single push of 2 to 40 bytes, as `Script::witness_version` reads it.
pub open spec fn is_witness_program(s: Seq<u8>) -> bool {
    &&& 4 <= s.len() <= 42
    &&& 2 <= s[1] <= 40
    &&& s.len() - 2 == s[1]
    &&& (s[0] == 0 || (0x51 <= s[0] && s[0] <= 0x60))
}

/// The bytes of the length prefix that the consensus encoding puts before
/// `n` bytes.
pub open spec fn compact_size_len(n: nat) -> nat {
    if n < 0xFD {
        1
    } else if n <= 0xFFFF {
        3
    } else if n <= 0xFFFF_FFFF {
        5
    } else {
        9
    }
}

/// The smallest value that an output locked by `script` may carry without
/// being dust at the default dust relay fee of 3000 sat/kvB: nothing for
/// an OP_RETURN script, else what spending the output costs (an input of
/// 32 + 4 + 1 + 4 bytes and a signature of 107, a quarter of that for a
/// witness program) plus the output itself (8 bytes of value and the
/// encoded script).
pub open spec fn dust_threshold(script: Seq<u8>) -> nat {
    let output_size = 8 + compact_size_len(script.len()) + script.len();
    if script.len() > 0 && script[0] == 0x6a {
        0
    } else if is_witness_program(script) {
        3000 * (32 + 4 + 1 + 26 + 4 + output_size) / 1000
    } else {
        3000 * (32 + 4 + 1 + 107 + 4 + output_size) / 1000
    }
}

/// `bitcoin::Script::minimal_non_dust` (what `dust_value` returns), in
/// satoshis. The `requires` keeps the product in its `checked_mul` from
/// overflowing, where it panics.
#[verifier::external_body]
pub(crate) fn script_dust_threshold(script: &[u8]) -> (r: u64)
    requires
        script@.len() <= u32::MAX,
    ensures
        r == dust_threshold(script@),
{
    bitcoin::Script::from_bytes(script).minimal_non_dust().to_sat()
}

/// `bitcoin::hashes::sha256::Hash::hash`, as bytes; a digest has 32 bytes.
#[verifier::external_body]
pub(crate) fn sha256(data: &[u8]) -> (r: Vec<u8>)
    ensures
        r@ == sha256_of(data@),
        r@.len() == 32,
{
    let digest = <bitcoin::hashes::sha256::Hash as bitcoin::hashes::Hash>::hash(data);
    <bitcoin::hashes::sha256::Hash as bitcoin::hashes::Hash>::to_byte_array(digest).to_vec()
}

/// `secp256k1::XOnlyPublicKey::from_slice` succeeds; it refuses every
/// slice that is not 32 bytes long.
#[verifier::external_body]
pub(crate) fn xonly_key_parses(bytes: &[u8]) -> (r: bool)
    ensures
        r == xonly_key_valid(bytes@),
        bytes@.len() != 32 ==> !r,
{
    bitcoin::secp256k1::XOnlyPublicKey::from_slice(bytes).is_ok()
}

/// `secp256k1::schnorr::Signature::from_slice` succeeds: exactly when the
/// slice has 64 bytes.
#[verifier::external_body]
pub(crate) fn schnorr_signature_parses(bytes: &[u8]) -> (r: bool)
    ensures
        r == (bytes@.len() == 64),
{
    bitcoin::secp256k1::schnorr::Signature::from_slice(bytes).is_ok()
}

/// `bitcoin::taproot::Signature::from_slice` of a 64-byte Schnorr signature
/// (the default sighash type) and then `to_vec`, which writes the signature
/// back without a sighash byte: the same 64 bytes.
#[verifier::external_body]
pub(crate) fn taproot_signature_bytes(sig: &[u8]) -> (r: Vec<u8>)
    requires
        sig@.len() == 64,
    ensures
        r@ == sig@,
{
    bitcoin::taproot::Signature::from_slice(sig).unwrap().to_vec()
}

/// `secp256k1::Message::from_digest_slice` succeeds: exactly when the slice
/// has 32 bytes.
#[verifier::external_body]
pub(crate) fn message_parses(bytes: &[u8]) -> (r: bool)
    ensures
        r == (bytes@.len() == 32),
{
    bitcoin::secp256k1::Message::from_digest_slice(bytes).is_ok()
}

/// `secp256k1::Secp256k1::verify_schnorr` on the parsed signature, digest
/// and key; the parses are conversions that the `requires` makes succeed.
#[verifier::external_body]
pub(crate) fn verify_schnorr(sig: &[u8], msg: &[u8], key: &[u8]) -> (r: bool)
    requires
        sig@.len() == 64,
        msg@.len() == 32,
        xonly_key_valid(key@),
    ensures
        r == schnorr_verifies(sig@, msg@, key@),
{
    let sig = bitcoin::secp256k1::schnorr::Signature::from_slice(sig).unwrap();
    let msg = bitcoin::secp256k1::Message::from_digest_slice(msg).unwrap();
    let key = bitcoin::secp256k1::XOnlyPublicKey::from_slice(key).unwrap();
    bitcoin::secp256k1::Secp256k1::verification_only().verify_schnorr(&sig, &msg, &key).is_ok()
}

/// A hex digit in either case, as `hex` accepts it.
pub open spec fn is_hex_digit(c: char) -> bool {
    ('0' <= c && c <= '9') || ('a' <= c && c <= 'f') || ('A' <= c && c <= 'F')
}

/// The value of a hex digit.
pub open spec fn hex_value(c: char) -> int {
    if '0' <= c && c <= '9' {
        c as int - '0' as int
    } else if 'a' <= c && c <= 'f' {
        c as int - 'a' as int + 10
    } else {
        c as int - 'A' as int + 10
    }
}

/// A string that `hex::decode` accepts: an even number of hex digits.
pub open spec fn is_hex_string(s: Seq<char>) -> bool {
    &&& s.len() % 2 == 0
    &&& forall|i: int| 0 <= i < s.len() ==> is_hex_digit(#[trigger] s[i])
}

/// The bytes that a hex string stands for, two digits per byte, high
/// nibble first.
pub open spec fn hex_bytes(s: Seq<char>) -> Seq<u8> {
    Seq::new(s.len() / 2, |i: int| (16 * hex_value(s[2 * i]) + hex_value(s[2 * i + 1])) as u8)
}

/// `hex::decode` of the string's bytes. A non-ASCII character is never a
/// hex digit, so the byte-level and the character-level tests agree.
#[verifier::external_body]
pub(crate) fn hex_decode(s: &str) -> (r: Option<Vec<u8>>)
    ensures
        r is Some <==> is_hex_string(s@),
        r matches Some(b) ==> b@ == hex_bytes(s@),
{
    hex::decode(s).ok()
}

/// std's `u64::to_string`: the decimal digits, without sign or padding.
#[verifier::external_body]
pub(crate) fn u64_to_decimal(n: u64) -> (r: String)
    ensures
        r@ == decimal(n as nat),
{
    n.to_string()
}

/// std's `char::from_u32`: a char for every Unicode scalar value.
#[verifier::external_body]
pub(crate) fn char_from_u32(v: u32) -> (r: Option<char>)
    ensures
        r is Some <==> (v <= 0x10FFFF && !(0xD800 <= v && v <= 0xDFFF)),
        r matches Some(c) ==> c as u32 == v && c == v as char,
{
    char::from_u32(v)
}

/// The upper-case form of an ASCII lower-case letter; other characters stay.
pub open spec fn ascii_upper(c: char) -> char {
    if 'a' <= c && c <= 'z' {
        ((c as u32) - 32) as char
    } else {
        c
    }
}

/// std's `str::to_ascii_uppercase`: ASCII letters `a`..`z` become `A`..`Z`,
/// every other character is kept.
#[verifier::external_body]
pub(crate) fn to_ascii_uppercase(s: &str) -> (r: String)
    ensures
        r@ == s@.map_values(|c: char| ascii_upper(c)),
{
    s.to_ascii_uppercase()
}

/// The lower-case hex digit for `n < 16`.
pub open spec fn hex_digit_char(n: u8) -> char {
    if n < 10 {
        (48 + n) as char
    } else {
        (87 + n) as char
    }
}

/// Bytes as lower-case hex text, two digits per byte, high nibble first.
pub open spec fn hex_text(b: Seq<u8>) -> Seq<char>
    decreases b.len(),
{
    if b.len() == 0 {
        Seq::empty()
    } else {
        hex_text(b.drop_last()) + seq![hex_digit_char(b.last() / 16), hex_digit_char(b.last() % 16)]
    }
}

/// Hex text decodes back to its bytes: `hex::decode` accepts what
/// `hex::encode` writes and gives back the bytes it was given.
pub proof fn lemma_hex_round_trip(b: Seq<u8>)
    ensures
        is_hex_string(hex_text(b)),
        hex_text(b).len() == 2 * b.len(),
        hex_bytes(hex_text(b)) == b,
    decreases b.len(),
{
    if b.len() > 0 {
        let prev = b.drop_last();
        lemma_hex_round_trip(prev);
        let hi = b.last() / 16;
        let lo = b.last() % 16;
        let t = hex_text(b);
        assert(t == hex_text(prev) + seq![hex_digit_char(hi), hex_digit_char(lo)]);
        assert(is_hex_digit(hex_digit_char(hi)) && hex_value(hex_digit_char(hi)) == hi);
        assert(is_hex_digit(hex_digit_char(lo)) && hex_value(hex_digit_char(lo)) == lo);
        assert forall|i: int| 0 <= i < t.len() implies is_hex_digit(#[trigger] t[i]) by {
            if i < hex_text(prev).len() {
                assert(t[i] == hex_text(prev)[i]);
            }
        }
        assert forall|i: int| 0 <= i < b.len() implies #[trigger] hex_bytes(t)[i] == b[i] by {
            if i < prev.len() {
                assert(t[2 * i] == hex_text(prev)[2 * i]);
                assert(t[2 * i + 1] == hex_text(prev)[2 * i + 1]);
                assert(hex_bytes(hex_text(prev))[i] == prev[i]);
            } else {
                assert(b[i] == 16 * hi + lo);
            }
        }
        assert(hex_bytes(t) =~= b);
    } else {
        assert(hex_bytes(hex_text(b)) =~= b);
    }
}

/// `hex::encode`: every byte as two lower-case hex digits.
#[verifier::external_body]
pub(crate) fn hex_encode(bytes: &[u8]) -> (r: String)
    ensures
        r@ == hex_text(bytes@),
{
    hex::encode(bytes)
}

/// The P2PKH address of a public key on a network, when the key parses.
pub uninterp spec fn p2pkh_address_of(public_key: Seq<u8>, network: Chain) -> Option<Seq<char>>;

/// `bitcoin::PublicKey::from_slice` and then `Address::p2pkh` of its key
/// hash on the network, as text; `None` where the key does not parse.
#[verifier::external_body]
pub(crate) fn p2pkh_address(public_key: &[u8], network: Chain) -> (r: Option<String>)
    ensures
        r matches Some(a) ==> p2pkh_address_of(public_key@, network) == Some(a@),
        r is None ==> p2pkh_address_of(public_key@, network) is None,
{
    let key = bitcoin::PublicKey::from_slice(public_key).ok();
    key.map(|k| bitcoin::Address::p2pkh(k.pubkey_hash(), to_bitcoin_network(network)).to_string())
}

/// The text of the ICRC-1 account of an owner without subaccount.
pub uninterp spec fn account_text_of(owner: Seq<u8>) -> Seq<char>;

/// `icrc_ledger_types::icrc1::account::Account` of the principal with these
/// bytes and no subaccount, as text. `Principal::from_slice` panics on more
/// than 29 bytes.
#[verifier::external_body]
pub(crate) fn account_text(owner: &[u8]) -> (r: String)
    requires
        owner@.len() <= 29,
    ensures
        r@ == account_text_of(owner@),
{
    let owner = candid::Principal::from_slice(owner);
    icrc_ledger_types::icrc1::account::Account { owner, subaccount: None }.to_string()
}

} // verus!

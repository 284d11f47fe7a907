//! What the canister asks the threshold keys to sign outside a
//! transaction, and how it reports keys and signatures.
use crate::foreign::{
    account_text, account_text_of, address_script_of, address_script_pubkey, hex_encode, hex_text,
    p2pkh_address, p2pkh_address_of, schnorr_signature_parses, schnorr_verifies, sha256, sha256_of, verify_schnorr,
    xonly_of_public_key, xonly_public_key,
};
use crate::types::{Chain, PublicKeyReply, SignatureReply};
use vstd::prelude::*;
use vstd::string::{StrSliceExecFns, StringSliceAdditionalSpecFns};

verus! {

/// The derivation path of the keys that belong to a principal: its bytes
/// as the one element.
pub fn derivation_path(principal: &[u8]) -> (r: Vec<Vec<u8>>)
    ensures
        r@.len() == 1,
        r@[0]@ == principal@,
{
    let mut path: Vec<Vec<u8>> = Vec::new();
    path.push(crate::bytes::copy_bytes(principal));
    path
}

/// The canister's P2PKH address for an ECDSA public key, `None` where the
/// key is not a point of the curve.
pub fn public_key_to_p2pkh_address(public_key: &[u8], network: Chain) -> (r: Option<String>)
    ensures
        r matches Some(a) ==> p2pkh_address_of(public_key@, network) == Some(a@),
        r is None ==> p2pkh_address_of(public_key@, network) is None,
{
    p2pkh_address(public_key, network)
}

/// The locking script of an address, `None` where the text is no address.
pub fn address_script(address: &str) -> (r: Option<Vec<u8>>)
    ensures
        r matches Some(s) ==> address_script_of(address@) == Some(s@) && s@.len() <= 42,
        r is None ==> address_script_of(address@) is None,
{
    address_script_pubkey(address)
}

/// The ICRC-1 account text of a principal with no subaccount: where ckBTC
/// is deposited for it.
pub fn deposit_account(owner: &[u8]) -> (r: String)
    requires
        owner@.len() <= 29,
    ensures
        r@ == account_text_of(owner@),
{
    account_text(owner)
}

/// The digest that signing a message signs: SHA-256 of its UTF-8 bytes.
pub fn message_digest(message: &str) -> (r: Vec<u8>)
    ensures
        r@ == sha256_of(message.spec_bytes()),
        r@.len() == 32,
{
    let bytes = message.as_bytes_vec();
    sha256(bytes.as_slice())
}

/// The digest that the signing self-test signs.
pub fn test_message_digest() -> (r: Vec<u8>)
    ensures
        r@ == sha256_of("Hello, World!".spec_bytes()),
        r@.len() == 32,
{
    message_digest("Hello, World!")
}

/// The reply to a signing request: the signature and the digest, in hex.
pub fn signature_reply(signature: &[u8], digest: &[u8]) -> (r: SignatureReply)
    ensures
        r.signature_hex@ == hex_text(signature@),
        r.message@ == hex_text(digest@),
{
    SignatureReply { signature_hex: hex_encode(signature), message: hex_encode(digest) }
}

/// The reply to a public key request: the key in hex.
pub fn public_key_reply(public_key: &[u8]) -> (r: PublicKeyReply)
    ensures
        r.public_key_hex@ == hex_text(public_key@),
{
    PublicKeyReply { public_key_hex: hex_encode(public_key) }
}

/// Whether a Schnorr signature of the 32-byte `digest` verifies under the
/// x-only form of a SEC1 public key: `None` where the key or the signature
/// does not parse.
pub fn check_schnorr_signature(public_key: &[u8], signature: &[u8], digest: &[u8]) -> (r: Option<
    bool,
>)
    requires
        digest@.len() == 32,
    ensures
        match r {
            Some(ok) => xonly_of_public_key(public_key@) matches Some(key) && signature@.len() == 64
                && ok == schnorr_verifies(signature@, digest@, key),
            None => xonly_of_public_key(public_key@) is None || signature@.len() != 64,
        },
{
    let key = match xonly_public_key(public_key) {
        Some(k) => k,
        None => {
            return None;
        },
    };
    if !schnorr_signature_parses(signature) {
        return None;
    }
    Some(verify_schnorr(signature, digest, key.as_slice()))
}

} // verus!

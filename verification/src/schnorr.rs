//! Checking a BIP-340 Schnorr signature given in hex.
use crate::foreign::{
    hex_bytes, hex_decode, hex_text, is_hex_string, lemma_hex_round_trip, message_parses, schnorr_signature_parses,
    schnorr_verifies, verify_schnorr, xonly_key_parses, xonly_key_valid,
};
use vstd::prelude::*;

verus! {

/// The answer to a request to check a signature: the bytes that the hex
/// strings stand for must have the right lengths, the key must be a point
/// of the curve, the message a 32-byte digest, and the signature valid.
pub open spec fn spec_verify_schnorr_signature(pubkey: Seq<char>, signature: Seq<char>, message: Seq<
    char,
>) -> Result<Seq<char>, Seq<char>> {
    let pk = hex_bytes(pubkey);
    let sig = hex_bytes(signature);
    let msg = hex_bytes(message);
    if !is_hex_string(pubkey) || pk.len() != 32 {
        Err("Invalid public key format"@)
    } else if !is_hex_string(signature) || sig.len() != 64 {
        Err("Invalid signature format"@)
    } else if !is_hex_string(message) {
        Err("Invalid message format"@)
    } else if !xonly_key_valid(pk) {
        Err("Failed to convert public key to XOnlyPublicKey"@)
    } else if msg.len() != 32 {
        Err("Failed to convert message"@)
    } else if schnorr_verifies(sig, msg, pk) {
        Ok("Signature is valid"@)
    } else {
        Err("Signature verification failed"@)
    }
}

/// Checks the Schnorr signature `signature` of the digest `message` under
/// the x-only public key `pubkey`, all three given in hex.
pub fn verify_schnorr_signature(pubkey: String, signature: String, message: String) -> (r: Result<
    String,
    String,
>)
    ensures
        match r {
            Ok(s) => spec_verify_schnorr_signature(pubkey@, signature@, message@) == Ok::<
                Seq<char>,
                Seq<char>,
            >(s@),
            Err(s) => spec_verify_schnorr_signature(pubkey@, signature@, message@) == Err::<
                Seq<char>,
                Seq<char>,
            >(s@),
        },
{
    let pubkey_bytes = match hex_decode(pubkey.as_str()) {
        Some(bytes) => {
            if bytes.len() == 32 {
                bytes
            } else {
                return Err(String::from_str("Invalid public key format"));
            }
        },
        None => {
            return Err(String::from_str("Invalid public key format"));
        },
    };
    let signature_bytes = match hex_decode(signature.as_str()) {
        Some(bytes) => {
            if bytes.len() == 64 {
                bytes
            } else {
                return Err(String::from_str("Invalid signature format"));
            }
        },
        None => {
            return Err(String::from_str("Invalid signature format"));
        },
    };
    let message_bytes = match hex_decode(message.as_str()) {
        Some(bytes) => bytes,
        None => {
            return Err(String::from_str("Invalid message format"));
        },
    };
    if !xonly_key_parses(pubkey_bytes.as_slice()) {
        return Err(String::from_str("Failed to convert public key to XOnlyPublicKey"));
    }
    if !schnorr_signature_parses(signature_bytes.as_slice()) {
        return Err(String::from_str("Failed to convert signature"));
    }
    if !message_parses(message_bytes.as_slice()) {
        return Err(String::from_str("Failed to convert message"));
    }
    if verify_schnorr(signature_bytes.as_slice(), message_bytes.as_slice(), pubkey_bytes.as_slice()) {
        Ok(String::from_str("Signature is valid"))
    } else {
        Err(String::from_str("Signature verification failed"))
    }
}

/// Signatures can be checked in the hex that the canister hands them out
/// in (`signature_reply`, `public_key_reply`): given an x-only key, a
/// 64-byte signature and a 32-byte digest as lower-case hex,
/// `verify_schnorr_signature` answers "Signature is valid" exactly when the
/// signature verifies, and "Signature verification failed" otherwise.
pub proof fn law_hex_replies_check_out(key: Seq<u8>, sig: Seq<u8>, digest: Seq<u8>)
    requires
        key.len() == 32,
        xonly_key_valid(key),
        sig.len() == 64,
        digest.len() == 32,
    ensures
        spec_verify_schnorr_signature(hex_text(key), hex_text(sig), hex_text(digest)) == if schnorr_verifies(
            sig,
            digest,
            key,
        ) {
            Ok::<Seq<char>, Seq<char>>("Signature is valid"@)
        } else {
            Err::<Seq<char>, Seq<char>>("Signature verification failed"@)
        },
{
    lemma_hex_round_trip(key);
    lemma_hex_round_trip(sig);
    lemma_hex_round_trip(digest);
}

} // verus!

use bitcoin::secp256k1::{Keypair, Message, PublicKey, Secp256k1, SecretKey};
use inscribe::signing::{
    check_schnorr_signature, deposit_account, derivation_path, message_digest,
    public_key_reply, public_key_to_p2pkh_address, signature_reply, test_message_digest,
};
use inscribe::types::Chain;

fn secret() -> SecretKey {
    let mut bytes = [0u8; 32];
    bytes[31] = 1;
    SecretKey::from_slice(&bytes).unwrap()
}

fn sha256(data: &[u8]) -> Vec<u8> {
    let digest = <bitcoin::hashes::sha256::Hash as bitcoin::hashes::Hash>::hash(data);
    <bitcoin::hashes::sha256::Hash as bitcoin::hashes::Hash>::to_byte_array(digest).to_vec()
}

#[test]
fn a_derivation_path_is_the_principal() {
    assert_eq!(derivation_path(&[1, 2, 3]), vec![vec![1u8, 2, 3]]);
}

#[test]
fn digests_are_sha256_of_the_message_bytes() {
    assert_eq!(message_digest("héllo"), sha256("héllo".as_bytes()));
    assert_eq!(test_message_digest(), sha256(b"Hello, World!"));
    assert_eq!(
        hex::encode(test_message_digest()),
        "dffd6021bb2bd5b0af676290809ec3a53191dd81c7f70a4b28688a362182986f"
    );
}

#[test]
fn replies_are_lower_case_hex() {
    let r = signature_reply(&[0xAB, 0x01], &[0xFF]);
    assert_eq!(r.signature_hex, "ab01");
    assert_eq!(r.message, "ff");
    assert_eq!(public_key_reply(&[0x00, 0x9c]).public_key_hex, "009c");
    assert_eq!(public_key_reply(&[]).public_key_hex, "");
}

#[test]
fn the_p2pkh_address_of_a_key() {
    let secp = Secp256k1::new();
    let pk = PublicKey::from_secret_key(&secp, &secret()).serialize().to_vec();
    assert_eq!(
        public_key_to_p2pkh_address(&pk, Chain::Bitcoin),
        Some("1BgGZ9tcN4rm9KBzDn7KprQz87SZ26SAMH".to_string())
    );
    assert!(public_key_to_p2pkh_address(&pk, Chain::Testnet).unwrap().starts_with(['m', 'n']));
    assert_eq!(public_key_to_p2pkh_address(&[1, 2, 3], Chain::Bitcoin), None);
}

#[test]
fn the_deposit_account_of_a_principal() {
    let owner = candid::Principal::from_slice(&[1, 2, 3, 4]);
    let expected = icrc_ledger_types::icrc1::account::Account { owner, subaccount: None }.to_string();
    assert_eq!(deposit_account(&[1, 2, 3, 4]), expected);
}

#[test]
fn schnorr_signatures_are_checked_against_the_key() {
    let secp = Secp256k1::new();
    let pk = PublicKey::from_secret_key(&secp, &secret()).serialize().to_vec();
    let digest = test_message_digest();
    let keypair = Keypair::from_secret_key(&secp, &secret());
    let sig = secp.sign_schnorr_no_aux_rand(&Message::from_digest_slice(&digest).unwrap(), &keypair);
    assert_eq!(check_schnorr_signature(&pk, sig.as_ref(), &digest), Some(true));
    assert_eq!(check_schnorr_signature(&pk, &[7u8; 64], &digest), Some(false));
    assert_eq!(check_schnorr_signature(&pk, &[7u8; 63], &digest), None);
    assert_eq!(check_schnorr_signature(&[9u8; 33], sig.as_ref(), &digest), None);
}

#[test]
fn address_scripts() {
    let address: bitcoin::Address<bitcoin::address::NetworkUnchecked> =
        "1BgGZ9tcN4rm9KBzDn7KprQz87SZ26SAMH".parse().unwrap();
    assert_eq!(
        inscribe::signing::address_script("1BgGZ9tcN4rm9KBzDn7KprQz87SZ26SAMH"),
        Some(address.assume_checked().script_pubkey().to_bytes())
    );
    assert_eq!(inscribe::signing::address_script("nope"), None);
}

#[test]
fn a_signature_reply_checks_out() {
    let secp = Secp256k1::new();
    let keypair = Keypair::from_secret_key(&secp, &secret());
    let digest = message_digest("rune");
    let sig = secp.sign_schnorr_no_aux_rand(&Message::from_digest_slice(&digest).unwrap(), &keypair);
    let reply = signature_reply(sig.as_ref(), &digest);
    let xonly = keypair.x_only_public_key().0.serialize();
    let key_hex = public_key_reply(&xonly).public_key_hex;
    assert_eq!(
        inscribe::schnorr::verify_schnorr_signature(key_hex.clone(), reply.signature_hex.clone(), reply.message.clone()),
        Ok("Signature is valid".to_string())
    );
    let other = signature_reply(sig.as_ref(), &message_digest("other"));
    assert_eq!(
        inscribe::schnorr::verify_schnorr_signature(key_hex, other.signature_hex, other.message),
        Err("Signature verification failed".to_string())
    );
}

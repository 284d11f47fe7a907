use bitcoin::secp256k1::ecdsa::Signature;
use inscribe::der::{script_signature, sec1_to_der};
use inscribe::mint::mock_signer;
use inscribe::script::{estimate_reveal_script, p2pkh_script_sig, push_data, reveal_script};

fn sig(r: u8, s: u8) -> Vec<u8> {
    let mut v = vec![r; 32];
    v.extend(vec![s; 32]);
    v
}

#[test]
fn sec1_to_der_positive_halves() {
    let der = sec1_to_der(&sig(0x11, 0x22));
    let mut expected = vec![0x30u8, 68, 0x02, 32];
    expected.extend(vec![0x11u8; 32]);
    expected.extend(vec![0x02u8, 32]);
    expected.extend(vec![0x22u8; 32]);
    assert_eq!(der, expected);
}

#[test]
fn sec1_to_der_pads_negative_r() {
    let der = sec1_to_der(&sig(0x80, 0x7f));
    let mut expected = vec![0x30u8, 69, 0x02, 33, 0x00];
    expected.extend(vec![0x80u8; 32]);
    expected.extend(vec![0x02u8, 32]);
    expected.extend(vec![0x7fu8; 32]);
    assert_eq!(der, expected);
}

#[test]
fn sec1_to_der_pads_negative_s() {
    let der = sec1_to_der(&sig(0x01, 0xff));
    let mut expected = vec![0x30u8, 69, 0x02, 32];
    expected.extend(vec![0x01u8; 32]);
    expected.extend(vec![0x02u8, 33, 0x00]);
    expected.extend(vec![0xffu8; 32]);
    assert_eq!(der, expected);
}

#[test]
fn sec1_to_der_matches_secp256k1() {
    let mut raw = sig(0xc3, 0x15);
    raw[0] = 0x7a;
    raw[32] = 0x2b;
    let der = sec1_to_der(&raw);
    let expected = Signature::from_compact(&raw).unwrap().serialize_der().to_vec();
    assert_eq!(der, expected);
}

#[test]
fn script_signature_appends_sighash_all() {
    let s = script_signature(&sig(0x11, 0x22));
    assert_eq!(s.len(), 71);
    assert_eq!(*s.last().unwrap(), 0x01);
    assert_eq!(&s[..70], &sec1_to_der(&sig(0x11, 0x22))[..]);
}

#[test]
fn mock_signature_takes_73_bytes() {
    let mock = mock_signer("", &vec![], &[]);
    assert_eq!(mock, vec![0xffu8; 64]);
    assert_eq!(script_signature(&mock).len(), 73);
}

#[test]
fn push_data_uses_shortest_prefix() {
    let mut s = vec![];
    push_data(&mut s, &[7u8; 75]);
    assert_eq!(s[0], 75);
    assert_eq!(s.len(), 76);
    let mut s = vec![];
    push_data(&mut s, &[7u8; 76]);
    assert_eq!(&s[..2], &[0x4c, 76]);
    let mut s = vec![];
    push_data(&mut s, &[7u8; 300]);
    assert_eq!(&s[..3], &[0x4d, 0x2c, 0x01]);
    assert_eq!(s.len(), 303);
}

#[test]
fn push_data_matches_bitcoin_builder() {
    for n in [0usize, 1, 75, 76, 255, 256, 520] {
        let data = vec![0x5au8; n];
        let mut s = vec![];
        push_data(&mut s, &data);
        let pb = bitcoin::script::PushBytesBuf::try_from(data.clone()).unwrap();
        let expected = bitcoin::script::Builder::new().push_slice(pb).into_script().into_bytes();
        assert_eq!(s, expected);
    }
}

#[test]
fn p2pkh_script_sig_layout() {
    let pk = vec![0x02u8; 33];
    let s = p2pkh_script_sig(&sig(0x11, 0x22), &pk);
    let script_sig = script_signature(&sig(0x11, 0x22));
    let mut expected = vec![script_sig.len() as u8];
    expected.extend(script_sig);
    expected.push(33);
    expected.extend(pk);
    assert_eq!(s, expected);
}

#[test]
fn reveal_scripts() {
    let key = [9u8; 32];
    let mut head = vec![32u8];
    head.extend([9u8; 32]);
    head.extend([0xac, 0x00, 0x63, 3, b'o', b'r', b'd']);
    let mut est = head.clone();
    est.push(0x68);
    assert_eq!(estimate_reveal_script(&key), est);
    // rune 0x0102 commits to [0x02, 0x01]
    let mut full = head.clone();
    full.extend([1, 13, 2, 0x02, 0x01, 0x68]);
    assert_eq!(reveal_script(&key, 0x0102), full);
    // rune 0 commits to no bytes
    let mut zero = head;
    zero.extend([1, 13, 0, 0x68]);
    assert_eq!(reveal_script(&key, 0), zero);
}

#[test]
fn script_signature_fits_64_byte_signatures() {
    assert!(inscribe::der::script_signature_fits(&[0x80u8; 64]));
    assert!(inscribe::der::script_signature_fits(&[0x01u8; 33]));
    assert!(!inscribe::der::script_signature_fits(&[0x01u8; 32]));
    assert!(inscribe::der::script_signature_fits(&vec![0x01u8; 300]));
    assert!(!inscribe::der::script_signature_fits(&vec![0x01u8; 262]));
}

#[test]
fn sec1_to_der_is_minimal() {
    let mut sig = vec![0u8; 64];
    sig[1] = 0x01;
    sig[2] = 0x7f;
    sig[32] = 0x00;
    sig[33] = 0x00;
    sig[34] = 0x90;
    sig[63] = 0x05;
    let der = inscribe::der::sec1_to_der(&sig);
    let expected = bitcoin::secp256k1::ecdsa::Signature::from_compact(&sig).unwrap().serialize_der().to_vec();
    assert_eq!(der, expected);
    assert_eq!(der[3], 31);
    assert_eq!(der[4], 0x01);
    let zero = vec![0u8; 64];
    assert_eq!(inscribe::der::sec1_to_der(&zero), vec![0x30, 6, 0x02, 1, 0, 0x02, 1, 0]);
}

use beefy_pair::ecdsa::encode_signature;
use beefy_pair::keccak::keccak_256;
use beefy_pair::pair::BeefyPair;
use sp_core::ecdsa;

fn pair_from_password() -> ecdsa::Pair {
    let (pair, _, _) = <ecdsa::Pair as sp_core::Pair>::generate_with_phrase(Some("password"));
    pair
}

#[test]
fn beefy_pair_works() {
    let msg = b"this is a beefy commitment";
    let (pair, _, _) = <ecdsa::Pair as sp_core::Pair>::generate_with_phrase(Some("password"));

    let sig1 = pair.sign(msg);
    let sig2 = pair.sign_prehashed(&sp_crypto_hashing::keccak_256(msg));

    assert_eq!(sig1, sig2);
}

#[test]
fn sign_is_deterministic() {
    let pair = pair_from_password();
    let msg = b"this is a beefy commitment";

    assert_eq!(pair.sign(msg), pair.sign(msg));
}

#[test]
fn digest_differs_on_bit_flip() {
    let m1 = b"this is a beefy commitment".to_vec();
    let mut m2 = m1.clone();
    m2[0] ^= 0x01;

    let d1 = keccak_256(&m1);
    let d2 = keccak_256(&m2);
    assert_ne!(d1, d2);

    // Avalanche sanity check: a one-bit change in the message leaves almost
    // no digest byte in place, far beyond the single flipped input byte.
    let unchanged: usize = d1.iter().zip(d2.iter()).filter(|(a, b)| a == b).count();
    assert!(unchanged < 8);

    let pair = pair_from_password();
    assert_ne!(pair.sign(&m1), pair.sign(&m2));
}

#[test]
fn signature_recovers_public_key() {
    let pair = pair_from_password();
    let msg = b"this is a beefy commitment";

    let sig = pair.sign(msg);
    let recovered = sig.recover_prehashed(&keccak_256(msg));

    assert_eq!(recovered, Some(<ecdsa::Pair as sp_core::Pair>::public(&pair)));
}

#[test]
fn empty_message_signs_and_recovers() {
    let pair = pair_from_password();
    let msg: &[u8] = b"";

    let sig = pair.sign(msg);
    assert_eq!(sig, pair.sign_prehashed(&sp_crypto_hashing::keccak_256(msg)));

    let recovered = sig.recover_prehashed(&keccak_256(msg));
    assert_eq!(recovered, Some(<ecdsa::Pair as sp_core::Pair>::public(&pair)));
}

#[test]
fn keccak_of_empty_matches_known_digest() {
    let expected: [u8; 32] = [
        0xc5, 0xd2, 0x46, 0x01, 0x86, 0xf7, 0x23, 0x3c, 0x92, 0x7e, 0x7d, 0xb2, 0xdc, 0xc7,
        0x03, 0xc0, 0xe5, 0x00, 0xb6, 0x53, 0xca, 0x82, 0x27, 0x3b, 0x7b, 0xfa, 0xd8, 0x04,
        0x5d, 0x85, 0xa4, 0x70,
    ];
    assert_eq!(keccak_256(b""), expected);
}

#[test]
fn encoding_is_the_raw_signature_bytes() {
    let pair = pair_from_password();
    let sig = pair.sign(b"this is a beefy commitment");

    let encoded = encode_signature(&sig);
    assert_eq!(encoded.len(), 65);
    assert_eq!(encoded, sig.0.to_vec());
}

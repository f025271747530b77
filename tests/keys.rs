use iroha_crypto_facade::algorithm::Algorithm;
use iroha_crypto_facade::error::CryptoError;
use iroha_crypto_facade::hash::HASH_LENGTH;
use iroha_crypto_facade::keypair::KeyPair;
use iroha_crypto_facade::keys::{PrivateKey, PublicKey};
use iroha_crypto_facade::signature::Signature;

const PUB_HEX: &str = "7233BFC89DCBD68C19FDE6CE6158225298EC1131B6A130D1AEB454C1AB5183C0";

fn bytes_of(hex: &str) -> Vec<u8> {
    iroha_crypto_facade::hexcodec::hex_decode(hex).unwrap()
}

fn public(a: Algorithm, payload: &[u8]) -> PublicKey {
    PublicKey::from_raw(a, payload, true).unwrap()
}

fn private(a: Algorithm, payload: &[u8]) -> PrivateKey {
    PrivateKey::from_raw(a, payload, true).unwrap()
}

#[test]
fn public_key_from_raw_keeps_algorithm_and_payload() {
    let k = public(Algorithm::Secp256k1, &[2; 33]);
    assert_eq!(k.algorithm(), Algorithm::Secp256k1);
    assert_eq!(k.payload(), vec![2; 33]);
}

#[test]
fn from_raw_rejected_payload_is_invalid() {
    let r = PublicKey::from_raw(Algorithm::Ed25519, &[1, 2, 3], false);
    assert_eq!(r, Err(CryptoError::InvalidKeyPayload));
    let r = PrivateKey::from_raw(Algorithm::Ed25519, &[1, 2, 3], false);
    assert_eq!(r, Err(CryptoError::InvalidKeyPayload));
}

#[test]
fn public_key_multihash_text() {
    let k = public(Algorithm::Ed25519, &bytes_of(PUB_HEX));
    assert_eq!(k.to_multihash_hex(), format!("ed0120{}", PUB_HEX));
}

#[test]
fn public_key_multihash_decodes_back() {
    for a in [Algorithm::Ed25519, Algorithm::Secp256k1, Algorithm::BlsNormal, Algorithm::BlsSmall] {
        let k = public(a, &[0xa5; 48]);
        let (alg, payload) = PublicKey::decode_multihash(&k.to_multihash_hex()).unwrap();
        assert_eq!(alg, a);
        assert_eq!(payload, vec![0xa5; 48]);
    }
}

#[test]
fn public_codes_per_algorithm() {
    assert!(public(Algorithm::Secp256k1, &[1]).to_multihash_hex().starts_with("e70101"));
    assert!(public(Algorithm::BlsNormal, &[1]).to_multihash_hex().starts_with("ea0101"));
    assert!(public(Algorithm::BlsSmall, &[1]).to_multihash_hex().starts_with("eb0101"));
}

#[test]
fn decode_unknown_code_is_unknown_algorithm() {
    assert_eq!(PublicKey::decode_multihash("ff0100"), Err(CryptoError::UnknownAlgorithm));
    assert_eq!(PublicKey::decode_multihash("80262001"), Err(CryptoError::MalformedMultihash));
    assert_eq!(PrivateKey::decode_multihash("ed0100"), Err(CryptoError::UnknownAlgorithm));
}

#[test]
fn decode_corrupt_text_is_malformed() {
    assert_eq!(PublicKey::decode_multihash("ed0120AB"), Err(CryptoError::MalformedMultihash));
    assert_eq!(PublicKey::decode_multihash("not hex"), Err(CryptoError::MalformedMultihash));
}

#[test]
fn private_key_text_masks_secret() {
    let k = private(Algorithm::Ed25519, &[0x11; 32]);
    let text = k.to_multihash_hex();
    assert_eq!(text, format!("802620{}", "*".repeat(64)));
    assert!(!text.contains("11"));
}

#[test]
fn private_key_exposed_text_shows_secret() {
    let k = private(Algorithm::Secp256k1, &[0xab; 32]);
    let text = k.to_multihash_hex_exposed();
    assert_eq!(text, format!("812620{}", "AB".repeat(32)));
    let (alg, payload) = PrivateKey::decode_multihash(&text).unwrap();
    assert_eq!(alg, Algorithm::Secp256k1);
    assert_eq!(payload, vec![0xab; 32]);
}

#[test]
fn private_codes_per_algorithm() {
    assert!(private(Algorithm::BlsNormal, &[1]).to_multihash_hex_exposed().starts_with("892601"));
    assert!(private(Algorithm::BlsSmall, &[1]).to_multihash_hex_exposed().starts_with("8a2601"));
}

#[test]
fn from_parts_with_matching_key() {
    let pk = public(Algorithm::Ed25519, &[1; 32]);
    let sk = private(Algorithm::Ed25519, &[2; 32]);
    let derived = public(Algorithm::Ed25519, &[1; 32]);
    let mut kp = KeyPair::from_parts(&pk, &sk, &derived).unwrap();
    assert_eq!(kp.algorithm(), Algorithm::Ed25519);
    assert_eq!(kp.public_key(), pk);
    assert_eq!(kp.private_key(), sk);
}

#[test]
fn from_parts_of_two_pairs_is_mismatch() {
    let pub_a = public(Algorithm::Ed25519, &[1; 32]);
    let priv_b = private(Algorithm::Ed25519, &[3; 32]);
    let derived_b = public(Algorithm::Ed25519, &[4; 32]);
    assert_eq!(
        KeyPair::from_parts(&pub_a, &priv_b, &derived_b).err(),
        Some(CryptoError::KeyMismatch)
    );
}

#[test]
fn from_parts_of_two_algorithms_is_mismatch() {
    let pk = public(Algorithm::Secp256k1, &[1; 33]);
    let sk = private(Algorithm::Ed25519, &[2; 32]);
    assert_eq!(KeyPair::from_parts(&pk, &sk, &pk).err(), Some(CryptoError::KeyMismatch));
}

#[test]
fn generated_pair_hands_out_same_halves_every_time() {
    let pk = public(Algorithm::BlsNormal, &[5; 48]);
    let sk = private(Algorithm::BlsNormal, &[6; 32]);
    let mut kp = KeyPair::from_generated(pk.clone(), sk.clone()).unwrap();
    assert_eq!(kp.public_key(), pk);
    assert_eq!(kp.public_key(), pk);
    assert_eq!(kp.private_key(), sk);
    assert_eq!(kp.private_key(), sk);
    assert_eq!(kp.algorithm(), Algorithm::BlsNormal);
}

#[test]
fn generated_pair_of_two_algorithms_is_mismatch() {
    let pk = public(Algorithm::BlsNormal, &[5; 48]);
    let sk = private(Algorithm::BlsSmall, &[6; 32]);
    assert_eq!(KeyPair::from_generated(pk, sk).err(), Some(CryptoError::KeyMismatch));
}

#[test]
fn derive_from_private_key_pairs_derived_half() {
    let sk = private(Algorithm::Ed25519, &[7; 32]);
    let derived = public(Algorithm::Ed25519, &[8; 32]);
    let mut kp = KeyPair::derive_from_private_key(&sk, derived.clone()).unwrap();
    assert_eq!(kp.public_key(), derived);
    assert_eq!(kp.private_key(), sk);
    let other = public(Algorithm::Secp256k1, &[8; 33]);
    assert_eq!(KeyPair::derive_from_private_key(&sk, other).err(), Some(CryptoError::KeyMismatch));
}

#[test]
fn signature_from_raw_and_hex() {
    let s = Signature::from_raw(&[1, 2, 3]);
    assert_eq!(s.payload(), vec![1, 2, 3]);
    assert_eq!(Signature::from_raw_hex("010203"), Ok(s));
    assert_eq!(Signature::from_raw_hex("0102030"), Err(CryptoError::MalformedHex));
}

#[test]
fn zeroed_hash_is_all_zero() {
    let h = iroha_crypto_facade::hash::Hash::zeroed();
    assert_eq!(h.payload(), vec![0u8; HASH_LENGTH]);
    assert_eq!(h.payload().len(), 32);
}

#[test]
fn prehashed_keeps_digest() {
    let mut d = [0u8; 32];
    d[0] = 1;
    d[31] = 0xff;
    let h = iroha_crypto_facade::hash::Hash::prehashed(d);
    assert_eq!(h.payload(), d.to_vec());
    assert_ne!(h, iroha_crypto_facade::hash::Hash::zeroed());
    assert_eq!(h.clone(), h);
}

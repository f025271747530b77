use iroha_crypto_facade::algorithm::{algorithm_default, resolve_algorithm, Algorithm};
use iroha_crypto_facade::bytes::Bytes;
use iroha_crypto_facade::error::CryptoError;
use iroha_crypto_facade::hexcodec::{hex_decode, hex_encode, hex_encode_upper};
use iroha_crypto_facade::multihash::{
    multihash_decode, multihash_encode, multihash_from_bytes, multihash_header, multihash_to_bytes,
};

const ALL: [Algorithm; 4] = [
    Algorithm::Ed25519,
    Algorithm::Secp256k1,
    Algorithm::BlsNormal,
    Algorithm::BlsSmall,
];

#[test]
fn default_algorithm_is_ed25519() {
    assert_eq!(algorithm_default(), Algorithm::Ed25519);
}

#[test]
fn algorithm_names_are_canonical() {
    assert_eq!(Algorithm::Ed25519.format(), "ed25519");
    assert_eq!(Algorithm::Secp256k1.format(), "secp256k1");
    assert_eq!(Algorithm::BlsNormal.format(), "bls_normal");
    assert_eq!(Algorithm::BlsSmall.format(), "bls_small");
}

#[test]
fn parse_of_format_is_identity() {
    for a in ALL {
        assert_eq!(Algorithm::parse(&a.format()), Ok(a));
    }
}

#[test]
fn parse_is_exact_and_case_sensitive() {
    assert_eq!(Algorithm::parse("Ed25519"), Err(CryptoError::InvalidAlgorithmName));
    assert_eq!(Algorithm::parse("ed25519 "), Err(CryptoError::InvalidAlgorithmName));
    assert_eq!(Algorithm::parse(""), Err(CryptoError::InvalidAlgorithmName));
    assert_eq!(Algorithm::parse("bls"), Err(CryptoError::InvalidAlgorithmName));
    assert_eq!(Algorithm::parse("bls_small"), Ok(Algorithm::BlsSmall));
}

#[test]
fn hex_encode_is_lowercase() {
    assert_eq!(hex_encode(&[0xde, 0xad, 0xbe, 0xef, 0x00, 0x0a]), "deadbeef000a");
    assert_eq!(hex_encode(&[]), "");
    assert_eq!(hex_encode_upper(&[0xde, 0xad, 0x0a]), "DEAD0A");
}

#[test]
fn hex_decode_accepts_either_case() {
    assert_eq!(hex_decode("DeadBEEF"), Ok(vec![0xde, 0xad, 0xbe, 0xef]));
    assert_eq!(hex_decode(""), Ok(vec![]));
}

#[test]
fn hex_decode_odd_length_is_malformed() {
    assert_eq!(hex_decode("abc"), Err(CryptoError::MalformedHex));
}

#[test]
fn hex_decode_non_digit_is_malformed() {
    assert_eq!(hex_decode("zz"), Err(CryptoError::MalformedHex));
    assert_eq!(hex_decode("0x00"), Err(CryptoError::MalformedHex));
    assert_eq!(hex_decode("é0"), Err(CryptoError::MalformedHex));
}

#[test]
fn hex_round_trip_on_samples() {
    let samples: [&[u8]; 4] = [&[], &[0], &[0xff, 0x10, 0x01], &[7; 40]];
    for b in samples {
        assert_eq!(hex_decode(&hex_encode(b)), Ok(b.to_vec()));
        assert_eq!(hex_decode(&hex_encode_upper(b)), Ok(b.to_vec()));
    }
}

#[test]
fn resolve_array_is_verbatim() {
    let input = Bytes::Array(vec![1, 2, 3]);
    assert_eq!(input.resolve(), Ok(vec![1, 2, 3]));
}

#[test]
fn resolve_hex_decodes() {
    let input = Bytes::Hex(String::from("0102ff"));
    assert_eq!(input.resolve(), Ok(vec![1, 2, 0xff]));
}

#[test]
fn resolve_hex_of_encoded_payload() {
    let p = vec![9u8, 8, 7, 0, 250];
    assert_eq!(Bytes::Hex(hex_encode(&p)).resolve(), Ok(p.clone()));
    assert_eq!(Bytes::Array(p.clone()).resolve(), Ok(p));
}

#[test]
fn resolve_bad_hex_is_malformed() {
    assert_eq!(Bytes::Hex(String::from("abc")).resolve(), Err(CryptoError::MalformedHex));
    assert_eq!(Bytes::Hex(String::from("gg")).resolve(), Err(CryptoError::MalformedHex));
}

#[test]
fn multihash_header_small_and_large_codes() {
    assert_eq!(multihash_header(0xed, 32), vec![0xed, 0x01, 0x20]);
    assert_eq!(multihash_header(0x1300, 32), vec![0x80, 0x26, 0x20]);
    assert_eq!(multihash_header(5, 0), vec![0x05, 0x00]);
    assert_eq!(multihash_header(300, 1), vec![0xac, 0x02, 0x01]);
}

#[test]
fn multihash_text_layout() {
    assert_eq!(multihash_encode(300, &[0xab]), "ac0201AB");
    assert_eq!(multihash_encode(0xed, &[]), "ed0100");
}

#[test]
fn multihash_text_round_trip() {
    let payload = vec![0u8, 1, 2, 0xfe, 0xff];
    for code in [0u64, 1, 127, 128, 0xed, 0x1300, u64::MAX >> 1] {
        let text = multihash_encode(code, &payload);
        assert_eq!(multihash_decode(&text), Ok((code, payload.clone())));
    }
}

#[test]
fn multihash_bytes_round_trip() {
    let payload = vec![3u8; 200];
    let bytes = multihash_to_bytes(0x1309, &payload);
    assert_eq!(&bytes[..4], &[0x89, 0x26, 0xc8, 0x01]);
    assert_eq!(multihash_from_bytes(&bytes), Ok((0x1309, payload)));
}

#[test]
fn multihash_truncated_is_malformed() {
    assert_eq!(multihash_decode("ed01"), Err(CryptoError::MalformedMultihash));
    assert_eq!(multihash_decode(""), Err(CryptoError::MalformedMultihash));
    assert_eq!(multihash_decode("ed0102AA"), Err(CryptoError::MalformedMultihash));
    assert_eq!(multihash_decode("ed0101AABB"), Err(CryptoError::MalformedMultihash));
}

#[test]
fn multihash_bad_hex_is_malformed() {
    assert_eq!(multihash_decode("ed012"), Err(CryptoError::MalformedMultihash));
    assert_eq!(multihash_decode("xx0100"), Err(CryptoError::MalformedMultihash));
}

#[test]
fn multihash_overlong_varint_is_malformed() {
    let bytes = [0x80u8, 0x80, 0x80, 0x80, 0x80, 0x80, 0x80, 0x80, 0x80, 0x01, 0x00];
    assert_eq!(multihash_from_bytes(&bytes), Err(CryptoError::MalformedMultihash));
}

#[test]
fn resolve_algorithm_defaults_and_parses() {
    assert_eq!(resolve_algorithm(None), Ok(Algorithm::Ed25519));
    assert_eq!(resolve_algorithm(Some("secp256k1")), Ok(Algorithm::Secp256k1));
    assert_eq!(resolve_algorithm(Some("SECP256K1")), Err(CryptoError::InvalidAlgorithmName));
}

#[test]
fn error_messages_are_readable() {
    assert_eq!(CryptoError::MalformedHex.message(), "malformed hex string");
    assert_eq!(CryptoError::KeyMismatch.message(), "public key does not belong to private key");
    assert_eq!(CryptoError::InvalidAlgorithmName.message(), "unknown algorithm name");
}

use did_system::utils::{
    decode_base58, double_sha256, encode_base58, from_hex, generate_keypair,
    generate_random_bytes, generate_salt, hash160, is_valid_base58, is_valid_hex, ripemd160,
    sha256, to_hex, verify_signature, current_timestamp,
};
use ed25519_dalek::Signer;

#[test]
fn base58_known_vector() {
    let input = [0x04u8, 0x30, 0x5e, 0x2b, 0x24, 0x73, 0xf0, 0x58];
    assert_eq!(encode_base58(&input), "he11owor1d");
    assert_eq!(decode_base58("he11owor1d").unwrap(), input.to_vec());
}

#[test]
fn base58_round_trip_including_empty_and_leading_zeros() {
    let cases: Vec<Vec<u8>> = vec![
        vec![],
        vec![0],
        vec![0, 0, 1, 2, 3],
        vec![255; 40],
        (0u8..=255).collect(),
    ];
    for case in cases {
        let text = encode_base58(&case);
        assert_eq!(decode_base58(&text).unwrap(), case);
    }
    assert_eq!(encode_base58(&[]), "");
    assert_eq!(encode_base58(&[0, 0]), "11");
}

#[test]
fn base58_rejects_characters_outside_alphabet() {
    for bad in ["0", "O", "I", "l", "abc+", "é"] {
        assert!(decode_base58(bad).is_err());
        assert!(!is_valid_base58(bad));
    }
    assert!(is_valid_base58("123456789ABCDEFGHJKLMNPQRSTUVWXYZabcdefghijkmnopqrstuvwxyz"));
    assert!(is_valid_base58(""));
}

#[test]
fn hex_encoding_is_lowercase_two_digits_per_byte() {
    assert_eq!(to_hex(&[]), "");
    assert_eq!(to_hex(&[0x00, 0x0a, 0xff, 0x10]), "000aff10");
}

#[test]
fn hex_decoding_accepts_lowercase_only() {
    assert_eq!(from_hex("0aff10").unwrap(), vec![0x0a, 0xff, 0x10]);
    assert_eq!(from_hex("").unwrap(), Vec::<u8>::new());
    assert!(from_hex("AB").is_err());
    assert!(from_hex("0aFf").is_err());
    let bytes: Vec<u8> = (0u8..=255).collect();
    assert_eq!(from_hex(&to_hex(&bytes)).unwrap(), bytes);
    for text in ["", "00", "0a1b2c", "ffee", "deadbeef"] {
        assert_eq!(to_hex(&from_hex(text).unwrap()), text);
    }
}

#[test]
fn hex_rejects_odd_length_and_bad_digits() {
    assert!(from_hex("abc").is_err());
    assert!(from_hex("zz").is_err());
    assert!(from_hex("éé").is_err());
    assert!(!is_valid_hex("a"));
    assert!(!is_valid_hex("0g"));
    assert!(is_valid_hex("deadbeef"));
    assert!(!is_valid_hex("DEADbeef"));
}

#[test]
fn sha256_known_vectors() {
    assert_eq!(
        to_hex(&sha256(b"")),
        "e3b0c44298fc1c149afbf4c8996fb92427ae41e4649b934ca495991b7852b855"
    );
    assert_eq!(
        to_hex(&sha256(b"abc")),
        "ba7816bf8f01cfea414140de5dae2223b00361a396177a9cb410ff61f20015ad"
    );
}

#[test]
fn ripemd160_known_vector() {
    assert_eq!(to_hex(&ripemd160(b"")), "9c1185a5c5e9fc54612808977ee8f548b2258d31");
}

#[test]
fn double_sha256_and_hash160_compose() {
    for input in [&b""[..], &b"abc"[..], &[0u8, 1, 2, 255][..]] {
        assert_eq!(double_sha256(input), sha256(&sha256(input)));
        assert_eq!(hash160(input), ripemd160(&sha256(input)));
        assert_eq!(double_sha256(input).len(), 32);
        assert_eq!(hash160(input).len(), 20);
    }
    assert_eq!(
        to_hex(&double_sha256(b"")),
        "5df6e0e2761359d30a8275058e299fcc0381534545f55cf43e41983f5d4c9456"
    );
}

#[test]
fn signature_checks() {
    let key = ed25519_dalek::SigningKey::from_bytes(&[7u8; 32]);
    let public = key.verifying_key().to_bytes();
    let sig = key.sign(b"hello").to_bytes();
    assert_eq!(verify_signature(b"hello", &sig, &public), Ok(true));
    assert_eq!(verify_signature(b"hellO", &sig, &public), Ok(false));
    assert!(verify_signature(b"hello", &sig, &public[..31]).is_err());
    assert!(verify_signature(b"hello", &sig[..63], &public).is_err());
}

#[test]
fn random_material_has_requested_length() {
    assert_eq!(generate_random_bytes(0).len(), 0);
    assert_eq!(generate_random_bytes(17).len(), 17);
    assert_eq!(generate_salt().len(), 32);
    assert_eq!(generate_keypair().len(), 32);
    assert!(current_timestamp() > 1_600_000_000);
}

#[test]
fn signature_check_is_false_for_key_that_is_not_a_point() {
    let bad = (0u8..=255)
        .map(|b| {
            let mut k = [b; 32];
            k[31] &= 0x7f;
            k
        })
        .find(|k| ed25519_dalek::VerifyingKey::from_bytes(k).is_err())
        .expect("some pattern is not a curve point");
    let sig = [0u8; 64];
    assert_eq!(verify_signature(b"m", &sig, &bad), Ok(false));
    assert!(verify_signature(b"m", &sig[..10], &bad).is_err());
}

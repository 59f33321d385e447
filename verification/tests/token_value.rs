use auth_api::digest::{
    fresh_salt, generate_token_value, hex_encode, push_be_bytes, token_value,
};
use sha2::{Digest, Sha256};

fn hex_of(bytes: &[u8]) -> String {
    let mut out = String::new();
    for byte in bytes {
        out.push_str(&format!("{:02x}", byte));
    }
    out
}

#[test]
fn hex_is_lower_case_two_digits_a_byte() {
    assert_eq!(hex_encode(&vec![]), "");
    assert_eq!(hex_encode(&vec![0]), "00");
    assert_eq!(hex_encode(&vec![0x0f, 0xf0, 0xab, 0x09, 0xff]), "0ff0ab09ff");
}

#[test]
fn big_endian_bytes_of_a_time() {
    for value in [0i64, 1, 255, 256, 1_700_000_000, -1, i64::MAX, i64::MIN] {
        let mut out = vec![7u8];
        push_be_bytes(&mut out, value);
        let mut expected = vec![7u8];
        expected.extend_from_slice(&value.to_be_bytes());
        assert_eq!(out, expected, "bytes of {}", value);
    }
}

#[test]
fn token_is_the_digest_of_secret_random_and_time() {
    let secret = "local_secret";
    let random: Vec<u8> = (0u8..32).collect();
    let now = 1_700_000_123i64;
    let mut hasher = Sha256::new();
    hasher.update(secret.as_bytes());
    hasher.update(&random);
    hasher.update(now.to_be_bytes());
    let expected = hex_of(&hasher.finalize());
    assert_eq!(token_value(secret, &random, now), expected);
    assert_eq!(expected.len(), 64);
}

#[test]
fn token_of_the_empty_message_parts() {
    // SHA-256 of eight zero bytes.
    let token = token_value("", &vec![], 0);
    assert_eq!(token, hex_of(&Sha256::digest([0u8; 8])));
    assert_eq!(token, "af5570f5a1810b7af78caf4bc70a660f0df51e42baf91d4de5b2328de0e83dfc");
}

#[test]
fn token_depends_on_each_part() {
    let random = vec![1u8; 32];
    let base = token_value("secret", &random, 10);
    assert_ne!(base, token_value("secret2", &random, 10));
    assert_ne!(base, token_value("secret", &vec![2u8; 32], 10));
    assert_ne!(base, token_value("secret", &random, 11));
    assert_eq!(base, token_value("secret", &random, 10));
}

#[test]
fn fresh_tokens_are_64_hex_digits_and_differ() {
    let first = generate_token_value("secret", 1_700_000_000);
    let second = generate_token_value("secret", 1_700_000_000);
    assert_eq!(first.len(), 64);
    assert!(first.chars().all(|c| c.is_ascii_digit() || ('a'..='f').contains(&c)));
    assert_ne!(first, second);
}

#[test]
fn a_salt_has_sixteen_bytes() {
    assert_eq!(fresh_salt().len(), 16);
    assert_ne!(fresh_salt(), fresh_salt());
}

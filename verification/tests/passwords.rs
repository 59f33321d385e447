use auth_api::http::ErrorCode;
use auth_api::password::{hash_password, password_matches, verdict_accepts};

#[test]
fn a_hashed_password_is_accepted_and_another_is_not() {
    let salt = vec![7u8; 16];
    let digest = hash_password("correct horse", &salt).unwrap();
    assert_eq!(digest.len(), 60);
    assert!(digest.starts_with("$2b$12$"));
    assert_ne!(digest, "correct horse");
    assert!(password_matches("correct horse", &digest));
    assert!(!password_matches("correct horsf", &digest));
}

#[test]
fn the_digest_depends_on_the_salt_alone() {
    // A digest made at a low cost elsewhere is checked at the cost it carries.
    let low = bcrypt::hash_with_salt("pw", 4, [1u8; 16]).unwrap().to_string();
    let again = bcrypt::hash_with_salt("pw", 4, [1u8; 16]).unwrap().to_string();
    let other = bcrypt::hash_with_salt("pw", 4, [2u8; 16]).unwrap().to_string();
    assert_eq!(low, again);
    assert_ne!(low, other);
    assert!(password_matches("pw", &low));
    assert!(password_matches("pw", &other));
    assert!(!password_matches("pW", &low));
}

#[test]
fn a_salt_of_the_wrong_length_fails_the_hashing() {
    assert!(matches!(hash_password("pw", &vec![1u8; 15]), Err(ErrorCode::HashPasswordFailed)));
    assert!(matches!(hash_password("pw", &vec![]), Err(ErrorCode::HashPasswordFailed)));
    assert!(matches!(hash_password("pw", &vec![1u8; 17]), Err(ErrorCode::HashPasswordFailed)));
}

#[test]
fn what_is_no_digest_accepts_nothing() {
    assert!(!password_matches("pw", "pw"));
    assert!(!password_matches("", ""));
    assert!(!password_matches("pw", "$2b$12$short"));
    assert!(!password_matches("pw", "$9z$04$abcdefghijklmnopqrstuvwxyzABCDEFGHIJKLMNOPQRSTUVWXYZ01234"));
}

#[test]
fn only_a_plain_yes_lets_a_login_pass() {
    assert!(verdict_accepts(&Ok(true)));
    assert!(!verdict_accepts(&Ok(false)));
    assert!(!verdict_accepts(&bcrypt::verify("pw", "not a digest")));
}

use radrun_api::error::ApiError;
use radrun_api::hashing::{hash, hash_then_verify, verify};

#[test]
fn hash_round_trips_through_verify() {
    let h = hash("correct horse").expect("hashing succeeds");
    assert_eq!(verify("correct horse", &h), Ok(true));
}

#[test]
fn verify_rejects_a_different_password() {
    let h = hash("correct horse").expect("hashing succeeds");
    assert_eq!(verify("battery staple", &h), Ok(false));
    assert_eq!(verify("", &h), Ok(false));
}

#[test]
fn hash_is_not_the_plaintext_and_is_salted() {
    let h1 = hash("pw").unwrap();
    let h2 = hash("pw").unwrap();
    // A PHC string, not an echo of the input.
    assert_ne!(h1, "pw");
    assert!(h1.starts_with("$argon2"));
    // A fresh random salt each time: same password, different strings.
    assert_ne!(h1, h2);
    // Both still verify.
    assert_eq!(verify("pw", &h1), Ok(true));
    assert_eq!(verify("pw", &h2), Ok(true));
}

#[test]
fn malformed_stored_hash_is_a_hashing_error() {
    assert_eq!(verify("pw", "not a phc string"), Err(ApiError::Hashing));
    assert_eq!(verify("pw", ""), Err(ApiError::Hashing));
    assert_eq!(ApiError::Hashing.status_code(), 500);
}

#[test]
fn hash_then_verify_law_holds_on_samples() {
    assert_eq!(hash_then_verify(""), Some(true));
    assert_eq!(hash_then_verify("pw"), Some(true));
    assert_eq!(hash_then_verify("a much longer passphrase with spaces"), Some(true));
}

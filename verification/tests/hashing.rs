//! Credential hasher behaviour: round trips, salt randomization, and
//! failing closed.

use session_auth::hashing::{hash_password, hash_then_verify, verify_password};

#[test]
fn hash_then_verify_succeeds() {
    let hash = hash_password("correct horse battery staple").expect("hashing failed");
    assert!(verify_password("correct horse battery staple", &hash).is_ok());
}

#[test]
fn verify_rejects_other_password() {
    let hash = hash_password("correct horse battery staple").expect("hashing failed");
    assert!(verify_password("correct horse battery stapl", &hash).is_err());
    assert!(verify_password("", &hash).is_err());
    assert!(verify_password("CORRECT HORSE BATTERY STAPLE", &hash).is_err());
}

#[test]
fn two_hashes_differ_yet_both_verify() {
    let first = hash_password("hunter2hunter2").expect("hashing failed");
    let second = hash_password("hunter2hunter2").expect("hashing failed");
    assert_ne!(first, second);
    assert!(verify_password("hunter2hunter2", &first).is_ok());
    assert!(verify_password("hunter2hunter2", &second).is_ok());
}

#[test]
fn verify_fails_closed_on_malformed_hash() {
    assert!(verify_password("whatever", "").is_err());
    assert!(verify_password("whatever", "not a phc string").is_err());
    assert!(verify_password("whatever", "$unknownalg$v=19$m=16,t=2,p=1$c29tZXNhbHQ$dGVzdA").is_err());
}

#[test]
fn encoded_hash_is_self_describing() {
    let hash = hash_password("longenough1").expect("hashing failed");
    assert!(hash.starts_with("$argon2"));
    assert!(!hash.contains("longenough1"));
}

#[test]
fn hash_then_verify_composition_never_mismatches() {
    assert!(hash_then_verify("longenough1").is_ok());
    assert!(hash_then_verify("").is_ok());
    assert!(hash_then_verify("päss wörd with spaces and ünicode").is_ok());
}

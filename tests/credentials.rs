use session_auth::credential::{hash_password, verify_password, CredentialError};

/// argon2id, m=8 KiB, t=1, p=1, of "correct horse battery".
const STORED: &str = "$argon2id$v=19$m=8,t=1,p=1$c2Vzc2lvbnNhbHRieXRlcw$KdX+f7/3XzYF96ZVWWmG5yuJSAp3x9VDF3XEDxlOxug";

#[test]
fn hash_then_verify_accepts_same_password() {
    let hash = hash_password("hunter2-hunter2").unwrap();
    assert!(hash.starts_with("$argon2id$"));
    assert_eq!(verify_password("hunter2-hunter2", &hash), Ok(true));
}

#[test]
fn hash_then_verify_rejects_other_password() {
    let hash = hash_password("first password").unwrap();
    assert_eq!(verify_password("second password", &hash), Ok(false));
}

#[test]
fn hashes_of_one_password_differ_by_salt() {
    let a = hash_password("same").unwrap();
    let b = hash_password("same").unwrap();
    assert_ne!(a, b);
}

#[test]
fn verify_known_hash() {
    assert_eq!(verify_password("correct horse battery", STORED), Ok(true));
    assert_eq!(verify_password("correct horse batterY", STORED), Ok(false));
    assert_eq!(verify_password("", STORED), Ok(false));
}

#[test]
fn verify_malformed_hash_is_an_error() {
    assert_eq!(verify_password("x", "not a phc string"), Err(CredentialError::InvalidHashFormat));
    assert_eq!(verify_password("x", ""), Err(CredentialError::InvalidHashFormat));
}

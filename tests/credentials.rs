use identity_server::{hash_password, verify_password, CredentialError};

#[test]
fn hash_then_verify_round_trips() {
    let password = "correct horse battery".to_string();
    let hash = hash_password(&password).unwrap();
    assert_ne!(hash, password);
    assert!(hash.starts_with("$argon2id$"));
    assert_eq!(verify_password(&password, &hash), Ok(true));
}

#[test]
fn other_password_does_not_verify() {
    let hash = hash_password(&"first password".to_string()).unwrap();
    assert_eq!(verify_password(&"second password".to_string(), &hash), Ok(false));
}

#[test]
fn same_password_hashes_differently() {
    let password = "same password".to_string();
    let a = hash_password(&password).unwrap();
    let b = hash_password(&password).unwrap();
    assert_ne!(a, b);
}

#[test]
fn malformed_hash_is_an_error() {
    assert_eq!(verify_password(&"x".to_string(), &"not a hash".to_string()), Err(CredentialError::MalformedHash));
    assert_eq!(verify_password(&"x".to_string(), &String::new()), Err(CredentialError::MalformedHash));
}

use spots_core::credential::{
    compare_password, hash_password, register, validate_login, verify_password,
    MAX_PASSWORD_LENGTH,
};
use spots_core::errors::ServerError;

#[test]
fn register_empty_password() {
    assert!(matches!(register("alice", ""), Err(ServerError::EmptyPassword)));
}

#[test]
fn register_then_verify() {
    let credential = register("alice", "correct-horse").unwrap();
    assert_eq!(credential.username, "alice");
    assert!(!credential.salt.is_empty());
    assert_eq!(
        compare_password("correct-horse", credential.password_hash.as_str()).unwrap(),
        true
    );
    assert_eq!(
        compare_password("wrong-password", credential.password_hash.as_str()).unwrap(),
        false
    );
}

#[test]
fn verify_short_wrong_password() {
    let credential = register("alice", "correct-horse").unwrap();
    assert_eq!(
        compare_password("wrong", credential.password_hash.as_str()).unwrap(),
        false
    );
}

#[test]
fn password_too_long() {
    let long = "x".repeat(MAX_PASSWORD_LENGTH + 1);
    assert!(matches!(
        register("alice", long.as_str()),
        Err(ServerError::MaxPasswordLengthExceeded(m)) if m == MAX_PASSWORD_LENGTH
    ));
    assert!(matches!(
        hash_password(long.as_str()),
        Err(ServerError::MaxPasswordLengthExceeded(m)) if m == MAX_PASSWORD_LENGTH
    ));
    assert!(matches!(
        compare_password(long.as_str(), "whatever"),
        Err(ServerError::MaxPasswordLengthExceeded(m)) if m == MAX_PASSWORD_LENGTH
    ));
    let exactly = "x".repeat(MAX_PASSWORD_LENGTH);
    assert!(register("alice", exactly.as_str()).is_ok());
}

#[test]
fn invalid_hash_format() {
    assert!(matches!(
        compare_password("password123", "not a phc string"),
        Err(ServerError::InvalidHashFormat)
    ));
    assert!(matches!(
        verify_password("password123", "not a phc string"),
        Err(ServerError::InvalidHashFormat)
    ));
}

#[test]
fn hash_password_verification_round_trip() {
    let hash = hash_password("s3cret-password").unwrap();
    assert!(hash.starts_with("$argon2"));
    assert_eq!(verify_password("s3cret-password", hash.as_str()).unwrap(), true);
    assert_eq!(verify_password("other-password", hash.as_str()).unwrap(), false);
}

#[test]
fn salts_are_random() {
    let c1 = register("alice", "correct-horse").unwrap();
    let c2 = register("alice", "correct-horse").unwrap();
    assert_ne!(c1.salt, c2.salt);
    assert_ne!(c1.password_hash, c2.password_hash);
}

#[test]
fn validate_login_cases() {
    let credential = register("alice", "correct-horse").unwrap();
    let stored = credential.password_hash;

    assert_eq!(validate_login("alice", "correct-horse", None).unwrap(), false);
    assert_eq!(validate_login("alice", "correct-horse", Some(&stored)).unwrap(), true);
    assert_eq!(validate_login("alice", "wrong-password", Some(&stored)).unwrap(), false);

    let long_username = "a".repeat(65);
    assert_eq!(
        validate_login(long_username.as_str(), "correct-horse", Some(&stored)).unwrap(),
        false
    );
    assert_eq!(validate_login("alice", "short", Some(&stored)).unwrap(), false);

    let corrupt = String::from("corrupt");
    assert!(matches!(
        validate_login("alice", "correct-horse", Some(&corrupt)),
        Err(ServerError::InvalidHashFormat)
    ));
}

#[test]
fn error_messages_are_fixed_text() {
    assert!(!ServerError::EmptyPassword.message().is_empty());
    assert!(!ServerError::HashingError.message().is_empty());
    assert!(!ServerError::InvalidHashFormat.message().is_empty());
    assert!(!ServerError::MaxPasswordLengthExceeded(MAX_PASSWORD_LENGTH).message().is_empty());
    assert!(!ServerError::DatabaseError(String::from("locked")).message().is_empty());
    assert!(!ServerError::OtherError(String::from("boom")).message().is_empty());
}

use aes_gcm::aead::Aead;
use aes_gcm::{Aes256Gcm, Key, KeyInit, Nonce};
use base64::Engine;

use spots_core::errors::Fail;
use spots_core::nonce::NonceSequence;
use spots_core::token::{issue, validate, verify_token, Token};

fn service_key() -> Vec<u8> {
    vec![7u8; 32]
}

fn other_key() -> Vec<u8> {
    let mut k = vec![7u8; 32];
    k[0] = 8u8;
    k
}

#[test]
fn test_encrypt_decrypt() {
    let key = service_key();
    let mut nonces = NonceSequence::new();
    let encrypted = issue("Me", 1000, 600, &key, &mut nonces).unwrap();
    let decrypted = Token::from_encrypted(encrypted.as_str(), &key).unwrap();
    assert_eq!(decrypted.get_user_id(), "Me");
}

#[test]
fn round_trip_scenario() {
    let key = service_key();
    let mut nonces = NonceSequence::new();
    let token = issue("user-42", 1000, 600, &key, &mut nonces).unwrap();
    let decoded = Token::from_encrypted(token.as_str(), &key).unwrap();
    assert_eq!(decoded.user_id, "user-42");
    assert_eq!(decoded.issued_at, 1000);
    assert_eq!(decoded.expires_at, 1600);
    assert_eq!(validate(token.as_str(), 1500, &key), Ok(String::from("user-42")));
    let blob = base64::engine::general_purpose::STANDARD
        .decode(token.as_str())
        .unwrap();
    assert_eq!(blob.len(), "user-42".len() + 44);
}

#[test]
fn expired_scenario() {
    let key = service_key();
    let mut nonces = NonceSequence::new();
    let token = issue("user-42", 1000, 600, &key, &mut nonces).unwrap();
    assert_eq!(validate(token.as_str(), 1601, &key), Err(Fail::Expired));
    assert_eq!(validate(token.as_str(), 1600, &key), Err(Fail::Expired));
    assert_eq!(validate(token.as_str(), 1599, &key), Ok(String::from("user-42")));
}

#[test]
fn wrong_key_scenario() {
    let key = service_key();
    let mut nonces = NonceSequence::new();
    let token = issue("user-42", 1000, 600, &key, &mut nonces).unwrap();
    assert_eq!(validate(token.as_str(), 1500, &other_key()), Err(Fail::AuthenticationFailed));
}

#[test]
fn tamper_detection_every_bit() {
    let key = service_key();
    let mut nonces = NonceSequence::new();
    let token = issue("user-42", 1000, 600, &key, &mut nonces).unwrap();
    let blob = base64::engine::general_purpose::STANDARD
        .decode(token.as_str())
        .unwrap();
    for i in 0..blob.len() {
        for bit in 0..8 {
            let mut tampered = blob.clone();
            tampered[i] ^= 1u8 << bit;
            let tampered_token = base64::engine::general_purpose::STANDARD.encode(&tampered);
            let r = validate(tampered_token.as_str(), 1500, &key);
            assert!(r.is_err(), "bit {} of byte {} went unnoticed", bit, i);
        }
    }
}

#[test]
fn tampered_text_never_validates() {
    let key = service_key();
    let mut nonces = NonceSequence::new();
    let token = issue("user-42", 1000, 600, &key, &mut nonces).unwrap();
    let bytes = token.as_bytes();
    for i in 0..bytes.len() {
        let mut tampered = bytes.to_vec();
        tampered[i] ^= 0x01;
        if let Ok(text) = String::from_utf8(tampered) {
            let r = validate(text.as_str(), 1500, &key);
            assert!(r.is_err(), "flip in text position {} went unnoticed", i);
        }
    }
}

#[test]
fn empty_subject_rejected() {
    let key = service_key();
    let mut nonces = NonceSequence::new();
    assert_eq!(issue("", 1000, 600, &key, &mut nonces), Err(Fail::EmptySubject));
    assert_eq!(nonces.counter, 0);
}

#[test]
fn garbage_text_is_decode_error() {
    let key = service_key();
    assert_eq!(validate("!!!not base64!!!", 1500, &key), Err(Fail::DecodeError));
}

#[test]
fn truncated_blob_is_authentication_failure() {
    let key = service_key();
    let short = base64::engine::general_purpose::STANDARD.encode([1u8; 10]);
    assert_eq!(validate(short.as_str(), 1500, &key), Err(Fail::AuthenticationFailed));
}

#[test]
fn short_payload_is_parse_error() {
    let key = service_key();
    let nonce = [3u8; 12];
    let cipher = Aes256Gcm::new(Key::<Aes256Gcm>::from_slice(&key));
    let mut blob = cipher
        .encrypt(Nonce::from_slice(&nonce), &b"tiny"[..])
        .unwrap();
    blob.extend_from_slice(&nonce);
    let token = base64::engine::general_purpose::STANDARD.encode(&blob);
    assert_eq!(validate(token.as_str(), 1500, &key), Err(Fail::ParseError));
}

#[test]
fn nonce_uniqueness_across_issues() {
    let mut nonces = NonceSequence::new();
    let n1 = nonces.advance();
    let n2 = nonces.advance();
    let n3 = nonces.advance();
    assert_eq!(nonces.counter, 3);
    assert_ne!(n1, n2);
    assert_ne!(n2, n3);
    assert_ne!(n1, n3);

    let key = service_key();
    let mut issue_nonces = NonceSequence::new();
    let before = issue_nonces.counter;
    let t1 = issue("user-42", 1000, 600, &key, &mut issue_nonces).unwrap();
    let t2 = issue("user-42", 1000, 600, &key, &mut issue_nonces).unwrap();
    assert_eq!(issue_nonces.counter, before + 2);
    assert_ne!(t1, t2);
}

#[test]
fn verify_token_returns_decoded_token() {
    let key = service_key();
    let mut nonces = NonceSequence::new();
    let token = issue("user-42", 1000, 600, &key, &mut nonces).unwrap();
    let decoded = verify_token(token.as_str(), 1500, &key).unwrap();
    assert_eq!(decoded.user_id, "user-42");
    assert!(decoded.is_valid(1500));
    assert!(!decoded.is_valid(1600));
    assert!(matches!(verify_token(token.as_str(), 1601, &key), Err(Fail::Expired)));
}

#[test]
fn zero_ttl_token_is_born_expired() {
    let key = service_key();
    let mut nonces = NonceSequence::new();
    let token = issue("user-42", 1000, 0, &key, &mut nonces).unwrap();
    assert_eq!(validate(token.as_str(), 1000, &key), Err(Fail::Expired));
    assert_eq!(validate(token.as_str(), 999, &key), Ok(String::from("user-42")));
}

#[test]
fn unicode_subject_round_trips() {
    let key = service_key();
    let mut nonces = NonceSequence::new();
    let token = issue("u\u{1F3B5}ser", 1000, 600, &key, &mut nonces).unwrap();
    assert_eq!(validate(token.as_str(), 1500, &key), Ok(String::from("u\u{1F3B5}ser")));
}

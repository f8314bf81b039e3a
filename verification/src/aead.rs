//! The authenticated-encryption engine: AES-256-GCM with a 256-bit key, a
//! 96-bit nonce and a 128-bit tag, supplied by the `aes_gcm` crate.
//!
//! The cipher itself is outside what this library proves; `aead_seal` and
//! `aead_open` name what the two calls return, and the wrappers state the
//! facts the rest of the library builds on: sealing adds exactly the 16-byte
//! tag, and opening with the same key and nonce returns the plaintext.
//! Whether opening *rejects* a forged ciphertext is a cryptographic property
//! the contracts do not claim; the tests exercise it.

use aes_gcm::aead::Aead;
use aes_gcm::{Aes256Gcm, Key, KeyInit, Nonce};
use rand::RngCore;
use vstd::prelude::*;

verus! {

/// The ciphertext-with-tag that AES-256-GCM produces for this key, nonce and
/// plaintext.
pub uninterp spec fn aead_seal(key: Seq<u8>, nonce: Seq<u8>, plaintext: Seq<u8>) -> Seq<u8>;

/// What AES-256-GCM decryption returns for this key, nonce and
/// ciphertext-with-tag: the plaintext when the tag verifies, nothing
/// otherwise.
pub uninterp spec fn aead_open(key: Seq<u8>, nonce: Seq<u8>, ciphertext: Seq<u8>) -> Option<
    Seq<u8>,
>;

/// The largest plaintext the library ever seals: far below the AES-GCM
/// plaintext bound of 2^36 bytes, so sealing cannot fail on length.
pub const MAX_PLAINTEXT_BYTES: usize = 0x4000_0000;

/// Relies on `aes_gcm::Aes256Gcm` through `aes_gcm::aead::Aead::encrypt`: the
/// ciphertext is the plaintext length plus the 16-byte tag, and decrypting it
/// with the same key and nonce returns the plaintext.  Encryption fails only
/// for plaintexts above 2^36 bytes, which the precondition rules out.
#[verifier::external_body]
pub(crate) fn aead_seal_exec(key: &Vec<u8>, nonce: &Vec<u8>, plaintext: &Vec<u8>) -> (r: Vec<u8>)
    requires
        key@.len() == 32,
        nonce@.len() == 12,
        plaintext@.len() <= MAX_PLAINTEXT_BYTES,
    ensures
        r@ == aead_seal(key@, nonce@, plaintext@),
        r@.len() == plaintext@.len() + 16,
        aead_open(key@, nonce@, r@) == Some(plaintext@),
{
    let cipher = Aes256Gcm::new(Key::<Aes256Gcm>::from_slice(key.as_slice()));
    cipher
        .encrypt(Nonce::from_slice(nonce.as_slice()), plaintext.as_slice())
        .expect("plaintext length is within the AES-GCM bound")
}

/// Relies on `aes_gcm::Aes256Gcm` through `aes_gcm::aead::Aead::decrypt`: it
/// returns the plaintext only when the authentication tag verifies for this
/// key, nonce and ciphertext, and fails closed otherwise.  The comparison of
/// the tag is constant-time inside the cipher.
#[verifier::external_body]
pub(crate) fn aead_open_exec(key: &Vec<u8>, nonce: &Vec<u8>, ciphertext: &Vec<u8>) -> (r: Option<
    Vec<u8>,
>)
    requires
        key@.len() == 32,
        nonce@.len() == 12,
    ensures
        match r {
            Some(p) => aead_open(key@, nonce@, ciphertext@) == Some(p@),
            None => aead_open(key@, nonce@, ciphertext@) is None,
        },
{
    let cipher = Aes256Gcm::new(Key::<Aes256Gcm>::from_slice(key.as_slice()));
    cipher.decrypt(Nonce::from_slice(nonce.as_slice()), ciphertext.as_slice()).ok()
}

/// Relies on `rand::rngs::OsRng` through `rand::RngCore::fill_bytes`: fills
/// the buffer from the operating system's randomness source.  Nothing is
/// claimed of the values, only the length.
#[verifier::external_body]
pub(crate) fn random_bytes(n: usize) -> (r: Vec<u8>)
    ensures
        r@.len() == n,
{
    let mut buf = vec![0u8; n];
    rand::rngs::OsRng.fill_bytes(&mut buf);
    buf
}

} // verus!

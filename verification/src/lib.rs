//! Session-token and secret-at-rest core of a local music application.
//!
//! The library issues and validates tamper-evident, time-bounded session
//! tokens, encrypts long-lived secret material before it is persisted, and
//! salts, hashes and verifies user passwords.  Everything that computes is
//! specified and verified here; callers supply plain values (keys, clock
//! readings, stored hashes) and perform all I/O themselves.

pub mod aead;
pub mod api;
pub mod b64;
pub mod credential;
pub mod envelope;
pub mod errors;
pub mod nonce;
pub mod token;

//! The password credential service: salts, hashes and verifies passwords
//! with a memory-hard hash function (Argon2id through the `argon2` crate).
//!
//! A credential is one-way: the stored PHC string embeds the algorithm
//! parameters and the salt, and checking a password never compares raw
//! bytes in variable time — the comparison happens inside the hash
//! library's constant-time verification call.  `phc_parses` and
//! `argon2_verifies` name what the two outside calls decide.

use argon2::password_hash::rand_core::OsRng;
use argon2::password_hash::{PasswordHash, SaltString};
use argon2::{Argon2, PasswordHasher, PasswordVerifier};
use vstd::prelude::*;
use vstd::string::{StrSliceExecFns, StringSliceAdditionalSpecFns};
use vstd::utf8::{encode_utf8, is_ascii_chars};

use crate::errors::ServerError;

verus! {

/// Max password length, in bytes: bounds the hash function's CPU cost.
pub const MAX_PASSWORD_LENGTH: usize = 128;

/// Whether this text is a well-formed PHC hash string, as
/// `argon2::password_hash::PasswordHash::new` decides it.
pub uninterp spec fn phc_parses(hash: Seq<char>) -> bool;

/// Whether this password matches this PHC hash string, as
/// `argon2::Argon2::verify_password` decides it: the password is hashed
/// under the salt and parameters embedded in the string and compared in
/// constant time.
pub uninterp spec fn argon2_verifies(password: Seq<u8>, hash: Seq<char>) -> bool;

/// Relies on `argon2::Argon2::hash_password` (default Argon2id parameters)
/// with a fresh salt from `SaltString::generate` over the operating system's
/// randomness: on success the returned PHC string parses, and verifying the
/// same password against it succeeds.  Returns the PHC string and the salt.
#[verifier::external_body]
fn argon2_hash_exec(password: &Vec<u8>) -> (r: Option<(String, String)>)
    ensures
        r matches Some(hs) ==> phc_parses(hs.0@) && argon2_verifies(password@, hs.0@),
{
    let salt = SaltString::generate(&mut OsRng);
    match Argon2::default().hash_password(password.as_slice(), &salt) {
        Ok(hash) => Some((hash.to_string(), salt.to_string())),
        Err(_) => None,
    }
}

/// Relies on `argon2::password_hash::PasswordHash::new` and
/// `argon2::Argon2::verify_password`: `None` exactly when the stored text is
/// not a well-formed PHC string; otherwise whether the password matches,
/// decided by a constant-time comparison inside `verify_password`.
#[verifier::external_body]
fn argon2_verify_exec(password: &Vec<u8>, hash: &str) -> (r: Option<bool>)
    ensures
        r is Some <==> phc_parses(hash@),
        r matches Some(m) ==> m == argon2_verifies(password@, hash@),
{
    match PasswordHash::new(hash) {
        Ok(parsed) => Some(
            Argon2::default().verify_password(password.as_slice(), &parsed).is_ok(),
        ),
        Err(_) => None,
    }
}

/// A stored credential: `password_hash` is the PHC string of the password
/// under `salt`; the plaintext is never stored and never recoverable.
#[derive(Debug, Clone)]
pub struct Credential {
    pub username: String,
    pub salt: String,
    pub password_hash: String,
}

/// Why a password is rejected before hashing: empty, or longer than
/// [`MAX_PASSWORD_LENGTH`] bytes.
pub open spec fn password_reject(password: Seq<char>) -> Option<ServerError> {
    if password.len() == 0 {
        Option::Some(ServerError::EmptyPassword)
    } else if encode_utf8(password).len() > MAX_PASSWORD_LENGTH {
        Option::Some(ServerError::MaxPasswordLengthExceeded(MAX_PASSWORD_LENGTH))
    } else {
        Option::None
    }
}

/// What comparing a password against a stored hash yields: the rejection for
/// an empty or over-long password, `InvalidHashFormat` for a corrupt stored
/// string, and otherwise whether the password matches.
pub open spec fn compare_spec(password: Seq<char>, hash: Seq<char>) -> Result<bool, ServerError> {
    match password_reject(password) {
        Option::Some(e) => Err(e),
        Option::None => if !phc_parses(hash) {
            Err(ServerError::InvalidHashFormat)
        } else {
            Ok(argon2_verifies(encode_utf8(password), hash))
        },
    }
}

/// Hashes a password under a fresh random salt.  On success the returned
/// PHC string is well-formed and verifies the password it was made from.
pub fn hash_password(password: &str) -> (r: Result<String, ServerError>)
    ensures
        password_reject(password@) matches Some(e) ==> r == Err::<String, ServerError>(e),
        r matches Ok(h) ==> password_reject(password@) is None && phc_parses(h@)
            && argon2_verifies(encode_utf8(password@), h@) && compare_spec(password@, h@) == Ok::<
            bool,
            ServerError,
        >(true),
        r matches Err(e) ==> (password_reject(password@) is None ==> e
            == ServerError::HashingError),
{
    let password_bytes = password.as_bytes_vec();
    if password.is_empty() {
        return Err(ServerError::EmptyPassword);
    }
    if password_bytes.len() > MAX_PASSWORD_LENGTH {
        return Err(ServerError::MaxPasswordLengthExceeded(MAX_PASSWORD_LENGTH));
    }
    match argon2_hash_exec(&password_bytes) {
        Some(hash_and_salt) => Ok(hash_and_salt.0),
        None => Err(ServerError::HashingError),
    }
}

/// Compares a password against a stored PHC hash; the result is exactly
/// [`compare_spec`] of the two.  `Ok(true)` and `Ok(false)` are decided by
/// the hash library's constant-time verification, never by re-hashing and
/// comparing bytes.
pub fn compare_password(password: &str, hashed_password: &str) -> (r: Result<bool, ServerError>)
    ensures
        r == compare_spec(password@, hashed_password@),
{
    let password_bytes = password.as_bytes_vec();
    if password.is_empty() {
        return Err(ServerError::EmptyPassword);
    }
    if password_bytes.len() > MAX_PASSWORD_LENGTH {
        return Err(ServerError::MaxPasswordLengthExceeded(MAX_PASSWORD_LENGTH));
    }
    match argon2_verify_exec(&password_bytes, hashed_password) {
        Some(is_match) => Ok(is_match),
        None => Err(ServerError::InvalidHashFormat),
    }
}

/// Verifies a password against a stored hash with no length policy: only a
/// corrupt stored string is an error.
pub fn verify_password(password: &str, hash: &str) -> (r: Result<bool, ServerError>)
    ensures
        r matches Ok(m) ==> phc_parses(hash@) && m == argon2_verifies(
            encode_utf8(password@),
            hash@,
        ),
        r matches Err(e) ==> !phc_parses(hash@) && e == ServerError::InvalidHashFormat,
{
    let password_bytes = password.as_bytes_vec();
    match argon2_verify_exec(&password_bytes, hash) {
        Some(is_match) => Ok(is_match),
        None => Err(ServerError::InvalidHashFormat),
    }
}

/// Registers a user: rejects an empty or over-long password, then hashes it
/// under a fresh salt.  The stored hash verifies the password it was made
/// from: `compare_spec` of the password and the new credential's hash is
/// `Ok(true)`.
pub fn register(username: &str, password: &str) -> (r: Result<Credential, ServerError>)
    ensures
        password_reject(password@) matches Some(e) ==> r == Err::<Credential, ServerError>(e),
        r matches Ok(c) ==> password_reject(password@) is None && c.username@ == username@
            && phc_parses(c.password_hash@) && argon2_verifies(
            encode_utf8(password@),
            c.password_hash@,
        ) && compare_spec(password@, c.password_hash@) == Ok::<bool, ServerError>(true),
        r matches Err(e) ==> (password_reject(password@) is None ==> e
            == ServerError::HashingError),
{
    let password_bytes = password.as_bytes_vec();
    if password.is_empty() {
        return Err(ServerError::EmptyPassword);
    }
    if password_bytes.len() > MAX_PASSWORD_LENGTH {
        return Err(ServerError::MaxPasswordLengthExceeded(MAX_PASSWORD_LENGTH));
    }
    match argon2_hash_exec(&password_bytes) {
        Some(hash_and_salt) => {
            let (password_hash, salt) = hash_and_salt;
            Ok(Credential { username: String::from_str(username), salt, password_hash })
        },
        None => Err(ServerError::HashingError),
    }
}

/// The login format policy: an ASCII username of at most 64 characters and
/// an ASCII password of 8 to 128 characters.
pub open spec fn login_format_ok(username: Seq<char>, password: Seq<char>) -> bool {
    &&& is_ascii_chars(username) && 0 < username.len() <= 64
    &&& is_ascii_chars(password) && 8 <= password.len() <= 128
}

/// What checking a login yields: `false` when no credential is stored under
/// the username, an error when the stored hash is corrupt, and otherwise
/// whether the formats hold and the password matches.
pub open spec fn validate_login_spec(
    username: Seq<char>,
    password: Seq<char>,
    stored_hash: Option<Seq<char>>,
) -> Result<bool, ServerError> {
    match stored_hash {
        Option::None => Ok(false),
        Option::Some(h) => if !phc_parses(h) {
            Err(ServerError::InvalidHashFormat)
        } else {
            Ok(login_format_ok(username, password) && argon2_verifies(encode_utf8(password), h))
        },
    }
}

/// Checks a login attempt against the stored credential, if any.  The caller
/// fetches the stored hash; the decision is exactly [`validate_login_spec`].
pub fn validate_login(username: &str, password: &str, stored_hash: Option<&String>) -> (r: Result<
    bool,
    ServerError,
>)
    ensures
        stored_hash is None ==> r == Ok::<bool, ServerError>(false),
        stored_hash matches Some(h) ==> r == validate_login_spec(
            username@,
            password@,
            Option::Some(h@),
        ),
{
    let username_ascii = username.is_ascii();
    let username_len = username.unicode_len();
    let password_ascii = password.is_ascii();
    let password_len = password.unicode_len();
    let format_ok = username_ascii && 0 < username_len && username_len <= 64 && password_ascii
        && 8 <= password_len && password_len <= 128;
    match stored_hash {
        None => Ok(false),
        Some(h) => {
            let password_bytes = password.as_bytes_vec();
            match argon2_verify_exec(&password_bytes, h.as_str()) {
                Some(is_match) => Ok(format_ok && is_match),
                None => Err(ServerError::InvalidHashFormat),
            }
        },
    }
}

} // verus!

//! The closed set of failure kinds used across the token, envelope and
//! credential services.

use vstd::prelude::*;

verus! {

use vstd::string::StringExecFns;

/// Why issuing or validating a session token failed.
#[derive(Clone, Copy, Debug, PartialEq, Eq, Structural)]
pub enum Fail {
    /// The subject handed to `issue` was empty.
    EmptySubject,
    /// The token string was not valid transport text (bad alphabet, truncated).
    DecodeError,
    /// The authentication tag did not verify, or the envelope was malformed:
    /// the token was tampered with or sealed under another key.
    AuthenticationFailed,
    /// The decrypted payload violated the canonical form.
    ParseError,
    /// The token is cryptographically sound but past its expiry time.
    Expired,
}

/// Why decrypting a stored [`crate::envelope::EncryptedValue`] failed.
#[derive(Clone, Copy, Debug, PartialEq, Eq, Structural)]
pub enum DecryptError {
    /// A field had the wrong length (key not 32 bytes, nonce not 12 bytes).
    Malformed,
    /// The authentication tag did not verify.
    AuthenticationFailed,
}

/// Errors from the password credential service.
#[derive(Clone, Debug)]
pub enum ServerError {
    EmptyPassword,
    MaxPasswordLengthExceeded(usize),
    HashingError,
    InvalidHashFormat,
    DatabaseError(String),
    OtherError(String),
}

impl ServerError {
    /// A fixed, client-visible description of the error.
    pub fn message(&self) -> (r: String)
        ensures
            r@.len() > 0,
    {
        let m: &str = match self {
            ServerError::EmptyPassword => "The password field cannot be empty",
            ServerError::MaxPasswordLengthExceeded(_) => {
                "The password length exceeds the configured maximum"
            },
            ServerError::HashingError => "An error occured while hashing the password",
            ServerError::InvalidHashFormat => "The hashed password was an invalid format",
            ServerError::DatabaseError(_) => "An error occured in the database",
            ServerError::OtherError(_) => "An unexpected error occured",
        };
        proof {
            reveal_strlit("The password field cannot be empty");
            reveal_strlit("The password length exceeds the configured maximum");
            reveal_strlit("An error occured while hashing the password");
            reveal_strlit("The hashed password was an invalid format");
            reveal_strlit("An error occured in the database");
            reveal_strlit("An unexpected error occured");
        }
        String::from_str(m)
    }
}

/// The body of an error reply sent back to a client.
#[derive(Clone, Debug)]
pub struct ErrorResponse {
    pub status: String,
    pub message: String,
}

} // verus!

//! Request/response shells and the service configuration: the plain-value
//! surface that request handlers exchange with the verified core.

use vstd::prelude::*;
use vstd::slice::{slice_subrange, slice_to_vec};
use vstd::string::{StrSliceExecFns, StringSliceAdditionalSpecFns};
use vstd::utf8::encode_utf8;

use crate::errors::ErrorResponse;

verus! {

/// The status of an API response.
#[derive(Debug, Clone, PartialEq, Eq, Structural)]
pub enum ApiResponseStatus {
    Success,
    Failure,
    Started,
    Pending,
    Completed,
}

/// An API response: a status and the value it carries.
#[derive(Debug, Clone)]
pub struct ApiResponse<T> {
    pub status: ApiResponseStatus,
    pub value: T,
}

impl<T> ApiResponse<T> {
    /// A successful API response.
    pub fn success(value: T) -> (r: Self)
        ensures
            r.status == ApiResponseStatus::Success,
            r.value == value,
    {
        Self { status: ApiResponseStatus::Success, value }
    }

    /// A failure API response.
    pub fn failure(value: T) -> (r: Self)
        ensures
            r.status == ApiResponseStatus::Failure,
            r.value == value,
    {
        Self { status: ApiResponseStatus::Failure, value }
    }

    /// A pending API response.
    pub fn pending(value: T) -> (r: Self)
        ensures
            r.status == ApiResponseStatus::Pending,
            r.value == value,
    {
        Self { status: ApiResponseStatus::Pending, value }
    }
}

/// A reply envelope: whether the call succeeded, and the value it carries.
#[derive(Debug, Clone)]
pub struct Response<T> {
    pub success: bool,
    pub value: T,
}

impl<T> Response<T> {
    /// A successful reply.
    pub fn success(value: T) -> (r: Self)
        ensures
            r.success == true,
            r.value == value,
    {
        Self { success: true, value }
    }
}

impl Response<ErrorResponse> {
    /// An error reply.
    pub fn error(status: String, message: String) -> (r: Self)
        ensures
            r.success == false,
            r.value.status@ == status@,
            r.value.message@ == message@,
    {
        Self { success: false, value: ErrorResponse { status, message } }
    }
}

/// Service configuration, constructed once at startup from plain values the
/// caller read from its environment: the token secret and the token
/// lifetime in minutes.
#[derive(Debug, Clone)]
pub struct ApiConfig {
    pub token_secret_key: String,
    pub token_maxage_mins: i64,
}

impl ApiConfig {
    pub fn new(token_secret_key: String, token_maxage_mins: i64) -> (r: Self)
        ensures
            r.token_secret_key@ == token_secret_key@,
            r.token_maxage_mins == token_maxage_mins,
    {
        Self { token_secret_key, token_maxage_mins }
    }

    /// The 256-bit service key: the first 32 bytes of the configured secret.
    pub open spec fn spec_key_bytes(&self) -> Seq<u8> {
        encode_utf8(self.token_secret_key@).subrange(0, 32)
    }

    /// Whether the configured secret is long enough to carve a key from.
    pub open spec fn key_long_enough(&self) -> bool {
        encode_utf8(self.token_secret_key@).len() >= 32
    }

    pub fn key_bytes(&self) -> (r: Vec<u8>)
        requires
            self.key_long_enough(),
        ensures
            r@ == self.spec_key_bytes(),
            r@.len() == 32,
    {
        let bytes = self.token_secret_key.as_str().as_bytes_vec();
        slice_to_vec(slice_subrange(bytes.as_slice(), 0, 32))
    }
}

/// Whether a character may appear in a username: a letter, a digit or an
/// underscore.
pub open spec fn is_word_char(c: char) -> bool {
    let u = c as u32;
    (97 <= u && u <= 122) || (65 <= u && u <= 90) || (48 <= u && u <= 57) || u == 95
}

/// A well-formed username: 3 to 20 characters, letters, digits and
/// underscores only.
pub open spec fn valid_username(s: Seq<char>) -> bool {
    3 <= s.len() <= 20 && (forall|i: int| 0 <= i < s.len() ==> is_word_char(s[i]))
}

/// A well-formed password as typed: 8 to 64 characters.
pub open spec fn valid_password_text(s: Seq<char>) -> bool {
    8 <= s.len() <= 64
}

/// Checks a username against [`valid_username`].
pub fn check_username(username: &str) -> (r: bool)
    ensures
        r == valid_username(username@),
{
    let len = username.unicode_len();
    if len < 3 || len > 20 {
        return false;
    }
    let mut i: usize = 0;
    while i < len
        invariant
            3 <= len <= 20,
            len == username@.len(),
            i <= len,
            forall|j: int| 0 <= j < i ==> is_word_char(username@[j]),
        decreases len - i,
    {
        let u = username.get_char(i) as u32;
        if !((97 <= u && u <= 122) || (65 <= u && u <= 90) || (48 <= u && u <= 57) || u == 95) {
            return false;
        }
        i += 1;
    }
    true
}

/// Checks a password against [`valid_password_text`].
pub fn check_password_text(password: &str) -> (r: bool)
    ensures
        r == valid_password_text(password@),
{
    let len = password.unicode_len();
    8 <= len && len <= 64
}

/// The request body of the register endpoint.
#[derive(Debug, Clone)]
pub struct RegisterUserDto {
    pub username: String,
    pub password: String,
    pub password_confirm: String,
}

impl RegisterUserDto {
    /// A well-formed registration request: valid username and password, and
    /// a non-empty confirmation that matches the password.
    pub open spec fn valid(&self) -> bool {
        &&& valid_username(self.username@)
        &&& valid_password_text(self.password@)
        &&& self.password_confirm@.len() >= 1
        &&& self.password_confirm@ == self.password@
    }

    pub fn validate(&self) -> (r: bool)
        ensures
            r == self.valid(),
    {
        let username_ok = check_username(self.username.as_str());
        let password_ok = check_password_text(self.password.as_str());
        let confirm_nonempty = !self.password_confirm.as_str().is_empty();
        let confirm_matches = self.password_confirm == self.password;
        username_ok && password_ok && confirm_nonempty && confirm_matches
    }
}

/// The request body of the login endpoint.
#[derive(Debug, Clone)]
pub struct LoginUserDto {
    pub username: String,
    pub password: String,
}

impl LoginUserDto {
    /// A well-formed login request: valid username and password.
    pub open spec fn valid(&self) -> bool {
        valid_username(self.username@) && valid_password_text(self.password@)
    }

    pub fn validate(&self) -> (r: bool)
        ensures
            r == self.valid(),
    {
        let username_ok = check_username(self.username.as_str());
        let password_ok = check_password_text(self.password.as_str());
        username_ok && password_ok
    }
}

} // verus!

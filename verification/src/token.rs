//! The session-token service: issues and validates opaque, transportable
//! token strings.
//!
//! A token carries `{subject, issued_at, expires_at}` in a canonical byte
//! form — both timestamps as 8 little-endian bytes, then the subject's UTF-8
//! bytes — sealed with AES-256-GCM under the service key and a fresh nonce,
//! and shipped as base64 text of `ciphertext-with-tag ‖ nonce`.  Whether a
//! token is live is a pure function of the clock reading and the payload,
//! never a mutable flag.
//!
//! The contract of [`issue`] carries the two laws the service is built for:
//! a token validates to its subject at every instant before expiry, and
//! fails with [`Fail::Expired`] at every instant from expiry on.

use vstd::bytes::{
    lemma_auto_spec_u64_to_from_le_bytes, spec_u64_from_le_bytes, spec_u64_to_le_bytes,
    u64_from_le_bytes, u64_to_le_bytes,
};
use vstd::prelude::*;
use vstd::slice::{slice_subrange, slice_to_vec};
use vstd::string::{StrSliceExecFns, StringSliceAdditionalSpecFns};
use vstd::utf8::{
    decode_utf8, encode_utf8, encode_utf8_decode_utf8, encode_utf8_valid_utf8, valid_utf8,
};

use crate::aead::{aead_open, aead_open_exec, aead_seal, aead_seal_exec};
use crate::api::ApiConfig;
use crate::b64::{b64_decode, b64_decode_exec, b64_of, b64_encode_exec};
use crate::errors::Fail;
use crate::nonce::{nonce_of, NonceSequence};

verus! {

/// The largest subject (in characters) a token may carry; keeps the sealed
/// payload far below the AES-GCM plaintext bound.
pub const MAX_SUBJECT_CHARS: usize = 0x100_0000;

/// UTF-8 encoding takes at most four bytes per character.
pub proof fn lemma_encode_utf8_len(chars: Seq<char>)
    ensures
        encode_utf8(chars).len() <= 4 * chars.len(),
    decreases chars.len(),
{
    if chars.len() > 0 {
        lemma_encode_utf8_len(chars.drop_first());
    }
}

/// A decrypted session token: who it speaks for and when it lives.
/// Immutable once constructed.
#[derive(Debug, Clone)]
pub struct Token {
    pub user_id: String,
    pub issued_at: u64,
    pub expires_at: u64,
}

/// The canonical byte form of a token payload.
pub open spec fn payload_bytes(subject: Seq<char>, issued_at: u64, expires_at: u64) -> Seq<u8> {
    spec_u64_to_le_bytes(issued_at) + spec_u64_to_le_bytes(expires_at) + encode_utf8(subject)
}

/// What parsing a payload yields: the two timestamps and the subject, or
/// nothing when the bytes are too short or the subject is not UTF-8.
pub open spec fn parse_payload(b: Seq<u8>) -> Option<(u64, u64, Seq<char>)> {
    if b.len() < 16 {
        Option::None
    } else if !valid_utf8(b.subrange(16, b.len() as int)) {
        Option::None
    } else {
        Option::Some(
            (
                spec_u64_from_le_bytes(b.subrange(0, 8)),
                spec_u64_from_le_bytes(b.subrange(8, 16)),
                decode_utf8(b.subrange(16, b.len() as int)),
            ),
        )
    }
}

/// Parsing inverts encoding: the canonical byte form of any payload parses
/// back to exactly that payload.
pub proof fn lemma_payload_round_trip(subject: Seq<char>, issued_at: u64, expires_at: u64)
    ensures
        parse_payload(payload_bytes(subject, issued_at, expires_at)) == Option::Some(
            (issued_at, expires_at, subject),
        ),
{
    lemma_auto_spec_u64_to_from_le_bytes();
    broadcast use encode_utf8_valid_utf8, encode_utf8_decode_utf8;

    let b = payload_bytes(subject, issued_at, expires_at);
    assert(b.subrange(0, 8) =~= spec_u64_to_le_bytes(issued_at));
    assert(b.subrange(8, 16) =~= spec_u64_to_le_bytes(expires_at));
    assert(b.subrange(16, b.len() as int) =~= encode_utf8(subject));
}

/// The sealed binary form of a token: ciphertext-with-tag, then the nonce.
pub open spec fn token_blob(
    subject: Seq<char>,
    issued_at: u64,
    expires_at: u64,
    key: Seq<u8>,
    counter: u64,
) -> Seq<u8> {
    aead_seal(key, nonce_of(counter), payload_bytes(subject, issued_at, expires_at)) + nonce_of(
        counter,
    )
}

/// What decoding a token string under a key yields, stage by stage: base64,
/// then the AEAD, then the canonical payload.
pub open spec fn decode_spec(token: Seq<char>, key: Seq<u8>) -> Result<(u64, u64, Seq<char>), Fail> {
    match b64_decode(token) {
        Option::None => Err(Fail::DecodeError),
        Option::Some(blob) => {
            if blob.len() < 28 {
                Err(Fail::AuthenticationFailed)
            } else {
                let nonce = blob.subrange(blob.len() - 12, blob.len() as int);
                let ct = blob.subrange(0, blob.len() - 12);
                match aead_open(key, nonce, ct) {
                    Option::None => Err(Fail::AuthenticationFailed),
                    Option::Some(payload) => match parse_payload(payload) {
                        Option::None => Err(Fail::ParseError),
                        Option::Some(p) => Ok(p),
                    },
                }
            }
        },
    }
}

/// What validating a token string at clock reading `now` yields: the subject
/// while `now < expires_at`, the exact failure otherwise.
pub open spec fn validate_spec(token: Seq<char>, now: u64, key: Seq<u8>) -> Result<
    Seq<char>,
    Fail,
> {
    match decode_spec(token, key) {
        Err(e) => Err(e),
        Ok((issued_at, expires_at, subject)) => if now < expires_at {
            Ok(subject)
        } else {
            Err(Fail::Expired)
        },
    }
}

/// Relies on std `String::from_utf8`: succeeds exactly for valid UTF-8 and
/// returns the characters those bytes encode.
#[verifier::external_body]
fn string_from_utf8(bytes: Vec<u8>) -> (r: Option<String>)
    ensures
        r is Some <==> valid_utf8(bytes@),
        r matches Some(s) ==> encode_utf8(s@) == bytes@,
{
    String::from_utf8(bytes).ok()
}

/// Issues a token for `subject`, valid from `now` until `now + ttl` seconds,
/// sealed under the 32-byte service key with the sequence's next nonce.
///
/// The decode clause pins the whole round trip — decoding the result under
/// the same key yields exactly `(now, now + ttl, subject)`, and the decoded
/// blob is the sealed payload (its length plus the 16-byte tag) followed by
/// the 12-byte nonce.  The last two clauses are the round-trip and expiry
/// laws: at every instant strictly before expiry the token validates to its
/// subject, and at every instant from expiry on it fails with `Expired`.
pub fn issue(subject: &str, now: u64, ttl: u64, key: &Vec<u8>, nonces: &mut NonceSequence) -> (r:
    Result<String, Fail>)
    requires
        key@.len() == 32,
        old(nonces).counter < u64::MAX,
        now + ttl <= u64::MAX,
        subject@.len() <= MAX_SUBJECT_CHARS,
    ensures
        subject@.len() == 0 ==> r == Err::<String, Fail>(Fail::EmptySubject)
            && final(nonces).counter == old(nonces).counter,
        subject@.len() > 0 ==> r is Ok && final(nonces).counter == old(nonces).counter + 1,
        r matches Ok(t) ==> t@ == b64_of(
            token_blob(subject@, now, (now + ttl) as u64, key@, old(nonces).counter),
        ),
        r matches Ok(t) ==> b64_decode(t@) == Some(
            token_blob(subject@, now, (now + ttl) as u64, key@, old(nonces).counter),
        ) && token_blob(subject@, now, (now + ttl) as u64, key@, old(nonces).counter).len()
            == encode_utf8(subject@).len() + 44,
        r matches Ok(t) ==> decode_spec(t@, key@) == Ok::<(u64, u64, Seq<char>), Fail>(
            (now, (now + ttl) as u64, subject@),
        ),
        r matches Ok(t) ==> forall|at: u64|
            at < now + ttl ==> validate_spec(t@, at, key@) == Ok::<Seq<char>, Fail>(subject@),
        r matches Ok(t) ==> forall|at: u64|
            at >= now + ttl ==> validate_spec(t@, at, key@) == Err::<Seq<char>, Fail>(
                Fail::Expired,
            ),
{
    if subject.is_empty() {
        return Err(Fail::EmptySubject);
    }
    proof {
        lemma_encode_utf8_len(subject@);
    }
    let expires_at: u64 = now + ttl;

    let mut payload: Vec<u8> = u64_to_le_bytes(now);
    let mut expiry_bytes: Vec<u8> = u64_to_le_bytes(expires_at);
    payload.append(&mut expiry_bytes);
    let mut subject_bytes: Vec<u8> = subject.as_bytes_vec();
    payload.append(&mut subject_bytes);
    proof {
        assert(payload@ =~= payload_bytes(subject@, now, expires_at));
    }

    let nonce = nonces.advance();
    let sealed = aead_seal_exec(key, &nonce, &payload);
    let ghost sealed_view = sealed@;
    let mut blob = sealed;
    let mut nonce_tail = nonce;
    blob.append(&mut nonce_tail);
    let encoded = b64_encode_exec(&blob);

    proof {
        let ghost counter = old(nonces).counter;
        let ghost blobv = blob@;
        assert(blobv =~= token_blob(subject@, now, expires_at, key@, counter));
        assert(b64_decode(encoded@) == Option::Some(blobv));
        assert(payload@.len() == 16 + encode_utf8(subject@).len());
        assert(blobv.len() == payload@.len() + 16 + 12);
        assert(blobv.subrange(blobv.len() - 12, blobv.len() as int) =~= nonce_of(counter));
        assert(blobv.subrange(0, blobv.len() - 12) =~= sealed_view);
        assert(aead_open(key@, nonce_of(counter), sealed_view) == Option::Some(payload@));
        lemma_payload_round_trip(subject@, now, expires_at);
        assert(decode_spec(encoded@, key@) == Ok::<(u64, u64, Seq<char>), Fail>(
            (now, expires_at, subject@),
        ));
        assert forall|at: u64| true implies validate_spec(encoded@, at, key@) == (if at < expires_at {
            Ok::<Seq<char>, Fail>(subject@)
        } else {
            Err::<Seq<char>, Fail>(Fail::Expired)
        }) by {}
    }
    Ok(encoded)
}

impl Token {
    /// Issues an encrypted token string for the user with the given ID, using
    /// the configuration's key and lifetime.  The clock reading and the nonce
    /// sequence are the caller's.
    pub fn try_new(
        config: &ApiConfig,
        user_id: &str,
        now: u64,
        nonces: &mut NonceSequence,
    ) -> (r: Result<String, Fail>)
        requires
            config.key_long_enough(),
            0 <= config.token_maxage_mins <= 0x7fff_ffff,
            now + 60 * config.token_maxage_mins <= u64::MAX,
            old(nonces).counter < u64::MAX,
            user_id@.len() <= MAX_SUBJECT_CHARS,
        ensures
            user_id@.len() == 0 ==> r == Err::<String, Fail>(Fail::EmptySubject)
                && final(nonces).counter == old(nonces).counter,
            user_id@.len() > 0 ==> r is Ok && final(nonces).counter == old(nonces).counter + 1,
            r matches Ok(t) ==> t@ == b64_of(
                token_blob(
                    user_id@,
                    now,
                    (now + 60 * config.token_maxage_mins) as u64,
                    config.spec_key_bytes(),
                    old(nonces).counter,
                ),
            ),
            r matches Ok(t) ==> decode_spec(t@, config.spec_key_bytes()) == Ok::<
                (u64, u64, Seq<char>),
                Fail,
            >((now, (now + 60 * config.token_maxage_mins) as u64, user_id@)),
            r matches Ok(t) ==> forall|at: u64|
                at < now + 60 * config.token_maxage_mins ==> validate_spec(
                    t@,
                    at,
                    config.spec_key_bytes(),
                ) == Ok::<Seq<char>, Fail>(user_id@),
            r matches Ok(t) ==> forall|at: u64|
                at >= now + 60 * config.token_maxage_mins ==> validate_spec(
                    t@,
                    at,
                    config.spec_key_bytes(),
                ) == Err::<Seq<char>, Fail>(Fail::Expired),
    {
        let key = config.key_bytes();
        let ttl: u64 = 60 * (config.token_maxage_mins as u64);
        issue(user_id, now, ttl, &key, nonces)
    }

    /// Decrypts and parses an encrypted token string, without an expiry
    /// check.
    pub fn from_encrypted(encrypted_token: &str, key: &Vec<u8>) -> (r: Result<Token, Fail>)
        requires
            key@.len() == 32,
        ensures
            r matches Ok(t) ==> decode_spec(encrypted_token@, key@) == Ok::<_, Fail>(
                (t.issued_at, t.expires_at, t.user_id@),
            ),
            r matches Err(e) ==> decode_spec(encrypted_token@, key@) == Err::<
                (u64, u64, Seq<char>),
                Fail,
            >(e),
    {
        let blob = match b64_decode_exec(encrypted_token) {
            Some(b) => b,
            None => { return Err(Fail::DecodeError) },
        };
        if blob.len() < 28 {
            return Err(Fail::AuthenticationFailed);
        }
        let n = blob.len();
        let nonce: Vec<u8> = slice_to_vec(slice_subrange(blob.as_slice(), n - 12, n));
        let ct: Vec<u8> = slice_to_vec(slice_subrange(blob.as_slice(), 0, n - 12));
        let payload = match aead_open_exec(key, &nonce, &ct) {
            Some(p) => p,
            None => { return Err(Fail::AuthenticationFailed) },
        };
        if payload.len() < 16 {
            return Err(Fail::ParseError);
        }
        let m = payload.len();
        let issued_at = u64_from_le_bytes(slice_subrange(payload.as_slice(), 0, 8));
        let expires_at = u64_from_le_bytes(slice_subrange(payload.as_slice(), 8, 16));
        let subject_bytes: Vec<u8> = slice_to_vec(slice_subrange(payload.as_slice(), 16, m));
        let ghost subject_view = subject_bytes@;
        let user_id = match string_from_utf8(subject_bytes) {
            Some(s) => s,
            None => { return Err(Fail::ParseError) },
        };
        proof {
            broadcast use encode_utf8_decode_utf8;

            assert(subject_view =~= payload@.subrange(16, payload@.len() as int));
            assert(decode_utf8(subject_view) == user_id@);
        }
        Ok(Token { user_id, issued_at, expires_at })
    }

    /// The user ID the token speaks for.
    pub fn get_user_id(&self) -> (r: &String)
        ensures
            r@ == self.user_id@,
    {
        &self.user_id
    }

    /// Whether the token is still live at the given clock reading.
    pub fn is_valid(&self, now: u64) -> (r: bool)
        ensures
            r == (now < self.expires_at),
    {
        now < self.expires_at
    }
}

/// Validates a token string at clock reading `now`: decodes, decrypts,
/// parses, checks expiry, and returns the subject.  The result is exactly
/// [`validate_spec`] of the inputs.
pub fn validate(token_str: &str, now: u64, key: &Vec<u8>) -> (r: Result<String, Fail>)
    requires
        key@.len() == 32,
    ensures
        r matches Ok(s) ==> validate_spec(token_str@, now, key@) == Ok::<Seq<char>, Fail>(s@),
        r matches Err(e) ==> validate_spec(token_str@, now, key@) == Err::<Seq<char>, Fail>(e),
{
    match verify_token(token_str, now, key) {
        Ok(token) => Ok(token.user_id),
        Err(e) => Err(e),
    }
}

/// Decrypts a token string and insists it is still live at `now`; the
/// decoded token is handed back for the caller to read.
pub fn verify_token(auth_token: &str, now: u64, key: &Vec<u8>) -> (r: Result<Token, Fail>)
    requires
        key@.len() == 32,
    ensures
        r matches Ok(t) ==> decode_spec(auth_token@, key@) == Ok::<_, Fail>(
            (t.issued_at, t.expires_at, t.user_id@),
        ) && now < t.expires_at,
        r matches Ok(t) ==> validate_spec(auth_token@, now, key@) == Ok::<Seq<char>, Fail>(
            t.user_id@,
        ),
        r matches Err(e) ==> validate_spec(auth_token@, now, key@) == Err::<Seq<char>, Fail>(e),
{
    let token = match Token::from_encrypted(auth_token, key) {
        Ok(t) => t,
        Err(e) => { return Err(e) },
    };
    if token.is_valid(now) {
        Ok(token)
    } else {
        Err(Fail::Expired)
    }
}

} // verus!

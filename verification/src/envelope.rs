//! The secret envelope: an at-rest-encrypted value (ciphertext-with-tag,
//! nonce and per-blob key) and its persistable byte form.
//!
//! The envelope carries its own freshly drawn 256-bit key next to the
//! ciphertext, as the stored identity keys do; the byte form is a plain
//! length-prefixed serialization proved to round-trip byte for byte.

use vstd::bytes::{
    lemma_auto_spec_u64_to_from_le_bytes, spec_u64_from_le_bytes, spec_u64_to_le_bytes,
    u64_from_le_bytes, u64_to_le_bytes,
};
use vstd::prelude::*;
use vstd::slice::{slice_subrange, slice_to_vec};

use crate::aead::{
    aead_open, aead_open_exec, aead_seal, aead_seal_exec, random_bytes, MAX_PLAINTEXT_BYTES,
};
use crate::errors::DecryptError;

verus! {

/// An at-rest-encrypted value: the sealed bytes, the nonce they were sealed
/// with, and the key they were sealed under.  Replaced wholesale on
/// rotation; never mutated in place.
#[derive(Debug, Clone)]
pub struct EncryptedValue {
    pub value: Vec<u8>,
    pub nonce: Vec<u8>,
    pub encryption_key: Vec<u8>,
}

impl EncryptedValue {
    /// What decrypting this envelope yields: `Malformed` when a field length
    /// is wrong, `AuthenticationFailed` when the tag does not verify, the
    /// plaintext otherwise.
    pub open spec fn decrypt_spec(&self) -> Result<Seq<u8>, DecryptError> {
        if self.encryption_key@.len() != 32 || self.nonce@.len() != 12 {
            Err(DecryptError::Malformed)
        } else {
            match aead_open(self.encryption_key@, self.nonce@, self.value@) {
                Option::None => Err(DecryptError::AuthenticationFailed),
                Option::Some(p) => Ok(p),
            }
        }
    }

    /// Seals `plaintext` under the given key and nonce; the envelope
    /// decrypts back to exactly `plaintext`.
    pub fn seal_bytes(plaintext: &Vec<u8>, key: Vec<u8>, nonce: Vec<u8>) -> (r: EncryptedValue)
        requires
            key@.len() == 32,
            nonce@.len() == 12,
            plaintext@.len() <= MAX_PLAINTEXT_BYTES,
        ensures
            r.value@ == aead_seal(key@, nonce@, plaintext@),
            r.value@.len() == plaintext@.len() + 16,
            r.nonce@ == nonce@,
            r.encryption_key@ == key@,
            r.decrypt_spec() == Ok::<Seq<u8>, DecryptError>(plaintext@),
    {
        let value = aead_seal_exec(&key, &nonce, plaintext);
        EncryptedValue { value, nonce, encryption_key: key }
    }

    /// Decrypts the envelope to the plaintext bytes; the result is exactly
    /// [`EncryptedValue::decrypt_spec`].
    pub fn decrypt_to_bytes(&self) -> (r: Result<Vec<u8>, DecryptError>)
        ensures
            r matches Ok(p) ==> self.decrypt_spec() == Ok::<Seq<u8>, DecryptError>(p@),
            r matches Err(e) ==> self.decrypt_spec() == Err::<Seq<u8>, DecryptError>(e),
    {
        if self.encryption_key.len() != 32 || self.nonce.len() != 12 {
            return Err(DecryptError::Malformed);
        }
        match aead_open_exec(&self.encryption_key, &self.nonce, &self.value) {
            Some(p) => Ok(p),
            None => Err(DecryptError::AuthenticationFailed),
        }
    }
}

/// Draws a fresh 256-bit identity secret and seals it under a fresh per-blob
/// key and nonce; the envelope decrypts to a 32-byte plaintext.
pub fn generate_secret_key() -> (r: EncryptedValue)
    ensures
        r.encryption_key@.len() == 32,
        r.nonce@.len() == 12,
        r.value@.len() == 48,
        r.decrypt_spec() matches Ok(p) && p.len() == 32,
{
    let secret = random_bytes(32);
    let key = random_bytes(32);
    let nonce = random_bytes(12);
    EncryptedValue::seal_bytes(&secret, key, nonce)
}

/// What recovering a stored identity key yields: the envelope's plaintext
/// when it is exactly 32 bytes, `Malformed` otherwise.
pub open spec fn decrypt_secret_key_spec(envelope: &EncryptedValue) -> Result<
    Seq<u8>,
    DecryptError,
> {
    match envelope.decrypt_spec() {
        Err(e) => Err(e),
        Ok(p) => if p.len() == 32 {
            Ok(p)
        } else {
            Err(DecryptError::Malformed)
        },
    }
}

/// Decrypts a stored identity key to its 32 plaintext bytes.
pub fn decrypt_secret_key(encrypted_secret_key: &EncryptedValue) -> (r: Result<
    Vec<u8>,
    DecryptError,
>)
    ensures
        r matches Ok(p) ==> decrypt_secret_key_spec(encrypted_secret_key) == Ok::<
            Seq<u8>,
            DecryptError,
        >(p@) && p@.len() == 32,
        r matches Err(e) ==> decrypt_secret_key_spec(encrypted_secret_key) == Err::<
            Seq<u8>,
            DecryptError,
        >(e),
{
    let bytes = match encrypted_secret_key.decrypt_to_bytes() {
        Ok(b) => b,
        Err(e) => { return Err(e) },
    };
    if bytes.len() != 32 {
        return Err(DecryptError::Malformed);
    }
    Ok(bytes)
}

/// The length-prefixed byte form of an envelope: each field as 8
/// little-endian length bytes followed by the field's bytes.
pub open spec fn encoded_spec(value: Seq<u8>, nonce: Seq<u8>, key: Seq<u8>) -> Seq<u8> {
    spec_u64_to_le_bytes(value.len() as u64) + value + spec_u64_to_le_bytes(nonce.len() as u64)
        + nonce + spec_u64_to_le_bytes(key.len() as u64) + key
}

/// One length-prefixed field starting at `start`: the field's bytes and the
/// position after them, or nothing when the bytes run out.
pub open spec fn take_field(b: Seq<u8>, start: int) -> Option<(Seq<u8>, int)> {
    if start + 8 > b.len() {
        Option::None
    } else {
        let n = spec_u64_from_le_bytes(b.subrange(start, start + 8));
        if start + 8 + n > b.len() {
            Option::None
        } else {
            Option::Some((b.subrange(start + 8, start + 8 + n), start + 8 + n))
        }
    }
}

/// What decoding a byte form yields: the three fields, provided the bytes
/// hold exactly three length-prefixed fields and nothing more.
pub open spec fn decoded_spec(b: Seq<u8>) -> Option<(Seq<u8>, Seq<u8>, Seq<u8>)> {
    match take_field(b, 0) {
        Option::None => Option::None,
        Option::Some((value, p1)) => match take_field(b, p1) {
            Option::None => Option::None,
            Option::Some((nonce, p2)) => match take_field(b, p2) {
                Option::None => Option::None,
                Option::Some((key, p3)) => if p3 == b.len() {
                    Option::Some((value, nonce, key))
                } else {
                    Option::None
                },
            },
        },
    }
}

/// The byte form round-trips byte for byte: decoding an encoded envelope
/// yields exactly its three fields.
pub proof fn lemma_envelope_round_trip(value: Seq<u8>, nonce: Seq<u8>, key: Seq<u8>)
    requires
        value.len() <= usize::MAX,
        nonce.len() <= usize::MAX,
        key.len() <= usize::MAX,
    ensures
        decoded_spec(encoded_spec(value, nonce, key)) == Option::Some((value, nonce, key)),
{
    lemma_auto_spec_u64_to_from_le_bytes();
    let b = encoded_spec(value, nonce, key);
    let p1 = 8 + value.len() as int;
    let p2 = p1 + 8 + nonce.len() as int;
    let p3 = p2 + 8 + key.len() as int;
    assert(b.subrange(0, 8) =~= spec_u64_to_le_bytes(value.len() as u64));
    assert(b.subrange(8, p1) =~= value);
    assert(take_field(b, 0) == Option::Some((value, p1)));
    assert(b.subrange(p1, p1 + 8) =~= spec_u64_to_le_bytes(nonce.len() as u64));
    assert(b.subrange(p1 + 8, p2) =~= nonce);
    assert(take_field(b, p1) == Option::Some((nonce, p2)));
    assert(b.subrange(p2, p2 + 8) =~= spec_u64_to_le_bytes(key.len() as u64));
    assert(b.subrange(p2 + 8, p3) =~= key);
    assert(take_field(b, p2) == Option::Some((key, p3)));
    assert(p3 == b.len());
}

/// The persistable form of an [`EncryptedValue`].
#[derive(Debug, Clone)]
pub struct EncryptedValueBincode {
    pub value: EncryptedValue,
}

/// Reads the length-prefixed field starting at `start`.
fn read_field(bytes: &Vec<u8>, start: usize) -> (r: Option<(Vec<u8>, usize)>)
    requires
        start <= bytes@.len(),
    ensures
        r matches Some(f) ==> take_field(bytes@, start as int) == Option::Some(
            (f.0@, f.1 as int),
        ) && start <= f.1 <= bytes@.len(),
        r is None ==> take_field(bytes@, start as int) is None,
{
    let n = bytes.len();
    if n - start < 8 {
        return None;
    }
    let len64 = u64_from_le_bytes(slice_subrange(bytes.as_slice(), start, start + 8));
    if len64 > (n - start - 8) as u64 {
        return None;
    }
    let field_len = len64 as usize;
    let field = slice_to_vec(slice_subrange(bytes.as_slice(), start + 8, start + 8 + field_len));
    Some((field, start + 8 + field_len))
}

impl EncryptedValueBincode {
    /// Serializes the envelope to its length-prefixed byte form.
    pub fn encode(&self) -> (r: Vec<u8>)
        ensures
            r@ == encoded_spec(self.value.value@, self.value.nonce@, self.value.encryption_key@),
    {
        let mut out = u64_to_le_bytes(self.value.value.len() as u64);
        out.extend_from_slice(self.value.value.as_slice());
        let mut nonce_len = u64_to_le_bytes(self.value.nonce.len() as u64);
        out.append(&mut nonce_len);
        out.extend_from_slice(self.value.nonce.as_slice());
        let mut key_len = u64_to_le_bytes(self.value.encryption_key.len() as u64);
        out.append(&mut key_len);
        out.extend_from_slice(self.value.encryption_key.as_slice());
        proof {
            assert(out@ =~= encoded_spec(
                self.value.value@,
                self.value.nonce@,
                self.value.encryption_key@,
            ));
        }
        out
    }

    /// Parses a length-prefixed byte form back into an envelope; the result
    /// is exactly [`decoded_spec`] of the bytes.
    pub fn decode(bytes: &Vec<u8>) -> (r: Option<EncryptedValueBincode>)
        ensures
            r matches Some(b) ==> decoded_spec(bytes@) == Option::Some(
                (b.value.value@, b.value.nonce@, b.value.encryption_key@),
            ),
            r is None ==> decoded_spec(bytes@) is None,
    {
        let (value, p1) = match read_field(bytes, 0) {
            Some(f) => f,
            None => { return None },
        };
        let (nonce, p2) = match read_field(bytes, p1) {
            Some(f) => f,
            None => { return None },
        };
        let (encryption_key, p3) = match read_field(bytes, p2) {
            Some(f) => f,
            None => { return None },
        };
        if p3 != bytes.len() {
            return None;
        }
        Some(EncryptedValueBincode { value: EncryptedValue { value, nonce, encryption_key } })
    }
}

} // verus!

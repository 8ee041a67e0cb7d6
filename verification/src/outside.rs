//! Trusted boundary of the library: declarations and thin wrappers around
//! the outside crates that do pure computation (serde_json, base64,
//! jsonwebtoken, bcrypt, aes-gcm).  Verus believes the contracts stated
//! here; everything else in the crate is verified against them.
//!
//! A JSON value is opaque to the verifier, so the accessors below carry no
//! postconditions; every decision taken on extracted data is re-checked by
//! verified code downstream.

use vstd::prelude::*;

verus! {

#[verifier::external_type_specification]
#[verifier::external_body]
pub struct ExValue(serde_json::Value);

/// Relies on `serde_json::from_str::<Value>`: parses a JSON document.
#[verifier::external_body]
pub fn json_parse(s: &str) -> Option<serde_json::Value> {
    serde_json::from_str(s).ok()
}

/// Relies on `serde_json::from_slice::<Value>`: parses a JSON document from
/// raw bytes.
#[verifier::external_body]
pub fn json_parse_bytes(b: &[u8]) -> Option<serde_json::Value> {
    serde_json::from_slice(b).ok()
}

/// Relies on `serde_json::Value::get`: looks a key up in a JSON object.
#[verifier::external_body]
pub fn json_get<'a>(v: &'a serde_json::Value, key: &str) -> Option<&'a serde_json::Value> {
    v.get(key)
}

/// Relies on `serde_json::Value::as_str`: the string content of a JSON
/// string value.
#[verifier::external_body]
pub fn json_as_str(v: &serde_json::Value) -> Option<String> {
    v.as_str().map(|s| s.to_owned())
}

/// Relies on `serde_json::Value::as_bool`: the content of a JSON boolean.
#[verifier::external_body]
pub fn json_as_bool(v: &serde_json::Value) -> Option<bool> {
    v.as_bool()
}

/// Relies on `serde_json::Value::as_u64`: the content of a JSON number
/// representable as `u64`.
#[verifier::external_body]
pub fn json_as_u64(v: &serde_json::Value) -> Option<u64> {
    v.as_u64()
}

/// Relies on `serde_json::Value::as_i64`: the content of a JSON number
/// representable as `i64`.
#[verifier::external_body]
pub fn json_as_i64(v: &serde_json::Value) -> Option<i64> {
    v.as_i64()
}

/// Relies on `serde_json::Value::as_array`: the elements of a JSON array.
#[verifier::external_body]
pub fn json_as_array<'a>(v: &'a serde_json::Value) -> Option<&'a Vec<serde_json::Value>> {
    v.as_array()
}

/// A Unicode scalar value: what a `char` can hold.
pub open spec fn valid_scalar(n: int) -> bool {
    (0 <= n && n < 0xD800) || (0xE000 <= n && n <= 0x10FFFF)
}

/// Relies on `char::from_u32`: `Some` exactly for Unicode scalar values
/// (surrogates and values above the maximum yield `None`).
#[verifier::external_body]
pub fn char_from_u32(v: u32) -> (r: Option<char>)
    ensures
        r == if valid_scalar(v as int) {
            Some((v as char))
        } else {
            None::<char>
        },
{
    char::from_u32(v)
}

/// What base64url (no padding) decoding yields for a character sequence.
pub uninterp spec fn b64url_bytes_of(s: Seq<char>) -> Option<Seq<u8>>;

/// Relies on base64's `Engine::decode` with the `URL_SAFE_NO_PAD` engine:
/// the result is a function of the input characters alone.
#[verifier::external_body]
pub fn b64url_decode(s: &str) -> (r: Option<Vec<u8>>)
    ensures
        r is Some <==> b64url_bytes_of(s@) is Some,
        r matches Some(b) ==> b64url_bytes_of(s@) == Some(b@),
{
    base64::Engine::decode(&base64::engine::general_purpose::URL_SAFE_NO_PAD, s).ok()
}

/// What standard base64 decoding yields for a character sequence.
pub uninterp spec fn b64std_bytes_of(s: Seq<char>) -> Option<Seq<u8>>;

/// Relies on base64's `Engine::decode` with the `STANDARD` engine: the
/// result is a function of the input characters alone.
#[verifier::external_body]
pub fn b64_decode(s: &str) -> (r: Option<Vec<u8>>)
    ensures
        r is Some <==> b64std_bytes_of(s@) is Some,
        r matches Some(b) ==> b64std_bytes_of(s@) == Some(b@),
{
    base64::Engine::decode(&base64::engine::general_purpose::STANDARD, s).ok()
}

/// What UTF-8 decoding yields for a byte sequence.
pub uninterp spec fn utf8_chars_of(b: Seq<u8>) -> Option<Seq<char>>;

/// Relies on `String::from_utf8`: succeeds exactly on valid UTF-8, and the
/// decoded characters are a function of the bytes alone.
#[verifier::external_body]
pub fn bytes_to_string(b: Vec<u8>) -> (r: Option<String>)
    ensures
        r is Some <==> utf8_chars_of(b@) is Some,
        r matches Some(s) ==> utf8_chars_of(b@) == Some(s@),
{
    String::from_utf8(b).ok()
}

/// Relies on `jsonwebtoken::decode` with algorithm RS256: verifies the
/// token's signature against the RSA key given by its base64url modulus and
/// exponent, checks expiry against the clock, and checks the token's
/// audience and issuer against the expected values; returns the claims on
/// success.  The key itself is built by `DecodingKey::from_rsa_components`.
/// The result depends on the clock, so nothing relates two calls; callers
/// re-check audience and issuer on the returned claims in verified code.
#[verifier::external_body]
pub fn rs256_decode(token: &str, n_b64: &str, e_b64: &str, aud: &str, iss: &str) -> Option<
    serde_json::Value,
> {
    let key = match jsonwebtoken::DecodingKey::from_rsa_components(n_b64, e_b64) {
        Ok(k) => k,
        Err(_) => return None,
    };
    let mut validation = jsonwebtoken::Validation::new(jsonwebtoken::Algorithm::RS256);
    validation.set_audience(&[aud]);
    validation.set_issuer(&[iss]);
    match jsonwebtoken::decode::<serde_json::Value>(token, &key, &validation) {
        Ok(d) => Some(d.claims),
        Err(_) => None,
    }
}

/// What HMAC-SHA-256 JWT signing yields for a claims document and secret.
pub uninterp spec fn hs256_jwt_of(claims_json: Seq<char>, secret: Seq<char>) -> Option<Seq<char>>;

/// Relies on `jsonwebtoken::encode` with algorithm HS256: signs the given
/// claims document (parsed back to a JSON value first) with the symmetric
/// secret.  Serialization of a parsed document and the HMAC signature are
/// functions of the inputs alone.
#[verifier::external_body]
pub fn hs256_sign(claims_json: &str, secret: &str) -> (r: Option<String>)
    ensures
        r is Some <==> hs256_jwt_of(claims_json@, secret@) is Some,
        r matches Some(t) ==> hs256_jwt_of(claims_json@, secret@) == Some(t@),
{
    let claims: serde_json::Value = match serde_json::from_str(claims_json) {
        Ok(v) => v,
        Err(_) => return None,
    };
    let header = jsonwebtoken::Header::new(jsonwebtoken::Algorithm::HS256);
    let key = jsonwebtoken::EncodingKey::from_secret(secret.as_bytes());
    jsonwebtoken::encode(&header, &claims, &key).ok()
}

/// Relies on `jsonwebtoken::decode` with algorithm HS256: verifies the
/// token against the symmetric secret and checks expiry against the clock;
/// returns the claims on success.  The result depends on the clock, so
/// nothing relates two calls.
#[verifier::external_body]
pub fn hs256_decode(token: &str, secret: &str) -> Option<serde_json::Value> {
    let key = jsonwebtoken::DecodingKey::from_secret(secret.as_bytes());
    let validation = jsonwebtoken::Validation::new(jsonwebtoken::Algorithm::HS256);
    match jsonwebtoken::decode::<serde_json::Value>(token, &key, &validation) {
        Ok(d) => Some(d.claims),
        Err(_) => None,
    }
}

/// Whether a password matches a bcrypt hash.
pub uninterp spec fn bcrypt_verifies(password: Seq<char>, hash: Seq<char>) -> bool;

/// Relies on `bcrypt::verify`: deterministic in the password and hash; a
/// malformed hash counts as a mismatch.
#[verifier::external_body]
pub fn bcrypt_verify(password: &str, hash: &str) -> (r: bool)
    ensures
        r == bcrypt_verifies(password@, hash@),
{
    bcrypt::verify(password, hash).unwrap_or(false)
}

/// What AES-256-GCM decryption yields for a key, nonce and ciphertext (the
/// ciphertext carries its authentication tag).
pub uninterp spec fn aes256gcm_plain_of(key: Seq<u8>, nonce: Seq<u8>, ct: Seq<u8>) -> Option<
    Seq<u8>,
>;

/// Relies on aes-gcm's `Aead::decrypt` for AES-256-GCM: deterministic in
/// key, nonce and ciphertext; fails on any forgery or wrong key.  The key
/// and nonce slices must have the exact width the cipher expects.
#[verifier::external_body]
pub fn aes256gcm_decrypt(key: &[u8], nonce: &[u8], ct: &[u8]) -> (r: Option<Vec<u8>>)
    requires
        key@.len() == 32,
        nonce@.len() == 12,
    ensures
        r is Some <==> aes256gcm_plain_of(key@, nonce@, ct@) is Some,
        r matches Some(p) ==> aes256gcm_plain_of(key@, nonce@, ct@) == Some(p@),
{
    let cipher = <aes_gcm::Aes256Gcm as aes_gcm::KeyInit>::new(
        aes_gcm::Key::<aes_gcm::Aes256Gcm>::from_slice(key),
    );
    aes_gcm::aead::Aead::decrypt(&cipher, aes_gcm::Nonce::from_slice(nonce), ct).ok()
}

} // verus!

//! JWKS key resolution: parsing a fetched key-set document, extracting the
//! header fields of a token, deriving the tenant-specific JWKS URL from the
//! token's unverified issuer claim, and selecting candidate signing keys.
//!
//! Only RSA keys with both modulus and exponent present are attempted;
//! malformed keys are skipped, never fatal.  A JWKS document without a
//! `keys` array is fatal.

use vstd::prelude::*;
use vstd::string::*;
use crate::errors::AuthError;
use crate::models::TokenClaimSet;
use crate::outside::{json_parse, json_parse_bytes, json_get, json_as_str, json_as_bool,
    json_as_array, b64url_decode};
use crate::textutil::{clone_opt_string, split3, str_eq, two_sep_decomp};

verus! {

/// One key of a JWKS document, with exactly the fields the gateway reads.
/// A field is `None` when it is absent or not a JSON string.
#[derive(Clone, Debug)]
pub struct JwkRecord {
    /// Key id.
    pub kid: Option<String>,
    /// Key type; only `"RSA"` keys are usable.
    pub kty: Option<String>,
    /// Base64url modulus.
    pub n: Option<String>,
    /// Base64url exponent.
    pub e: Option<String>,
    /// Declared algorithm, if any.
    pub alg: Option<String>,
}

/// A key that may be attempted: RSA with modulus and exponent present.
pub open spec fn usable_key(k: JwkRecord) -> bool {
    &&& k.kty matches Some(t) && t@ == "RSA"@
    &&& k.n is Some
    &&& k.e is Some
}

/// The key's id equals `kid`.
pub open spec fn kid_matches(k: JwkRecord, kid: Seq<char>) -> bool {
    k.kid matches Some(s) && s@ == kid
}

pub fn is_usable_key(k: &JwkRecord) -> (r: bool)
    ensures
        r == usable_key(*k),
{
    match &k.kty {
        Some(t) => str_eq(t.as_str(), "RSA") && k.n.is_some() && k.e.is_some(),
        None => false,
    }
}

/// String field of a JSON object, owned.
pub(crate) fn get_str_field(v: &serde_json::Value, key: &str) -> Option<String> {
    match json_get(v, key) {
        Some(x) => json_as_str(x),
        None => None,
    }
}

/// Boolean field of a JSON object.
pub(crate) fn get_bool_field(v: &serde_json::Value, key: &str) -> Option<bool> {
    match json_get(v, key) {
        Some(x) => json_as_bool(x),
        None => None,
    }
}

/// Parses a fetched JWKS document into key records.  Fails only when the
/// document is not JSON or holds no `keys` array; individual keys with
/// missing fields are kept (with `None` fields) and skipped later.
pub fn parse_jwks(body: &str) -> (r: Result<Vec<JwkRecord>, AuthError>)
    ensures
        r matches Err(e) ==> e == AuthError::KeyResolutionFailure,
{
    let doc = match json_parse(body) {
        Some(v) => v,
        None => {
            return Err(AuthError::KeyResolutionFailure);
        },
    };
    let keys_val = match json_get(&doc, "keys") {
        Some(v) => v,
        None => {
            return Err(AuthError::KeyResolutionFailure);
        },
    };
    let arr = match json_as_array(keys_val) {
        Some(a) => a,
        None => {
            return Err(AuthError::KeyResolutionFailure);
        },
    };
    let mut out: Vec<JwkRecord> = Vec::new();
    let n = arr.len();
    let mut i: usize = 0;
    while i < n
        invariant
            n == arr@.len(),
            i <= n,
        decreases n - i,
    {
        let k = &arr[i];
        out.push(
            JwkRecord {
                kid: get_str_field(k, "kid"),
                kty: get_str_field(k, "kty"),
                n: get_str_field(k, "n"),
                e: get_str_field(k, "e"),
                alg: get_str_field(k, "alg"),
            },
        );
        i = i + 1;
    }
    Ok(out)
}

/// Extracts the claims the gateway reads from a decoded claims document.
pub fn extract_claim_set(v: &serde_json::Value) -> TokenClaimSet {
    TokenClaimSet {
        aud: get_str_field(v, "aud"),
        iss: get_str_field(v, "iss"),
        sub: get_str_field(v, "sub"),
        oid: get_str_field(v, "oid"),
        upn: get_str_field(v, "upn"),
        preferred_username: get_str_field(v, "preferred_username"),
        email: get_str_field(v, "email"),
        email_verified: get_bool_field(v, "email_verified"),
    }
}

/// Reads a string field at the top level of a JSON document.
pub fn body_str_field(body: &str, key: &str) -> Option<String> {
    match json_parse(body) {
        Some(doc) => get_str_field(&doc, key),
        None => None,
    }
}

/// Decodes (without verifying) one base64url segment of a token and reads a
/// string field of it.
fn token_segment_str_field(segment: &str, key: &str) -> Option<String> {
    let bytes = match b64url_decode(segment) {
        Some(b) => b,
        None => {
            return None;
        },
    };
    let doc = match json_parse_bytes(bytes.as_slice()) {
        Some(v) => v,
        None => {
            return None;
        },
    };
    get_str_field(&doc, key)
}

/// Reads a string field of the token's (unverified) header.
pub fn token_header_field(token: &str, key: &str) -> (r: Option<String>)
    ensures
        r is Some ==> two_sep_decomp(token@, '.'),
{
    match split3(token, '.') {
        Some(parts) => token_segment_str_field(parts.0.as_str(), key),
        None => None,
    }
}

/// Reads a string field of the token's (unverified) payload.
pub fn token_payload_field(token: &str, key: &str) -> (r: Option<String>)
    ensures
        r is Some ==> two_sep_decomp(token@, '.'),
{
    match split3(token, '.') {
        Some(parts) => token_segment_str_field(parts.1.as_str(), key),
        None => None,
    }
}

/// The issuer claim of a Microsoft token, read from the unverified payload
/// to build the tenant-specific JWKS discovery URL.
pub fn ms_token_issuer(token: &str) -> (r: Result<String, AuthError>)
    ensures
        r is Ok ==> two_sep_decomp(token@, '.'),
        r matches Err(e) ==> e == AuthError::MalformedToken,
{
    match token_payload_field(token, "iss") {
        Some(iss) => Ok(iss),
        None => Err(AuthError::MalformedToken),
    }
}

/// The tenant-specific JWKS discovery URL of an issuer.
pub fn ms_jwks_url(iss: &str) -> (r: String)
    ensures
        r@ == iss@ + "/discovery/v2.0/keys"@,
{
    let base: String = iss.to_owned();
    base.concat("/discovery/v2.0/keys")
}

/// First key whose id equals `kid`.
pub fn find_jwk_by_kid(keys: &Vec<JwkRecord>, kid: &str) -> (r: Option<usize>)
    ensures
        r matches Some(i) ==> i < keys@.len() && kid_matches(keys@[i as int], kid@) && (forall|
            j: int,
        | 0 <= j < i ==> !kid_matches(#[trigger] keys@[j], kid@)),
        r is None ==> forall|j: int| 0 <= j < keys@.len() ==> !kid_matches(#[trigger] keys@[j], kid@),
{
    let n = keys.len();
    let mut i: usize = 0;
    while i < n
        invariant
            n == keys@.len(),
            i <= n,
            forall|j: int| 0 <= j < i ==> !kid_matches(#[trigger] keys@[j], kid@),
        decreases n - i,
    {
        let matched = match &keys[i].kid {
            Some(s) => str_eq(s.as_str(), kid),
            None => false,
        };
        if matched {
            return Some(i);
        }
        i = i + 1;
    }
    None
}

/// Resolves the signing key a token asks for: reads `kid` and `alg` from
/// the token header, parses the key set, and returns the matching key.
///
/// Errors: a header that cannot be decoded or lacks `kid` is a malformed
/// token; an algorithm other than RS256, or a key id absent from the set,
/// means no candidate key can verify the token; a matching key without
/// modulus or exponent leaves the set without a usable key.
pub fn get_decoding_key(jwks_body: &str, token: &str) -> (r: Result<JwkRecord, AuthError>)
    ensures
        r matches Ok(k) ==> usable_key(k),
        r matches Err(e) ==> (e == AuthError::MalformedToken || e == AuthError::SignatureInvalid
            || e == AuthError::KeyResolutionFailure),
{
    let kid = match token_header_field(token, "kid") {
        Some(k) => k,
        None => {
            return Err(AuthError::MalformedToken);
        },
    };
    let alg = match token_header_field(token, "alg") {
        Some(a) => a,
        None => {
            return Err(AuthError::MalformedToken);
        },
    };
    if !str_eq(alg.as_str(), "RS256") {
        return Err(AuthError::SignatureInvalid);
    }
    let keys = match parse_jwks(jwks_body) {
        Ok(k) => k,
        Err(e) => {
            return Err(e);
        },
    };
    let idx = match find_jwk_by_kid(&keys, kid.as_str()) {
        Some(i) => i,
        None => {
            return Err(AuthError::SignatureInvalid);
        },
    };
    let k = &keys[idx];
    if is_usable_key(k) {
        Ok(clone_jwk(k))
    } else {
        Err(AuthError::KeyResolutionFailure)
    }
}

/// Clone of a key record, preserving the value.
pub fn clone_jwk(k: &JwkRecord) -> (r: JwkRecord)
    ensures
        r == *k,
{
    JwkRecord {
        kid: clone_opt_string(&k.kid),
        kty: clone_opt_string(&k.kty),
        n: clone_opt_string(&k.n),
        e: clone_opt_string(&k.e),
        alg: clone_opt_string(&k.alg),
    }
}

} // verus!

//! Google OAuth validation.
//!
//! The auth code is exchanged for an ID token at Google's token endpoint by
//! the caller (network); this module builds the exchange request, reads the
//! exchange response, and validates the returned ID token against Google's
//! fixed JWKS and issuer.  A verified signature alone is not enough: the
//! token's `email_verified` claim must be `true`.

use vstd::prelude::*;
use vstd::string::*;
use crate::errors::AuthError;
use crate::jwks::{get_decoding_key, extract_claim_set};
use crate::models::TokenClaimSet;
use crate::outside::rs256_decode;
use crate::textutil::{str_eq, clone_opt_string};

verus! {

/// Google's fixed JWKS endpoint.
pub fn google_jwks_url() -> (r: &'static str)
    ensures
        r@ == "https://www.googleapis.com/oauth2/v3/certs"@,
{
    "https://www.googleapis.com/oauth2/v3/certs"
}

/// Google's fixed token endpoint, where the auth code is exchanged.
pub fn google_token_url() -> (r: &'static str)
    ensures
        r@ == "https://oauth2.googleapis.com/token"@,
{
    "https://oauth2.googleapis.com/token"
}

/// Google's fixed issuer string.
pub fn google_issuer() -> (r: &'static str)
    ensures
        r@ == "https://accounts.google.com"@,
{
    "https://accounts.google.com"
}

/// The exact form of the auth-code exchange request
/// (`grant_type=authorization_code`).
pub open spec fn spec_exchange_params(
    params: Seq<(String, String)>,
    code: Seq<char>,
    redirect_uri: Seq<char>,
    client_id: Seq<char>,
    client_secret: Seq<char>,
) -> bool {
    &&& params.len() == 5
    &&& params[0].0@ == "code"@ && params[0].1@ == code
    &&& params[1].0@ == "client_id"@ && params[1].1@ == client_id
    &&& params[2].0@ == "client_secret"@ && params[2].1@ == client_secret
    &&& params[3].0@ == "redirect_uri"@ && params[3].1@ == redirect_uri
    &&& params[4].0@ == "grant_type"@ && params[4].1@ == "authorization_code"@
}

/// The form parameters of the auth-code exchange request
/// (`grant_type=authorization_code`).
pub fn google_token_request_params(
    code: &str,
    redirect_uri: &str,
    client_id: &str,
    client_secret: &str,
) -> (r: Vec<(String, String)>)
    ensures
        spec_exchange_params(r@, code@, redirect_uri@, client_id@, client_secret@),
{
    let mut params: Vec<(String, String)> = Vec::new();
    params.push(("code".to_owned(), code.to_owned()));
    params.push(("client_id".to_owned(), client_id.to_owned()));
    params.push(("client_secret".to_owned(), client_secret.to_owned()));
    params.push(("redirect_uri".to_owned(), redirect_uri.to_owned()));
    params.push(("grant_type".to_owned(), "authorization_code".to_owned()));
    params
}

/// Reads the `id_token` field of the exchange response body.  A body
/// without one cannot prove any identity.
pub fn parse_token_response(body: &str) -> (r: Result<String, AuthError>)
    ensures
        r matches Err(e) ==> e == AuthError::MalformedToken,
{
    match crate::jwks::body_str_field(body, "id_token") {
        Some(t) => Ok(t),
        None => Err(AuthError::MalformedToken),
    }
}

/// The claims carry exactly the expected audience (Google: the bare client
/// id) and Google's fixed issuer.
pub open spec fn google_aud_iss_ok(c: TokenClaimSet, client_id: Seq<char>) -> bool {
    &&& c.aud matches Some(a) && a@ == client_id
    &&& c.iss matches Some(i) && i@ == "https://accounts.google.com"@
}

/// All claims a Google identity needs are present, with non-empty identity
/// fields.
pub open spec fn google_claims_present(c: TokenClaimSet) -> bool {
    &&& c.email matches Some(e) && e@.len() > 0
    &&& c.sub matches Some(s) && s@.len() > 0
    &&& c.email_verified is Some
}

/// Verified acceptance of decoded Google claims: audience and issuer are
/// re-checked, the required claims must be present, and the e-mail must be
/// verified — a valid signature with `email_verified: false` is rejected.
pub fn google_accept(c: &TokenClaimSet, client_id: &str) -> (r: Result<
    (String, String),
    AuthError,
>)
    ensures
        r is Ok <==> google_aud_iss_ok(*c, client_id@) && google_claims_present(*c)
            && c.email_verified == Some(true),
        r matches Ok(p) ==> c.email == Some(p.0) && c.sub == Some(p.1) && p.0@.len() > 0
            && p.1@.len() > 0,
        !google_aud_iss_ok(*c, client_id@) ==> r == Err::<(String, String), AuthError>(
            AuthError::AudienceOrIssuerMismatch,
        ),
        google_aud_iss_ok(*c, client_id@) && !google_claims_present(*c) ==> r == Err::<
            (String, String),
            AuthError,
        >(AuthError::MalformedToken),
        google_aud_iss_ok(*c, client_id@) && google_claims_present(*c) && c.email_verified == Some(
            false,
        ) ==> r == Err::<(String, String), AuthError>(AuthError::EmailNotVerified),
        r matches Err(e) ==> (e == AuthError::AudienceOrIssuerMismatch || e
            == AuthError::MalformedToken || e == AuthError::EmailNotVerified),
{
    let aud_matches = match &c.aud {
        Some(a) => str_eq(a.as_str(), client_id),
        None => false,
    };
    let iss_matches = match &c.iss {
        Some(i) => str_eq(i.as_str(), google_issuer()),
        None => false,
    };
    if !aud_matches || !iss_matches {
        return Err(AuthError::AudienceOrIssuerMismatch);
    }
    let email = match clone_opt_string(&c.email) {
        Some(e) => e,
        None => {
            return Err(AuthError::MalformedToken);
        },
    };
    if email.as_str().unicode_len() == 0 {
        return Err(AuthError::MalformedToken);
    }
    let sub = match clone_opt_string(&c.sub) {
        Some(s) => s,
        None => {
            return Err(AuthError::MalformedToken);
        },
    };
    if sub.as_str().unicode_len() == 0 {
        return Err(AuthError::MalformedToken);
    }
    let verified = match &c.email_verified {
        Some(v) => *v,
        None => {
            return Err(AuthError::MalformedToken);
        },
    };
    if !verified {
        return Err(AuthError::EmailNotVerified);
    }
    Ok((email, sub))
}

/// Validates a Google ID token against the fetched JWKS document: resolves
/// the signing key by the token's `kid`, verifies the signature, audience
/// (the bare client id) and issuer, then applies [`google_accept`].
pub fn validate_google_id_token(id_token: &str, jwks_body: &str, client_id: &str) -> (r: Result<
    (String, String),
    AuthError,
>)
    ensures
        r matches Err(e) ==> (e == AuthError::MalformedToken || e == AuthError::KeyResolutionFailure
            || e == AuthError::SignatureInvalid || e == AuthError::AudienceOrIssuerMismatch
            || e == AuthError::EmailNotVerified),
        r matches Ok(p) ==> p.0@.len() > 0 && p.1@.len() > 0,
{
    let key = match get_decoding_key(jwks_body, id_token) {
        Ok(k) => k,
        Err(e) => {
            return Err(e);
        },
    };
    let n_b64 = match &key.n {
        Some(x) => x.as_str(),
        None => "",
    };
    let e_b64 = match &key.e {
        Some(x) => x.as_str(),
        None => "",
    };
    let claims_doc = match rs256_decode(id_token, n_b64, e_b64, client_id, google_issuer()) {
        Some(v) => v,
        None => {
            return Err(AuthError::SignatureInvalid);
        },
    };
    let claims = extract_claim_set(&claims_doc);
    google_accept(&claims, client_id)
}

} // verus!

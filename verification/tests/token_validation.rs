use authgate::config::DomainPolicy;
use authgate::errors::AuthError;
use authgate::google::{google_accept, validate_google_id_token};
use authgate::jwks::{find_jwk_by_kid, get_decoding_key, ms_jwks_url, ms_token_issuer, parse_jwks};
use authgate::microsoft::{expected_audience_uri, ms_accept, validate_microsoft_token};
use authgate::models::TokenClaimSet;
use base64::Engine;
use rand::SeedableRng;
use rsa::pkcs1::EncodeRsaPrivateKey;
use rsa::traits::PublicKeyParts;

const MS_ISS: &str = "https://login.microsoftonline.com/tenant-1/v2.0";
const FAR_EXP: u64 = 9999999999;

struct TestKey {
    enc: jsonwebtoken::EncodingKey,
    n_b64: String,
    e_b64: String,
}

fn make_key(seed: u64) -> TestKey {
    let mut rng = rand::rngs::StdRng::seed_from_u64(seed);
    let key = rsa::RsaPrivateKey::new(&mut rng, 2048).expect("keygen");
    let der = key.to_pkcs1_der().expect("der");
    let enc = jsonwebtoken::EncodingKey::from_rsa_der(der.as_bytes());
    let url = base64::engine::general_purpose::URL_SAFE_NO_PAD;
    TestKey {
        enc,
        n_b64: url.encode(key.n().to_bytes_be()),
        e_b64: url.encode(key.e().to_bytes_be()),
    }
}

fn sign_rs256(key: &TestKey, kid: &str, claims_json: &str) -> String {
    let mut header = jsonwebtoken::Header::new(jsonwebtoken::Algorithm::RS256);
    header.kid = Some(kid.to_string());
    let claims: serde_json::Value = serde_json::from_str(claims_json).unwrap();
    jsonwebtoken::encode(&header, &claims, &key.enc).unwrap()
}

fn jwk_entry(kid: &str, key: &TestKey) -> String {
    format!(
        "{{\"kty\":\"RSA\",\"kid\":\"{}\",\"n\":\"{}\",\"e\":\"{}\",\"alg\":\"RS256\"}}",
        kid, key.n_b64, key.e_b64
    )
}

fn ms_claims(aud: &str, upn: &str, oid: &str) -> String {
    format!(
        "{{\"iss\":\"{}\",\"aud\":\"{}\",\"exp\":{},\"upn\":\"{}\",\"oid\":\"{}\"}}",
        MS_ISS, aud, FAR_EXP, upn, oid
    )
}

fn corp_policy() -> DomainPolicy {
    DomainPolicy::new(&vec!["riycorp.com".to_string()], &vec![])
}

#[test]
fn jwks_parsing_skips_malformed_keys() {
    let body = "{\"keys\":[{\"kty\":\"EC\",\"kid\":\"e1\"},{\"kty\":\"RSA\",\"kid\":\"r1\",\"n\":\"AA\",\"e\":\"AQAB\"},{\"kty\":\"RSA\",\"kid\":\"r2\"}]}";
    let keys = parse_jwks(body).unwrap();
    assert_eq!(keys.len(), 3);
    assert_eq!(find_jwk_by_kid(&keys, "r1"), Some(1));
    assert_eq!(find_jwk_by_kid(&keys, "nope"), None);
    assert!(matches!(parse_jwks("{\"nokeys\":1}"), Err(AuthError::KeyResolutionFailure)));
    assert!(matches!(parse_jwks("not json"), Err(AuthError::KeyResolutionFailure)));
}

#[test]
fn issuer_extraction_and_discovery_url() {
    let key = make_key(1);
    let token = sign_rs256(&key, "k1", &ms_claims("api://client-123", "alice@riycorp.com", "o-1"));
    let iss = ms_token_issuer(&token).unwrap();
    assert_eq!(iss, MS_ISS);
    assert_eq!(
        ms_jwks_url(&iss),
        format!("{}/discovery/v2.0/keys", MS_ISS)
    );
    assert!(matches!(ms_token_issuer("no-dots"), Err(AuthError::MalformedToken)));
    assert!(matches!(ms_token_issuer("a.b.c"), Err(AuthError::MalformedToken)));
}

#[test]
fn microsoft_token_accepted_end_to_end() {
    let key = make_key(2);
    let token = sign_rs256(&key, "k1", &ms_claims("api://client-123", "alice@riycorp.com", "o-1"));
    let jwks = format!("{{\"keys\":[{}]}}", jwk_entry("k1", &key));
    let r = validate_microsoft_token(&token, &jwks, "client-123", &corp_policy()).unwrap();
    assert_eq!(r.0, "alice@riycorp.com");
    assert_eq!(r.1, "o-1");
}

#[test]
fn key_fallback_succeeds_whatever_the_position() {
    // only the second of two RSA keys verifies the token
    let wrong = make_key(3);
    let right = make_key(4);
    let token = sign_rs256(&right, "kr", &ms_claims("api://client-123", "alice@riycorp.com", "o-1"));
    let jwks = format!(
        "{{\"keys\":[{},{},{}]}}",
        "{\"kty\":\"EC\",\"kid\":\"skip-me\"}",
        jwk_entry("kw", &wrong),
        jwk_entry("kr", &right)
    );
    let r = validate_microsoft_token(&token, &jwks, "client-123", &corp_policy()).unwrap();
    assert_eq!(r.0, "alice@riycorp.com");
    // and fails only when no key verifies
    let jwks_none = format!("{{\"keys\":[{}]}}", jwk_entry("kw", &wrong));
    assert!(matches!(
        validate_microsoft_token(&token, &jwks_none, "client-123", &corp_policy()),
        Err(AuthError::SignatureInvalid)
    ));
}

#[test]
fn bare_client_id_audience_is_rejected() {
    // end to end: valid signature, aud equal to the bare client id
    let key = make_key(5);
    let token = sign_rs256(&key, "k1", &ms_claims("client-123", "alice@riycorp.com", "o-1"));
    let jwks = format!("{{\"keys\":[{}]}}", jwk_entry("k1", &key));
    assert!(validate_microsoft_token(&token, &jwks, "client-123", &corp_policy()).is_err());
}

#[test]
fn bare_client_id_audience_unit_check() {
    // on the verified re-check: the claims echo the bare client id
    let claims = TokenClaimSet {
        aud: Some("client-123".to_string()),
        iss: Some(MS_ISS.to_string()),
        sub: None,
        oid: Some("o-1".to_string()),
        upn: Some("alice@riycorp.com".to_string()),
        preferred_username: None,
        email: None,
        email_verified: None,
    };
    let expected = expected_audience_uri("client-123");
    assert_eq!(expected, "api://client-123");
    assert!(matches!(
        ms_accept(&claims, &expected, MS_ISS, &corp_policy()),
        Err(AuthError::AudienceOrIssuerMismatch)
    ));
}

#[test]
fn microsoft_domain_gate_rejects_foreign_domain() {
    let key = make_key(6);
    let token = sign_rs256(&key, "k1", &ms_claims("api://client-123", "bob@elsewhere.net", "o-2"));
    let jwks = format!("{{\"keys\":[{}]}}", jwk_entry("k1", &key));
    assert!(matches!(
        validate_microsoft_token(&token, &jwks, "client-123", &corp_policy()),
        Err(AuthError::DomainNotAuthorized)
    ));
}

#[test]
fn microsoft_prefers_upn_and_oid_but_falls_back() {
    let claims = TokenClaimSet {
        aud: Some("api://c".to_string()),
        iss: Some(MS_ISS.to_string()),
        sub: Some("s-1".to_string()),
        oid: None,
        upn: None,
        preferred_username: Some("pref@riycorp.com".to_string()),
        email: None,
        email_verified: None,
    };
    let r = ms_accept(&claims, "api://c", MS_ISS, &corp_policy()).unwrap();
    assert_eq!(r.0, "pref@riycorp.com");
    assert_eq!(r.1, "s-1");
    // both identity claims absent: malformed
    let empty = TokenClaimSet {
        aud: Some("api://c".to_string()),
        iss: Some(MS_ISS.to_string()),
        sub: None,
        oid: None,
        upn: None,
        preferred_username: None,
        email: None,
        email_verified: None,
    };
    assert!(matches!(
        ms_accept(&empty, "api://c", MS_ISS, &corp_policy()),
        Err(AuthError::MalformedToken)
    ));
}

fn google_claims(aud: &str, email: &str, verified: bool) -> String {
    format!(
        "{{\"iss\":\"https://accounts.google.com\",\"aud\":\"{}\",\"exp\":{},\"sub\":\"g-sub-1\",\"email\":\"{}\",\"email_verified\":{}}}",
        aud, FAR_EXP, email, verified
    )
}

#[test]
fn google_id_token_accepted() {
    let key = make_key(7);
    let token = sign_rs256(&key, "g1", &google_claims("gcid", "bob@gmail.com", true));
    let jwks = format!("{{\"keys\":[{}]}}", jwk_entry("g1", &key));
    let r = validate_google_id_token(&token, &jwks, "gcid").unwrap();
    assert_eq!(r.0, "bob@gmail.com");
    assert_eq!(r.1, "g-sub-1");
}

#[test]
fn google_unverified_email_rejected() {
    // valid signature, email_verified false
    let key = make_key(8);
    let token = sign_rs256(&key, "g1", &google_claims("gcid", "bob@gmail.com", false));
    let jwks = format!("{{\"keys\":[{}]}}", jwk_entry("g1", &key));
    assert!(matches!(
        validate_google_id_token(&token, &jwks, "gcid"),
        Err(AuthError::EmailNotVerified)
    ));
}

#[test]
fn google_unverified_email_unit_check() {
    let claims = TokenClaimSet {
        aud: Some("gcid".to_string()),
        iss: Some("https://accounts.google.com".to_string()),
        sub: Some("g-sub-1".to_string()),
        oid: None,
        upn: None,
        preferred_username: None,
        email: Some("bob@gmail.com".to_string()),
        email_verified: Some(false),
    };
    assert!(matches!(google_accept(&claims, "gcid"), Err(AuthError::EmailNotVerified)));
    let mut ok = claims;
    ok.email_verified = Some(true);
    let r = google_accept(&ok, "gcid").unwrap();
    assert_eq!(r.0, "bob@gmail.com");
    assert_eq!(r.1, "g-sub-1");
}

#[test]
fn google_wrong_audience_rejected() {
    let key = make_key(9);
    let token = sign_rs256(&key, "g1", &google_claims("other-client", "bob@gmail.com", true));
    let jwks = format!("{{\"keys\":[{}]}}", jwk_entry("g1", &key));
    assert!(validate_google_id_token(&token, &jwks, "gcid").is_err());
}

#[test]
fn decoding_key_resolution_by_kid() {
    let key = make_key(10);
    let token = sign_rs256(&key, "kid-a", &google_claims("gcid", "bob@gmail.com", true));
    let jwks = format!("{{\"keys\":[{}]}}", jwk_entry("kid-a", &key));
    let k = get_decoding_key(&jwks, &token).unwrap();
    assert_eq!(k.kid.as_deref(), Some("kid-a"));
    // unknown kid: no candidate key can verify
    let other = format!("{{\"keys\":[{}]}}", jwk_entry("kid-b", &key));
    assert!(matches!(get_decoding_key(&other, &token), Err(AuthError::SignatureInvalid)));
    // malformed token header
    assert!(matches!(get_decoding_key(&jwks, "x.y"), Err(AuthError::MalformedToken)));
}

//! Microsoft (MSAL / Entra ID) token validation.
//!
//! The caller fetches the tenant-specific JWKS document (its URL comes from
//! [`crate::jwks::ms_token_issuer`] and [`crate::jwks::ms_jwks_url`]) and
//! hands its body here.  Validation tries every usable RSA key of the set
//! until one verifies — a deliberate resilience measure against
//! key-rotation races — then re-checks audience and issuer on the returned
//! claims in verified code, extracts the identity pair and enforces the
//! domain allowlist.

use vstd::prelude::*;
use vstd::string::*;
use crate::config::DomainPolicy;
use crate::errors::AuthError;
use crate::jwks::{JwkRecord, parse_jwks, usable_key, is_usable_key, extract_claim_set,
    ms_token_issuer};
use crate::models::TokenClaimSet;
use crate::outside::rs256_decode;
use crate::textutil::{clone_opt_string, domain_of, email_domain, two_sep_decomp};

verus! {

/// The claims carry exactly the expected audience.
pub open spec fn aud_ok(c: TokenClaimSet, expected_aud: Seq<char>) -> bool {
    c.aud matches Some(a) && a@ == expected_aud
}

/// The claims carry exactly the expected issuer.
pub open spec fn iss_ok(c: TokenClaimSet, expected_iss: Seq<char>) -> bool {
    c.iss matches Some(i) && i@ == expected_iss
}

/// The e-mail of a Microsoft token: `upn` if present, else
/// `preferred_username`.
pub open spec fn ms_email_of(c: TokenClaimSet) -> Option<String> {
    if c.upn is Some {
        c.upn
    } else {
        c.preferred_username
    }
}

/// The stable subject of a Microsoft token: `oid` if present, else `sub`.
pub open spec fn ms_uid_of(c: TokenClaimSet) -> Option<String> {
    if c.oid is Some {
        c.oid
    } else {
        c.sub
    }
}

/// The audience URI Microsoft access tokens of this application carry:
/// `api://{client_id}`, never the bare client id.
pub fn expected_audience_uri(client_id: &str) -> (r: String)
    ensures
        r@ == "api://"@ + client_id@,
{
    let base: String = "api://".to_owned();
    base.concat(client_id)
}

/// A token whose audience is the bare client id does not match the expected
/// `api://{client_id}` URI, whatever the rest of the claims say.
pub proof fn lemma_audience_exactness(c: TokenClaimSet, client_id: Seq<char>)
    requires
        c.aud matches Some(a) && a@ == client_id,
    ensures
        !aud_ok(c, "api://"@ + client_id),
{
    reveal_strlit("api://");
    assert(("api://"@ + client_id).len() == 6 + client_id.len());
}

/// First successful outcome of the per-key validation attempts.
pub open spec fn spec_first_success(s: Seq<Option<TokenClaimSet>>) -> Option<TokenClaimSet>
    decreases s.len(),
{
    if s.len() == 0 {
        None
    } else if s[0] is Some {
        s[0]
    } else {
        spec_first_success(s.drop_first())
    }
}

/// Characterization of the fallback policy: it succeeds exactly when some
/// attempt succeeded, and returns the first success.
pub proof fn lemma_first_success(s: Seq<Option<TokenClaimSet>>)
    ensures
        spec_first_success(s) is Some <==> exists|i: int| 0 <= i < s.len() && #[trigger] s[i]
            is Some,
        spec_first_success(s) is Some ==> exists|i: int|
            0 <= i < s.len() && #[trigger] s[i] == spec_first_success(s) && (forall|j: int|
                0 <= j < i ==> s[j] is None),
    decreases s.len(),
{
    if s.len() == 0 {
    } else if s[0] is Some {
        assert(s[0] == spec_first_success(s));
    } else {
        lemma_first_success(s.drop_first());
        let rest = s.drop_first();
        if spec_first_success(s) is Some {
            let i = choose|i: int|
                0 <= i < rest.len() && #[trigger] rest[i] == spec_first_success(rest) && (forall|
                    j: int,
                |
                    0 <= j < i ==> rest[j] is None);
            assert(s[i + 1] == rest[i]);
            assert(forall|j: int| 0 <= j < i + 1 ==> s[j] is None) by {
                assert(forall|j: int| 0 <= j < i ==> s[j + 1] == rest[j] && rest[j] is None);
                assert(forall|j: int| 1 <= j < i + 1 ==> s[j] == rest[j - 1]);
            }
        }
        if exists|i: int| 0 <= i < s.len() && #[trigger] s[i] is Some {
            let i = choose|i: int| 0 <= i < s.len() && #[trigger] s[i] is Some;
            assert(i != 0);
            assert(rest[i - 1] == s[i]);
        }
    }
}

/// Key fallback is position-independent: when exactly one attempt succeeds,
/// the policy returns that attempt's claims, wherever the key stood in the
/// set; and it fails only when every attempt failed.
pub proof fn lemma_key_fallback(s: Seq<Option<TokenClaimSet>>, i: int)
    requires
        0 <= i < s.len(),
        s[i] is Some,
        forall|j: int| 0 <= j < s.len() && j != i ==> #[trigger] s[j] is None,
    ensures
        spec_first_success(s) == s[i],
    decreases s.len(),
{
    if i == 0 {
    } else {
        assert(s[0] is None);
        lemma_key_fallback(s.drop_first(), i - 1);
        assert(s.drop_first()[i - 1] == s[i]);
        assert(forall|j: int|
            0 <= j < s.drop_first().len() && j != i - 1 ==> #[trigger] s.drop_first()[j] == s[j + 1]
                && s[j + 1] is None);
    }
}

/// Returns the first successful attempt, per the fallback policy.
pub fn first_success(s: &Vec<Option<TokenClaimSet>>) -> (r: &Option<TokenClaimSet>)
    ensures
        *r == spec_first_success(s@),
{
    let n = s.len();
    let mut i: usize = 0;
    while i < n
        invariant
            n == s@.len(),
            i <= n,
            forall|j: int| 0 <= j < i ==> s@[j] is None,
        decreases n - i,
    {
        if s[i].is_some() {
            proof {
                lemma_first_success(s@);
                let w = choose|w: int|
                    0 <= w < s@.len() && #[trigger] s@[w] == spec_first_success(s@) && (forall|
                        j: int,
                    |
                        0 <= j < w ==> s@[j] is None);
                if w < i {
                    assert(s@[w] is None);
                }
                if i < w {
                    assert(s@[i as int] is None);
                }
            }
            return &s[i];
        }
        i = i + 1;
    }
    proof {
        lemma_first_success(s@);
        if spec_first_success(s@) is Some {
            let w = choose|w: int| 0 <= w < s@.len() && #[trigger] s@[w] is Some;
            assert(s@[w] is None);
        }
    }
    &None
}

/// Attempts full RS256 validation of `token` with every usable RSA key of
/// the set, recording one outcome per key; unusable keys are skipped, not
/// fatal.
pub fn attempt_keys(token: &str, keys: &Vec<JwkRecord>, aud: &str, iss: &str) -> (r: Vec<
    Option<TokenClaimSet>,
>)
    ensures
        r@.len() == keys@.len(),
        forall|i: int| 0 <= i < keys@.len() && !usable_key(keys@[i]) ==> #[trigger] r@[i] is None,
{
    let n = keys.len();
    let mut out: Vec<Option<TokenClaimSet>> = Vec::new();
    let mut i: usize = 0;
    while i < n
        invariant
            n == keys@.len(),
            i <= n,
            out@.len() == i,
            forall|k: int| 0 <= k < i && !usable_key(keys@[k]) ==> #[trigger] out@[k] is None,
        decreases n - i,
    {
        let key = &keys[i];
        let outcome: Option<TokenClaimSet> = if is_usable_key(key) {
            let n_b64 = match &key.n {
                Some(x) => x.as_str(),
                None => "",
            };
            let e_b64 = match &key.e {
                Some(x) => x.as_str(),
                None => "",
            };
            match rs256_decode(token, n_b64, e_b64, aud, iss) {
                Some(claims_doc) => Some(extract_claim_set(&claims_doc)),
                None => None,
            }
        } else {
            None
        };
        out.push(outcome);
        i = i + 1;
    }
    out
}

/// Verified acceptance of decoded claims: audience and issuer are
/// re-checked to equal the expected values, the identity pair is extracted
/// (`upn` else `preferred_username`; `oid` else `sub`), and the e-mail's
/// domain must be whitelisted.
pub fn ms_accept(
    c: &TokenClaimSet,
    expected_aud: &str,
    expected_iss: &str,
    policy: &DomainPolicy,
) -> (r: Result<(String, String), AuthError>)
    ensures
        r is Ok <==> aud_ok(*c, expected_aud@) && iss_ok(*c, expected_iss@) && ms_email_of(*c)
            is Some && (ms_uid_of(*c) matches Some(u) && u@.len() > 0) && (ms_email_of(*c) matches
            Some(em) && domain_of(em@) matches Some(d) && policy.spec_allows(d)),
        r matches Ok(p) ==> ms_email_of(*c) == Some(p.0) && ms_uid_of(*c) == Some(p.1) && p.0@.len()
            > 0 && p.1@.len() > 0,
        !(aud_ok(*c, expected_aud@) && iss_ok(*c, expected_iss@)) ==> r == Err::<
            (String, String),
            AuthError,
        >(AuthError::AudienceOrIssuerMismatch),
        aud_ok(*c, expected_aud@) && iss_ok(*c, expected_iss@) && (ms_email_of(*c) is None
            || ms_uid_of(*c) is None || (ms_uid_of(*c) matches Some(u) && u@.len() == 0)) ==> r
            == Err::<(String, String), AuthError>(AuthError::MalformedToken),
        aud_ok(*c, expected_aud@) && iss_ok(*c, expected_iss@) && ms_email_of(*c) is Some && (
        ms_uid_of(*c) matches Some(u) && u@.len() > 0) && (ms_email_of(*c) matches Some(em)
            && domain_of(em@) is None) ==> r == Err::<(String, String), AuthError>(
            AuthError::MalformedToken,
        ),
        aud_ok(*c, expected_aud@) && iss_ok(*c, expected_iss@) && ms_email_of(*c) is Some && (
        ms_uid_of(*c) matches Some(u) && u@.len() > 0) && (ms_email_of(*c) matches Some(em)
            && domain_of(em@) matches Some(d) && !policy.spec_allows(d)) ==> r == Err::<
            (String, String),
            AuthError,
        >(AuthError::DomainNotAuthorized),
{
    let aud_matches = match &c.aud {
        Some(a) => crate::textutil::str_eq(a.as_str(), expected_aud),
        None => false,
    };
    let iss_matches = match &c.iss {
        Some(i) => crate::textutil::str_eq(i.as_str(), expected_iss),
        None => false,
    };
    if !aud_matches || !iss_matches {
        return Err(AuthError::AudienceOrIssuerMismatch);
    }
    let email = match clone_opt_string(&c.upn) {
        Some(u) => u,
        None => match clone_opt_string(&c.preferred_username) {
            Some(p) => p,
            None => {
                return Err(AuthError::MalformedToken);
            },
        },
    };
    let uid = match clone_opt_string(&c.oid) {
        Some(o) => o,
        None => match clone_opt_string(&c.sub) {
            Some(s) => s,
            None => {
                return Err(AuthError::MalformedToken);
            },
        },
    };
    if uid.as_str().unicode_len() == 0 {
        return Err(AuthError::MalformedToken);
    }
    let domain = match email_domain(email.as_str()) {
        Some(d) => d,
        None => {
            return Err(AuthError::MalformedToken);
        },
    };
    if !crate::config::list_contains(&policy.whitelisted, crate::textutil::to_lowercase(
        domain.as_str(),
    ).as_str()) {
        return Err(AuthError::DomainNotAuthorized);
    }
    proof {
        crate::textutil::lemma_spec_find(email@, '@', 0);
    }
    Ok((email, uid))
}

/// Validates a Microsoft access token against the fetched JWKS document.
///
/// On success the returned pair is a non-empty-domain identity whose e-mail
/// domain is whitelisted; every failure is classified per stage: malformed
/// token, unusable key set, no verifying key, audience or issuer mismatch,
/// or unauthorized domain.
pub fn validate_microsoft_token(
    token: &str,
    jwks_body: &str,
    msal_client_id: &str,
    policy: &DomainPolicy,
) -> (r: Result<(String, String), AuthError>)
    ensures
        r is Ok ==> two_sep_decomp(token@, '.'),
        r matches Ok(p) ==> domain_of(p.0@) matches Some(d) && policy.spec_allows(d),
        r matches Ok(p) ==> p.0@.len() > 0 && p.1@.len() > 0,
        r matches Err(e) ==> (e == AuthError::MalformedToken || e == AuthError::KeyResolutionFailure
            || e == AuthError::SignatureInvalid || e == AuthError::AudienceOrIssuerMismatch
            || e == AuthError::DomainNotAuthorized),
{
    let iss = match ms_token_issuer(token) {
        Ok(i) => i,
        Err(e) => {
            return Err(e);
        },
    };
    let expected_aud = expected_audience_uri(msal_client_id);
    let keys = match parse_jwks(jwks_body) {
        Ok(k) => k,
        Err(e) => {
            return Err(e);
        },
    };
    let outcomes = attempt_keys(token, &keys, expected_aud.as_str(), iss.as_str());
    let claims = match first_success(&outcomes) {
        Some(c) => c,
        None => {
            return Err(AuthError::SignatureInvalid);
        },
    };
    ms_accept(claims, expected_aud.as_str(), iss.as_str(), policy)
}

} // verus!

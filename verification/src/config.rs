//! Application configuration and the domain policy of the gateway.
//!
//! Both domain lists are loaded once at startup and consulted read-only per
//! request.  Every domain is classified explicitly: unknown domains are
//! rejected, whitelisted strict corporate domains do not self-register, and
//! the remaining whitelisted (consumer) domains may auto-provision.

use vstd::prelude::*;
use crate::textutil::{spec_lower, to_lowercase, str_eq};

verus! {

/// Application configuration: secrets, provider endpoints and the SQL
/// collation used by lookups.
#[derive(Clone, Debug)]
pub struct AppConfig {
    /// Secret used to sign the application's own session JWTs.
    pub app_jwt_secret: String,
    /// URL of the MSAL/Azure AD JWKS document.
    pub msal_jwks_url: String,
    /// Client id (audience) registered with MSAL/Azure AD.
    pub msal_client_id: String,
    /// SQL Server collation clause applied to case-sensitive lookups.
    pub sql_collate_clause: String,
}

impl AppConfig {
    /// A development configuration with placeholder values.
    pub fn new_default() -> (r: AppConfig)
        ensures
            r.app_jwt_secret@ == "clave_secreta_de_ejemplo_debe_ser_larga_y_fuerte"@,
            r.msal_jwks_url@ == "https://ejemplo.microsoft.com/.well-known/openid-configuration/jwks"@,
            r.msal_client_id@ == "client-id-msal-ejemplo"@,
            r.sql_collate_clause@ == "COLLATE SQL_Latin1_General_CP1_CI_AS"@,
    {
        AppConfig {
            app_jwt_secret: "clave_secreta_de_ejemplo_debe_ser_larga_y_fuerte".to_owned(),
            msal_jwks_url: "https://ejemplo.microsoft.com/.well-known/openid-configuration/jwks".to_owned(),
            msal_client_id: "client-id-msal-ejemplo".to_owned(),
            sql_collate_clause: "COLLATE SQL_Latin1_General_CP1_CI_AS".to_owned(),
        }
    }
}

/// Everything one authentication attempt needs, constructed by the caller
/// per request and read-only thereafter: configuration, the domain policy,
/// and the clock sampled at request start.
#[derive(Clone, Debug)]
pub struct AuthContext {
    /// Id of the application permissions are scoped to.
    pub aplicativo_id: i32,
    /// The domain policy of the gateway.
    pub policy: DomainPolicy,
    /// Client id registered with MSAL/Azure AD.
    pub msal_client_id: String,
    /// Client id registered with Google.
    pub google_client_id: String,
    /// Client secret of the Google code exchange.
    pub google_client_secret: String,
    /// Secret signing the application's own session JWTs.
    pub jwt_secret: String,
    /// SQL Server collation clause applied to the e-mail lookup.
    pub sql_collate_clause: String,
    /// Unix time at request start, for the token expiry.
    pub now: u64,
    /// Formatted timestamp recorded on rows created by this request.
    pub fecha_creacion: String,
}

/// Is `d` one of the strings of `list`?
pub open spec fn has_domain(list: Seq<String>, d: Seq<char>) -> bool {
    exists|i: int| 0 <= i < list.len() && #[trigger] list[i]@ == d
}

/// Membership of `s` in a list of strings, character-wise.
pub fn list_contains(v: &Vec<String>, s: &str) -> (r: bool)
    ensures
        r == has_domain(v@, s@),
{
    let n = v.len();
    let mut i: usize = 0;
    while i < n
        invariant
            n == v@.len(),
            i <= n,
            forall|k: int| 0 <= k < i ==> #[trigger] v@[k]@ != s@,
        decreases n - i,
    {
        if str_eq(v[i].as_str(), s) {
            return true;
        }
        i = i + 1;
    }
    false
}

/// Outcome of classifying an e-mail domain.
#[derive(Clone, Copy, Debug, PartialEq, Eq, Structural)]
pub enum DomainClass {
    /// The domain is not whitelisted: the identity is rejected.
    NotAllowed,
    /// Whitelisted strict corporate domain: unknown users are denied.
    StrictB2b,
    /// Whitelisted consumer domain: unknown users self-register.
    Consumer,
}

/// The two domain lists of the gateway, kept lower-cased.
#[derive(Clone, Debug)]
pub struct DomainPolicy {
    /// Domains whose identities are accepted at all.
    pub whitelisted: Vec<String>,
    /// Whitelisted domains that require pre-provisioned accounts.
    pub strict_b2b: Vec<String>,
}

impl DomainPolicy {
    /// The whitelist admits `d` (compared after ASCII case folding).
    pub open spec fn spec_allows(self, d: Seq<char>) -> bool {
        has_domain(self.whitelisted@, spec_lower(d))
    }

    /// `d` is a strict corporate domain.
    pub open spec fn spec_strict(self, d: Seq<char>) -> bool {
        has_domain(self.strict_b2b@, spec_lower(d))
    }

    /// Builds a policy, lower-casing every configured domain so that later
    /// membership tests are case-insensitive.
    pub fn new(whitelisted: &Vec<String>, strict_b2b: &Vec<String>) -> (r: DomainPolicy)
        ensures
            r.whitelisted@.len() == whitelisted@.len(),
            forall|i: int|
                0 <= i < whitelisted@.len() ==> #[trigger] r.whitelisted@[i]@ == spec_lower(
                    whitelisted@[i]@,
                ),
            r.strict_b2b@.len() == strict_b2b@.len(),
            forall|i: int|
                0 <= i < strict_b2b@.len() ==> #[trigger] r.strict_b2b@[i]@ == spec_lower(
                    strict_b2b@[i]@,
                ),
    {
        let mut wl: Vec<String> = Vec::new();
        let mut i: usize = 0;
        while i < whitelisted.len()
            invariant
                i <= whitelisted@.len(),
                wl@.len() == i,
                forall|k: int|
                    0 <= k < i ==> #[trigger] wl@[k]@ == spec_lower(whitelisted@[k]@),
            decreases whitelisted@.len() - i,
        {
            wl.push(to_lowercase(whitelisted[i].as_str()));
            i = i + 1;
        }
        let mut b2b: Vec<String> = Vec::new();
        let mut j: usize = 0;
        while j < strict_b2b.len()
            invariant
                j <= strict_b2b@.len(),
                b2b@.len() == j,
                forall|k: int| 0 <= k < j ==> #[trigger] b2b@[k]@ == spec_lower(strict_b2b@[k]@),
            decreases strict_b2b@.len() - j,
        {
            b2b.push(to_lowercase(strict_b2b[j].as_str()));
            j = j + 1;
        }
        DomainPolicy { whitelisted: wl, strict_b2b: b2b }
    }

    /// Classifies a domain.  Every domain falls in exactly one class; no
    /// domain is left unclassified.
    pub fn classify(&self, domain: &str) -> (r: DomainClass)
        ensures
            r == DomainClass::NotAllowed <==> !self.spec_allows(domain@),
            r == DomainClass::StrictB2b <==> self.spec_allows(domain@) && self.spec_strict(
                domain@,
            ),
            r == DomainClass::Consumer <==> self.spec_allows(domain@) && !self.spec_strict(
                domain@,
            ),
    {
        let d = to_lowercase(domain);
        if !list_contains(&self.whitelisted, d.as_str()) {
            DomainClass::NotAllowed
        } else if list_contains(&self.strict_b2b, d.as_str()) {
            DomainClass::StrictB2b
        } else {
            DomainClass::Consumer
        }
    }
}

} // verus!

//! Error types of the gateway: the transport-facing `CustomError`, the
//! closed per-stage `AuthError` of the authentication pipeline, and the
//! repository-level `UserError`.

use vstd::prelude::*;

verus! {

/// Transport-level error carrying an HTTP status code and a message.
#[derive(Clone, Debug)]
pub enum CustomError {
    /// Generic variant built by [`CustomError::new`].
    HttpError { status_code: u16, message: String },
    /// Authentication failure raised by the external-auth flow.
    AuthError(String),
    /// Missing or rejected credentials.
    Unauthorized(String),
}

impl CustomError {
    /// Status code the error maps to: the stored code where it is a valid
    /// HTTP status, 500 otherwise; authentication variants map to 401.
    pub open spec fn spec_status_code(&self) -> u16 {
        match self {
            CustomError::HttpError { status_code, .. } => {
                if 100 <= *status_code && *status_code <= 999 {
                    *status_code
                } else {
                    500
                }
            },
            CustomError::AuthError(_) => 401,
            CustomError::Unauthorized(_) => 401,
        }
    }

    /// The human-readable message of any variant.
    pub open spec fn spec_message(&self) -> Seq<char> {
        match self {
            CustomError::HttpError { message, .. } => message@,
            CustomError::AuthError(m) => m@,
            CustomError::Unauthorized(m) => m@,
        }
    }

    pub fn new(status_code: u16, message: &str) -> (r: CustomError)
        ensures
            r matches CustomError::HttpError { status_code: sc, message: m } && sc == status_code
                && m@ == message@,
    {
        CustomError::HttpError { status_code, message: message.to_owned() }
    }

    pub fn status_code(&self) -> (r: u16)
        ensures
            r == self.spec_status_code(),
    {
        match self {
            CustomError::HttpError { status_code, .. } => {
                if 100 <= *status_code && *status_code <= 999 {
                    *status_code
                } else {
                    500
                }
            },
            CustomError::AuthError(_) => 401,
            CustomError::Unauthorized(_) => 401,
        }
    }

    pub fn message(&self) -> (r: String)
        ensures
            r@ == self.spec_message(),
    {
        match self {
            CustomError::HttpError { message, .. } => message.clone(),
            CustomError::AuthError(m) => m.clone(),
            CustomError::Unauthorized(m) => m.clone(),
        }
    }
}

impl From<String> for CustomError {
    /// An unclassified message becomes an internal error.
    fn from(err: String) -> (r: CustomError) {
        CustomError::HttpError { status_code: 500, message: err }
    }
}

impl vstd::std_specs::convert::FromSpecImpl<String> for CustomError {
    open spec fn obeys_from_spec() -> bool {
        true
    }

    open spec fn from_spec(err: String) -> CustomError {
        CustomError::HttpError { status_code: 500, message: err }
    }
}

/// Closed error of the authentication pipeline, one variant per failure
/// kind.  The orchestrator is the single place that maps a kind to a
/// transport status; validators return kinds untranslated.
#[derive(Clone, Copy, Debug, PartialEq, Eq, Structural)]
pub enum AuthError {
    /// The token cannot be parsed or decoded at all.
    MalformedToken,
    /// The JWKS document is unusable: no `keys` array was found.
    KeyResolutionFailure,
    /// Every candidate signing key failed to verify the signature.
    SignatureInvalid,
    /// The signature verified but audience or issuer is wrong.
    AudienceOrIssuerMismatch,
    /// Google reported the e-mail as unverified.
    EmailNotVerified,
    /// The e-mail's domain is not in the allowlist: a policy rejection.
    DomainNotAuthorized,
    /// Unknown user of a strict corporate domain: no self-registration.
    UserProvisioningDenied,
    /// A provider endpoint was unreachable or timed out; retryable.
    UpstreamUnavailable,
    /// The persistence layer failed.
    PersistenceError,
    /// A session token could not be built (empty subject).
    TokenIssuanceFailure,
}

impl AuthError {
    /// HTTP status the kind maps to at the transport boundary.
    pub open spec fn spec_http_status(self) -> u16 {
        match self {
            AuthError::MalformedToken => 401,
            AuthError::KeyResolutionFailure => 500,
            AuthError::SignatureInvalid => 401,
            AuthError::AudienceOrIssuerMismatch => 401,
            AuthError::EmailNotVerified => 401,
            AuthError::DomainNotAuthorized => 403,
            AuthError::UserProvisioningDenied => 403,
            AuthError::UpstreamUnavailable => 503,
            AuthError::PersistenceError => 500,
            AuthError::TokenIssuanceFailure => 500,
        }
    }

    pub fn http_status(&self) -> (r: u16)
        ensures
            r == self.spec_http_status(),
    {
        match self {
            AuthError::MalformedToken => 401,
            AuthError::KeyResolutionFailure => 500,
            AuthError::SignatureInvalid => 401,
            AuthError::AudienceOrIssuerMismatch => 401,
            AuthError::EmailNotVerified => 401,
            AuthError::DomainNotAuthorized => 403,
            AuthError::UserProvisioningDenied => 403,
            AuthError::UpstreamUnavailable => 503,
            AuthError::PersistenceError => 500,
            AuthError::TokenIssuanceFailure => 500,
        }
    }

    /// Stable user-facing message of the kind; never echoes internal detail.
    pub fn message(&self) -> (r: &'static str)
        ensures
            r@ == self.spec_message(),
    {
        match self {
            AuthError::MalformedToken => "Malformed token",
            AuthError::KeyResolutionFailure => "Key resolution failed",
            AuthError::SignatureInvalid => "Token signature could not be verified",
            AuthError::AudienceOrIssuerMismatch => "Token audience or issuer mismatch",
            AuthError::EmailNotVerified => "Provider e-mail is not verified",
            AuthError::DomainNotAuthorized => "Domain not authorized",
            AuthError::UserProvisioningDenied => "User must be provisioned by an administrator",
            AuthError::UpstreamUnavailable => "Identity provider unavailable, retry later",
            AuthError::PersistenceError => "Internal persistence error",
            AuthError::TokenIssuanceFailure => "Session token could not be issued",
        }
    }

    pub open spec fn spec_message(self) -> Seq<char> {
        match self {
            AuthError::MalformedToken => "Malformed token"@,
            AuthError::KeyResolutionFailure => "Key resolution failed"@,
            AuthError::SignatureInvalid => "Token signature could not be verified"@,
            AuthError::AudienceOrIssuerMismatch => "Token audience or issuer mismatch"@,
            AuthError::EmailNotVerified => "Provider e-mail is not verified"@,
            AuthError::DomainNotAuthorized => "Domain not authorized"@,
            AuthError::UserProvisioningDenied => "User must be provisioned by an administrator"@,
            AuthError::UpstreamUnavailable => "Identity provider unavailable, retry later"@,
            AuthError::PersistenceError => "Internal persistence error"@,
            AuthError::TokenIssuanceFailure => "Session token could not be issued"@,
        }
    }

    /// The transport-level error this kind maps to.
    pub fn to_custom(&self) -> (r: CustomError)
        ensures
            r matches CustomError::HttpError { status_code: sc, message: m }
                && sc == self.spec_http_status() && m@ == self.spec_message(),
    {
        CustomError::new(self.http_status(), self.message())
    }
}

/// Opaque stand-in for a database driver error.
#[derive(Clone, Copy, Debug, PartialEq, Eq, Structural)]
pub struct SqlxError;

impl SqlxError {
    pub fn message(&self) -> (r: &'static str)
        ensures
            r@ == "database driver error"@,
    {
        "database driver error"
    }
}

/// Error of the user repository layer.
#[derive(Clone, Debug)]
pub enum UserError {
    /// Communication or database failure.
    DatabaseError(SqlxError),
    /// Invalid data or business-rule violation.
    ValidationError(String),
    /// The requested user does not exist.
    NotFound(String),
}

impl From<SqlxError> for UserError {
    fn from(error: SqlxError) -> (r: UserError) {
        UserError::DatabaseError(error)
    }
}

impl vstd::std_specs::convert::FromSpecImpl<SqlxError> for UserError {
    open spec fn obeys_from_spec() -> bool {
        true
    }

    open spec fn from_spec(error: SqlxError) -> UserError {
        UserError::DatabaseError(error)
    }
}

/// Machine-readable error codes sent to the client.
#[derive(Clone, Copy, Debug, PartialEq, Eq, Structural)]
pub enum AppErrorCode {
    UserAlreadyExists,
    UserNotFound,
    DatabaseError,
    ValidationError,
    InternalError,
    BadRequest,
}

/// Error payload sent to the client.
pub struct ApiError {
    pub code: AppErrorCode,
    pub message: String,
}

} // verus!

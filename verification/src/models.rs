//! Data model of the gateway: persisted user rows, authentication payloads,
//! session claims and the verified external identity.

use vstd::prelude::*;

verus! {

/// Claims of a JWT issued by the application for a user id.
pub struct JwtClaims {
    /// Subject: the user id rendered as a string.
    pub sub: String,
    /// Issuer of the token.
    pub iss: String,
    /// Expiration time (unix seconds).
    pub exp: usize,
    /// Issued-at time (unix seconds).
    pub iat: usize,
    /// Application-specific user id.
    pub usuario_id: i32,
}

/// Kind of authentication requested by the client.
#[derive(Clone, Copy, Debug, PartialEq, Eq, Structural)]
pub enum LoginType {
    /// Microsoft Azure AD (MSAL).
    MsftMsal,
    /// ERP password store.
    Erp,
    /// Local user table.
    Local,
}

/// External identity provider accepted by the gateway.
#[derive(Clone, Copy, Debug, PartialEq, Eq, Structural)]
pub enum Provider {
    Google,
    Microsoft,
}

/// Verified external identity, produced by a validator and never persisted.
/// Both strings are non-empty whenever a validator returns one.
pub struct ExternalIdentity {
    /// E-mail reported by the provider; the natural key for lookups.
    pub email: String,
    /// Provider-assigned stable subject identifier.
    pub unique_id: String,
    /// The provider that vouched for this identity.
    pub provider: Provider,
}

/// A user row as stored in the local user table.
#[derive(Clone, Debug)]
pub struct Usuario {
    pub usuario_id: i32,
    pub usuario: String,
    pub nombre: String,
    pub correo: String,
    pub estado: String,
    pub autor: String,
    pub fecha_creacion: String,
    pub modificado_por: Option<String>,
    pub fecha_modificacion: Option<String>,
    pub codigo_verificacion: Option<i32>,
    pub fecha_codigo_verificacion: Option<String>,
}

/// A user row to be inserted (no id yet).
#[derive(Clone, Debug)]
pub struct NewUsuario {
    pub usuario: String,
    pub nombre: String,
    pub correo: String,
    pub estado: String,
    pub autor: String,
    pub fecha_creacion: String,
}

/// A row of the ERP user search.
#[derive(Clone, Debug)]
pub struct UserSearchResult {
    pub usuario: String,
    pub nombre: Option<String>,
}

/// Partial update of a user sent by the client.
#[derive(Clone, Debug)]
pub struct UsuarioActualizable {
    pub correo: String,
    pub estado: String,
}

/// The authenticated user as returned to the client after login.
#[derive(Clone, Debug)]
pub struct LoggedInUser {
    pub usuario_id: Option<i32>,
    pub usuario: Option<String>,
    pub nombre: Option<String>,
    pub correo: Option<String>,
    pub roles: Vec<String>,
}

/// Minimal user shape used by the insertion flow.
#[derive(Clone, Debug)]
pub struct User {
    pub usuario_id: Option<i32>,
    pub usuario: String,
    pub nombre: String,
    pub correo: String,
}

/// Unified authentication request: an external token or local credentials.
#[derive(Clone, Debug)]
pub struct AuthRequestPayload {
    /// Kind of login requested.
    pub login_type: LoginType,
    /// Username, for Erp and Local logins.
    pub username: Option<String>,
    /// Password, for Erp and Local logins.
    pub password: Option<String>,
    /// Token id or auth code proving the external identity.
    pub proof_of_identity: String,
    /// Redirect URI of the auth-code exchange (Google only).
    pub redirect_uri: Option<String>,
}

/// Successful authentication response sent to the client.
#[derive(Clone, Debug)]
pub struct AuthResponsePayload {
    /// The application's own session JWT.
    pub app_jwt: String,
    /// The local user the session belongs to.
    pub user: LoggedInUser,
    /// Permissions granted to the user for this application.
    pub permissions: Vec<String>,
}

/// Claims expected in a Microsoft (MSAL) access token.
#[derive(Clone, Debug)]
pub struct MsalClaims {
    /// User principal name, usually the e-mail.
    pub upn: String,
    /// Audience of the token.
    pub aud: String,
    /// Expiration time (unix seconds).
    pub exp: u64,
    /// Issuer of the token.
    pub iss: String,
}

/// User data extracted from an authentication source, used to find or create
/// the local user row.
#[derive(Clone, Debug)]
pub struct UserInfo {
    pub username: String,
    pub email: String,
    pub name: Option<String>,
}

/// Application-specific role assignment.
#[derive(Clone, Debug)]
pub struct UserRoleAssignment {
    pub rol: String,
    pub sub_rol: String,
}

/// Claims of the application's session JWT.
#[derive(Clone, Debug)]
pub struct Claims {
    /// Subject: the local username.
    pub sub: String,
    /// Permissions carried by the session.
    pub permissions: Vec<String>,
    /// Expiration time (unix seconds).
    pub exp: u64,
}

/// Claims extracted from a provider token after its signature was checked.
/// A field is `None` when the claim is absent or not of the expected JSON
/// type.
#[derive(Clone, Debug)]
pub struct TokenClaimSet {
    pub aud: Option<String>,
    pub iss: Option<String>,
    pub sub: Option<String>,
    pub oid: Option<String>,
    pub upn: Option<String>,
    pub preferred_username: Option<String>,
    pub email: Option<String>,
    pub email_verified: Option<bool>,
}

/// Row shape of the initial user lookup by e-mail.
#[derive(Clone, Debug)]
pub struct UserDbRecord {
    pub usuario_id: i32,
    pub usuario: String,
    pub nombre: String,
    pub correo: String,
    pub estado: String,
}

/// Row of the local credential lookup: a user and the stored password
/// hash, if any.
#[derive(Clone, Debug)]
pub struct LocalCredentialRecord {
    pub usuario: String,
    pub nombre: String,
    pub correo: String,
    pub clave: Option<String>,
}

/// Query parameter of the ERP user search endpoint.
#[derive(Clone, Debug)]
pub struct SearchQuery {
    pub search_term: Option<String>,
}

/// Request body for creating a user.
#[derive(Clone, Debug)]
pub struct NewUserRequest {
    pub usuario: String,
    pub nombre: String,
    pub correo: String,
}

/// Login response returned by the desktop-shell login command.
#[derive(Clone, Debug)]
pub struct TauriLoginResponse {
    pub user: LoggedInUser,
    pub permissions: Vec<String>,
}

/// Session response of the traditional login flow.
#[derive(Clone, Debug)]
pub struct LoginResponse {
    pub token: String,
    pub user: User,
    pub permissions: Vec<String>,
}

} // verus!

//! Authentication gateway core: external identity federation and session
//! issuance.
//!
//! The library validates proof-of-identity material from external providers
//! (Microsoft Entra ID, Google OAuth) against remote JWKS key sets, enforces a
//! domain allowlist, reconciles the verified identity with a local user
//! record, resolves permissions and issues the application's own signed
//! session token.  All network and database traffic is performed by the
//! caller; the library holds the decision logic, verified, and reaches the
//! outside crates that do pure computation (JSON, base64, JWT crypto) through
//! a small set of trusted wrappers.

pub mod auth;
pub mod config;
pub mod db;
pub mod errors;
pub mod flow;
pub mod google;
pub mod jwks;
pub mod license;
pub mod microsoft;
pub mod models;
pub mod outside;
pub mod permissions;
pub mod session;
pub mod textutil;
pub mod user_repository;

//! Configuration handed to the authentication subsystem.

use vstd::prelude::*;

verus! {

/// The environment-provided settings, read once at the boundary and
/// passed in by value. The secret is optional here so that its absence
/// can surface as `AuthError::Configuration` instead of a panic.
pub struct AuthConfig {
    /// The symmetric signing secret for locally issued tokens.
    pub jwt_secret: Option<String>,
    /// The base URL of the remote token issuer.
    pub oidc_issuer: Option<String>,
    /// The endpoint of the remote key-set document, when set explicitly.
    pub oidc_jwks_url: Option<String>,
}

} // verus!

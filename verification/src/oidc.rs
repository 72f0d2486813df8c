//! The remote (key-set based) verification path.
//!
//! The pieces here are composed by the embedding application around its
//! fetch of the key-set document: read the key identifier from the token
//! header, derive the key-set endpoint from configuration, resolve the
//! key through the cache, then verify the token against that key.

use crate::claims::Claims;
use crate::config::AuthConfig;
use crate::errors::{is_err, AuthError};
use crate::jwks::RsaKeyParts;
use crate::jwt::{jwt_kid, rs256_decode_raw, rs256_decode_spec, JwtOutcome, RawFailure};
use crate::token::result_matches;
use vstd::prelude::*;
use vstd::string::StringExecFns;

verus! {

/// The identity a handler receives once a token has been verified.
#[derive(Debug, Clone)]
pub struct OidcUser {
    /// The token's subject, verbatim.
    pub sub: String,
}

impl OidcUser {
    /// The user a verified claim set names.
    pub fn from_claims(c: &Claims) -> (u: OidcUser)
        ensures
            u.sub@ == c.sub@,
    {
        OidcUser { sub: c.sub.clone() }
    }
}

/// Reads the key identifier the token's header declares, without touching
/// the signature. Fails with `Malformed` exactly when the header cannot be
/// read, and with `MissingKeyId` exactly when it carries no identifier.
pub fn token_key_id(token: &str) -> (r: Result<String, AuthError>)
    ensures
        jwt_kid(token@) is None ==> is_err(r, AuthError::Malformed),
        jwt_kid(token@) matches Some(o) && o is None ==> is_err(r, AuthError::MissingKeyId),
        jwt_kid(token@) matches Some(Some(k)) ==> (r matches Ok(s) && s@ == k),
{
    match crate::jwt::decode_header_kid(token) {
        None => Err(AuthError::Malformed),
        Some(None) => Err(AuthError::MissingKeyId),
        Some(Some(k)) => Ok(k),
    }
}

/// The well-known path segment appended to an issuer URL.
pub open spec fn certs_path() -> Seq<char> {
    "/protocol/openid-connect/certs"@
}

/// Where the key-set document lives: the configured endpoint when set,
/// else the configured issuer with the well-known path appended, else the
/// built-in fallback issuer with that same path.
pub open spec fn jwks_url_spec(cfg: AuthConfig) -> Seq<char> {
    match cfg.oidc_jwks_url {
        Some(u) => u@,
        None => match cfg.oidc_issuer {
            Some(iss) => iss@ + certs_path(),
            None => "https://keycloak.local/realms/k3s-lab/protocol/openid-connect/certs"@,
        },
    }
}

/// Derives the key-set endpoint from configuration; see `jwks_url_spec`.
pub fn jwks_url_for(cfg: &AuthConfig) -> (r: String)
    ensures
        r@ == jwks_url_spec(*cfg),
{
    match &cfg.oidc_jwks_url {
        Some(u) => u.clone(),
        None => match &cfg.oidc_issuer {
            Some(iss) => {
                let mut s = iss.clone();
                s.append("/protocol/openid-connect/certs");
                s
            },
            None => {
                let s = "https://keycloak.local/realms/k3s-lab/protocol/openid-connect/certs";
                s.to_owned()
            },
        },
    }
}

/// The exact verdict of remote verification at instant `now` against the
/// key parts `(n, e)`: raw RS256 decoding, then the expiry test.
pub open spec fn remote_verify_outcome(
    n: Seq<char>,
    e: Seq<char>,
    token: Seq<char>,
    now: int,
) -> Result<(Seq<char>, int, int), AuthError> {
    match rs256_decode_spec(n, e, token) {
        JwtOutcome::Valid(sub, iat, exp) => if exp <= now {
            Err(AuthError::Expired)
        } else {
            Ok((sub, iat, exp))
        },
        JwtOutcome::BadSignature => Err(AuthError::Signature),
        JwtOutcome::Malformed => Err(AuthError::Malformed),
    }
}

/// Verifies a remote token against a resolved key as of the instant
/// `now`. The result is exactly `remote_verify_outcome`. Audience is not
/// checked, and no issuer string is checked either: the key set alone
/// decides.
pub fn verify_token_oidc_at(token: &str, key: &RsaKeyParts, now: i64) -> (r: Result<
    Claims,
    AuthError,
>)
    ensures
        result_matches(r, remote_verify_outcome(key.n@, key.e@, token@, now as int)),
{
    match rs256_decode_raw(token, key.n.as_str(), key.e.as_str()) {
        Err(RawFailure::Signature) => Err(AuthError::Signature),
        Err(RawFailure::Malformed) => Err(AuthError::Malformed),
        Ok((sub, iat, exp)) => {
            if exp <= now {
                Err(AuthError::Expired)
            } else {
                Ok(Claims { sub, iat, exp })
            }
        },
    }
}

} // verus!

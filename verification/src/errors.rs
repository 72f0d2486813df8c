//! The error taxonomy of the authentication subsystem.

use vstd::prelude::*;

verus! {

/// Every way a call into the authentication subsystem can fail.
///
/// `Configuration` and `Signing` are server-side defects; the others are
/// defects of the presented token, of the key-set retrieval, or of the
/// key lookup, and a handler maps them to an unauthorized response.
#[derive(Debug, Clone, Copy, PartialEq, Eq, Structural)]
pub enum AuthError {
    /// The signing secret is not configured.
    Configuration,
    /// Encoding a token failed.
    Signing,
    /// The token cannot be parsed, or its header or payload is unusable.
    Malformed,
    /// The token's signature does not match.
    Signature,
    /// The token's expiry timestamp has passed.
    Expired,
    /// The token's header declares no key identifier.
    MissingKeyId,
    /// The key identifier is not present in the key set, even after a refresh.
    KeyNotFound,
    /// Retrieving the remote key set failed in transport.
    Network,
    /// The remote key-set document could not be decoded.
    Decode,
    /// The header value does not carry the bearer prefix.
    MissingBearerPrefix,
    /// The token's subject is not a well-formed user identifier.
    InvalidUserId,
}

/// What `AuthError::message` returns for each variant.
pub open spec fn message_spec(e: AuthError) -> Seq<char> {
    match e {
        AuthError::Configuration => "signing secret is not configured"@,
        AuthError::Signing => "token could not be encoded"@,
        AuthError::Malformed => "token is malformed"@,
        AuthError::Signature => "token signature is invalid"@,
        AuthError::Expired => "token has expired"@,
        AuthError::MissingKeyId => "token header carries no key identifier"@,
        AuthError::KeyNotFound => "key identifier not found in key set"@,
        AuthError::Network => "key set could not be retrieved"@,
        AuthError::Decode => "key set document could not be decoded"@,
        AuthError::MissingBearerPrefix => "authorization header carries no bearer token"@,
        AuthError::InvalidUserId => "token subject is not a well-formed user id"@,
    }
}

/// The HTTP status class each failure is surfaced as at the boundary:
/// server-side defects are a server error, everything else — token
/// defects, authentication failures, and key-set retrieval failures —
/// is unauthorized, as the handlers of this service map them.
pub open spec fn status_spec(e: AuthError) -> int {
    match e {
        AuthError::Configuration => 500,
        AuthError::Signing => 500,
        _ => 401,
    }
}

/// `r` is exactly the failure `e`.
pub open spec fn is_err<T>(r: Result<T, AuthError>, e: AuthError) -> bool {
    match r {
        Ok(_) => false,
        Err(x) => x == e,
    }
}

impl AuthError {
    /// A short description, for logging at the boundary. It names the
    /// failure only; it never carries secrets or signing material.
    pub fn message(&self) -> (m: &'static str)
        ensures
            m@ == message_spec(*self),
    {
        match self {
            AuthError::Configuration => "signing secret is not configured",
            AuthError::Signing => "token could not be encoded",
            AuthError::Malformed => "token is malformed",
            AuthError::Signature => "token signature is invalid",
            AuthError::Expired => "token has expired",
            AuthError::MissingKeyId => "token header carries no key identifier",
            AuthError::KeyNotFound => "key identifier not found in key set",
            AuthError::Network => "key set could not be retrieved",
            AuthError::Decode => "key set document could not be decoded",
            AuthError::MissingBearerPrefix => "authorization header carries no bearer token",
            AuthError::InvalidUserId => "token subject is not a well-formed user id",
        }
    }

    /// The HTTP status a handler answers with for this failure; see
    /// `status_spec`.
    pub fn http_status(&self) -> (s: u16)
        ensures
            s as int == status_spec(*self),
    {
        match self {
            AuthError::Configuration => 500,
            AuthError::Signing => 500,
            _ => 401,
        }
    }
}

} // verus!

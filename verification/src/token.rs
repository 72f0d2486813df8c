//! Issuing local tokens, verifying them, and extracting the user identity
//! from a bearer header.
//!
//! Verification is split in two layers: `verify_token_at` decides against
//! an explicit timestamp and has a fully determined contract; `verify_token`
//! supplies the clock. The identity extractor composes verification with
//! subject parsing. This library settles on the local, secret-based
//! strategy for the extraction entry point; the remote key-set path is
//! provided as explicit pieces (see the key-set and remote modules) that
//! the embedding application composes.

use crate::claims::{Claims, TOKEN_LIFETIME_SECS};
use crate::clock::{now_ts, MAX_TIMESTAMP};
use crate::config::AuthConfig;
use crate::errors::{is_err, AuthError};
use crate::jwt::{
    hs256_decode_raw, hs256_decode_spec, hs256_encode, hs256_token, JwtOutcome, RawFailure,
};
use crate::userid::{is_uuid_chars, uuid_chars, uuid_val, UserId};
use vstd::prelude::*;

verus! {

/// `token` is one that `create_token` can have produced at instant `iat`
/// for the subject `sub` under `secret`: it is the canonical encoding of
/// claims that expire exactly one lifetime later, and raw decoding
/// recovers those claims.
pub open spec fn issued_token_ok(
    secret: Seq<char>,
    sub: Seq<char>,
    token: Seq<char>,
    iat: int,
) -> bool {
    &&& -(MAX_TIMESTAMP as int) <= iat <= MAX_TIMESTAMP as int
    &&& token == hs256_token(secret, sub, iat, iat + TOKEN_LIFETIME_SECS as int)
    &&& hs256_decode_spec(secret, token) == JwtOutcome::Valid(
        sub,
        iat,
        iat + TOKEN_LIFETIME_SECS as int,
    )
}

/// Some in-range instant issued this token for this subject.
pub open spec fn some_issued_token(secret: Seq<char>, sub: Seq<char>, token: Seq<char>) -> bool {
    exists|iat: int| #![auto] issued_token_ok(secret, sub, token, iat)
}

/// The exact verdict of local verification at instant `now`: raw decoding
/// first, then the expiry test. A token whose claims read back fails only
/// by expiry; a mismatched signature is always `Signature`; anything
/// unreadable is `Malformed`.
pub open spec fn verify_outcome(secret: Seq<char>, token: Seq<char>, now: int) -> Result<
    (Seq<char>, int, int),
    AuthError,
> {
    match hs256_decode_spec(secret, token) {
        JwtOutcome::Valid(sub, iat, exp) => if exp <= now {
            Err(AuthError::Expired)
        } else {
            Ok((sub, iat, exp))
        },
        JwtOutcome::BadSignature => Err(AuthError::Signature),
        JwtOutcome::Malformed => Err(AuthError::Malformed),
    }
}

/// The returned claims agree with the model verdict.
pub open spec fn result_matches(
    r: Result<Claims, AuthError>,
    out: Result<(Seq<char>, int, int), AuthError>,
) -> bool {
    match r {
        Ok(c) => out matches Ok(t) && t == (c.sub@, c.iat as int, c.exp as int),
        Err(e) => out matches Err(x) && x == e,
    }
}

/// The exact verdict of identity extraction at instant `now`: the verdict
/// of verification, then the subject parsed as a user identity.
pub open spec fn extract_outcome(secret: Seq<char>, token: Seq<char>, now: int) -> Result<
    int,
    AuthError,
> {
    match verify_outcome(secret, token, now) {
        Ok(c) => if is_uuid_chars(c.0) {
            Ok(uuid_val(c.0))
        } else {
            Err(AuthError::InvalidUserId)
        },
        Err(e) => Err(e),
    }
}

/// The returned identity agrees with the model verdict.
pub open spec fn id_matches(r: Result<UserId, AuthError>, out: Result<int, AuthError>) -> bool {
    match r {
        Ok(u) => out matches Ok(v) && v == u.value as int,
        Err(e) => out matches Err(x) && x == e,
    }
}

/// Mints a token for `user_id`: claims built as of now, signed with the
/// configured secret. Fails with `Configuration` exactly when the secret
/// is unset, and succeeds whenever it is set: HS256 encoding of
/// well-formed claims cannot fail (a failure there would surface as
/// `Signing`).
pub fn create_token(user_id: UserId, cfg: &AuthConfig) -> (r: Result<String, AuthError>)
    ensures
        cfg.jwt_secret is None <==> is_err(r, AuthError::Configuration),
        cfg.jwt_secret is Some ==> r is Ok,
        r matches Ok(t) ==> cfg.jwt_secret is Some && some_issued_token(
            cfg.jwt_secret->0@,
            uuid_chars(user_id.value as int),
            t@,
        ),
{
    match &cfg.jwt_secret {
        None => Err(AuthError::Configuration),
        Some(sec) => {
            let c = Claims::new(user_id);
            match hs256_encode(c.sub.as_str(), c.iat, c.exp, sec.as_str()) {
                Some(t) => {
                    proof {
                        assert(some_issued_token(
                            cfg.jwt_secret->0@,
                            uuid_chars(user_id.value as int),
                            t@,
                        )) by {
                            assert(issued_token_ok(
                                cfg.jwt_secret->0@,
                                uuid_chars(user_id.value as int),
                                t@,
                                c.iat as int,
                            ));
                        }
                    }
                    Ok(t)
                },
                None => Err(AuthError::Signing),
            }
        },
    }
}

/// Verifies a local token against `secret` as of the instant `now`.
/// The result is exactly `verify_outcome`.
pub fn verify_token_at(token: &str, secret: &str, now: i64) -> (r: Result<Claims, AuthError>)
    ensures
        result_matches(r, verify_outcome(secret@, token@, now as int)),
{
    match hs256_decode_raw(token, secret) {
        Err(RawFailure::Signature) => Err(AuthError::Signature),
        Err(RawFailure::Malformed) => Err(AuthError::Malformed),
        Ok((sub, iat, exp)) => {
            if exp <= now {
                Err(AuthError::Expired)
            } else {
                Ok(Claims { sub, iat, exp })
            }
        },
    }
}

/// Verifies a local token against the configured secret, as of now.
/// Fails with `Configuration` exactly when the secret is unset; otherwise
/// the result is `verify_outcome` at some in-range instant.
pub fn verify_token(token: &str, cfg: &AuthConfig) -> (r: Result<Claims, AuthError>)
    ensures
        cfg.jwt_secret is None <==> is_err(r, AuthError::Configuration),
        cfg.jwt_secret matches Some(sec) ==> exists|now: int|
            #![auto]
            -(MAX_TIMESTAMP as int) <= now <= MAX_TIMESTAMP as int && result_matches(
                r,
                verify_outcome(sec@, token@, now),
            ),
{
    match &cfg.jwt_secret {
        None => Err(AuthError::Configuration),
        Some(sec) => {
            let now = now_ts();
            let r = verify_token_at(token, sec.as_str(), now);
            proof {
                assert(result_matches(r, verify_outcome(sec@, token@, now as int)));
            }
            r
        },
    }
}

/// Extracts the user identity from a token against `secret` as of `now`.
/// The result is exactly `extract_outcome`.
pub fn extract_user_id_at(token: &str, secret: &str, now: i64) -> (r: Result<UserId, AuthError>)
    ensures
        id_matches(r, extract_outcome(secret@, token@, now as int)),
{
    match verify_token_at(token, secret, now) {
        Err(e) => Err(e),
        Ok(c) => match UserId::parse(c.sub.as_str()) {
            Some(u) => Ok(u),
            None => Err(AuthError::InvalidUserId),
        },
    }
}

/// Turns a verified token into the user identity it names, with the
/// configured secret, as of now.
pub fn extract_user_id_from_token(token: &str, cfg: &AuthConfig) -> (r: Result<UserId, AuthError>)
    ensures
        cfg.jwt_secret is None <==> is_err(r, AuthError::Configuration),
        cfg.jwt_secret matches Some(sec) ==> exists|now: int|
            #![auto]
            -(MAX_TIMESTAMP as int) <= now <= MAX_TIMESTAMP as int && id_matches(
                r,
                extract_outcome(sec@, token@, now),
            ),
{
    match &cfg.jwt_secret {
        None => Err(AuthError::Configuration),
        Some(sec) => {
            let now = now_ts();
            let r = extract_user_id_at(token, sec.as_str(), now);
            proof {
                assert(id_matches(r, extract_outcome(sec@, token@, now as int)));
            }
            r
        },
    }
}

/// The header value starts with the recognised bearer prefix.
pub open spec fn has_bearer_prefix(h: Seq<char>) -> bool {
    h.len() >= 7 && h.subrange(0, 7) == "Bearer "@
}

/// Strips the bearer prefix from an authorization header value, yielding
/// the bare token; fails with `MissingBearerPrefix` exactly when the
/// prefix is absent.
pub fn bearer_token(header: &str) -> (r: Result<&str, AuthError>)
    ensures
        has_bearer_prefix(header@) ==> (r matches Ok(t) && t@ == header@.skip(7)),
        !has_bearer_prefix(header@) ==> is_err(r, AuthError::MissingBearerPrefix),
{
    proof {
        reveal_strlit("Bearer ");
    }
    let n = header.unicode_len();
    if n < 7 {
        return Err(AuthError::MissingBearerPrefix);
    }
    if header.get_char(0) == 'B' && header.get_char(1) == 'e' && header.get_char(2) == 'a'
        && header.get_char(3) == 'r' && header.get_char(4) == 'e' && header.get_char(5) == 'r'
        && header.get_char(6) == ' ' {
        proof {
            assert(header@.subrange(0, 7) =~= "Bearer "@);
            assert(header@.subrange(7, header@.len() as int) =~= header@.skip(7));
        }
        Ok(header.substring_char(7, n))
    } else {
        proof {
            if header@.subrange(0, 7) == "Bearer "@ {
                assert(header@[0] == 'B' && header@[1] == 'e' && header@[2] == 'a' && header@[3]
                    == 'r' && header@[4] == 'e' && header@[5] == 'r' && header@[6] == ' ') by {
                    assert forall|i: int| 0 <= i < 7 implies header@[i] == "Bearer "@[i] by {
                        assert(header@.subrange(0, 7)[i] == header@[i]);
                    }
                }
            }
        }
        Err(AuthError::MissingBearerPrefix)
    }
}

/// The single entry point for handlers: takes the raw authorization
/// header, if any, strips the bearer prefix, verifies the token with the
/// configured secret, and parses the subject. An absent header or a
/// missing prefix fails with `MissingBearerPrefix`.
pub fn user_id_from_auth_header(header: Option<&str>, cfg: &AuthConfig) -> (r: Result<
    UserId,
    AuthError,
>)
    ensures
        header is None ==> is_err(r, AuthError::MissingBearerPrefix),
        header matches Some(h) && !has_bearer_prefix(h@) ==> is_err(
            r,
            AuthError::MissingBearerPrefix,
        ),
        header matches Some(h) && has_bearer_prefix(h@) ==> (cfg.jwt_secret is None <==> is_err(
            r,
            AuthError::Configuration,
        )),
        header is Some && has_bearer_prefix(header->0@) && cfg.jwt_secret is Some ==> exists|
            now: int,
        |
            #![auto]
            -(MAX_TIMESTAMP as int) <= now <= MAX_TIMESTAMP as int && id_matches(
                r,
                extract_outcome(cfg.jwt_secret->0@, header->0@.skip(7), now),
            ),
{
    match header {
        None => Err(AuthError::MissingBearerPrefix),
        Some(h) => match bearer_token(h) {
            Err(e) => Err(e),
            Ok(token) => extract_user_id_from_token(token, cfg),
        },
    }
}

} // verus!

//! The compact signed-token format, and the trusted boundary around the
//! outside signing library.
//!
//! A token is `message "." signature`, where the message itself is
//! `header "." payload`. The library models the outside calls with named
//! results: the canonical HS256 signature of a message, the algorithm a
//! header declares, the claims a payload carries, and the RS256 checks.
//! Everything said about those names is stated on the trusted wrappers
//! below and nowhere else.

use vstd::prelude::*;

verus! {

/// The index of the last `.` in `s`, or -1 when there is none.
pub open spec fn last_dot_idx(s: Seq<char>) -> int
    decreases s.len(),
{
    if s.len() == 0 {
        -1
    } else if s.last() == '.' {
        s.len() - 1
    } else {
        last_dot_idx(s.drop_last())
    }
}

/// `s` has a `.`, so it splits into a message and a signature part.
pub open spec fn has_dot(s: Seq<char>) -> bool {
    last_dot_idx(s) >= 0
}

/// Everything before the last `.` of `s`.
pub open spec fn msg_of(s: Seq<char>) -> Seq<char> {
    s.subrange(0, last_dot_idx(s))
}

/// Everything after the last `.` of `s`.
pub open spec fn sig_of(s: Seq<char>) -> Seq<char> {
    s.subrange(last_dot_idx(s) + 1, s.len() as int)
}

/// The canonical base64url HS256 signature of `message` under `secret`.
///
/// Names the result of `jsonwebtoken::crypto::sign` with `Algorithm::HS256`:
/// a deterministic function of the secret and the message alone.
pub uninterp spec fn hs256_sig(secret: Seq<char>, message: Seq<char>) -> Seq<char>;

/// The algorithm name the header segment of `message` declares, or `None`
/// when the segment before the last `.` of `message` is not the base64url
/// encoding of a JSON header with a recognised algorithm.
///
/// Names the result of `jsonwebtoken::Header::from_encoded` applied to the
/// header segment: a deterministic function of the message alone.
pub uninterp spec fn jwt_header_alg(message: Seq<char>) -> Option<Seq<char>>;

/// The `(subject, issued-at, expiry)` triple the payload segment of
/// `message` carries, or `None` when the segment after the last `.` of
/// `message` is not the base64url encoding of a JSON object holding a
/// string `sub` and integer `iat` and `exp` fields.
///
/// Names the result of payload deserialisation through `serde_json`:
/// a deterministic function of the message alone.
pub uninterp spec fn jwt_payload_claims(message: Seq<char>) -> Option<(Seq<char>, int, int)>;

/// The compact HS256 token for the given claims under `secret`.
///
/// Names the result of `jsonwebtoken::encode` with the default header and
/// a `{sub, iat, exp}` claims object: deterministic in its arguments.
pub uninterp spec fn hs256_token(secret: Seq<char>, sub: Seq<char>, iat: int, exp: int) -> Seq<
    char,
>;

/// The modulus and exponent strings decode as base64url into usable RSA
/// public-key components.
///
/// Names the success of `jsonwebtoken::DecodingKey::from_rsa_components`.
pub uninterp spec fn rsa_components_ok(n: Seq<char>, e: Seq<char>) -> bool;

/// `s` decodes as base64url.
///
/// Names the success of the base64url decoding that
/// `jsonwebtoken::crypto::verify` applies to an RS256 signature segment.
pub uninterp spec fn b64url_ok(s: Seq<char>) -> bool;

/// The RS256 signature `sig` verifies for `message` under the RSA public
/// key with components `(n, e)`.
///
/// Names the result of `jsonwebtoken::crypto::rsa::verify_from_components`.
pub uninterp spec fn rs256_sig_ok(
    n: Seq<char>,
    e: Seq<char>,
    message: Seq<char>,
    sig: Seq<char>,
) -> bool;

/// The key identifier of the token's header: `None` when the header cannot
/// be read at all, `Some(None)` when it carries no identifier.
///
/// Names the result of `jsonwebtoken::decode_header`: deterministic in the
/// token alone.
pub uninterp spec fn jwt_kid(token: Seq<char>) -> Option<Option<Seq<char>>>;

/// What reading a token yields before any expiry decision.
pub enum JwtOutcome {
    /// Signature and shape are good; these are the claims.
    Valid(Seq<char>, int, int),
    /// The shape is good but the signature does not match.
    BadSignature,
    /// The token cannot be read.
    Malformed,
}

/// The exact outcome of raw HS256 decoding: shape first, then header,
/// then signature, then payload, in the order the checks run.
pub open spec fn hs256_decode_spec(secret: Seq<char>, token: Seq<char>) -> JwtOutcome {
    if !has_dot(token) {
        JwtOutcome::Malformed
    } else {
        let m = msg_of(token);
        if jwt_header_alg(m) != Some("HS256"@) {
            JwtOutcome::Malformed
        } else if sig_of(token) != hs256_sig(secret, m) {
            JwtOutcome::BadSignature
        } else {
            match jwt_payload_claims(m) {
                Some(c) => JwtOutcome::Valid(c.0, c.1, c.2),
                None => JwtOutcome::Malformed,
            }
        }
    }
}

/// The exact outcome of raw RS256 decoding against key components.
/// An unusable key counts as a signature failure; a signature segment
/// that is not base64url is a shape failure, as the underlying library
/// reports it.
pub open spec fn rs256_decode_spec(n: Seq<char>, e: Seq<char>, token: Seq<char>) -> JwtOutcome {
    if !rsa_components_ok(n, e) {
        JwtOutcome::BadSignature
    } else if !has_dot(token) {
        JwtOutcome::Malformed
    } else {
        let m = msg_of(token);
        if jwt_header_alg(m) != Some("RS256"@) {
            JwtOutcome::Malformed
        } else if !b64url_ok(sig_of(token)) {
            JwtOutcome::Malformed
        } else if !rs256_sig_ok(n, e, m, sig_of(token)) {
            JwtOutcome::BadSignature
        } else {
            match jwt_payload_claims(m) {
                Some(c) => JwtOutcome::Valid(c.0, c.1, c.2),
                None => JwtOutcome::Malformed,
            }
        }
    }
}

/// How raw decoding fails, before expiry is even considered.
#[derive(Debug, Clone, Copy, PartialEq, Eq, Structural)]
pub enum RawFailure {
    /// The signature does not match (or the key is unusable).
    Signature,
    /// The token, its header, or its payload cannot be read.
    Malformed,
}

#[verifier::external_type_specification]
#[verifier::external_body]
pub struct ExValidation(jsonwebtoken::Validation);

#[verifier::external_type_specification]
#[verifier::external_body]
pub struct ExAlgorithm(jsonwebtoken::Algorithm);

#[verifier::external_type_specification]
#[verifier::external_body]
#[verifier::reject_recursive_types(T)]
pub struct ExTokenData<T>(jsonwebtoken::TokenData<T>);

#[verifier::external_type_specification]
#[verifier::external_body]
pub struct ExJsonValue(serde_json::Value);

#[verifier::external_type_specification]
#[verifier::external_body]
pub struct ExJwtError(jsonwebtoken::errors::Error);

/// Relies on `jsonwebtoken::Validation`: a validation that checks only the
/// given algorithm and the signature, with every claim check switched off.
#[verifier::external_body]
fn raw_validation(alg: jsonwebtoken::Algorithm) -> jsonwebtoken::Validation {
    let mut validation = jsonwebtoken::Validation::new(alg);
    validation.validate_exp = false;
    validation.validate_aud = false;
    validation.required_spec_claims.clear();
    validation
}

/// Relies on `serde_json::Value`'s accessors and `jsonwebtoken`'s error
/// kinds: reads the `sub`, `iat` and `exp` fields out of a decoded
/// payload, reports a missing or mistyped field as a shape failure, and
/// keeps `InvalidSignature` as the one signature failure.
#[verifier::external_body]
fn claims_of(
    outcome: Result<jsonwebtoken::TokenData<serde_json::Value>, jsonwebtoken::errors::Error>,
) -> Result<(String, i64, i64), RawFailure> {
    match outcome {
        Ok(d) => match (d.claims.get("sub").and_then(serde_json::Value::as_str), d.claims.get("iat").and_then(serde_json::Value::as_i64), d.claims.get("exp").and_then(serde_json::Value::as_i64)) {
            (Some(s), Some(i), Some(e)) => Ok((s.to_string(), i, e)),
            _ => Err(RawFailure::Malformed),
        },
        Err(err) => match err.into_kind() {
            jsonwebtoken::errors::ErrorKind::InvalidSignature => Err(RawFailure::Signature),
            _ => Err(RawFailure::Malformed),
        },
    }
}

/// Relies on `jsonwebtoken::encode` with `Header::default()` (HS256) over a
/// `{sub, iat, exp}` claims object: the token is the base64url header and
/// payload joined by `.`, followed by `.` and the canonical HS256 signature
/// of that message. Its payload reads back as exactly the given claims, and
/// base64url pieces never contain a `.`, so the final `.` splits message
/// from signature. Encoding cannot fail here: the key family matches the
/// default header's algorithm, a string-keyed claims object always
/// serialises, and the HMAC signing step returns a string directly.
#[verifier::external_body]
pub(crate) fn hs256_encode(sub: &str, iat: i64, exp: i64, secret: &str) -> (r: Option<String>)
    ensures
        r is Some,
        r matches Some(t) ==> {
            &&& t@ == hs256_token(secret@, sub@, iat as int, exp as int)
            &&& has_dot(t@)
            &&& jwt_header_alg(msg_of(t@)) == Some("HS256"@)
            &&& sig_of(t@) == hs256_sig(secret@, msg_of(t@))
            &&& jwt_payload_claims(msg_of(t@)) == Some((sub@, iat as int, exp as int))
        },
{
    let mut claims = serde_json::Map::new();
    claims.insert("sub".to_string(), serde_json::Value::String(sub.to_string()));
    claims.insert("iat".to_string(), serde_json::Value::from(iat));
    claims.insert("exp".to_string(), serde_json::Value::from(exp));
    let key = jsonwebtoken::EncodingKey::from_secret(secret.as_bytes());
    jsonwebtoken::encode(&jsonwebtoken::Header::default(), &serde_json::Value::Object(claims), &key).ok()
}

/// Relies on `jsonwebtoken::decode` over `serde_json::Value` with the raw
/// validation above: the token must split at its dots, the header must
/// declare HS256, the signature string must equal the re-computed canonical
/// one, and only then is the payload read; `InvalidSignature` is the one
/// error kind reporting a mismatched signature.
#[verifier::external_body]
pub(crate) fn hs256_decode_raw(token: &str, secret: &str) -> (r: Result<
    (String, i64, i64),
    RawFailure,
>)
    ensures
        r matches Ok(c) ==> {
            &&& has_dot(token@)
            &&& jwt_header_alg(msg_of(token@)) == Some("HS256"@)
            &&& sig_of(token@) == hs256_sig(secret@, msg_of(token@))
            &&& jwt_payload_claims(msg_of(token@)) == Some((c.0@, c.1 as int, c.2 as int))
        },
        r matches Err(f) && f == RawFailure::Signature ==> {
            &&& has_dot(token@)
            &&& jwt_header_alg(msg_of(token@)) == Some("HS256"@)
            &&& sig_of(token@) != hs256_sig(secret@, msg_of(token@))
        },
        r matches Err(f) && f == RawFailure::Malformed ==> {
            ||| !has_dot(token@)
            ||| jwt_header_alg(msg_of(token@)) != Some("HS256"@)
            ||| (sig_of(token@) == hs256_sig(secret@, msg_of(token@)) && jwt_payload_claims(
                msg_of(token@),
            ) is None)
        },
{
    let key = jsonwebtoken::DecodingKey::from_secret(secret.as_bytes());
    let validation = raw_validation(jsonwebtoken::Algorithm::HS256);
    claims_of(jsonwebtoken::decode::<serde_json::Value>(token, &key, &validation))
}

/// Relies on `jsonwebtoken::DecodingKey::from_rsa_components` and
/// `jsonwebtoken::decode` with the raw RS256 validation: an unusable key
/// component pair is reported as a signature failure; a signature segment
/// that is not base64url surfaces as a `Base64` error, here a shape
/// failure; `InvalidSignature` is the one kind reporting a mismatch.
#[verifier::external_body]
pub(crate) fn rs256_decode_raw(token: &str, n: &str, e: &str) -> (r: Result<
    (String, i64, i64),
    RawFailure,
>)
    ensures
        r matches Ok(c) ==> {
            &&& rsa_components_ok(n@, e@)
            &&& has_dot(token@)
            &&& jwt_header_alg(msg_of(token@)) == Some("RS256"@)
            &&& b64url_ok(sig_of(token@))
            &&& rs256_sig_ok(n@, e@, msg_of(token@), sig_of(token@))
            &&& jwt_payload_claims(msg_of(token@)) == Some((c.0@, c.1 as int, c.2 as int))
        },
        r matches Err(f) && f == RawFailure::Signature ==> {
            ||| !rsa_components_ok(n@, e@)
            ||| (rsa_components_ok(n@, e@) && has_dot(token@) && jwt_header_alg(msg_of(token@))
                == Some("RS256"@) && b64url_ok(sig_of(token@)) && !rs256_sig_ok(
                n@,
                e@,
                msg_of(token@),
                sig_of(token@),
            ))
        },
        r matches Err(f) && f == RawFailure::Malformed ==> rsa_components_ok(
            n@,
            e@,
        ) && {
            ||| !has_dot(token@)
            ||| jwt_header_alg(msg_of(token@)) != Some("RS256"@)
            ||| !b64url_ok(sig_of(token@))
            ||| (rs256_sig_ok(n@, e@, msg_of(token@), sig_of(token@)) && jwt_payload_claims(
                msg_of(token@),
            ) is None)
        },
{
    let key = match jsonwebtoken::DecodingKey::from_rsa_components(n, e) {
        Ok(k) => k,
        Err(_) => return Err(RawFailure::Signature),
    };
    let validation = raw_validation(jsonwebtoken::Algorithm::RS256);
    claims_of(jsonwebtoken::decode::<serde_json::Value>(token, &key, &validation))
}

/// Relies on `jsonwebtoken::decode_header`: it reads the header segment
/// without touching the signature, and hands back the declared key
/// identifier field.
#[verifier::external_body]
pub(crate) fn decode_header_kid(token: &str) -> (r: Option<Option<String>>)
    ensures
        r is None ==> jwt_kid(token@) is None,
        r matches Some(o) ==> match o {
            Option::<String>::None => jwt_kid(token@) == Some(Option::<Seq<char>>::None),
            Option::<String>::Some(k) => jwt_kid(token@) == Some(Some(k@)),
        },
{
    match jsonwebtoken::decode_header(token) {
        Ok(h) => Some(h.kid),
        Err(_) => None,
    }
}

} // verus!

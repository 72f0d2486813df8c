//! The laws the library stands for, each proved from the contracts and
//! models of the other modules.

use crate::claims::TOKEN_LIFETIME_SECS;
use crate::errors::{is_err, AuthError};
use crate::jwks::{first_usable_key, jwk_usable_for, Jwk, RsaKeyParts};
use crate::jwt::{has_dot, hs256_decode_spec, msg_of, sig_of, JwtOutcome};
use crate::token::{extract_outcome, issued_token_ok, verify_outcome};
use crate::userid::{lemma_uuid_round_trip, pow16, uuid_chars};
use vstd::prelude::*;

verus! {

/// An issued token round-trips: for any identity value and any token that
/// issuance produced for it, local verification before the expiry instant
/// accepts, the returned subject is the stringified identity, expiry lies
/// exactly one 24-hour lifetime after issue, and extraction returns the
/// identity itself.
pub proof fn lemma_issue_then_verify_local(
    secret: Seq<char>,
    v: int,
    token: Seq<char>,
    iat: int,
    now: int,
)
    requires
        0 <= v < pow16(32),
        issued_token_ok(secret, uuid_chars(v), token, iat),
        now < iat + TOKEN_LIFETIME_SECS as int,
    ensures
        verify_outcome(secret, token, now) matches Ok(c) && c.0 == uuid_chars(v) && c.1 == iat
            && c.2 - c.1 == TOKEN_LIFETIME_SECS as int,
        extract_outcome(secret, token, now) matches Ok(u) && u == v,
{
    lemma_uuid_round_trip(v);
}

/// A token whose claims read back but whose expiry has passed fails with
/// `Expired` — never with `Signature`.
pub proof fn lemma_expired_never_signature(secret: Seq<char>, token: Seq<char>, now: int)
    requires
        hs256_decode_spec(secret, token) is Valid,
        now >= hs256_decode_spec(secret, token)->Valid_2,
    ensures
        is_err(verify_outcome(secret, token, now), AuthError::Expired),
{
}

/// A token that differs from a validly signed one only in its signature
/// segment is rejected with `Signature`, at every instant: the canonical
/// signature of the unchanged message is unique, so the altered segment
/// can never match it.
pub proof fn lemma_tampered_signature_rejected(
    secret: Seq<char>,
    token: Seq<char>,
    forged: Seq<char>,
)
    requires
        hs256_decode_spec(secret, token) is Valid,
        has_dot(forged),
        msg_of(forged) == msg_of(token),
        sig_of(forged) != sig_of(token),
    ensures
        hs256_decode_spec(secret, forged) == JwtOutcome::BadSignature,
        forall|now: int| is_err(#[trigger] verify_outcome(secret, forged, now), AuthError::Signature),
{
}

/// Racing cold-start resolutions converge: any two keys built from the
/// first usable entry of one fetched snapshot are the same key, so every
/// concurrent lookup that installed the same snapshot hands back the same
/// modulus and exponent.
pub proof fn lemma_resolutions_converge(
    keys: Seq<Jwk>,
    kid: Seq<char>,
    p1: RsaKeyParts,
    p2: RsaKeyParts,
)
    requires
        first_usable_key(keys, kid, p1),
        first_usable_key(keys, kid, p2),
    ensures
        p1.n@ == p2.n@,
        p1.e@ == p2.e@,
{
    let i1 = choose|i: int|
        #![auto]
        {
            &&& 0 <= i < keys.len()
            &&& jwk_usable_for(keys[i], kid)
            &&& forall|j: int| 0 <= j < i ==> !jwk_usable_for(#[trigger] keys[j], kid)
            &&& p1.n@ == keys[i].n->0@
            &&& p1.e@ == keys[i].e->0@
        };
    let i2 = choose|i: int|
        #![auto]
        {
            &&& 0 <= i < keys.len()
            &&& jwk_usable_for(keys[i], kid)
            &&& forall|j: int| 0 <= j < i ==> !jwk_usable_for(#[trigger] keys[j], kid)
            &&& p2.n@ == keys[i].n->0@
            &&& p2.e@ == keys[i].e->0@
        };
    if i1 < i2 {
        assert(!jwk_usable_for(keys[i1], kid));
    } else if i2 < i1 {
        assert(!jwk_usable_for(keys[i2], kid));
    }
    assert(i1 == i2);
}

} // verus!

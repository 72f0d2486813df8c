//! The claims a token carries.

use crate::clock::{now_ts, MAX_TIMESTAMP};
use crate::userid::{uuid_chars, UserId};
use vstd::prelude::*;

verus! {

/// How long an issued token stays valid, in seconds: 24 hours.
pub const TOKEN_LIFETIME_SECS: i64 = 86400;

/// The payload of a token: an opaque subject (the textual user identity),
/// the moment of issue and the moment of expiry, both Unix timestamps in
/// seconds.
#[derive(Debug, Clone)]
pub struct Claims {
    /// The subject: the user identity in hyphenated textual form.
    pub sub: String,
    /// The expiry timestamp. Verification fails once it has passed.
    pub exp: i64,
    /// The issue timestamp.
    pub iat: i64,
}

impl Claims {
    /// A freshly issued claim set is well formed: it expires exactly one
    /// token lifetime after issue, so expiry lies strictly after issue.
    pub open spec fn wf(&self) -> bool {
        &&& self.exp == self.iat + TOKEN_LIFETIME_SECS
        &&& -MAX_TIMESTAMP <= self.iat <= MAX_TIMESTAMP
    }

    /// Builds the claims for `user_id` as of now: the subject is the
    /// hyphenated form of the identity, and expiry is issue plus exactly
    /// 24 hours.
    pub fn new(user_id: UserId) -> (c: Claims)
        ensures
            c.sub@ == uuid_chars(user_id.value as int),
            c.wf(),
    {
        let now = now_ts();
        Claims { sub: user_id.to_hyphenated(), exp: now + TOKEN_LIFETIME_SECS, iat: now }
    }
}

} // verus!

//! The remote key set and its cache.
//!
//! The cache holds at most one key-set snapshot, shared by all
//! verification calls. A lookup searches the snapshot for the first entry
//! that carries the wanted identifier together with both RSA components.
//! On a miss the caller fetches the document (that is I/O and stays
//! outside this library), hands the outcome to `resolve_after_fetch`, and
//! the cache is replaced whole — never merged — before the one retry.

use crate::errors::{is_err, AuthError};
use vstd::prelude::*;

verus! {

/// One entry of the remote key set: an optional identifier, a key type,
/// and the optional base64url RSA modulus and exponent.
#[derive(Debug, Clone)]
pub struct Jwk {
    /// The key identifier, when the remote side assigned one.
    pub kid: Option<String>,
    /// The key type label.
    pub kty: String,
    /// The RSA modulus, base64url.
    pub n: Option<String>,
    /// The RSA public exponent, base64url.
    pub e: Option<String>,
}

/// The remote key-set document: an ordered sequence of entries.
#[derive(Debug, Clone)]
pub struct Jwks {
    /// The entries, in document order.
    pub keys: Vec<Jwk>,
}

/// The two strings a verification key is built from.
#[derive(Debug, Clone)]
pub struct RsaKeyParts {
    /// The RSA modulus, base64url.
    pub n: String,
    /// The RSA public exponent, base64url.
    pub e: String,
}

/// What the caller's fetch of the key-set document came to.
pub enum FetchOutcome {
    /// The document arrived and decoded into a key set.
    Fetched(Jwks),
    /// Transport failed, or the response was no success.
    Network,
    /// The body could not be decoded into the key-set shape.
    Decode,
}

/// `k` can serve a lookup for `kid`: it carries that identifier and both
/// RSA components.
pub open spec fn jwk_usable_for(k: Jwk, kid: Seq<char>) -> bool {
    &&& k.kid is Some && k.kid->0@ == kid
    &&& k.n is Some
    &&& k.e is Some
}

/// Some entry of `keys` can serve a lookup for `kid`.
pub open spec fn has_usable(keys: Seq<Jwk>, kid: Seq<char>) -> bool {
    exists|i: int| 0 <= i < keys.len() && jwk_usable_for(#[trigger] keys[i], kid)
}

/// `p` is built from the first entry of `keys` that can serve `kid`.
pub open spec fn first_usable_key(keys: Seq<Jwk>, kid: Seq<char>, p: RsaKeyParts) -> bool {
    exists|i: int|
        #![auto]
        {
            &&& 0 <= i < keys.len()
            &&& jwk_usable_for(keys[i], kid)
            &&& forall|j: int| 0 <= j < i ==> !jwk_usable_for(#[trigger] keys[j], kid)
            &&& p.n@ == keys[i].n->0@
            &&& p.e@ == keys[i].e->0@
        }
}

/// The process-wide key-set cache: empty at start, then at most one
/// snapshot, replaced whole on every successful fetch.
#[derive(Debug)]
pub struct KeyCache {
    /// The snapshot, when one has been installed.
    pub jwks: Option<Jwks>,
}

/// `a` and `b` are views of the same string.
fn str_eq(a: &str, b: &str) -> (r: bool)
    ensures
        r == (a@ == b@),
{
    let na = a.unicode_len();
    let nb = b.unicode_len();
    if na != nb {
        return false;
    }
    let mut i: usize = 0;
    while i < na
        invariant
            i <= na,
            na as nat == a@.len(),
            na as nat == b@.len(),
            forall|j: int| 0 <= j < i ==> a@[j] == b@[j],
        decreases na - i,
    {
        if a.get_char(i) != b.get_char(i) {
            return false;
        }
        i = i + 1;
    }
    proof {
        assert(a@ =~= b@);
    }
    true
}

impl KeyCache {
    /// The empty cache, the state at process start.
    pub fn new() -> (c: KeyCache)
        ensures
            c.jwks is None,
    {
        KeyCache { jwks: None }
    }

    /// The fast path: searches the cached snapshot, if any, for the first
    /// entry serving `kid`, and builds the key parts from it. `None` both
    /// for an empty cache and for a fruitless search; the caller then
    /// fetches and retries through `resolve_after_fetch`.
    pub fn lookup(&self, kid: &str) -> (r: Option<RsaKeyParts>)
        ensures
            self.jwks is None ==> r is None,
            self.jwks matches Some(s) ==> (r is Some <==> has_usable(s.keys@, kid@)),
            r matches Some(p) ==> (self.jwks matches Some(s) && first_usable_key(
                s.keys@,
                kid@,
                p,
            )),
    {
        match &self.jwks {
            None => None,
            Some(s) => find_usable(&s.keys, kid),
        }
    }

    /// Installs a freshly fetched snapshot, replacing the old one whole.
    pub fn install(&mut self, set: Jwks)
        ensures
            final(self).jwks == Some(set),
    {
        self.jwks = Some(set);
    }

    /// The slow path, after a miss: installs the fetched snapshot and
    /// retries the search exactly once. A fetch failure leaves the cache
    /// untouched and surfaces as `Network` or `Decode`; an identifier
    /// still absent after the refresh is `KeyNotFound`.
    pub fn resolve_after_fetch(&mut self, kid: &str, fetched: FetchOutcome) -> (r: Result<
        RsaKeyParts,
        AuthError,
    >)
        ensures
            fetched matches FetchOutcome::Fetched(s) ==> final(self).jwks == Some(s),
            fetched matches FetchOutcome::Fetched(s) ==> (r is Ok <==> has_usable(
                s.keys@,
                kid@,
            )),
            r matches Ok(p) ==> (fetched matches FetchOutcome::Fetched(s) && first_usable_key(
                s.keys@,
                kid@,
                p,
            )),
            fetched matches FetchOutcome::Fetched(s) && !has_usable(s.keys@, kid@) ==> is_err(
                r,
                AuthError::KeyNotFound,
            ),
            fetched is Network ==> *final(self) == *old(self) && is_err(r, AuthError::Network),
            fetched is Decode ==> *final(self) == *old(self) && is_err(r, AuthError::Decode),
    {
        match fetched {
            FetchOutcome::Network => Err(AuthError::Network),
            FetchOutcome::Decode => Err(AuthError::Decode),
            FetchOutcome::Fetched(set) => {
                self.install(set);
                match self.lookup(kid) {
                    Some(p) => Ok(p),
                    None => Err(AuthError::KeyNotFound),
                }
            },
        }
    }
}

/// Finds the first entry serving `kid` and builds the key parts from it.
fn find_usable(keys: &Vec<Jwk>, kid: &str) -> (r: Option<RsaKeyParts>)
    ensures
        r is Some <==> has_usable(keys@, kid@),
        r matches Some(p) ==> first_usable_key(keys@, kid@, p),
{
    let mut i: usize = 0;
    while i < keys.len()
        invariant
            i <= keys@.len(),
            forall|j: int| 0 <= j < i ==> !jwk_usable_for(#[trigger] keys@[j], kid@),
        decreases keys@.len() - i,
    {
        let k = &keys[i];
        let usable = match (&k.kid, &k.n, &k.e) {
            (Some(id), Some(_), Some(_)) => str_eq(id.as_str(), kid),
            _ => false,
        };
        if usable {
            let p = RsaKeyParts {
                n: k.n.as_ref().unwrap().clone(),
                e: k.e.as_ref().unwrap().clone(),
            };
            proof {
                assert(jwk_usable_for(keys@[i as int], kid@));
                assert(first_usable_key(keys@, kid@, p)) by {
                    assert(0 <= i < keys@.len() && jwk_usable_for(keys@[i as int], kid@) && (
                    forall|j: int| 0 <= j < i ==> !jwk_usable_for(#[trigger] keys@[j], kid@))
                        && p.n@ == keys@[i as int].n->0@ && p.e@ == keys@[i as int].e->0@);
                }
            }
            return Some(p);
        }
        i = i + 1;
    }
    None
}

} // verus!

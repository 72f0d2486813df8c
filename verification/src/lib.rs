//! Token issuance and verification for a user/task service.
//!
//! The library covers the authentication subsystem: minting symmetric
//! (HS256) bearer tokens for user identities, verifying them against a
//! configured secret, verifying asymmetric (RS256) tokens against a
//! remote key set resolved by key identifier, the key-set cache protocol,
//! and the extraction of a user identity from an `Authorization` header.
//!
//! Network retrieval of the remote key set is left to the embedding
//! application; the library consumes the outcome of a fetch as a plain
//! value and decides everything else.

pub mod claims;
pub mod clock;
pub mod config;
pub mod errors;
pub mod jwks;
pub mod jwt;
pub mod laws;
pub mod oidc;
pub mod token;
pub mod userid;

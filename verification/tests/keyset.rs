use authcore::config::AuthConfig;
use authcore::errors::AuthError;
use authcore::jwks::{FetchOutcome, Jwk, Jwks, KeyCache};
use authcore::oidc::jwks_url_for;

const KID: &str = "key-1";
const MODULUS: &str = "yRE6rHuNR0QbHO3H3Kt2pOKGVhQqGZXInOduQNxXzuKlvQTLUTv4l4sggh5_CYYi_cvI-SXVT9kPWSKXxJXBXd_4LkvcPuUakBoAkfh-eiFVMh2VrUyWyj3MFl0HTVF9KwRXLAcwkREiS3npThHRyIxuy0ZMeZfxVL5arMhw1SRELB8HoGfG_AtH89BIE9jDBHZ9dLelK9a184zAf8LwoPLxvJb3Il5nncqPcSfKDDodMFBIMc4lQzDKL5gvmiXLXB1AGLm8KBjfE8s3L5xqi-yUod-j8MtvIj812dkS4QMiRVN_by2h3ZY8LYVGrqZXZTcgn2ujn8uKjXLZVD5TdQ";
const EXPONENT: &str = "AQAB";

fn usable_key(kid: &str) -> Jwk {
    Jwk {
        kid: Some(kid.to_string()),
        kty: "RSA".to_string(),
        n: Some(MODULUS.to_string()),
        e: Some(EXPONENT.to_string()),
    }
}

fn sample_set() -> Jwks {
    Jwks {
        keys: vec![
            Jwk {
                kid: None,
                kty: "RSA".to_string(),
                n: Some(MODULUS.to_string()),
                e: Some(EXPONENT.to_string()),
            },
            usable_key("other-key"),
            usable_key(KID),
        ],
    }
}

#[test]
fn empty_cache_misses() {
    let cache = KeyCache::new();
    assert!(cache.lookup(KID).is_none());
}

#[test]
fn resolve_installs_snapshot_and_returns_components() {
    let mut cache = KeyCache::new();
    let parts = cache
        .resolve_after_fetch(KID, FetchOutcome::Fetched(sample_set()))
        .unwrap();
    assert_eq!(parts.n, MODULUS);
    assert_eq!(parts.e, EXPONENT);
    let again = cache.lookup(KID).unwrap();
    assert_eq!(again.n, MODULUS);
    assert_eq!(again.e, EXPONENT);
}

#[test]
fn absent_identifier_fails_with_key_not_found_after_one_refetch() {
    let mut cache = KeyCache::new();
    let mut fetches: usize = 0;
    if cache.lookup("absent").is_none() {
        fetches += 1;
        let r = cache.resolve_after_fetch("absent", FetchOutcome::Fetched(sample_set()));
        assert_eq!(r.unwrap_err(), AuthError::KeyNotFound);
    }
    assert_eq!(fetches, 1);
    assert!(cache.jwks.is_some());
    assert!(cache.lookup(KID).is_some());
}

#[test]
fn entry_without_components_cannot_serve_a_lookup() {
    let mut cache = KeyCache::new();
    let set = Jwks {
        keys: vec![Jwk {
            kid: Some(KID.to_string()),
            kty: "RSA".to_string(),
            n: None,
            e: None,
        }],
    };
    let r = cache.resolve_after_fetch(KID, FetchOutcome::Fetched(set));
    assert_eq!(r.unwrap_err(), AuthError::KeyNotFound);
}

#[test]
fn unusable_entry_is_skipped_in_favour_of_a_usable_one() {
    let mut cache = KeyCache::new();
    let set = Jwks {
        keys: vec![
            Jwk {
                kid: Some(KID.to_string()),
                kty: "RSA".to_string(),
                n: None,
                e: None,
            },
            usable_key(KID),
        ],
    };
    let parts = cache
        .resolve_after_fetch(KID, FetchOutcome::Fetched(set))
        .unwrap();
    assert_eq!(parts.n, MODULUS);
}

#[test]
fn fetch_failures_leave_cache_untouched() {
    let mut cache = KeyCache::new();
    assert_eq!(
        cache
            .resolve_after_fetch(KID, FetchOutcome::Network)
            .unwrap_err(),
        AuthError::Network
    );
    assert!(cache.jwks.is_none());
    assert_eq!(
        cache
            .resolve_after_fetch(KID, FetchOutcome::Decode)
            .unwrap_err(),
        AuthError::Decode
    );
    assert!(cache.jwks.is_none());
}

#[test]
fn racing_cold_starts_converge_to_the_same_key() {
    let mut c1 = KeyCache::new();
    let mut c2 = KeyCache::new();
    let mut c3 = KeyCache::new();
    c3.install(Jwks {
        keys: vec![usable_key("stale")],
    });
    let k1 = c1
        .resolve_after_fetch(KID, FetchOutcome::Fetched(sample_set()))
        .unwrap();
    let k2 = c2
        .resolve_after_fetch(KID, FetchOutcome::Fetched(sample_set()))
        .unwrap();
    let k3 = c3
        .resolve_after_fetch(KID, FetchOutcome::Fetched(sample_set()))
        .unwrap();
    assert_eq!(k1.n, k2.n);
    assert_eq!(k1.e, k2.e);
    assert_eq!(k1.n, k3.n);
    assert_eq!(k1.e, k3.e);
    assert_eq!(c1.lookup(KID).unwrap().n, c3.lookup(KID).unwrap().n);
}

#[test]
fn snapshot_is_replaced_whole_not_merged() {
    let mut cache = KeyCache::new();
    cache.install(Jwks {
        keys: vec![usable_key("old-key")],
    });
    assert!(cache.lookup("old-key").is_some());
    cache.install(Jwks {
        keys: vec![usable_key("new-key")],
    });
    assert!(cache.lookup("old-key").is_none());
    assert!(cache.lookup("new-key").is_some());
}

#[test]
fn jwks_endpoint_prefers_explicit_url() {
    let cfg = AuthConfig {
        jwt_secret: None,
        oidc_issuer: Some("https://issuer.example".to_string()),
        oidc_jwks_url: Some("https://keys.example/jwks.json".to_string()),
    };
    assert_eq!(jwks_url_for(&cfg), "https://keys.example/jwks.json");
}

#[test]
fn jwks_endpoint_derives_from_issuer() {
    let cfg = AuthConfig {
        jwt_secret: None,
        oidc_issuer: Some("https://issuer.example/realms/lab".to_string()),
        oidc_jwks_url: None,
    };
    assert_eq!(
        jwks_url_for(&cfg),
        "https://issuer.example/realms/lab/protocol/openid-connect/certs"
    );
}

#[test]
fn jwks_endpoint_falls_back_to_built_in_issuer() {
    let cfg = AuthConfig {
        jwt_secret: None,
        oidc_issuer: None,
        oidc_jwks_url: None,
    };
    assert_eq!(
        jwks_url_for(&cfg),
        "https://keycloak.local/realms/k3s-lab/protocol/openid-connect/certs"
    );
}

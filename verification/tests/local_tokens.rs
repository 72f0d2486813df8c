use authcore::claims::TOKEN_LIFETIME_SECS;
use authcore::config::AuthConfig;
use authcore::errors::AuthError;
use authcore::token::{
    bearer_token, create_token, extract_user_id_at, extract_user_id_from_token,
    user_id_from_auth_header, verify_token, verify_token_at,
};
use authcore::userid::UserId;

const SECRET: &str = "test-signing-secret";

fn test_config() -> AuthConfig {
    AuthConfig {
        jwt_secret: Some(SECRET.to_string()),
        oidc_issuer: None,
        oidc_jwks_url: None,
    }
}

fn make_token(sub: &str, iat: i64, exp: i64, secret: &str) -> String {
    let mut m = serde_json::Map::new();
    m.insert("sub".to_string(), serde_json::Value::String(sub.to_string()));
    m.insert("iat".to_string(), serde_json::Value::from(iat));
    m.insert("exp".to_string(), serde_json::Value::from(exp));
    jsonwebtoken::encode(
        &jsonwebtoken::Header::default(),
        &serde_json::Value::Object(m),
        &jsonwebtoken::EncodingKey::from_secret(secret.as_bytes()),
    )
    .unwrap()
}

#[test]
fn issue_then_verify_returns_subject_and_exact_lifetime() {
    let cfg = test_config();
    let uid = UserId {
        value: 0x123e4567_e89b_12d3_a456_426614174000,
    };
    let token = create_token(uid, &cfg).unwrap();
    let claims = verify_token(&token, &cfg).unwrap();
    assert_eq!(claims.sub, "123e4567-e89b-12d3-a456-426614174000");
    assert_eq!(claims.exp - claims.iat, TOKEN_LIFETIME_SECS);
}

#[test]
fn verify_after_expiry_fails_with_expired_never_signature() {
    let cfg = test_config();
    let uid = UserId { value: 7 };
    let token = create_token(uid, &cfg).unwrap();
    let claims = verify_token(&token, &cfg).unwrap();
    assert_eq!(
        verify_token_at(&token, SECRET, claims.exp).unwrap_err(),
        AuthError::Expired
    );
    assert_eq!(
        verify_token_at(&token, SECRET, claims.exp + 9999).unwrap_err(),
        AuthError::Expired
    );
    assert!(verify_token_at(&token, SECRET, claims.exp - 1).is_ok());
}

#[test]
fn flipped_signature_byte_fails_with_signature() {
    let cfg = test_config();
    let uid = UserId { value: 42 };
    let token = create_token(uid, &cfg).unwrap();
    let mut chars: Vec<char> = token.chars().collect();
    let last = chars.len() - 1;
    chars[last] = if chars[last] == 'A' { 'B' } else { 'A' };
    let forged: String = chars.into_iter().collect();
    assert_ne!(forged, token);
    assert_eq!(
        verify_token_at(&forged, SECRET, 0).unwrap_err(),
        AuthError::Signature
    );
}

#[test]
fn wrong_secret_fails_with_signature() {
    let cfg = test_config();
    let token = create_token(UserId { value: 1 }, &cfg).unwrap();
    assert_eq!(
        verify_token_at(&token, "another-secret", 0).unwrap_err(),
        AuthError::Signature
    );
}

#[test]
fn garbage_tokens_fail_with_malformed() {
    assert_eq!(
        verify_token_at("garbage", SECRET, 0).unwrap_err(),
        AuthError::Malformed
    );
    assert_eq!(
        verify_token_at("a.b.c", SECRET, 0).unwrap_err(),
        AuthError::Malformed
    );
    assert_eq!(
        verify_token_at("", SECRET, 0).unwrap_err(),
        AuthError::Malformed
    );
}

#[test]
fn unset_secret_fails_with_configuration() {
    let cfg = AuthConfig {
        jwt_secret: None,
        oidc_issuer: None,
        oidc_jwks_url: None,
    };
    assert_eq!(
        create_token(UserId { value: 5 }, &cfg).unwrap_err(),
        AuthError::Configuration
    );
    assert_eq!(
        verify_token("x.y.z", &cfg).unwrap_err(),
        AuthError::Configuration
    );
    assert_eq!(
        extract_user_id_from_token("x.y.z", &cfg).unwrap_err(),
        AuthError::Configuration
    );
}

#[test]
fn non_uuid_subject_fails_with_invalid_user_id() {
    let token = make_token("not-a-user-id", 1000, 4102444800, SECRET);
    assert_eq!(
        extract_user_id_at(&token, SECRET, 1000).unwrap_err(),
        AuthError::InvalidUserId
    );
}

#[test]
fn payload_without_subject_fails_with_malformed() {
    let mut m = serde_json::Map::new();
    m.insert("iat".to_string(), serde_json::Value::from(1000));
    m.insert("exp".to_string(), serde_json::Value::from(4102444800i64));
    let token = jsonwebtoken::encode(
        &jsonwebtoken::Header::default(),
        &serde_json::Value::Object(m),
        &jsonwebtoken::EncodingKey::from_secret(SECRET.as_bytes()),
    )
    .unwrap();
    assert_eq!(
        verify_token_at(&token, SECRET, 1000).unwrap_err(),
        AuthError::Malformed
    );
}

#[test]
fn end_to_end_issue_verify_extract() {
    let cfg = test_config();
    let uid = UserId::parse("11111111-1111-1111-1111-111111111111").unwrap();
    let token = create_token(uid, &cfg).unwrap();
    let claims = verify_token(&token, &cfg).unwrap();
    assert_eq!(claims.sub, "11111111-1111-1111-1111-111111111111");
    let header = format!("Bearer {}", token);
    let got = user_id_from_auth_header(Some(&header), &cfg).unwrap();
    assert_eq!(got, uid);
}

#[test]
fn missing_authorization_fails_with_missing_bearer_prefix() {
    let cfg = test_config();
    assert_eq!(
        user_id_from_auth_header(None, &cfg).unwrap_err(),
        AuthError::MissingBearerPrefix
    );
    assert_eq!(
        user_id_from_auth_header(Some("Basic abc"), &cfg).unwrap_err(),
        AuthError::MissingBearerPrefix
    );
    assert_eq!(
        bearer_token("bearer lowercase").unwrap_err(),
        AuthError::MissingBearerPrefix
    );
    assert_eq!(bearer_token("Bearer tok").unwrap(), "tok");
}

#[test]
fn failures_map_to_boundary_statuses() {
    assert_eq!(AuthError::Configuration.http_status(), 500);
    assert_eq!(AuthError::Signing.http_status(), 500);
    assert_eq!(AuthError::Signature.http_status(), 401);
    assert_eq!(AuthError::Expired.http_status(), 401);
    assert_eq!(AuthError::Malformed.http_status(), 401);
    assert_eq!(AuthError::MissingKeyId.http_status(), 401);
    assert_eq!(AuthError::KeyNotFound.http_status(), 401);
    assert_eq!(AuthError::Network.http_status(), 401);
    assert_eq!(AuthError::Decode.http_status(), 401);
    assert_eq!(AuthError::MissingBearerPrefix.http_status(), 401);
    assert_eq!(AuthError::InvalidUserId.http_status(), 401);
    assert!(!AuthError::Expired.message().is_empty());
}

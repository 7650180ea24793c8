use auth_service::config::crypto::{
    claims_at, token_or_failure, Claims, CryptoError, CryptoService, TOKEN_LIFETIME_SECS,
};
use auth_service::config::Config;
use std::sync::Arc;

const NOW: i64 = 1_700_000_000;
const ADA: u128 = 0xa1a2a3a4_b1b2_c1c2_d1d2_d3d4d5d6d7d8;

fn service(secret: &str) -> CryptoService {
    CryptoService { key: Arc::new("hash key".to_string()), jwt_secret: Arc::new(secret.to_string()) }
}

#[test]
fn hashing_takes_both_secrets_from_the_config() {
    let config = Config {
        host: "127.0.0.1".to_string(),
        port: 8080,
        database_url: "postgres://localhost/app".to_string(),
        secret_key: "the hash key".to_string(),
        jwt_secret: "the signing secret".to_string(),
    };
    let crypto = config.hashing();
    assert_eq!(crypto.key.as_str(), "the hash key");
    assert_eq!(crypto.jwt_secret.as_str(), "the signing secret");
}

#[test]
fn lifetime_is_one_day() {
    assert_eq!(TOKEN_LIFETIME_SECS, 24 * 60 * 60);
}

#[test]
fn issue_then_verify_gives_the_subject() {
    let crypto = service("s3cret");
    let token = crypto.generate_jwt_at(ADA, NOW).unwrap();
    let claims = crypto.verify_jwt_at(&token, NOW).unwrap();
    assert_eq!(claims, Claims { sub: ADA, exp: NOW + 86_400 });
}

#[test]
fn token_holds_up_to_its_expiry_instant() {
    let crypto = service("s3cret");
    let token = crypto.generate_jwt_at(ADA, NOW).unwrap();
    assert_eq!(crypto.verify_jwt_at(&token, NOW + 86_399).unwrap().sub, ADA);
    assert_eq!(crypto.verify_jwt_at(&token, NOW + 86_400).unwrap().sub, ADA);
}

#[test]
fn token_fails_after_its_expiry_instant() {
    let crypto = service("s3cret");
    let token = crypto.generate_jwt_at(ADA, NOW).unwrap();
    assert_eq!(crypto.verify_jwt_at(&token, NOW + 86_401), Err(CryptoError::TokenInvalid));
    assert_eq!(crypto.verify_jwt_at(&token, i64::MAX), Err(CryptoError::TokenInvalid));
}

#[test]
fn token_of_another_secret_fails() {
    let token = service("one secret").generate_jwt_at(ADA, NOW).unwrap();
    assert_eq!(
        service("another secret").verify_jwt_at(&token, NOW),
        Err(CryptoError::TokenInvalid)
    );
}

#[test]
fn malformed_tokens_fail() {
    let crypto = service("s3cret");
    for text in ["", "not a token", "a.b.c", "..", "a.b"] {
        assert_eq!(crypto.verify_jwt_at(text, NOW), Err(CryptoError::TokenInvalid));
    }
}

#[test]
fn tampered_token_fails() {
    let crypto = service("s3cret");
    let token = crypto.generate_jwt_at(ADA, NOW).unwrap();
    let other = crypto.generate_jwt_at(ADA + 1, NOW).unwrap();
    let signature = token.rsplit('.').next().unwrap();
    let mut parts: Vec<&str> = other.split('.').collect();
    parts[2] = signature;
    let forged = parts.join(".");
    assert_eq!(crypto.verify_jwt_at(&forged, NOW), Err(CryptoError::TokenInvalid));
}

#[test]
fn token_of_another_algorithm_fails() {
    let mut claims = serde_json::Map::new();
    claims.insert("sub".to_string(), uuid::Uuid::from_u128(ADA).to_string().into());
    claims.insert("exp".to_string(), (NOW + 86_400).into());
    let header = jsonwebtoken::Header::new(jsonwebtoken::Algorithm::HS512);
    let key = jsonwebtoken::EncodingKey::from_secret("s3cret".as_bytes());
    let token = jsonwebtoken::encode(&header, &claims, &key).unwrap();
    assert_eq!(service("s3cret").verify_jwt_at(&token, NOW), Err(CryptoError::TokenInvalid));
}

#[test]
fn token_is_a_signed_claims_object() {
    let token = service("s3cret").generate_jwt_at(ADA, NOW).unwrap();
    assert_eq!(token.split('.').count(), 3);
    let mut validation = jsonwebtoken::Validation::new(jsonwebtoken::Algorithm::HS256);
    validation.validate_exp = false;
    let key = jsonwebtoken::DecodingKey::from_secret("s3cret".as_bytes());
    let data = jsonwebtoken::decode::<serde_json::Value>(&token, &key, &validation).unwrap();
    assert_eq!(data.header.alg, jsonwebtoken::Algorithm::HS256);
    assert_eq!(
        data.claims.get("sub").unwrap().as_str().unwrap(),
        "a1a2a3a4-b1b2-c1c2-d1d2-d3d4d5d6d7d8"
    );
    assert_eq!(data.claims.get("exp").unwrap().as_i64().unwrap(), NOW + 86_400);
}

#[test]
fn token_made_elsewhere_with_the_secret_verifies() {
    let mut claims = serde_json::Map::new();
    claims.insert("sub".to_string(), "a1a2a3a4-b1b2-c1c2-d1d2-d3d4d5d6d7d8".into());
    claims.insert("exp".to_string(), (NOW + 10).into());
    let key = jsonwebtoken::EncodingKey::from_secret("s3cret".as_bytes());
    let token = jsonwebtoken::encode(&jsonwebtoken::Header::default(), &claims, &key).unwrap();
    let crypto = service("s3cret");
    assert_eq!(crypto.verify_jwt_at(&token, NOW), Ok(Claims { sub: ADA, exp: NOW + 10 }));
    assert_eq!(crypto.verify_jwt_at(&token, NOW + 11), Err(CryptoError::TokenInvalid));
}

#[test]
fn token_without_a_uuid_subject_fails() {
    let mut claims = serde_json::Map::new();
    claims.insert("sub".to_string(), "ada".into());
    claims.insert("exp".to_string(), (NOW + 10).into());
    let key = jsonwebtoken::EncodingKey::from_secret("s3cret".as_bytes());
    let token = jsonwebtoken::encode(&jsonwebtoken::Header::default(), &claims, &key).unwrap();
    assert_eq!(service("s3cret").verify_jwt_at(&token, NOW), Err(CryptoError::TokenInvalid));
}

#[test]
fn token_without_expiry_fails() {
    let mut claims = serde_json::Map::new();
    claims.insert("sub".to_string(), "a1a2a3a4-b1b2-c1c2-d1d2-d3d4d5d6d7d8".into());
    let key = jsonwebtoken::EncodingKey::from_secret("s3cret".as_bytes());
    let token = jsonwebtoken::encode(&jsonwebtoken::Header::default(), &claims, &key).unwrap();
    assert_eq!(service("s3cret").verify_jwt_at(&token, NOW), Err(CryptoError::TokenInvalid));
}

#[test]
fn no_token_where_the_expiry_does_not_fit() {
    let crypto = service("s3cret");
    assert_eq!(crypto.generate_jwt_at(ADA, i64::MAX), Err(CryptoError::TokenCreation));
    assert_eq!(crypto.generate_jwt_at(ADA, i64::MAX - 86_399), Err(CryptoError::TokenCreation));
    assert!(crypto.generate_jwt_at(ADA, i64::MAX - 86_400).is_ok());
}

#[test]
fn issuing_is_a_function_of_subject_instant_and_secret() {
    let crypto = service("s3cret");
    assert_eq!(crypto.generate_jwt_at(ADA, NOW), crypto.generate_jwt_at(ADA, NOW));
    assert_ne!(crypto.generate_jwt_at(ADA, NOW), crypto.generate_jwt_at(ADA, NOW + 1));
    assert_ne!(crypto.generate_jwt_at(ADA, NOW), crypto.generate_jwt_at(ADA + 1, NOW));
    assert_ne!(crypto.generate_jwt_at(ADA, NOW), service("other").generate_jwt_at(ADA, NOW));
}

#[test]
fn issue_then_immediate_verify_by_the_clock() {
    let crypto = service("s3cret");
    let token = crypto.generate_jwt(ADA).unwrap();
    let claims = crypto.verify_jwt(&token).unwrap();
    assert_eq!(claims.sub, ADA);
    let now = chrono::Utc::now().timestamp();
    assert!(claims.exp >= now + 86_400 - 5 && claims.exp <= now + 86_400);
}

#[test]
fn token_issued_a_day_and_more_ago_fails_by_the_clock() {
    let crypto = service("s3cret");
    let now = chrono::Utc::now().timestamp();
    let token = crypto.generate_jwt_at(ADA, now - 86_400 - 60).unwrap();
    assert_eq!(crypto.verify_jwt(&token), Err(CryptoError::TokenInvalid));
}

#[test]
fn token_that_expires_before_the_epoch_is_made_but_never_verifies() {
    let crypto = service("s3cret");
    let token = crypto.generate_jwt_at(ADA, -100_000).unwrap();
    assert_eq!(crypto.verify_jwt_at(&token, -100_000), Err(CryptoError::TokenInvalid));
    let token = crypto.generate_jwt_at(ADA, -86_400).unwrap();
    assert_eq!(crypto.verify_jwt_at(&token, -86_400), Ok(Claims { sub: ADA, exp: 0 }));
}

#[test]
fn secrets_that_pad_to_the_same_key_sign_alike() {
    let token = service("k").generate_jwt_at(ADA, NOW).unwrap();
    assert_eq!(service("k\0").verify_jwt_at(&token, NOW), Ok(Claims { sub: ADA, exp: NOW + 86_400 }));
}

#[test]
fn decoded_claims_are_judged_at_the_instant() {
    assert_eq!(claims_at(None, NOW), Err(CryptoError::TokenInvalid));
    assert_eq!(claims_at(Some((ADA, NOW)), NOW), Ok(Claims { sub: ADA, exp: NOW }));
    assert_eq!(claims_at(Some((ADA, NOW + 1)), NOW), Ok(Claims { sub: ADA, exp: NOW + 1 }));
    assert_eq!(claims_at(Some((ADA, NOW - 1)), NOW), Err(CryptoError::TokenInvalid));
    assert_eq!(claims_at(Some((ADA, i64::MAX)), i64::MAX), Ok(Claims { sub: ADA, exp: i64::MAX }));
    assert_eq!(claims_at(Some((ADA, i64::MIN)), 0), Err(CryptoError::TokenInvalid));
}

#[test]
fn encoder_answer_is_the_token_or_the_failure() {
    assert_eq!(token_or_failure(Ok("a.b.c".to_string())), Ok("a.b.c".to_string()));
    let error = jsonwebtoken::errors::Error::from(jsonwebtoken::errors::ErrorKind::InvalidAlgorithm);
    assert_eq!(token_or_failure(Err(error)), Err(CryptoError::TokenCreation));
}

#[test]
fn the_clock_never_stands_in_the_way_of_a_token() {
    let crypto = service("s3cret");
    for user in [0u128, 1, ADA, u128::MAX] {
        let token = crypto.generate_jwt(user).unwrap();
        assert_eq!(crypto.verify_jwt(&token).unwrap().sub, user);
    }
}

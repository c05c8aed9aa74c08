use backend_core::auth::authorize;
use backend_core::error::AppError;
use backend_core::jwt::{create_jwt, create_jwt_at, verify_jwt, verify_jwt_at, Claims};

const NOW: u64 = 1_700_000_000;
const SECRET: &str = "server-held-secret";

#[test]
fn claims_new_sets_subject_and_expiry() {
    let c = Claims::new(7, NOW);
    assert_eq!(c.sub, "7");
    assert_eq!(c.iat, NOW);
    assert_eq!(c.exp, NOW + 86400);
}

#[test]
fn token_round_trip_within_24h() {
    let token = create_jwt_at(7, SECRET, NOW).unwrap();
    let claims = verify_jwt_at(&token, SECRET, NOW + 3600).unwrap();
    assert_eq!(claims.sub, "7");
    assert_eq!(claims.iat, NOW);
    assert_eq!(claims.exp, NOW + 86400);
}

#[test]
fn expired_token_is_rejected() {
    let token = create_jwt_at(7, SECRET, NOW).unwrap();
    let late = verify_jwt_at(&token, SECRET, NOW + 86400);
    assert!(matches!(late, Err(AppError::Unauthorized(_))));
    let just_in_time = verify_jwt_at(&token, SECRET, NOW + 86399);
    assert!(just_in_time.is_ok());
}

#[test]
fn wrong_secret_is_rejected() {
    let token = create_jwt_at(7, SECRET, NOW).unwrap();
    let r = verify_jwt_at(&token, "another-secret", NOW + 10);
    assert!(matches!(r, Err(AppError::Unauthorized(_))));
}

#[test]
fn malformed_token_is_rejected() {
    let r = verify_jwt_at("not.a.token", SECRET, NOW);
    assert!(matches!(r, Err(AppError::Unauthorized(_))));
    let r2 = verify_jwt_at("", SECRET, NOW);
    assert!(r2.is_err());
}

#[test]
fn issuance_always_returns_a_token() {
    assert!(create_jwt_at(7, SECRET, NOW).is_some());
    assert!(create_jwt_at(0, "", NOW).is_some());
    assert!(create_jwt_at(i32::MAX, "long secret long secret long secret long secret", 0).is_some());
    assert!(create_jwt(1, SECRET).is_some());
}

#[test]
fn clock_based_issue_and_verify() {
    let token = create_jwt(123, SECRET).unwrap();
    let claims = verify_jwt(&token, SECRET).unwrap();
    assert_eq!(claims.sub, "123");
}

#[test]
fn token_agrees_with_the_signing_library() {
    // decode the issued token directly with jsonwebtoken
    let token = create_jwt_at(7, SECRET, NOW).unwrap();
    let key = jsonwebtoken::DecodingKey::from_secret(SECRET.as_bytes());
    let mut v = jsonwebtoken::Validation::new(jsonwebtoken::Algorithm::HS256);
    v.validate_exp = false;
    let data = jsonwebtoken::decode::<serde_json::Value>(&token, &key, &v).unwrap();
    assert_eq!(data.claims.get("sub").unwrap().as_str(), Some("7"));
    assert_eq!(data.claims.get("iat").unwrap().as_u64(), Some(NOW));
    assert_eq!(data.claims.get("exp").unwrap().as_u64(), Some(NOW + 86400));
}

#[test]
fn authorize_accepts_a_bearer_token() {
    let token = create_jwt_at(9, SECRET, NOW).unwrap();
    let header = format!("Bearer {}", token);
    let claims = authorize(Some(&header), SECRET, NOW + 5).unwrap();
    assert_eq!(claims.sub, "9");
}

#[test]
fn authorize_rejects_missing_or_malformed_headers() {
    let r = authorize(None, SECRET, NOW);
    match r {
        Err(AppError::Unauthorized(m)) => {
            assert_eq!(m, "Missing or invalid authorization header")
        },
        _ => panic!("expected Unauthorized"),
    }
    let token = create_jwt_at(9, SECRET, NOW).unwrap();
    let basic = format!("Basic {}", token);
    assert!(authorize(Some(&basic), SECRET, NOW).is_err());
    assert!(authorize(Some("Bearer"), SECRET, NOW).is_err());
}

#[test]
fn authorize_rejects_bad_tokens() {
    let r = authorize(Some("Bearer junk"), SECRET, NOW);
    match r {
        Err(AppError::Unauthorized(m)) => assert_eq!(m, "Invalid token"),
        _ => panic!("expected Unauthorized"),
    }
    let token = create_jwt_at(9, SECRET, NOW).unwrap();
    let header = format!("Bearer {}", token);
    assert!(authorize(Some(&header), SECRET, NOW + 86400).is_err());
}

use backend_core::config::AppConfig;
use backend_core::decimal::u64_to_string;
use backend_core::error::AppError;
use backend_core::pagination::{normalize, total_pages, PaginationParams};
use backend_core::validation::{CreateUserRequest, UpdateUserRequest};

fn base_user() -> CreateUserRequest {
    CreateUserRequest {
        email: "a@example.com".to_string(),
        username: "alice".to_string(),
        password: "secret".to_string(),
        full_name: None,
    }
}

#[test]
fn valid_user_payload_passes() {
    assert!(base_user().validate());
}

#[test]
fn email_rule_uses_the_email_grammar() {
    let mut r = base_user();
    r.email = "plainaddress".to_string();
    assert!(!r.validate());
    r.email = "".to_string();
    assert!(!r.validate());
    r.email = "user@[127.0.0.1]".to_string();
    assert!(r.validate());
    r.email = "first.last@sub.example.org".to_string();
    assert!(r.validate());
}

#[test]
fn username_length_bounds() {
    let mut r = base_user();
    r.username = "ab".to_string();
    assert!(!r.validate());
    r.username = "abc".to_string();
    assert!(r.validate());
    r.username = "x".repeat(50);
    assert!(r.validate());
    r.username = "x".repeat(51);
    assert!(!r.validate());
}

#[test]
fn password_minimum_length() {
    let mut r = base_user();
    r.password = "12345".to_string();
    assert!(!r.validate());
    r.password = "123456".to_string();
    assert!(r.validate());
}

#[test]
fn full_name_bounds_apply_only_when_present() {
    let mut r = base_user();
    r.full_name = Some("".to_string());
    assert!(!r.validate());
    r.full_name = Some("x".repeat(100));
    assert!(r.validate());
    r.full_name = Some("x".repeat(101));
    assert!(!r.validate());
    r.full_name = None;
    assert!(r.validate());
}

#[test]
fn update_rules_apply_per_present_field() {
    let ok = UpdateUserRequest { email: None, username: None, full_name: None, is_active: None };
    assert!(ok.validate());
    let bad_email = UpdateUserRequest {
        email: Some("nope".to_string()),
        username: None,
        full_name: None,
        is_active: None,
    };
    assert!(!bad_email.validate());
    let ok2 = UpdateUserRequest {
        email: Some("b@example.com".to_string()),
        username: Some("bob".to_string()),
        full_name: Some("Bob".to_string()),
        is_active: Some(false),
    };
    assert!(ok2.validate());
}

#[test]
fn pagination_defaults_and_clamping() {
    assert_eq!(normalize(&PaginationParams { page: None, limit: None }), (1, 10));
    assert_eq!(normalize(&PaginationParams { page: Some(0), limit: Some(0) }), (1, 10));
    assert_eq!(normalize(&PaginationParams { page: Some(3), limit: Some(25) }), (3, 25));
    let d = PaginationParams::default();
    assert_eq!(d.page, Some(1));
    assert_eq!(d.limit, Some(10));
}

#[test]
fn total_pages_is_the_ceiling() {
    assert_eq!(total_pages(0, 10), 0);
    assert_eq!(total_pages(1, 10), 1);
    assert_eq!(total_pages(10, 10), 1);
    assert_eq!(total_pages(11, 10), 2);
    assert_eq!(total_pages(7, 3), 3);
    assert_eq!(total_pages(u64::MAX, 1), u64::MAX);
}

#[test]
fn decimal_rendering() {
    assert_eq!(u64_to_string(0), "0");
    assert_eq!(u64_to_string(7), "7");
    assert_eq!(u64_to_string(10), "10");
    assert_eq!(u64_to_string(90210), "90210");
    assert_eq!(u64_to_string(u64::MAX), "18446744073709551615");
}

#[test]
fn server_address_joins_host_and_port() {
    let c = AppConfig {
        database_url: "postgres://localhost/app".to_string(),
        server_host: "0.0.0.0".to_string(),
        server_port: 3000,
        jwt_secret: "s".to_string(),
    };
    assert_eq!(c.server_address(), "0.0.0.0:3000");
}

#[test]
fn app_error_status_codes() {
    assert_eq!(AppError::DatabaseError("d".to_string()).status_code(), 500);
    assert_eq!(AppError::ValidationError("v".to_string()).status_code(), 400);
    assert_eq!(AppError::NotFound("n".to_string()).status_code(), 404);
    assert_eq!(AppError::Conflict("c".to_string()).status_code(), 409);
    assert_eq!(AppError::Unauthorized("u".to_string()).status_code(), 401);
    assert_eq!(AppError::InternalServerError("i".to_string()).status_code(), 500);
    assert_eq!(AppError::NotFound("gone".to_string()).message(), "gone");
}

use backend_core::codec::{parse_envelope, render_envelope};
use backend_core::envelope::ApiResponse;

#[test]
fn success_envelope_shape() {
    let e: ApiResponse<String> = ApiResponse::success("payload".to_string(), "all good");
    assert!(e.success);
    assert_eq!(e.message, "all good");
    assert_eq!(e.data, Some("payload".to_string()));
}

#[test]
fn error_envelope_shape() {
    let e: ApiResponse<String> = ApiResponse::error("boom");
    assert!(!e.success);
    assert_eq!(e.message, "boom");
    assert_eq!(e.data, None);
}

#[test]
fn health_check_is_ok() {
    let e = backend_core::health_check();
    assert!(e.success);
    assert_eq!(e.message, "Service is healthy");
    assert_eq!(e.data, Some("OK".to_string()));
}

#[test]
fn envelope_round_trip_success() {
    let e: ApiResponse<String> = ApiResponse::success("x".to_string(), "m");
    let wire = render_envelope(&e);
    assert_eq!(wire, "{\"success\":true,\"message\":\"m\",\"data\":\"x\"}");
    let back = parse_envelope(&wire).unwrap();
    assert!(back.success);
    assert_eq!(back.message, "m");
    assert_eq!(back.data, Some("x".to_string()));
}

#[test]
fn envelope_round_trip_error() {
    let e: ApiResponse<String> = ApiResponse::error("not found");
    let wire = render_envelope(&e);
    assert_eq!(wire, "{\"success\":false,\"message\":\"not found\",\"data\":null}");
    let back = parse_envelope(&wire).unwrap();
    assert!(!back.success);
    assert_eq!(back.message, "not found");
    assert_eq!(back.data, None);
}

#[test]
fn envelope_round_trip_with_escapes() {
    let tricky = "he said \"hi\\there\"\nline2\r\ttab".to_string();
    let e: ApiResponse<String> = ApiResponse::success(tricky.clone(), "quote \" and \\ slash");
    let wire = render_envelope(&e);
    let back = parse_envelope(&wire).unwrap();
    assert!(back.success);
    assert_eq!(back.message, "quote \" and \\ slash");
    assert_eq!(back.data, Some(tricky));
}

#[test]
fn rendered_envelope_is_real_json() {
    let e: ApiResponse<String> = ApiResponse::success("a \"b\"\n".to_string(), "msg \\ here");
    let wire = render_envelope(&e);
    let v: serde_json::Value = serde_json::from_str(&wire).unwrap();
    assert_eq!(v.get("success").unwrap().as_bool(), Some(true));
    assert_eq!(v.get("message").unwrap().as_str(), Some("msg \\ here"));
    assert_eq!(v.get("data").unwrap().as_str(), Some("a \"b\"\n"));
}

#[test]
fn parse_rejects_garbage() {
    assert!(parse_envelope("").is_none());
    assert!(parse_envelope("{}").is_none());
    assert!(parse_envelope("{\"success\":maybe,\"message\":\"m\",\"data\":null}").is_none());
    assert!(parse_envelope("{\"success\":true,\"message\":\"m\",\"data\":null").is_none());
    assert!(parse_envelope("{\"success\":true,\"message\":\"m\",\"data\":null}x").is_none());
}

use tanaka_server::auth::auth_middleware;
use tanaka_server::config::AuthConfig;
use tanaka_server::cors::{is_extension_origin, origin_rules, OriginRule};
use tanaka_server::error::app_error::AppError;
use tanaka_server::error::code::ErrorCode;
use tanaka_server::middleware::validate_content_type;
use tanaka_server::services::auth::{MockAuthService, SharedTokenAuthService};

fn config(token: &str, rate_limiting: bool, max_requests_per_minute: u32) -> AuthConfig {
    AuthConfig {
        shared_token: token.to_string(),
        token_header: "authorization".to_string(),
        rate_limiting,
        max_requests_per_minute,
    }
}

fn refusal(result: Result<tanaka_server::services::AuthContext, AppError>) -> (ErrorCode, String) {
    match result {
        Err(AppError::Auth { message, code }) => (code, message),
        _ => panic!("Expected an authentication error"),
    }
}

#[test]
fn test_shared_token_auth_success() {
    let auth_service = SharedTokenAuthService::new(config("test-token", false, 60));
    let result = auth_service.validate_token("test-token");

    assert!(result.is_ok());
    let context = result.unwrap();
    assert_eq!(context.device_id, "auth-validated");
    assert_eq!(context.token, "test-token");
    assert!(context.permissions.contains(&"sync".to_string()));
}

#[test]
fn test_shared_token_auth_failure() {
    let auth_service = SharedTokenAuthService::new(config("correct-token", false, 60));
    let result = auth_service.validate_token("wrong-token");

    assert!(result.is_err());
}

#[test]
fn test_bearer_token_extraction() {
    let auth_service = SharedTokenAuthService::new(config("test-token", false, 60));
    let result = auth_service.validate_token("Bearer test-token");

    assert!(result.is_ok());
    let context = result.unwrap();
    assert_eq!(context.token, "test-token");
}

#[test]
fn test_rate_limiting_disabled() {
    let mut auth_service = SharedTokenAuthService::new(config("test-token", false, 1));

    assert!(auth_service.check_rate_limit("device-1").unwrap());
    assert!(auth_service.check_rate_limit("device-1").unwrap());
}

#[test]
fn test_rate_limiting_enabled() {
    let mut auth_service = SharedTokenAuthService::new(config("test-token", true, 2));

    assert!(auth_service.check_rate_limit("device-1").unwrap());
    auth_service.record_request("device-1").unwrap();

    assert!(auth_service.check_rate_limit("device-1").unwrap());
    auth_service.record_request("device-1").unwrap();

    assert!(!auth_service.check_rate_limit("device-1").unwrap());
}

#[test]
fn test_mock_auth_service() {
    let auth_service = MockAuthService::new();
    let result = auth_service.validate_token("any-token");

    assert!(result.is_ok());
    assert!(auth_service.check_rate_limit("any-device").unwrap());
    assert_eq!(result.unwrap().device_id, "mock-device-9");
}

#[test]
fn test_mock_auth_service_failure() {
    let auth_service = MockAuthService::new().with_auth_failure();
    let result = auth_service.validate_token("any-token");

    assert!(result.is_err());
}

#[test]
fn test_mock_auth_service_configurability() {
    let auth_service = MockAuthService::default();
    assert!(auth_service.validate_token("token").is_ok());
    let failing = MockAuthService::new().with_auth_failure();
    assert!(failing.validate_token("token").is_err());
    let limited = MockAuthService::new().with_rate_limiting();
    let result = limited.check_rate_limit("device");
    assert!(result.is_ok());
    assert!(!result.unwrap());
    assert!(limited.record_request("device").is_ok());
}

#[test]
fn test_rate_limiter_cleanup_prevents_memory_leak() {
    let mut auth_service = SharedTokenAuthService::new(config("test-token", true, 100));

    for i in 0..100 {
        let device_id = format!("device-{i}");
        auth_service.record_request_at(&device_id, 1_000).unwrap();
    }
    for i in 0..100 {
        assert!(auth_service.has_window(&format!("device-{i}")));
    }

    auth_service
        .check_rate_limit_at("trigger-cleanup", 302_000)
        .unwrap();

    for i in 0..100 {
        assert!(!auth_service.has_window(&format!("device-{i}")));
    }
    assert!(auth_service.has_window("trigger-cleanup"));
}

#[test]
fn test_rate_limiter_cleanup_removes_old_entries() {
    let mut auth_service = SharedTokenAuthService::new(config("test-token", true, 100));

    auth_service.record_request_at("old-device", 0).unwrap();
    auth_service.record_request_at("new-device", 301_000).unwrap();
    assert!(auth_service.has_window("old-device"));
    assert!(auth_service.has_window("new-device"));

    auth_service.check_rate_limit_at("trigger", 301_000).unwrap();

    assert!(!auth_service.has_window("old-device"));
    assert!(auth_service.has_window("new-device"));
}

#[test]
fn test_cleanup_does_not_block_normal_operation() {
    let mut auth_service = SharedTokenAuthService::new(config("test-token", true, 100));

    assert!(auth_service.check_rate_limit("device-1").unwrap());
    auth_service.record_request("device-1").unwrap();
    assert!(auth_service.check_rate_limit("device-1").unwrap());
}

#[test]
fn the_window_starts_over_after_a_minute() {
    let mut auth_service = SharedTokenAuthService::new(config("test-token", true, 2));
    assert!(auth_service.check_rate_limit_at("d", 0).unwrap());
    auth_service.record_request_at("d", 0).unwrap();
    auth_service.record_request_at("d", 10).unwrap();
    assert!(!auth_service.check_rate_limit_at("d", 59_999).unwrap());
    assert!(auth_service.check_rate_limit_at("d", 60_000).unwrap());
    auth_service.record_request_at("d", 60_000).unwrap();
    assert!(auth_service.check_rate_limit_at("d", 60_001).unwrap());
    auth_service.record_request_at("d", 60_001).unwrap();
    assert!(!auth_service.check_rate_limit_at("d", 60_002).unwrap());
    assert!(auth_service.check_rate_limit_at("other", 60_002).unwrap());
}

#[test]
fn a_sweep_waits_five_minutes_after_the_last() {
    let mut auth_service = SharedTokenAuthService::new(config("test-token", true, 2));
    auth_service.record_request_at("a", 1).unwrap();
    auth_service.record_request_at("b", 0).unwrap();
    auth_service.check_rate_limit_at("t", 299_999).unwrap();
    assert!(auth_service.has_window("a"));
    assert!(auth_service.has_window("b"));
    auth_service.check_rate_limit_at("t", 300_001).unwrap();
    assert!(auth_service.has_window("a"));
    assert!(!auth_service.has_window("b"));
    auth_service.check_rate_limit_at("t", 600_000).unwrap();
    assert!(auth_service.has_window("a"));
    auth_service.check_rate_limit_at("t", 600_001).unwrap();
    assert!(!auth_service.has_window("a"));
    auth_service.record_request_at("c", 600_001).unwrap();
    auth_service.cleanup_old_rate_limit_entries(900_001);
    assert!(auth_service.has_window("c"));
    auth_service.cleanup_old_rate_limit_entries(900_002);
    assert!(!auth_service.has_window("c"));
}

#[test]
fn test_auth_missing_header() {
    let (code, message) = refusal(auth_middleware(&config("secret", true, 60), None));
    assert_eq!(code, ErrorCode::AuthTokenMissing);
    assert_eq!(message, "Authentication token is missing");
    assert_eq!(AppError::auth_token_missing().status_code(), 401);
}

#[test]
fn test_auth_invalid_format() {
    let (code, message) = refusal(auth_middleware(&config("secret", true, 60), Some("secret")));
    assert_eq!(code, ErrorCode::AuthTokenInvalid);
    assert_eq!(message, "Invalid authorization format. Use: Bearer <token>");
}

#[test]
fn test_auth_invalid_token() {
    let (code, message) = refusal(auth_middleware(
        &config("secret", true, 60),
        Some("Bearer wrong"),
    ));
    assert_eq!(code, ErrorCode::AuthTokenInvalid);
    assert_eq!(message, "Invalid authentication token");
}

#[test]
fn test_auth_case_sensitivity() {
    let config = config("Secret-Token", true, 60);
    let granted = auth_middleware(&config, Some("Bearer Secret-Token")).unwrap();
    assert_eq!(granted.device_id, "auth-validated");
    assert_eq!(granted.token, "Secret-Token");
    assert_eq!(granted.permissions, vec!["sync".to_string()]);
    assert!(auth_middleware(&config, Some("Bearer secret-token")).is_err());
    let (_, lower) = refusal(auth_middleware(&config, Some("bearer Secret-Token")));
    assert_eq!(lower, "Invalid authorization format. Use: Bearer <token>");
    let (_, upper) = refusal(auth_middleware(&config, Some("BEARER Secret-Token")));
    assert_eq!(upper, "Invalid authorization format. Use: Bearer <token>");
    let (_, basic) = refusal(auth_middleware(&config, Some("Basic Secret-Token")));
    assert_eq!(basic, "Invalid authorization format. Use: Bearer <token>");
}

#[test]
fn test_auth_with_empty_bearer_token() {
    let config = config("secret", true, 60);
    let (_, message) = refusal(auth_middleware(&config, Some("Bearer ")));
    assert_eq!(message, "Invalid authentication token");
    let (_, message) = refusal(auth_middleware(&config, Some("Bearer")));
    assert_eq!(message, "Invalid authorization format. Use: Bearer <token>");
}

#[test]
fn test_auth_with_extra_whitespace() {
    let config = config("secret", true, 60);
    assert!(auth_middleware(&config, Some("Bearer  secret")).is_err());
    assert!(auth_middleware(&config, Some("Bearer secret ")).is_err());
    assert!(auth_middleware(&config, Some(" Bearer secret")).is_err());
}

#[test]
fn test_auth_with_special_characters_in_token() {
    let token = "t\u{f6}ken-!@#$%^&*()_+=";
    let config = config(token, true, 60);
    let header = format!("Bearer {token}");
    let granted = auth_middleware(&config, Some(&header)).unwrap();
    assert_eq!(granted.token, token);
}

#[test]
fn test_get_request_passes_through() {
    assert_eq!(validate_content_type("GET", None), Ok(()));
}

#[test]
fn test_delete_request_passes_through() {
    assert_eq!(validate_content_type("DELETE", None), Ok(()));
}

#[test]
fn test_post_with_valid_content_type() {
    assert_eq!(validate_content_type("POST", Some("application/json")), Ok(()));
}

#[test]
fn test_post_with_content_type_and_charset() {
    assert_eq!(
        validate_content_type("POST", Some("application/json; charset=utf-8")),
        Ok(())
    );
}

#[test]
fn test_post_with_invalid_content_type() {
    assert_eq!(validate_content_type("POST", Some("text/plain")), Err(415));
}

#[test]
fn test_post_with_invalid_utf8_content_type() {
    let raw: &[u8] = &[0xFF, 0xFE, 0xFD];
    assert_eq!(
        validate_content_type("POST", std::str::from_utf8(raw).ok()),
        Err(415)
    );
}

#[test]
fn test_put_with_missing_content_type() {
    assert_eq!(validate_content_type("PUT", None), Err(415));
}

#[test]
fn test_patch_with_valid_content_type() {
    assert_eq!(validate_content_type("PATCH", Some("application/json")), Ok(()));
}

#[test]
fn test_content_type_validation() {
    assert_eq!(validate_content_type("POST", Some("Application/JSON")), Err(415));
    assert_eq!(validate_content_type("POST", Some("application/jso")), Err(415));
    assert_eq!(validate_content_type("POST", Some("")), Err(415));
    assert_eq!(validate_content_type("post", None), Ok(()));
    assert_eq!(validate_content_type("OPTIONS", Some("text/plain")), Ok(()));
}

#[test]
fn test_cors_layer_creation() {
    let rules = |origins: &[&str]| -> Vec<String> {
        origin_rules(&origins.iter().map(|o| o.to_string()).collect())
            .into_iter()
            .map(|rule| match rule {
                OriginRule::Any => "any".to_string(),
                OriginRule::Extensions => "extensions".to_string(),
                OriginRule::Exact(origin) => origin,
            })
            .collect()
    };
    assert!(rules(&[]).is_empty());
    assert_eq!(rules(&["moz-extension://*"]), vec!["extensions"]);
    assert_eq!(rules(&["*"]), vec!["any"]);
    assert_eq!(
        rules(&["https://a.example", "moz-extension://*", "https://b.example"]),
        vec!["https://a.example", "extensions", "https://b.example"]
    );
    assert_eq!(
        rules(&["https://a.example", "*", "https://b.example", "*"]),
        vec!["https://a.example", "any"]
    );
    assert!(is_extension_origin("moz-extension://abc-123"));
    assert!(is_extension_origin("moz-extension://"));
    assert!(!is_extension_origin("https://moz-extension://abc"));
    assert!(!is_extension_origin("moz-extension:/x"));
}

use tanaka_server::error::app_error::AppError;
use tanaka_server::error::code::ErrorCode;
use tanaka_server::error::response::ErrorResponse;

fn all_codes() -> Vec<ErrorCode> {
    vec![
        ErrorCode::NetworkFailure,
        ErrorCode::ConnectionTimeout,
        ErrorCode::DnsResolutionFailed,
        ErrorCode::TlsCertificateError,
        ErrorCode::AuthTokenMissing,
        ErrorCode::AuthTokenInvalid,
        ErrorCode::AuthTokenExpired,
        ErrorCode::PermissionDenied,
        ErrorCode::ServerUnavailable,
        ErrorCode::ServerError,
        ErrorCode::ServerOverloaded,
        ErrorCode::MaintenanceMode,
        ErrorCode::InvalidData,
        ErrorCode::SyncConflict,
        ErrorCode::DataCorruption,
        ErrorCode::StorageQuotaExceeded,
        ErrorCode::DatabaseError,
        ErrorCode::InvalidServerUrl,
        ErrorCode::MissingConfiguration,
        ErrorCode::InvalidConfiguration,
        ErrorCode::ExtensionPermissionDenied,
        ErrorCode::BrowserApiUnavailable,
        ErrorCode::TabAccessDenied,
        ErrorCode::WindowAccessDenied,
    ]
}

#[test]
fn test_error_codes_have_valid_status() {
    let error_codes = [
        ErrorCode::NetworkFailure,
        ErrorCode::AuthTokenMissing,
        ErrorCode::ServerError,
        ErrorCode::InvalidData,
        ErrorCode::DatabaseError,
    ];

    for code in &error_codes {
        let status = code.http_status();
        assert!(status >= 400 && status < 600);
    }
}

#[test]
fn test_app_error_status_codes() {
    let errors = vec![
        AppError::auth_token_missing(),
        AppError::validation("test error", Some("field")),
        AppError::internal("test internal error"),
    ];

    for error in errors {
        let status = error.status_code();
        assert!(status >= 400 && status < 600);
    }
}

#[test]
fn test_retryable_errors() {
    assert!(AppError::database("test", "no rows returned").is_retryable());
    assert!(!AppError::validation("test", Some("field")).is_retryable());
    assert!(!AppError::auth_token_missing().is_retryable());
}

#[test]
fn statuses_by_code() {
    let expected: Vec<u16> = vec![
        503, 504, 503, 503, 401, 401, 401, 403, 503, 500, 503, 503, 400, 409, 422, 507, 500, 400,
        400, 400, 403, 501, 403, 403,
    ];
    let actual: Vec<u16> = all_codes().iter().map(|c| c.http_status()).collect();
    assert_eq!(actual, expected);
}

#[test]
fn retryable_codes_are_the_transient_ones() {
    let retryable: Vec<ErrorCode> = all_codes()
        .into_iter()
        .filter(|c| c.is_retryable())
        .collect();
    assert_eq!(
        retryable,
        vec![
            ErrorCode::NetworkFailure,
            ErrorCode::ConnectionTimeout,
            ErrorCode::DnsResolutionFailed,
            ErrorCode::ServerUnavailable,
            ErrorCode::ServerOverloaded,
            ErrorCode::DatabaseError,
        ]
    );
}

#[test]
fn wire_names_and_messages() {
    assert_eq!(ErrorCode::AuthTokenMissing.wire_name(), "AUTH_TOKEN_MISSING");
    assert_eq!(ErrorCode::DnsResolutionFailed.wire_name(), "DNS_RESOLUTION_FAILED");
    assert_eq!(ErrorCode::InvalidData.wire_name(), "INVALID_DATA");
    assert_eq!(
        ErrorCode::InvalidData.default_message(),
        "The data format is invalid. Please check your input."
    );
    assert_eq!(
        ErrorCode::SyncConflict.default_message(),
        "A sync conflict occurred. Your changes may have been overridden."
    );
    for code in all_codes() {
        assert!(!code.default_message().is_empty());
        assert!(code
            .wire_name()
            .chars()
            .all(|c| c.is_ascii_uppercase() || c == '_'));
    }
}

#[test]
fn error_kinds_map_to_codes_and_statuses() {
    let cases: Vec<(AppError, ErrorCode, u16, bool, &str)> = vec![
        (
            AppError::database("db", "locked"),
            ErrorCode::DatabaseError,
            500,
            true,
            "Database error: db",
        ),
        (
            AppError::auth_token_invalid("bad"),
            ErrorCode::AuthTokenInvalid,
            401,
            false,
            "Authentication error: bad",
        ),
        (
            AppError::auth_token_missing(),
            ErrorCode::AuthTokenMissing,
            401,
            false,
            "Authentication error: Authentication token is missing",
        ),
        (
            AppError::validation("v", None),
            ErrorCode::InvalidData,
            400,
            false,
            "Validation error: v",
        ),
        (
            AppError::sync("s"),
            ErrorCode::SyncConflict,
            409,
            false,
            "Sync error: s",
        ),
        (
            AppError::config("c", "key"),
            ErrorCode::InvalidConfiguration,
            400,
            false,
            "Configuration error: c",
        ),
        (
            AppError::Json {
                message: "j".to_string(),
                source: "eof".to_string(),
            },
            ErrorCode::InvalidData,
            400,
            false,
            "JSON parsing error: j",
        ),
        (
            AppError::internal("i"),
            ErrorCode::ServerError,
            500,
            true,
            "Internal error: i",
        ),
        (
            AppError::Io {
                message: "io".to_string(),
                source: "denied".to_string(),
            },
            ErrorCode::ServerError,
            500,
            true,
            "IO error: io",
        ),
        (
            AppError::Auth {
                message: "later".to_string(),
                code: ErrorCode::ServerOverloaded,
            },
            ErrorCode::ServerOverloaded,
            503,
            true,
            "Authentication error: later",
        ),
    ];
    for (error, code, status, retryable, text) in cases {
        assert_eq!(error.error_code(), code);
        assert_eq!(error.status_code(), status);
        assert_eq!(error.is_retryable(), retryable);
        assert_eq!(error.to_string(), text);
    }
}

#[test]
fn http_errors_keep_their_status() {
    let cases: Vec<(u16, ErrorCode, bool)> = vec![
        (401, ErrorCode::AuthTokenInvalid, false),
        (403, ErrorCode::PermissionDenied, false),
        (400, ErrorCode::InvalidData, false),
        (404, ErrorCode::ServerError, false),
        (500, ErrorCode::ServerError, true),
        (502, ErrorCode::ServerError, true),
        (503, ErrorCode::ServerError, true),
        (504, ErrorCode::ServerError, true),
        (415, ErrorCode::ServerError, false),
    ];
    for (status, code, retryable) in cases {
        let error = AppError::Http {
            message: "h".to_string(),
            status,
        };
        assert_eq!(error.status_code(), status);
        assert_eq!(error.error_code(), code);
        assert_eq!(error.is_retryable(), retryable);
    }
}

#[test]
fn context_is_kept_in_order_on_internal_and_sync_errors() {
    let error = AppError::internal("i")
        .with_context("a", "1")
        .with_context("b", "2");
    match &error {
        AppError::Internal { context, .. } => assert_eq!(
            context,
            &vec![
                ("a".to_string(), "1".to_string()),
                ("b".to_string(), "2".to_string())
            ]
        ),
        _ => panic!("Expected an internal error"),
    }
    let other = AppError::validation("v", Some("f")).with_context("a", "1");
    match &other {
        AppError::Validation { message, field } => {
            assert_eq!(message, "v");
            assert_eq!(field.as_deref(), Some("f"));
        }
        _ => panic!("Expected a validation error"),
    }
}

fn check_envelope(response: &ErrorResponse, retry_after: Option<u64>) {
    assert_eq!(response.status, "error");
    let retry = response.retry.as_ref().unwrap();
    assert_eq!(retry.retryable, retry_after.is_some());
    assert_eq!(retry.retry_after, retry_after);
    assert_eq!(retry.max_retries, retry_after.map(|_| 3));
}

#[test]
fn the_envelope_reports_the_error() {
    let response = AppError::database("db", "locked")
        .to_response("id-1".to_string(), "2024-01-01T00:00:00+00:00".to_string());
    check_envelope(&response, Some(1000));
    assert_eq!(response.error.id, "id-1");
    assert_eq!(response.error.timestamp, "2024-01-01T00:00:00+00:00");
    assert_eq!(response.error.code, ErrorCode::DatabaseError);
    assert_eq!(response.error.message, "Database error: db");
    assert_eq!(response.error.source.as_deref(), Some("locked"));
    assert!(response.error.context.is_none());

    let overloaded = AppError::Auth {
        message: "later".to_string(),
        code: ErrorCode::ServerOverloaded,
    }
    .to_response("id".to_string(), "t".to_string());
    check_envelope(&overloaded, Some(5000));

    let internal = AppError::internal("i")
        .with_context("k", "\"v\"")
        .to_response("id".to_string(), "t".to_string());
    check_envelope(&internal, Some(2000));
    assert_eq!(
        internal.error.context,
        Some(vec![("k".to_string(), "\"v\"".to_string())])
    );
    assert!(internal.error.source.is_none());

    let validation =
        AppError::validation("v", Some("f")).to_response("id".to_string(), "t".to_string());
    check_envelope(&validation, None);
    assert_eq!(validation.error.code, ErrorCode::InvalidData);
    assert!(validation.error.context.is_none());
}

#[test]
fn a_fresh_envelope_has_an_id_and_a_timestamp() {
    let first = AppError::sync("s").response();
    let second = AppError::sync("s").response();
    check_envelope(&first, None);
    assert_eq!(first.error.message, "Sync error: s");
    assert_eq!(first.error.id.len(), 36);
    assert_ne!(first.error.id, second.error.id);
    assert!(first.error.timestamp.contains('T'));
}

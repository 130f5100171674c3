use std::collections::HashMap;
use tanaka_server::config::SyncConfig;
use tanaka_server::error::app_error::AppError;
use tanaka_server::services::AuthContext;
use tanaka_server::sync::operation::{CrdtOperation, SyncRequest, TabData};
use tanaka_server::sync::validate::{
    validate_operation, validate_operations, validate_sync_request,
};

fn create_test_auth() -> AuthContext {
    AuthContext {
        device_id: "test-device".to_string(),
        token: "test-token".to_string(),
        permissions: vec!["sync".to_string()],
        metadata: HashMap::new(),
    }
}

fn upsert(id: &str, window_id: &str, url: &str, title: &str, index: i32) -> CrdtOperation {
    CrdtOperation::UpsertTab {
        id: id.to_string(),
        data: TabData {
            window_id: window_id.to_string(),
            url: url.to_string(),
            title: title.to_string(),
            active: true,
            index,
            updated_at: 123_456_789,
        },
    }
}

fn create_test_operation() -> CrdtOperation {
    upsert("test-tab", "test-window", "https://example.com", "Test", 0)
}

fn field_of(error: &AppError) -> Option<String> {
    match error {
        AppError::Validation { field, .. } => field.clone(),
        _ => None,
    }
}

#[test]
fn test_operation_validation() {
    let valid_upsert = CrdtOperation::UpsertTab {
        id: "tab1".to_string(),
        data: TabData {
            window_id: "window1".to_string(),
            url: "https://example.com".to_string(),
            title: "Example".to_string(),
            active: true,
            index: 0,
            updated_at: 1_234_567_890,
        },
    };
    assert!(valid_upsert.validate().is_ok());

    let invalid_upsert = CrdtOperation::UpsertTab {
        id: String::new(),
        data: TabData {
            window_id: "window1".to_string(),
            url: "https://example.com".to_string(),
            title: "Example".to_string(),
            active: true,
            index: 0,
            updated_at: 1_234_567_890,
        },
    };
    assert!(invalid_upsert.validate().is_err());
}

#[test]
fn test_validate_operations_success() {
    let config = SyncConfig::default();
    let operations = vec![create_test_operation()];
    let result = validate_operations(&operations, &config);
    assert!(result.is_ok());
}

#[test]
fn test_validate_operations_empty_tab_id() {
    let config = SyncConfig::default();
    let operation = upsert("", "test-window", "https://example.com", "Test", 0);
    let result = validate_operations(&vec![operation], &config);
    assert!(result.is_err());
}

#[test]
fn test_validate_sync_request_success() {
    let request = SyncRequest {
        clock: 5,
        device_id: "test-device".to_string(),
        since_clock: Some(3),
        operations: vec![],
    };
    let auth = create_test_auth();
    let result = validate_sync_request(&request, &auth);
    assert!(result.is_ok());
}

#[test]
fn test_validate_sync_request_invalid_device_id() {
    let request = SyncRequest {
        clock: 5,
        device_id: String::new(),
        since_clock: Some(3),
        operations: vec![],
    };
    let auth = create_test_auth();
    let result = validate_sync_request(&request, &auth);
    assert!(result.is_err());

    let request = SyncRequest {
        clock: 5,
        device_id: "auth-validated".to_string(),
        since_clock: Some(3),
        operations: vec![],
    };
    let result = validate_sync_request(&request, &auth);
    assert!(result.is_err());
}

#[test]
fn test_validate_operations_url_too_long() {
    let config = SyncConfig::default();
    let url = "https://".to_string() + &"a".repeat(2050);
    let operation = upsert("test-tab", "test-window", &url, "Test", 0);
    let result = validate_operations(&vec![operation], &config);
    assert!(result.is_err());
    let err = result.unwrap_err();
    assert!(err.to_string().contains("URL too long"));
    assert_eq!(
        err.to_string(),
        "Validation error: URL too long (max 2048 characters)"
    );
}

#[test]
fn test_validate_operations_title_too_long() {
    let config = SyncConfig::default();
    let operation = upsert(
        "test-tab",
        "test-window",
        "https://example.com",
        &"a".repeat(513),
        0,
    );
    let result = validate_operations(&vec![operation], &config);
    assert!(result.is_err());
    let err = result.unwrap_err();
    assert!(err.to_string().contains("Title too long"));
    assert_eq!(
        err.to_string(),
        "Validation error: Title too long (max 512 characters)"
    );
}

#[test]
fn test_validate_operations_id_too_long() {
    let config = SyncConfig::default();
    let operation = upsert(&"a".repeat(257), "test-window", "https://example.com", "Test", 0);
    let result = validate_operations(&vec![operation], &config);
    assert!(result.is_err());
    let err = result.unwrap_err();
    assert!(err.to_string().contains("Tab ID too long"));
}

#[test]
fn test_validate_operations_empty_window_id() {
    let config = SyncConfig::default();
    let operation = upsert("test-tab", "", "https://example.com", "Test", 0);
    let result = validate_operations(&vec![operation], &config);
    assert!(result.is_err());
    let err = result.unwrap_err();
    assert!(err.to_string().contains("Window ID cannot be empty"));
}

#[test]
fn test_validate_operations_move_tab_empty_window_id() {
    let config = SyncConfig::default();
    let operation = CrdtOperation::MoveTab {
        id: "test-tab".to_string(),
        window_id: String::new(),
        index: 0,
        updated_at: 123_456_789,
    };
    let result = validate_operations(&vec![operation], &config);
    assert!(result.is_err());
    let err = result.unwrap_err();
    assert!(err.to_string().contains("Window ID cannot be empty"));
}

#[test]
fn test_validate_operations_tab_id_at_limit() {
    let config = SyncConfig::default();
    let operation = upsert(&"a".repeat(256), "test-window", "https://example.com", "Test", 0);
    let result = validate_operations(&vec![operation], &config);
    assert!(result.is_ok());
}

#[test]
fn test_validate_operations_empty_track_window_id() {
    let config = SyncConfig::default();
    let operation = CrdtOperation::TrackWindow {
        id: String::new(),
        is_tracked: true,
        updated_at: 123_456_789,
    };
    let result = validate_operations(&vec![operation], &config);
    assert!(result.is_err());
    let err = result.unwrap_err();
    assert!(err.to_string().contains("Window ID cannot be empty"));
}

#[test]
fn test_validate_operations_empty_untrack_window_id() {
    let config = SyncConfig::default();
    let operation = CrdtOperation::UntrackWindow {
        id: String::new(),
        updated_at: 123_456_789,
    };
    let result = validate_operations(&vec![operation], &config);
    assert!(result.is_err());
    let err = result.unwrap_err();
    assert!(err.to_string().contains("Window ID cannot be empty"));
}

#[test]
fn test_validate_operations_empty_set_window_focus_id() {
    let config = SyncConfig::default();
    let operation = CrdtOperation::SetWindowFocus {
        id: String::new(),
        focused: true,
        updated_at: 123_456_789,
    };
    let result = validate_operations(&vec![operation], &config);
    assert!(result.is_err());
    let err = result.unwrap_err();
    assert!(err.to_string().contains("Window ID cannot be empty"));
}

#[test]
fn test_validate_operations_empty_close_tab_id() {
    let config = SyncConfig::default();
    let operation = CrdtOperation::CloseTab {
        id: String::new(),
        closed_at: 123_456_789,
    };
    let result = validate_operations(&vec![operation], &config);
    assert!(result.is_err());
    let err = result.unwrap_err();
    assert!(err.to_string().contains("Tab ID cannot be empty"));
}

#[test]
fn test_validate_operations_empty_set_active_id() {
    let config = SyncConfig::default();
    let operation = CrdtOperation::SetActive {
        id: String::new(),
        active: true,
        updated_at: 123_456_789,
    };
    let result = validate_operations(&vec![operation], &config);
    assert!(result.is_err());
    let err = result.unwrap_err();
    assert!(err.to_string().contains("Tab ID cannot be empty"));
}

#[test]
fn test_validate_operations_empty_change_url_id() {
    let config = SyncConfig::default();
    let operation = CrdtOperation::ChangeUrl {
        id: String::new(),
        url: "https://example.com".to_string(),
        title: Some("Test".to_string()),
        updated_at: 123_456_789,
    };
    let result = validate_operations(&vec![operation], &config);
    assert!(result.is_err());
    let err = result.unwrap_err();
    assert!(err.to_string().contains("Tab ID cannot be empty"));
}

#[test]
fn test_validate_operations_empty_move_tab_id() {
    let config = SyncConfig::default();
    let operation = CrdtOperation::MoveTab {
        id: String::new(),
        window_id: "test-window".to_string(),
        index: 0,
        updated_at: 123_456_789,
    };
    let result = validate_operations(&vec![operation], &config);
    assert!(result.is_err());
    let err = result.unwrap_err();
    assert!(err.to_string().contains("Tab ID cannot be empty"));
}

#[test]
fn device_id_boundaries() {
    let auth = create_test_auth();
    let request = |device_id: String| SyncRequest {
        clock: 0,
        device_id,
        since_clock: None,
        operations: vec![],
    };
    assert!(validate_sync_request(&request("d".repeat(128)), &auth).is_ok());
    let too_long = validate_sync_request(&request("d".repeat(129)), &auth).unwrap_err();
    assert_eq!(
        too_long.to_string(),
        "Validation error: Device ID too long (max 128 characters)"
    );
    assert_eq!(field_of(&too_long), Some("device_id".to_string()));
    let empty = validate_sync_request(&request(String::new()), &auth).unwrap_err();
    assert_eq!(empty.to_string(), "Validation error: Device ID cannot be empty");
    let reserved = validate_sync_request(&request("auth-validated".to_string()), &auth).unwrap_err();
    assert_eq!(reserved.to_string(), "Validation error: Invalid device ID format");
}

#[test]
fn device_id_length_counts_characters() {
    let auth = create_test_auth();
    let request = SyncRequest {
        clock: 0,
        device_id: "\u{e9}".repeat(128),
        since_clock: None,
        operations: vec![],
    };
    assert!(validate_sync_request(&request, &auth).is_ok());
}

#[test]
fn operation_count_boundaries() {
    let auth = create_test_auth();
    let batch = |n: usize| SyncRequest {
        clock: 0,
        device_id: "d1".to_string(),
        since_clock: None,
        operations: (0..n)
            .map(|i| CrdtOperation::CloseTab {
                id: format!("t{i}"),
                closed_at: 1,
            })
            .collect(),
    };
    assert!(validate_sync_request(&batch(1000), &auth).is_ok());
    let err = validate_sync_request(&batch(1001), &auth).unwrap_err();
    assert_eq!(
        err.to_string(),
        "Validation error: Too many operations in single request (max 1000)"
    );
    assert_eq!(field_of(&err), Some("operations".to_string()));
}

#[test]
fn url_length_boundaries() {
    let config = SyncConfig::default();
    let at_limit = upsert("t1", "w1", &"u".repeat(2048), "T", 0);
    assert!(validate_operation(&at_limit, &config).is_ok());
    let over = upsert("t1", "w1", &"u".repeat(2049), "T", 0);
    assert!(validate_operation(&over, &config).is_err());
    let change_at_limit = CrdtOperation::ChangeUrl {
        id: "t1".to_string(),
        url: "u".repeat(2048),
        title: None,
        updated_at: 1,
    };
    assert!(validate_operation(&change_at_limit, &config).is_ok());
    let change_over = CrdtOperation::ChangeUrl {
        id: "t1".to_string(),
        url: "u".repeat(2049),
        title: None,
        updated_at: 1,
    };
    let err = validate_operation(&change_over, &config).unwrap_err();
    assert_eq!(field_of(&err), Some("url".to_string()));
    let small = SyncConfig {
        max_url_length: 10,
        ..SyncConfig::default()
    };
    let err = validate_operation(&upsert("t1", "w1", "https://example.com", "T", 0), &small)
        .unwrap_err();
    assert_eq!(
        err.to_string(),
        "Validation error: URL too long (max 10 characters)"
    );
}

#[test]
fn since_clock_after_clock_is_rejected() {
    let auth = create_test_auth();
    let request = SyncRequest {
        clock: 5,
        device_id: "d1".to_string(),
        since_clock: Some(6),
        operations: vec![],
    };
    let err = validate_sync_request(&request, &auth).unwrap_err();
    assert_eq!(
        err.to_string(),
        "Validation error: since_clock cannot be greater than current clock"
    );
    assert_eq!(field_of(&err), Some("since_clock".to_string()));
    let equal = SyncRequest {
        clock: 5,
        device_id: "d1".to_string(),
        since_clock: Some(5),
        operations: vec![],
    };
    assert!(validate_sync_request(&equal, &auth).is_ok());
}

#[test]
fn negative_index_is_rejected() {
    let config = SyncConfig::default();
    let err = validate_operation(&upsert("t1", "w1", "https://example.com", "T", -1), &config)
        .unwrap_err();
    assert_eq!(err.to_string(), "Validation error: Tab index cannot be negative");
    assert_eq!(field_of(&err), Some("index".to_string()));
    let moved = CrdtOperation::MoveTab {
        id: "t1".to_string(),
        window_id: "w1".to_string(),
        index: -1,
        updated_at: 1,
    };
    assert!(validate_operation(&moved, &config).is_err());
    assert!(moved.validate().is_err());
    let err = upsert("t1", "w1", "https://example.com", "T", -1)
        .validate()
        .unwrap_err();
    assert_eq!(field_of(&err), Some("data.index".to_string()));
}

#[test]
fn first_failing_operation_decides() {
    let config = SyncConfig::default();
    let operations = vec![
        create_test_operation(),
        upsert("t2", "", "https://example.com", "T", 0),
        upsert("", "w", "https://example.com", "T", 0),
    ];
    let err = validate_operations(&operations, &config).unwrap_err();
    assert_eq!(err.to_string(), "Validation error: Window ID cannot be empty");
    assert_eq!(field_of(&err), Some("window_id".to_string()));
}

#[test]
fn window_id_too_long_is_rejected() {
    let config = SyncConfig::default();
    let operation = CrdtOperation::UntrackWindow {
        id: "w".repeat(257),
        updated_at: 1,
    };
    let err = validate_operation(&operation, &config).unwrap_err();
    assert_eq!(
        err.to_string(),
        "Validation error: Window ID too long (max 256 characters)"
    );
}

#[test]
fn empty_urls_are_rejected() {
    let config = SyncConfig::default();
    let err = validate_operation(&upsert("t1", "w1", "", "T", 0), &config).unwrap_err();
    assert_eq!(err.to_string(), "Validation error: Tab URL cannot be empty");
    assert_eq!(field_of(&err), Some("url".to_string()));
    let change = CrdtOperation::ChangeUrl {
        id: "t1".to_string(),
        url: String::new(),
        title: None,
        updated_at: 1,
    };
    let err = validate_operation(&change, &config).unwrap_err();
    assert_eq!(err.to_string(), "Validation error: URL cannot be empty");
    assert_eq!(field_of(&err), Some("url".to_string()));
    let err = change.validate().unwrap_err();
    assert_eq!(err.to_string(), "Validation error: URL cannot be empty");
}

#[test]
fn the_rules_without_limits_name_the_fields_of_the_data() {
    let err = upsert("t1", "w1", "", "T", 0).validate().unwrap_err();
    assert_eq!(err.to_string(), "Validation error: Tab URL cannot be empty");
    assert_eq!(field_of(&err), Some("data.url".to_string()));
    let err = upsert("t1", "", "https://example.com", "T", 0)
        .validate()
        .unwrap_err();
    assert_eq!(err.to_string(), "Validation error: Window ID cannot be empty");
    assert_eq!(field_of(&err), Some("data.window_id".to_string()));
    let err = upsert(&"a".repeat(257), "w", "https://example.com", "T", 0)
        .validate()
        .unwrap_err();
    assert_eq!(
        err.to_string(),
        "Validation error: Tab ID too long (max 256 characters)"
    );
    assert_eq!(field_of(&err), Some("id".to_string()));
    let long_url = upsert("t1", "w1", &"u".repeat(5000), &"t".repeat(5000), 0);
    assert!(long_url.validate().is_ok());
    let window = CrdtOperation::SetWindowFocus {
        id: String::new(),
        focused: false,
        updated_at: 1,
    };
    let err = window.validate().unwrap_err();
    assert_eq!(err.to_string(), "Validation error: Window ID cannot be empty");
    assert_eq!(field_of(&err), Some("id".to_string()));
    let close = CrdtOperation::CloseTab {
        id: "t".repeat(256),
        closed_at: 1,
    };
    assert!(close.validate().is_ok());
}

#[test]
fn every_kind_of_operation_is_held_to_the_id_limit() {
    let config = SyncConfig::default();
    let long = "x".repeat(257);
    let operations = vec![
        CrdtOperation::CloseTab {
            id: long.clone(),
            closed_at: 1,
        },
        CrdtOperation::SetActive {
            id: long.clone(),
            active: true,
            updated_at: 1,
        },
        CrdtOperation::MoveTab {
            id: long.clone(),
            window_id: "w".to_string(),
            index: 0,
            updated_at: 1,
        },
        CrdtOperation::ChangeUrl {
            id: long.clone(),
            url: "https://example.com".to_string(),
            title: None,
            updated_at: 1,
        },
        CrdtOperation::TrackWindow {
            id: long.clone(),
            is_tracked: true,
            updated_at: 1,
        },
        CrdtOperation::SetWindowFocus {
            id: long.clone(),
            focused: true,
            updated_at: 1,
        },
    ];
    for operation in &operations {
        let err = validate_operation(operation, &config).unwrap_err();
        assert!(err.to_string().contains("too long (max 256 characters)"));
        assert_eq!(field_of(&err), Some("id".to_string()));
    }
}

use std::collections::HashMap;
use tanaka_server::auth::auth_middleware;
use tanaka_server::config::{AuthConfig, SyncConfig};
use tanaka_server::crdt::manager::CrdtManager;
use tanaka_server::error::app_error::AppError;
use tanaka_server::repository::log::OperationRepository;
use tanaka_server::repository::mock::MockOperationRepository;
use tanaka_server::services::auth::{MockAuthService, SharedTokenAuthService};
use tanaka_server::services::sync::CrdtSyncService;
use tanaka_server::services::AuthContext;
use tanaka_server::sync::operation::{CrdtOperation, SyncRequest, TabData};

fn auth() -> AuthContext {
    AuthContext {
        device_id: "auth-validated".to_string(),
        token: "test-token".to_string(),
        permissions: vec!["sync".to_string()],
        metadata: HashMap::new(),
    }
}

fn service_with(config: SyncConfig) -> CrdtSyncService<MockOperationRepository> {
    CrdtSyncService::new(MockOperationRepository::new(), CrdtManager::new(1), config)
}

fn small_limits() -> SyncConfig {
    SyncConfig {
        max_url_length: 100,
        max_title_length: 50,
        ..SyncConfig::default()
    }
}

fn upsert(id: &str, url: &str, title: &str) -> CrdtOperation {
    CrdtOperation::UpsertTab {
        id: id.to_string(),
        data: TabData {
            window_id: "window1".to_string(),
            url: url.to_string(),
            title: title.to_string(),
            active: true,
            index: 0,
            updated_at: 1,
        },
    }
}

fn request(
    device_id: &str,
    clock: u64,
    since_clock: Option<u64>,
    operations: Vec<CrdtOperation>,
) -> SyncRequest {
    SyncRequest {
        clock,
        device_id: device_id.to_string(),
        since_clock,
        operations,
    }
}

fn status_of(result: Result<tanaka_server::sync::operation::SyncResponse, AppError>) -> u16 {
    match result {
        Ok(_) => 200,
        Err(error) => error.status_code(),
    }
}

#[test]
fn test_string_length_validation() {
    let mut service = service_with(small_limits());

    let long_url = format!("https://{}.com", "a".repeat(101));
    let result = service.sync(
        request("test-device", 1, None, vec![upsert("tab1", &long_url, "Test")]),
        &auth(),
    );
    assert_eq!(status_of(result), 400);

    let long_title = "a".repeat(51);
    let result = service.sync(
        request(
            "test-device",
            1,
            None,
            vec![upsert("tab1", "https://example.com", &long_title)],
        ),
        &auth(),
    );
    assert_eq!(status_of(result), 400);

    let result = service.sync(
        request(
            "test-device",
            1,
            None,
            vec![upsert("tab1", &"u".repeat(100), &"t".repeat(50))],
        ),
        &auth(),
    );
    assert_eq!(status_of(result), 200);
}

#[test]
fn test_operation_count_limit() {
    let mut service = service_with(small_limits());
    let batch = |n: usize| -> Vec<CrdtOperation> {
        (0..n)
            .map(|i| upsert(&format!("tab{i}"), "https://example.com", "Test"))
            .collect()
    };
    let result = service.sync(request("test-device", 1, None, batch(1001)), &auth());
    assert_eq!(status_of(result), 400);
    assert!(service.repositories().get_all().unwrap().is_empty());
    let result = service.sync(request("test-device", 1, None, batch(1000)), &auth());
    assert_eq!(status_of(result), 200);
    assert_eq!(service.repositories().get_all().unwrap().len(), 1000);
    assert_eq!(service.repositories().get_max_clock().unwrap(), 1001);
}

#[test]
fn test_device_id_validation() {
    let mut service = service_with(small_limits());
    let result = service.sync(request("", 1, None, vec![]), &auth());
    assert_eq!(status_of(result), 400);
    let result = service.sync(request(&"a".repeat(129), 1, None, vec![]), &auth());
    assert_eq!(status_of(result), 400);
    let result = service.sync(request(&"a".repeat(128), 1, None, vec![]), &auth());
    assert_eq!(status_of(result), 200);
}

#[test]
fn test_invalid_clock_values() {
    let mut service = service_with(small_limits());
    let result = service.sync(request("test-device", 5, Some(10), vec![]), &auth());
    assert_eq!(status_of(result), 400);
}

#[test]
fn test_sync_with_multiple_operation_types() {
    let mut service = service_with(SyncConfig::default());
    let operations = vec![
        upsert("tab-1", "https://example.com", "Example"),
        CrdtOperation::SetActive {
            id: "tab-1".to_string(),
            active: false,
            updated_at: 2,
        },
        CrdtOperation::TrackWindow {
            id: "window-1".to_string(),
            is_tracked: true,
            updated_at: 3,
        },
        CrdtOperation::ChangeUrl {
            id: "tab-1".to_string(),
            url: "https://new-url.com".to_string(),
            title: Some("New Title".to_string()),
            updated_at: 4,
        },
    ];
    let response = service
        .sync(request("test-device", 1, None, operations), &auth())
        .unwrap();
    assert!(response.clock >= 4);
    assert_eq!(response.clock, 6);
    let tab = service
        .crdt_manager()
        .document()
        .get_tab("tab-1")
        .unwrap();
    assert!(!tab.active);
    assert_eq!(tab.url, "https://new-url.com");
    assert_eq!(tab.title, "New Title");
    assert_eq!(tab.updated_at, 5);
}

#[test]
fn test_sync_repository_integration() {
    let mut service = service_with(SyncConfig::default());
    service
        .sync(
            request(
                "device-1",
                1,
                None,
                vec![upsert("repo-test-tab", "https://repo-test.com", "Repo")],
            ),
            &auth(),
        )
        .unwrap();
    let second = service
        .sync(request("device-2", 0, Some(0), vec![]), &auth())
        .unwrap();
    assert_eq!(second.operations.len(), 1);
    match &second.operations[0] {
        CrdtOperation::UpsertTab { id, data } => {
            assert_eq!(id, "repo-test-tab");
            assert_eq!(data.url, "https://repo-test.com");
        }
        _ => panic!("Expected UpsertTab operation"),
    }
    let third = service
        .sync(request("device-3", 0, None, vec![]), &auth())
        .unwrap();
    assert_eq!(third.operations.len(), 1);
    assert_eq!(third.operations[0].target_id(), "repo-test-tab");
}

#[test]
fn test_service_validation_errors() {
    let mut service = service_with(SyncConfig::default());
    let result = service.sync(request("", 1, None, vec![]), &auth());
    assert!(result.is_err());
    let result = service.sync(request("test-device", 1, Some(2), vec![]), &auth());
    assert!(result.is_err());
    let many: Vec<CrdtOperation> = (0..1001)
        .map(|i| upsert(&format!("t{i}"), "https://example.com", "T"))
        .collect();
    assert!(service
        .sync(request("test-device", 1, None, many), &auth())
        .is_err());
}

#[test]
fn test_service_operation_validation() {
    let service = service_with(SyncConfig::default());
    let operations = vec![upsert("", "https://example.com", "Test")];
    let result = service.validate_operations(&operations);
    assert!(result.is_err());
}

#[test]
fn test_service_state_management() {
    let mut service = service_with(SyncConfig::default());
    let sync_result = service.sync(
        request(
            "test-device",
            1,
            None,
            vec![upsert("tab1", "https://example.com", "Test")],
        ),
        &auth(),
    );
    assert!(sync_result.is_ok());
    let state_result = service.get_state("other-device");
    assert!(state_result.is_ok());
    let state = state_result.unwrap();
    assert_eq!(state.device_id, "other-device");
    assert_eq!(state.last_clock, 2);
    assert_eq!(state.operation_count, 1);
}

#[test]
fn test_sync_service_incremental_vs_initial_sync() {
    let mut service = service_with(SyncConfig::default());
    let initial = service.sync(request("test-device", 1, None, vec![]), &auth());
    assert!(initial.is_ok());
    let incremental = service.sync(request("test-device", 5, Some(3), vec![]), &auth());
    assert!(incremental.is_ok());
    let initial = initial.unwrap();
    let incremental = incremental.unwrap();
    assert!(initial.clock > 0);
    assert!(incremental.clock > 0);
    assert_eq!(initial.clock, 2);
    assert_eq!(incremental.clock, 6);
}

#[test]
fn test_service_integration_auth_and_sync() {
    let auth_service = MockAuthService::new();
    let context = auth_service.validate_token("test-token").unwrap();
    let mut service = service_with(SyncConfig::default());
    let response = service
        .sync(request("test-device", 1, None, vec![]), &context)
        .unwrap();
    assert!(response.clock > 0);
}

#[test]
fn test_service_integration_rate_limiting() {
    let mut auth_service = SharedTokenAuthService::new(AuthConfig {
        shared_token: "test-token".to_string(),
        token_header: "authorization".to_string(),
        rate_limiting: true,
        max_requests_per_minute: 2,
    });
    let context = auth_service.validate_token("test-token").unwrap();
    let device = context.device_id.clone();
    assert!(auth_service.check_rate_limit(&device).unwrap());
    auth_service.record_request(&device).unwrap();
    assert!(auth_service.check_rate_limit(&device).unwrap());
    auth_service.record_request(&device).unwrap();
    assert!(!auth_service.check_rate_limit(&device).unwrap());
}

#[test]
fn test_auth_service_bearer_token_handling() {
    let auth_service = SharedTokenAuthService::new(AuthConfig {
        shared_token: "test-token".to_string(),
        token_header: "authorization".to_string(),
        rate_limiting: false,
        max_requests_per_minute: 60,
    });
    let result1 = auth_service.validate_token("test-token");
    assert!(result1.is_ok());
    let result2 = auth_service.validate_token("Bearer test-token");
    assert!(result2.is_ok());
    let context1 = result1.unwrap();
    let context2 = result2.unwrap();
    assert_eq!(context1.device_id, context2.device_id);
    assert_eq!(
        context1.permissions,
        vec!["sync".to_string(), "read".to_string(), "write".to_string()]
    );
    assert!(context1.metadata.is_empty());
    assert!(auth_service.validate_token("bearer test-token").is_err());
    assert!(auth_service.validate_token("Bearer Bearer test-token").is_err());
}

#[test]
fn test_auth_with_whitespace_in_token() {
    let config = AuthConfig {
        shared_token: "token with spaces".to_string(),
        token_header: "Authorization".to_string(),
        rate_limiting: false,
        max_requests_per_minute: 60,
    };
    let granted = auth_middleware(&config, Some("Bearer token with spaces")).unwrap();
    assert_eq!(granted.token, "token with spaces");
    assert!(granted.metadata.is_empty());
    assert!(auth_middleware(&config, Some("Bearer token")).is_err());
}

#[test]
fn test_sync_unauthorized() {
    let config = AuthConfig {
        shared_token: "test-token".to_string(),
        token_header: "Authorization".to_string(),
        rate_limiting: false,
        max_requests_per_minute: 60,
    };
    let error = auth_middleware(&config, Some("Bearer wrong-token")).unwrap_err();
    assert_eq!(error.status_code(), 401);
    let error = auth_middleware(&config, None).unwrap_err();
    assert_eq!(error.status_code(), 401);
}

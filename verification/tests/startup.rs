use tanaka_server::config::{Args, Config, TlsConfig};
use tanaka_server::error::app_error::AppError;
use tanaka_server::repository::log::OperationRepository;
use tanaka_server::repository::mock::MockOperationRepository;
use tanaka_server::startup::{calculate_node_id, ServerBootstrap};
use tanaka_server::sync::operation::{CrdtOperation, TabData};

fn key_of(error: &AppError) -> Option<String> {
    match error {
        AppError::Config { key, .. } => key.clone(),
        _ => None,
    }
}

fn no_args() -> Args {
    Args {
        config: "tanaka.toml".to_string(),
        bind_addr: None,
        database_url: None,
        auth_token: None,
        log_level: None,
    }
}

#[test]
fn test_initialize_crdt_manager_fresh_start() {
    let repo = MockOperationRepository::new();
    let bootstrap = ServerBootstrap::new("127.0.0.1:8000");

    let manager = bootstrap.initialize_crdt_manager(&repo).unwrap();

    assert_eq!(manager.current_clock(), 1);
    assert_eq!(manager.node_id(), bootstrap.node_id());
}

#[test]
fn test_initialize_crdt_manager_with_restore() {
    let mut repo = MockOperationRepository::new();

    let op1 = CrdtOperation::UpsertTab {
        id: "tab1".to_string(),
        data: TabData {
            window_id: "window1".to_string(),
            url: "https://example.com".to_string(),
            title: "Example".to_string(),
            active: true,
            index: 0,
            updated_at: 1,
        },
    };

    repo.store(&op1, 1, "device1").unwrap();

    let op2 = CrdtOperation::TrackWindow {
        id: "window1".to_string(),
        is_tracked: true,
        updated_at: 2,
    };

    repo.store(&op2, 2, "device1").unwrap();

    let bootstrap = ServerBootstrap::new("127.0.0.1:8000");
    let manager = bootstrap.initialize_crdt_manager(&repo).unwrap();

    assert_eq!(manager.current_clock(), 3);

    let tabs = manager.document().get_tabs().unwrap();
    assert_eq!(tabs.len(), 1);
    assert_eq!(tabs[0].id, "tab1");

    let windows = manager.document().get_windows().unwrap();
    assert_eq!(windows.len(), 1);
    assert_eq!(windows[0].id, "window1");
    assert!(windows[0].is_tracked);
}

#[test]
fn test_restore_crdt_manager_empty_operations() {
    let mut repo = MockOperationRepository::new();
    let bootstrap = ServerBootstrap::new("127.0.0.1:8000");

    let temp_op = CrdtOperation::CloseTab {
        id: "temp".to_string(),
        closed_at: 1,
    };
    repo.store(&temp_op, 1, "device1").unwrap();

    let max_clock = repo.get_max_clock().unwrap();
    assert_eq!(max_clock, 1);

    let manager = bootstrap.initialize_crdt_manager(&repo).unwrap();
    assert_eq!(manager.current_clock(), 2);

    let restored = bootstrap.restore_crdt_manager(&vec![], 1).unwrap();
    assert_eq!(restored.current_clock(), 2);
    assert!(restored.document().get_tabs().unwrap().is_empty());
}

#[test]
fn test_server_bootstrap_node_id() {
    let bootstrap1 = ServerBootstrap::new("127.0.0.1:8000");
    let bootstrap2 = ServerBootstrap::new("127.0.0.1:8001");

    assert_ne!(bootstrap1.node_id(), bootstrap2.node_id());
    assert_eq!(bootstrap1.node_id(), calculate_node_id("127.0.0.1:8000"));
}

#[test]
fn recovery_replays_in_clock_order() {
    let mut repo = MockOperationRepository::new();
    let close = CrdtOperation::CloseTab {
        id: "t1".to_string(),
        closed_at: 1,
    };
    let open = CrdtOperation::UpsertTab {
        id: "t1".to_string(),
        data: TabData {
            window_id: "w".to_string(),
            url: "https://example.com".to_string(),
            title: "E".to_string(),
            active: false,
            index: 2,
            updated_at: 1,
        },
    };
    repo.store(&close, 9, "d2").unwrap();
    repo.store(&open, 4, "d1").unwrap();
    let manager = ServerBootstrap::new("0.0.0.0:1")
        .initialize_crdt_manager(&repo)
        .unwrap();
    assert_eq!(manager.current_clock(), 10);
    assert!(manager.document().get_tabs().unwrap().is_empty());

    let mut reopened = MockOperationRepository::new();
    reopened.store(&close, 4, "d2").unwrap();
    reopened.store(&open, 9, "d1").unwrap();
    let manager = ServerBootstrap::new("0.0.0.0:1")
        .initialize_crdt_manager(&reopened)
        .unwrap();
    let tabs = manager.document().get_tabs().unwrap();
    assert_eq!(tabs.len(), 1);
    assert_eq!(tabs[0].updated_at, 9);
    assert_eq!(tabs[0].index, 2);
}

#[test]
fn a_stored_clock_without_room_is_refused() {
    let mut repo = MockOperationRepository::new();
    let close = CrdtOperation::CloseTab {
        id: "t1".to_string(),
        closed_at: 1,
    };
    repo.store(&close, u64::MAX, "d1").unwrap();
    let result = ServerBootstrap::new("0.0.0.0:1").initialize_crdt_manager(&repo);
    let error = match result {
        Err(error) => error,
        Ok(_) => panic!("Expected an error"),
    };
    assert_eq!(error.status_code(), 500);
}

#[test]
fn test_config_validation() {
    let mut config = Config::default();

    assert!(config.validate(true, true).is_err());

    config.auth.shared_token = "test-token".to_string();
    assert!(config.validate(true, true).is_ok());

    config.logging.level = "invalid".to_string();
    assert!(config.validate(true, true).is_err());
}

#[test]
fn configuration_checks_in_order() {
    let mut config = Config::default();
    config.server.bind_addr = String::new();
    let error = config.validate(true, true).unwrap_err();
    assert_eq!(error.to_string(), "Configuration error: Bind address cannot be empty");
    assert_eq!(key_of(&error), Some("server.bind_addr".to_string()));

    let mut config = Config::default();
    let error = config.validate(true, true).unwrap_err();
    assert_eq!(error.to_string(), "Configuration error: Auth token cannot be empty");
    assert_eq!(key_of(&error), Some("auth.shared_token".to_string()));

    config.auth.shared_token = "t".to_string();
    config.tls = Some(TlsConfig {
        cert_path: "/etc/cert.pem".to_string(),
        key_path: "/etc/key.pem".to_string(),
    });
    let error = config.validate(false, false).unwrap_err();
    assert_eq!(
        error.to_string(),
        "Configuration error: Certificate file not found: /etc/cert.pem"
    );
    assert_eq!(key_of(&error), Some("tls.cert_path".to_string()));
    let error = config.validate(true, false).unwrap_err();
    assert_eq!(
        error.to_string(),
        "Configuration error: Key file not found: /etc/key.pem"
    );
    assert_eq!(key_of(&error), Some("tls.key_path".to_string()));
    assert!(config.validate(true, true).is_ok());

    config.tls = None;
    assert!(config.validate(false, false).is_ok());
    for level in ["trace", "debug", "info", "warn", "error"] {
        config.logging.level = level.to_string();
        assert!(config.validate(false, false).is_ok());
    }
    config.logging.level = "INFO".to_string();
    let error = config.validate(false, false).unwrap_err();
    assert_eq!(error.to_string(), "Configuration error: Invalid log level: INFO");
    assert_eq!(key_of(&error), Some("logging.level".to_string()));
}

#[test]
fn defaults_of_every_key() {
    let config = Config::default();
    assert_eq!(config.server.worker_threads, None);
    assert_eq!(config.server.request_timeout_secs, 30);
    assert_eq!(config.server.max_concurrent_connections, 1000);
    assert_eq!(config.database.max_connections, 5);
    assert_eq!(config.database.connection_timeout_secs, 10);
    assert_eq!(config.auth.shared_token, "");
    assert_eq!(config.auth.token_header, "Authorization");
    assert!(config.auth.rate_limiting);
    assert_eq!(config.auth.max_requests_per_minute, 60);
    assert!(config.tls.is_none());
    assert_eq!(config.sync.flush_secs, 5);
    assert_eq!(config.sync.max_payload_size, 1024 * 1024);
    assert!(!config.sync.compression);
    assert_eq!(config.sync.max_url_length, 2048);
    assert_eq!(config.sync.max_title_length, 512);
    assert_eq!(config.logging.level, "info");
    assert_eq!(config.logging.format, "pretty");
    assert!(config.logging.request_logging);
}

#[test]
fn the_command_line_overrides_the_file() {
    let mut file = Config::default();
    file.auth.shared_token = "from-file".to_string();
    file.sync.max_url_length = 99;
    let args = Args {
        bind_addr: Some("0.0.0.0:9000".to_string()),
        database_url: Some("sqlite::memory:".to_string()),
        auth_token: None,
        log_level: Some("debug".to_string()),
        ..no_args()
    };
    let loaded = Config::load(&args, Some(file), true, true).unwrap();
    assert_eq!(loaded.server.bind_addr, "0.0.0.0:9000");
    assert_eq!(loaded.database.url, "sqlite::memory:");
    assert_eq!(loaded.auth.shared_token, "from-file");
    assert_eq!(loaded.logging.level, "debug");
    assert_eq!(loaded.sync.max_url_length, 99);

    let error = Config::load(&no_args(), None, true, true).unwrap_err();
    assert_eq!(key_of(&error), Some("auth.shared_token".to_string()));
    let with_token = Args {
        auth_token: Some("from-args".to_string()),
        ..no_args()
    };
    let loaded = Config::load(&with_token, None, true, true).unwrap();
    assert_eq!(loaded.auth.shared_token, "from-args");
    assert_eq!(loaded.server.bind_addr, "127.0.0.1:8443");
    let bad_level = Args {
        auth_token: Some("t".to_string()),
        log_level: Some("loud".to_string()),
        ..no_args()
    };
    assert!(Config::load(&bad_level, None, true, true).is_err());
}

use tanaka_server::crdt::clock::LamportClock;
use tanaka_server::crdt::document::CrdtDocument;
use tanaka_server::crdt::manager::{apply_operation_to_state, CrdtManager};
use tanaka_server::crdt::records::{CrdtError, CrdtTab, CrdtWindow};
use tanaka_server::sync::operation::{CrdtOperation, StoredOperation, TabData};

fn tab(id: &str) -> CrdtTab {
    CrdtTab {
        id: id.to_string(),
        window_id: "window1".to_string(),
        url: "https://example.com".to_string(),
        title: "Example".to_string(),
        active: true,
        index: 0,
        updated_at: 1_234_567_890,
    }
}

fn upsert(id: &str, url: &str, title: &str, active: bool, index: i32) -> CrdtOperation {
    CrdtOperation::UpsertTab {
        id: id.to_string(),
        data: TabData {
            window_id: "w1".to_string(),
            url: url.to_string(),
            title: title.to_string(),
            active,
            index,
            updated_at: 1,
        },
    }
}

fn stored(operation: CrdtOperation, clock: u64) -> StoredOperation {
    StoredOperation {
        id: format!("{}_d1_{}", clock, operation.target_id()),
        clock,
        device_id: "d1".to_string(),
        operation,
        created_at: 0,
    }
}

fn sorted_tabs(document: &CrdtDocument) -> Vec<(String, String, String, String, bool, i32, u64)> {
    let mut tabs: Vec<_> = document
        .get_tabs()
        .unwrap()
        .into_iter()
        .map(|t| (t.id, t.window_id, t.url, t.title, t.active, t.index, t.updated_at))
        .collect();
    tabs.sort();
    tabs
}

fn sorted_windows(document: &CrdtDocument) -> Vec<(String, bool, u32, u64)> {
    let mut windows: Vec<_> = document
        .get_windows()
        .unwrap()
        .into_iter()
        .map(|w| (w.id, w.is_tracked, w.tab_count, w.updated_at))
        .collect();
    windows.sort();
    windows
}

#[test]
fn test_crdt_document() {
    let mut doc = CrdtDocument::new();

    let tab = CrdtTab {
        id: "tab1".to_string(),
        window_id: "window1".to_string(),
        url: "https://example.com".to_string(),
        title: "Example".to_string(),
        active: true,
        index: 0,
        updated_at: 1_234_567_890,
    };

    doc.upsert_tab(&tab).unwrap();

    let tabs = doc.get_tabs().unwrap();
    assert_eq!(tabs.len(), 1);
    assert_eq!(tabs[0].id, "tab1");
    assert_eq!(tabs[0].url, "https://example.com");
    assert_eq!(tabs[0].updated_at, 1_234_567_890);
}

#[test]
fn test_crdt_document_window_operations() {
    let mut doc = CrdtDocument::new();

    let window = CrdtWindow {
        id: "window1".to_string(),
        is_tracked: true,
        tab_count: 5,
        updated_at: 1_234_567_890,
    };

    doc.upsert_window(&window).unwrap();

    let windows = doc.get_windows().unwrap();
    assert_eq!(windows.len(), 1);
    assert_eq!(windows[0].id, "window1");
    assert!(windows[0].is_tracked);
    assert_eq!(windows[0].tab_count, 5);
}

#[test]
fn test_crdt_document_tab_removal() {
    let mut doc = CrdtDocument::new();

    let tab = tab("tab1");

    doc.upsert_tab(&tab).unwrap();
    doc.remove_tab("tab1").unwrap();

    let tabs = doc.get_tabs().unwrap();
    assert_eq!(tabs.len(), 0);
}

#[test]
fn test_crdt_manager_clock_operations() {
    let mut manager = CrdtManager::new(42);

    assert_eq!(manager.node_id(), 42);

    let initial_clock = manager.current_clock();
    let ticked_clock = manager.tick_clock();
    assert_eq!(ticked_clock, initial_clock);
    assert_eq!(manager.current_clock(), initial_clock + 1);

    let updated_clock = manager.update_clock(100);
    assert_eq!(updated_clock, 101);
    assert_eq!(manager.current_clock(), 101);
}

#[test]
fn clock_starts_at_one_and_resumes() {
    let clock = LamportClock::new(7);
    assert_eq!(clock.current(), 1);
    assert_eq!(clock.node_id(), 7);
    let mut resumed = LamportClock::with_initial_value(7, 41);
    assert_eq!(resumed.current(), 41);
    assert_eq!(resumed.tick(), 41);
    assert_eq!(resumed.tick(), 42);
    assert_eq!(resumed.update(10), 44);
    assert_eq!(resumed.update(44), 45);
    assert_eq!(resumed.update(100), 101);
}

#[test]
fn ticks_strictly_increase() {
    let mut clock = LamportClock::new(1);
    let mut last = clock.tick();
    for step in 0..200u64 {
        if step % 3 == 0 {
            let _ = clock.update(step * 2);
        }
        let next = clock.tick();
        assert!(last < next);
        last = next;
    }
}

#[test]
fn tick_wraps_at_the_largest_value() {
    let mut clock = LamportClock::with_initial_value(1, u64::MAX);
    assert_eq!(clock.tick(), u64::MAX);
    assert_eq!(clock.current(), 0);
}

#[test]
fn upsert_then_close_leaves_no_tab() {
    let mut doc = CrdtDocument::new();
    doc.apply_operation(&upsert("t1", "https://example.com", "E", true, 0), 1)
        .unwrap();
    assert_eq!(doc.get_tabs().unwrap().len(), 1);
    doc.apply_operation(
        &CrdtOperation::CloseTab {
            id: "t1".to_string(),
            closed_at: 2,
        },
        2,
    )
    .unwrap();
    assert!(doc.get_tabs().unwrap().is_empty());
    assert!(doc.get_tab("t1").is_none());
}

#[test]
fn last_upsert_wins_in_all_fields() {
    let mut doc = CrdtDocument::new();
    doc.apply_operation(&upsert("t1", "https://a.example", "A", true, 0), 1)
        .unwrap();
    doc.apply_operation(
        &CrdtOperation::UpsertTab {
            id: "t1".to_string(),
            data: TabData {
                window_id: "w2".to_string(),
                url: "https://b.example".to_string(),
                title: "B".to_string(),
                active: false,
                index: 3,
                updated_at: 9,
            },
        },
        2,
    )
    .unwrap();
    assert_eq!(
        sorted_tabs(&doc),
        vec![(
            "t1".to_string(),
            "w2".to_string(),
            "https://b.example".to_string(),
            "B".to_string(),
            false,
            3,
            2
        )]
    );
}

#[test]
fn patches_change_the_named_fields_and_restamp() {
    let mut doc = CrdtDocument::new();
    doc.apply_operation(&upsert("t1", "https://a.example", "A", true, 0), 1)
        .unwrap();
    doc.apply_operation(
        &CrdtOperation::SetActive {
            id: "t1".to_string(),
            active: false,
            updated_at: 5,
        },
        2,
    )
    .unwrap();
    let found = doc.get_tab("t1").unwrap();
    assert!(!found.active);
    assert_eq!(found.updated_at, 2);
    assert_eq!(found.url, "https://a.example");
    doc.apply_operation(
        &CrdtOperation::MoveTab {
            id: "t1".to_string(),
            window_id: "w9".to_string(),
            index: 4,
            updated_at: 5,
        },
        3,
    )
    .unwrap();
    let found = doc.get_tab("t1").unwrap();
    assert_eq!(found.window_id, "w9");
    assert_eq!(found.index, 4);
    assert_eq!(found.updated_at, 3);
    doc.apply_operation(
        &CrdtOperation::ChangeUrl {
            id: "t1".to_string(),
            url: "https://c.example".to_string(),
            title: None,
            updated_at: 5,
        },
        4,
    )
    .unwrap();
    let found = doc.get_tab("t1").unwrap();
    assert_eq!(found.url, "https://c.example");
    assert_eq!(found.title, "A");
    assert_eq!(found.updated_at, 4);
    doc.apply_operation(
        &CrdtOperation::ChangeUrl {
            id: "t1".to_string(),
            url: "https://d.example".to_string(),
            title: Some("D".to_string()),
            updated_at: 5,
        },
        5,
    )
    .unwrap();
    let found = doc.get_tab("t1").unwrap();
    assert_eq!(found.url, "https://d.example");
    assert_eq!(found.title, "D");
    assert_eq!(found.updated_at, 5);
}

#[test]
fn patches_of_a_missing_tab_are_skipped() {
    let mut doc = CrdtDocument::new();
    doc.apply_operation(
        &CrdtOperation::SetActive {
            id: "ghost".to_string(),
            active: true,
            updated_at: 1,
        },
        1,
    )
    .unwrap();
    doc.apply_operation(
        &CrdtOperation::MoveTab {
            id: "ghost".to_string(),
            window_id: "w".to_string(),
            index: 0,
            updated_at: 1,
        },
        2,
    )
    .unwrap();
    doc.apply_operation(
        &CrdtOperation::ChangeUrl {
            id: "ghost".to_string(),
            url: "https://x.example".to_string(),
            title: None,
            updated_at: 1,
        },
        3,
    )
    .unwrap();
    doc.apply_operation(
        &CrdtOperation::CloseTab {
            id: "ghost".to_string(),
            closed_at: 1,
        },
        4,
    )
    .unwrap();
    assert!(doc.get_tabs().unwrap().is_empty());
}

#[test]
fn window_operations() {
    let mut doc = CrdtDocument::new();
    doc.apply_operation(
        &CrdtOperation::SetWindowFocus {
            id: "w1".to_string(),
            focused: true,
            updated_at: 1,
        },
        1,
    )
    .unwrap();
    assert!(doc.get_windows().unwrap().is_empty());
    doc.apply_operation(
        &CrdtOperation::TrackWindow {
            id: "w1".to_string(),
            is_tracked: false,
            updated_at: 1,
        },
        2,
    )
    .unwrap();
    assert_eq!(sorted_windows(&doc), vec![("w1".to_string(), true, 0, 2)]);
    doc.apply_operation(
        &CrdtOperation::SetWindowFocus {
            id: "w1".to_string(),
            focused: true,
            updated_at: 1,
        },
        3,
    )
    .unwrap();
    assert_eq!(sorted_windows(&doc), vec![("w1".to_string(), true, 0, 3)]);
    doc.apply_operation(
        &CrdtOperation::UntrackWindow {
            id: "w1".to_string(),
            updated_at: 1,
        },
        4,
    )
    .unwrap();
    doc.apply_operation(
        &CrdtOperation::UntrackWindow {
            id: "w2".to_string(),
            updated_at: 1,
        },
        5,
    )
    .unwrap();
    assert_eq!(
        sorted_windows(&doc),
        vec![("w1".to_string(), false, 0, 4), ("w2".to_string(), false, 0, 5)]
    );
    assert!(doc.get_window("w2").is_some());
    assert!(doc.get_window("w3").is_none());
}

#[test]
fn a_clock_above_the_signed_range_is_kept_exactly() {
    let mut doc = CrdtDocument::new();
    let stamped = CrdtTab {
        updated_at: u64::MAX - 1,
        index: i32::MIN,
        ..tab("t1")
    };
    doc.upsert_tab(&stamped).unwrap();
    let found = doc.get_tab("t1").unwrap();
    assert_eq!(found.updated_at, u64::MAX - 1);
    assert_eq!(found.index, i32::MIN);
    let window = CrdtWindow {
        id: "w1".to_string(),
        is_tracked: true,
        tab_count: u32::MAX,
        updated_at: 1 << 63,
    };
    doc.upsert_window(&window).unwrap();
    let found = doc.get_window("w1").unwrap();
    assert_eq!(found.tab_count, u32::MAX);
    assert_eq!(found.updated_at, 1 << 63);
}

#[test]
fn replaying_the_log_twice_changes_nothing() {
    let log = vec![
        stored(upsert("t1", "https://a.example", "A", true, 0), 1),
        stored(
            CrdtOperation::SetActive {
                id: "t2".to_string(),
                active: true,
                updated_at: 1,
            },
            2,
        ),
        stored(upsert("t2", "https://b.example", "B", false, 1), 3),
        stored(
            CrdtOperation::TrackWindow {
                id: "w1".to_string(),
                is_tracked: true,
                updated_at: 1,
            },
            4,
        ),
        stored(
            CrdtOperation::ChangeUrl {
                id: "t1".to_string(),
                url: "https://c.example".to_string(),
                title: None,
                updated_at: 1,
            },
            5,
        ),
        stored(
            CrdtOperation::UntrackWindow {
                id: "w1".to_string(),
                updated_at: 1,
            },
            6,
        ),
        stored(
            CrdtOperation::CloseTab {
                id: "t2".to_string(),
                closed_at: 1,
            },
            7,
        ),
    ];
    let mut once = CrdtDocument::new();
    once.replay(&log).unwrap();
    let mut twice = CrdtDocument::new();
    twice.replay(&log).unwrap();
    twice.replay(&log).unwrap();
    assert_eq!(sorted_tabs(&once), sorted_tabs(&twice));
    assert_eq!(sorted_windows(&once), sorted_windows(&twice));
    assert_eq!(
        sorted_tabs(&once),
        vec![(
            "t1".to_string(),
            "w1".to_string(),
            "https://c.example".to_string(),
            "A".to_string(),
            true,
            0,
            5
        )]
    );
    assert_eq!(sorted_windows(&once), vec![("w1".to_string(), false, 0, 6)]);

    let mut resumed = CrdtDocument::new();
    resumed.replay(&log[..3].to_vec()).unwrap();
    resumed.replay(&log).unwrap();
    assert_eq!(sorted_tabs(&once), sorted_tabs(&resumed));
    assert_eq!(sorted_windows(&once), sorted_windows(&resumed));
}

#[test]
fn manager_applies_to_its_document() {
    let mut manager = CrdtManager::with_initial_clock(3, 10);
    assert_eq!(manager.current_clock(), 10);
    assert_eq!(manager.node_id(), 3);
    apply_operation_to_state(&mut manager, &upsert("t1", "https://a.example", "A", true, 0), 10)
        .unwrap();
    assert_eq!(manager.current_clock(), 10);
    assert_eq!(manager.document().get_tabs().unwrap().len(), 1);
    manager
        .restore_from_operations(&vec![stored(
            CrdtOperation::CloseTab {
                id: "t1".to_string(),
                closed_at: 1,
            },
            11,
        )])
        .unwrap();
    assert!(manager.document().get_tabs().unwrap().is_empty());
}

#[test]
fn document_errors_are_reported_as_sync_errors() {
    let error = CrdtError::ApplyError("boom".to_string());
    assert_eq!(error.to_string(), "Failed to apply CRDT update: boom");
    assert_eq!(
        CrdtError::DecodeError("x".to_string()).to_string(),
        "Failed to decode CRDT update: x"
    );
    assert_eq!(
        CrdtError::DocumentNotFound("d".to_string()).to_string(),
        "Document not found: d"
    );
    assert_eq!(CrdtError::InvalidState.to_string(), "Invalid document state");
    let app = error.into_app_error();
    assert_eq!(app.status_code(), 409);
    assert_eq!(app.to_string(), "Sync error: Failed to apply CRDT update: boom");
}

#[test]
fn test_crdt_manager() {
    let mut manager = CrdtManager::new(1);

    let doc_id = "test-doc";
    let state = manager.get_full_state(doc_id).unwrap();
    assert!(!state.is_empty());

    let clock = manager.current_clock();
    assert_eq!(clock, 1);
}

#[test]
fn test_crdt_document_state_operations() {
    let doc = CrdtDocument::new();

    let state = doc.encode_state();
    assert!(!state.is_empty());

    let doc2 = CrdtDocument::from_state(&state).unwrap();
    let doc2_state = doc2.encode_state();

    assert_eq!(state, doc2_state);
}

#[test]
fn test_crdt_document_update_operations() {
    let mut doc1 = CrdtDocument::new();
    let mut doc2 = CrdtDocument::new();

    let tab = tab("tab1");

    doc1.upsert_tab(&tab).unwrap();

    let state1 = doc1.encode_state();
    let _state2 = doc2.encode_state();

    doc2.apply_update(&state1).unwrap();

    let state_vector = yrs::StateVector::default();
    let diff = doc1.encode_diff_since(&state_vector);
    assert!(!diff.is_empty());

    assert_eq!(sorted_tabs(&doc2), sorted_tabs(&doc1));
    let caught_up = doc1.encode_diff_since(&doc2.state_vector());
    assert!(caught_up.len() < diff.len());
}

#[test]
fn test_crdt_manager_multiple_documents() {
    let mut manager = CrdtManager::new(1);

    let doc1_id = "doc1";
    let doc2_id = "doc2";

    manager.get_or_create_document(doc1_id);
    manager.get_or_create_document(doc2_id);

    let mut source = CrdtDocument::new();
    source.upsert_tab(&tab("tab1")).unwrap();
    manager.apply_update(doc1_id, &source.encode_state()).unwrap();

    let doc1 = manager.get_full_state(doc1_id).unwrap();
    let doc2 = manager.get_full_state(doc2_id).unwrap();
    assert_ne!(doc1, doc2);

    manager.get_or_create_document(doc1_id);
    let doc1_again = manager.get_full_state(doc1_id).unwrap();
    assert_eq!(doc1, doc1_again);
    assert!(manager.document().get_tabs().unwrap().is_empty());
}

#[test]
fn test_crdt_manager_load_document() {
    let mut manager = CrdtManager::new(1);
    let doc_id = "test-doc";

    let initial_state = manager.get_full_state(doc_id).unwrap();

    manager.load_document(doc_id, &initial_state).unwrap();

    let loaded_state = manager.get_full_state(doc_id).unwrap();
    assert!(!loaded_state.is_empty());
}

#[test]
fn test_crdt_manager_apply_update() {
    let mut manager = CrdtManager::new(1);
    let doc_id = "test-doc";

    let initial_state = manager.get_full_state(doc_id).unwrap();

    let result_state = manager.apply_update(doc_id, &initial_state).unwrap();
    assert!(!result_state.is_empty());

    assert!(manager.current_clock() > 1);
    assert_eq!(manager.current_clock(), 2);
}

#[test]
fn test_crdt_manager_get_updates_since() {
    let mut manager = CrdtManager::new(1);
    let doc_id = "test-doc";

    let state_vector = yrs::StateVector::default();
    let updates = manager.get_updates_since(doc_id, &state_vector).unwrap();

    assert!(!updates.is_empty());
}

#[test]
fn test_invalid_state_from_bytes() {
    let invalid_state = vec![0xFF, 0xFF, 0xFF, 0xFF];
    let result = CrdtDocument::from_state(&invalid_state);

    match result {
        Ok(_) => {}
        Err(error) => assert!(error
            .to_string()
            .starts_with("Failed to decode CRDT update: Invalid update format: ")),
    }
}

#[test]
fn a_loaded_state_holds_what_the_source_held() {
    let mut source = CrdtDocument::new();
    source.upsert_tab(&tab("tab1")).unwrap();
    source
        .upsert_window(&CrdtWindow {
            id: "w1".to_string(),
            is_tracked: true,
            tab_count: 2,
            updated_at: 7,
        })
        .unwrap();
    let copy = CrdtDocument::from_state(&source.encode_state()).unwrap();
    assert_eq!(sorted_tabs(&copy), sorted_tabs(&source));
    assert_eq!(sorted_windows(&copy), sorted_windows(&source));

    let mut manager = CrdtManager::new(1);
    manager.load_document("default", &source.encode_state()).unwrap();
    assert_eq!(sorted_tabs(manager.document()), sorted_tabs(&source));
    manager.load_document("other", &source.encode_state()).unwrap();
    assert_eq!(manager.current_clock(), 1);
}

#[test]
fn bytes_that_encode_no_update_change_nothing() {
    let mut manager = CrdtManager::new(1);
    apply_operation_to_state(&mut manager, &upsert("t1", "https://a.example", "A", true, 0), 1)
        .unwrap();
    let truncated = vec![0x01];
    let error = manager.apply_update("default", &truncated).unwrap_err();
    assert_eq!(error.status_code(), 409);
    assert!(error
        .to_string()
        .starts_with("Sync error: Failed to decode CRDT update: Invalid update format: "));
    assert_eq!(manager.current_clock(), 1);
    assert_eq!(manager.document().get_tabs().unwrap().len(), 1);
    assert!(manager.load_document("other", &truncated).is_err());
    let mut document = CrdtDocument::new();
    assert!(matches!(
        document.apply_update(&truncated),
        Err(CrdtError::DecodeError(_))
    ));
}

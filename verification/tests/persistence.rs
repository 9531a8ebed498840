use std::sync::Arc;

use rift_app::app_state::{
    AppState, LeafContents, LeafSnapshot, PaneNodeSnapshot, PanelSnapshot, SelectedTabColor,
    TabSnapshot,
};
use rift_app::persistence::{
    database_file_path_for_scope, deduplicate_events, legacy_database_moves, restored_left_panel_open, BlockCompleted, ModelEvent, PersistenceScope,
    SerializedBlock, RIFT_SQLITE_FILE_NAME,
};

#[test]
fn test_deduplicate_snapshots() {
    let completed_block_1 = BlockCompleted {
        pane_id: vec![1, 2, 3],
        block: Arc::new(SerializedBlock::default()),
        is_local: true,
    };
    let completed_block_2 = BlockCompleted {
        pane_id: vec![4, 5, 6],
        block: Arc::new(SerializedBlock::default()),
        is_local: true,
    };
    let snapshot_1 = AppState {
        active_window_index: Some(1),
        windows: Default::default(),
    };
    let snapshot_2 = AppState {
        active_window_index: Some(2),
        windows: Default::default(),
    };
    let snapshot_3 = AppState {
        active_window_index: Some(3),
        windows: Default::default(),
    };

    let original_events = vec![
        ModelEvent::DeleteBlocks(vec![7, 8, 9]),
        ModelEvent::Snapshot(snapshot_1.clone()),
        ModelEvent::SaveBlock(completed_block_1.clone()),
        ModelEvent::Snapshot(snapshot_2.clone()),
        ModelEvent::SaveBlock(completed_block_2.clone()),
        ModelEvent::Snapshot(snapshot_3.clone()),
        ModelEvent::DeleteBlocks(vec![10, 11, 12]),
    ];

    let filtered_events = deduplicate_events(original_events);
    assert_eq!(filtered_events.len(), 5);

    assert!(matches!(&filtered_events[0], &ModelEvent::DeleteBlocks(_)));
    // The first snapshot should have been filtered out.
    assert!(matches!(&filtered_events[1], &ModelEvent::SaveBlock(_)));
    // The second snapshot should have been filtered out.
    assert!(matches!(&filtered_events[2], &ModelEvent::SaveBlock(_)));
    // The third snapshot should be preserved.
    match &filtered_events[3] {
        ModelEvent::Snapshot(snapshot) => assert_eq!(snapshot, &snapshot_3),
        other => panic!("Expected ModelEvent::Snapshot, got {other:?}"),
    }
    assert!(matches!(&filtered_events[4], &ModelEvent::DeleteBlocks(_)));
}

#[test]
fn test_deduplicate_no_snapshots() {
    let original_events = vec![ModelEvent::SaveBlock(BlockCompleted {
        pane_id: vec![1, 2, 3],
        block: Default::default(),
        is_local: true,
    })];
    let filtered_events = deduplicate_events(original_events);
    assert_eq!(filtered_events.len(), 1);
    assert!(matches!(&filtered_events[0], &ModelEvent::SaveBlock(_)));
}

fn snapshot(i: usize) -> ModelEvent {
    ModelEvent::Snapshot(AppState { active_window_index: Some(i), windows: vec![] })
}

#[test]
fn deduplicate_keeps_order_of_other_events_exactly() {
    let events = vec![
        ModelEvent::Terminate,
        snapshot(1),
        ModelEvent::DeleteProject { path: "/a".to_string() },
        ModelEvent::ClearUserProfiles,
        snapshot(2),
    ];
    let filtered = deduplicate_events(events);
    assert_eq!(
        filtered,
        vec![
            ModelEvent::Terminate,
            ModelEvent::DeleteProject { path: "/a".to_string() },
            ModelEvent::ClearUserProfiles,
            snapshot(2),
        ]
    );
}

#[test]
fn deduplicate_is_idempotent_on_example() {
    let events = vec![snapshot(1), snapshot(2), ModelEvent::PauseAndRemoveDatabase, snapshot(3)];
    let once = deduplicate_events(events);
    assert_eq!(once, vec![ModelEvent::PauseAndRemoveDatabase, snapshot(3)]);
    let twice = deduplicate_events(vec![ModelEvent::PauseAndRemoveDatabase, snapshot(3)]);
    assert_eq!(twice, once);
}

#[test]
fn deduplicate_empty_and_single_snapshot() {
    assert_eq!(deduplicate_events(vec![]), vec![]);
    assert_eq!(deduplicate_events(vec![snapshot(7)]), vec![snapshot(7)]);
}

#[test]
fn app_scope_database_path_matches_app_database_path() {
    let secure = database_file_path_for_scope(
        &PersistenceScope::App,
        Some("/secure/state".to_string()),
        "/state".to_string(),
    );
    assert_eq!(secure.directory, "/secure/state");
    assert_eq!(secure.file_name, RIFT_SQLITE_FILE_NAME);
    assert_eq!(RIFT_SQLITE_FILE_NAME, "warp.sqlite");
    let fallback = database_file_path_for_scope(&PersistenceScope::App, None, "/state".to_string());
    assert_eq!(fallback.directory, "/state");
}

#[test]
fn legacy_database_is_moved_with_its_companion_files() {
    let moves = legacy_database_moves("/state/warp.sqlite", "/secure/warp.sqlite", true, false);
    assert_eq!(moves.len(), 3);
    assert_eq!(moves[0].from, "/state/warp.sqlite");
    assert_eq!(moves[0].to, "/secure/warp.sqlite");
    assert!(moves[0].missing_is_error);
    assert_eq!(moves[1].from, "/state/warp.sqlite-wal");
    assert_eq!(moves[1].to, "/secure/warp.sqlite-wal");
    assert!(!moves[1].missing_is_error);
    assert_eq!(moves[2].from, "/state/warp.sqlite-shm");
    assert_eq!(moves[2].to, "/secure/warp.sqlite-shm");
    assert!(!moves[2].missing_is_error);
}

#[test]
fn legacy_database_is_left_alone_when_nothing_to_migrate() {
    assert!(legacy_database_moves("/s/warp.sqlite", "/s/warp.sqlite", true, false).is_empty());
    assert!(legacy_database_moves("/a/warp.sqlite", "/b/warp.sqlite", false, false).is_empty());
    assert!(legacy_database_moves("/a/warp.sqlite", "/b/warp.sqlite", true, true).is_empty());
}

fn tab_with_left_panel(has_left_panel: bool) -> TabSnapshot {
    TabSnapshot {
        custom_title: None,
        default_directory_color: None,
        selected_color: SelectedTabColor::default(),
        root: PaneNodeSnapshot::Leaf(LeafSnapshot {
            is_focused: true,
            custom_vertical_tabs_title: None,
            contents: LeafContents::GetStarted,
        }),
        left_panel: if has_left_panel { Some(PanelSnapshot { width: 240 }) } else { None },
        right_panel: None,
    }
}

#[test]
fn left_panel_state_falls_back_to_the_active_tab() {
    let tabs = vec![tab_with_left_panel(false), tab_with_left_panel(true)];
    assert!(restored_left_panel_open(Some(true), &tabs, 0));
    assert!(!restored_left_panel_open(Some(false), &tabs, 1));
    assert!(restored_left_panel_open(None, &tabs, 1));
    assert!(!restored_left_panel_open(None, &tabs, 0));
    assert!(!restored_left_panel_open(None, &tabs, 5));
}

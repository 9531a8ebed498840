use rift_app::app_state::{
    BranchSnapshot, LeafContents, LeafSnapshot, PaneFlex, PaneNodeSnapshot, SettingsPaneSnapshot,
    SplitDirection, TerminalPaneSnapshot,
};
use rift_app::pane_rows::{
    pane_node_rows, read_pane_tree, restore_leaf, store_leaf, PaneNodeKind, PaneNodeRow,
    StoredLeaf, StoredPane, DEFAULT_PANE_FLEX_BITS,
};
use rift_app::persistence::{
    workspace_selection_after_set, workspace_selection_after_sync, active_tab_index_column, active_tab_index_from_column, active_window_index,
    must_evict_oldest_command, session_id_column, writer_step, ModelEvent, WriterAction,
    WriterState, COMMANDS_COUNT_LIMIT,
};

fn terminal(cwd: &str, is_read_only: bool) -> LeafContents {
    LeafContents::Terminal(TerminalPaneSnapshot {
        uuid: vec![7, 8],
        cwd: Some(cwd.to_string()),
        is_active: true,
        is_read_only,
        shell_launch_data: None,
        active_profile_id: Some("profile".to_string()),
    })
}

fn leaf(contents: LeafContents) -> PaneNodeSnapshot {
    PaneNodeSnapshot::Leaf(LeafSnapshot {
        is_focused: false,
        custom_vertical_tabs_title: Some("title".to_string()),
        contents,
    })
}

fn flex(x: f32) -> PaneFlex {
    PaneFlex(x.to_bits())
}

#[test]
fn rows_are_written_breadth_first() {
    // root split: [leaf a, split [leaf b, network log], leaf c]
    let tree = PaneNodeSnapshot::Branch(BranchSnapshot {
        direction: SplitDirection::Horizontal,
        children: vec![
            (flex(0.5), leaf(terminal("/a", false))),
            (
                flex(0.25),
                PaneNodeSnapshot::Branch(BranchSnapshot {
                    direction: SplitDirection::Vertical,
                    children: vec![
                        (flex(1.0), leaf(terminal("/b", false))),
                        (flex(1.0), leaf(LeafContents::NetworkLog)),
                    ],
                }),
            ),
            (flex(0.25), leaf(LeafContents::GetStarted)),
        ],
    });
    let rows = pane_node_rows(tree);
    let shape: Vec<(Option<usize>, bool)> = rows
        .iter()
        .map(|r| (r.parent, matches!(r.kind, PaneNodeKind::Branch { .. })))
        .collect();
    assert_eq!(
        shape,
        vec![
            (None, true),
            (Some(0), false),
            (Some(0), true),
            (Some(0), false),
            (Some(2), false),
        ]
    );
    assert_eq!(rows[0].flex, None);
    assert_eq!(rows[2].flex, Some(flex(0.25)));
    assert_eq!(rows[0].kind, PaneNodeKind::Branch { horizontal: true });
    assert_eq!(rows[2].kind, PaneNodeKind::Branch { horizontal: false });
}

#[test]
fn saved_tree_reads_back_without_unpersisted_panes() {
    let tree = PaneNodeSnapshot::Branch(BranchSnapshot {
        direction: SplitDirection::Vertical,
        children: vec![
            (flex(2.0), leaf(terminal("/a", true))),
            (flex(1.0), leaf(LeafContents::NetworkLog)),
            (
                flex(3.0),
                leaf(LeafContents::Settings(SettingsPaneSnapshot::Local {
                    current_page: "Appearance".to_string(),
                    search_query: Some("font".to_string()),
                })),
            ),
        ],
    });
    let read = read_pane_tree(pane_node_rows(tree)).expect("the root is persisted");
    let expected = PaneNodeSnapshot::Branch(BranchSnapshot {
        direction: SplitDirection::Vertical,
        children: vec![
            (flex(2.0), leaf(terminal("/a", false))),
            (
                flex(3.0),
                leaf(LeafContents::Settings(SettingsPaneSnapshot::Local {
                    current_page: "Appearance".to_string(),
                    search_query: None,
                })),
            ),
        ],
    });
    assert_eq!(read, expected);
}

#[test]
fn unpersisted_root_gives_no_rows() {
    let rows = pane_node_rows(leaf(LeafContents::NetworkLog));
    assert!(rows.is_empty());
    assert_eq!(read_pane_tree(rows), None);
}

#[test]
fn missing_flex_reads_as_one() {
    let rows = vec![
        PaneNodeRow { parent: None, flex: None, kind: PaneNodeKind::Branch { horizontal: true } },
        PaneNodeRow {
            parent: Some(0),
            flex: None,
            kind: PaneNodeKind::Leaf(StoredLeaf {
                is_focused: true,
                custom_vertical_tabs_title: None,
                pane: StoredPane::GetStarted,
            }),
        },
    ];
    let tree = read_pane_tree(rows).unwrap();
    match tree {
        PaneNodeSnapshot::Branch(b) => {
            assert_eq!(b.direction, SplitDirection::Horizontal);
            assert_eq!(b.children.len(), 1);
            assert_eq!(b.children[0].0, PaneFlex(DEFAULT_PANE_FLEX_BITS));
            assert_eq!(f32::from_bits(DEFAULT_PANE_FLEX_BITS), 1.0);
        }
        other => panic!("expected a split, got {other:?}"),
    }
}

#[test]
fn leaf_storage_round_trip() {
    let l = LeafSnapshot {
        is_focused: true,
        custom_vertical_tabs_title: None,
        contents: LeafContents::Welcome { startup_directory: Some("/home".to_string()) },
    };
    let stored = store_leaf(l.clone()).unwrap();
    assert_eq!(restore_leaf(stored), l);
    assert!(store_leaf(LeafSnapshot {
        is_focused: false,
        custom_vertical_tabs_title: None,
        contents: LeafContents::NetworkLog,
    })
    .is_none());
}

#[test]
fn writer_pauses_for_good() {
    let mut state = WriterState { paused: false };
    assert_eq!(writer_step(&mut state, &ModelEvent::ClearUserProfiles), WriterAction::Apply);
    assert_eq!(
        writer_step(&mut state, &ModelEvent::PauseAndRemoveDatabase),
        WriterAction::RemoveDatabase
    );
    assert!(state.paused);
    assert_eq!(writer_step(&mut state, &ModelEvent::ClearUserProfiles), WriterAction::Ignore);
    assert_eq!(writer_step(&mut state, &ModelEvent::Terminate), WriterAction::Stop);
    assert!(state.paused);
}

#[test]
fn column_conversions() {
    assert!(must_evict_oldest_command(COMMANDS_COUNT_LIMIT));
    assert!(!must_evict_oldest_command(COMMANDS_COUNT_LIMIT - 1));
    assert_eq!(session_id_column(42), Some(42));
    assert_eq!(session_id_column(u64::MAX), None);
    assert_eq!(session_id_column(i64::MAX as u64), Some(i64::MAX));
    assert_eq!(active_tab_index_column(3), 3);
    assert_eq!(active_tab_index_column(usize::MAX), 0);
    assert_eq!(active_tab_index_from_column(3), 3);
    assert_eq!(active_tab_index_from_column(-1), 0);
    assert_eq!(active_tab_index_from_column(active_tab_index_column(17)), 17);
}

#[test]
fn active_window_is_found_by_id() {
    let ids = vec![10, 11, 12];
    assert_eq!(active_window_index(Some(11), &ids), Some(1));
    assert_eq!(active_window_index(Some(99), &ids), None);
    assert_eq!(active_window_index(None, &ids), None);
}

#[test]
fn workspace_selection_survives_sync() {
    let uids = vec!["a".to_string(), "b".to_string(), "c".to_string()];
    assert_eq!(
        workspace_selection_after_sync(Some(&"b".to_string()), &uids),
        vec![false, true, false]
    );
    // The selected workspace is gone: the first one is selected.
    assert_eq!(
        workspace_selection_after_sync(Some(&"z".to_string()), &uids),
        vec![true, false, false]
    );
    assert_eq!(workspace_selection_after_sync(None, &uids), vec![false, false, false]);
    assert_eq!(workspace_selection_after_sync(Some(&"z".to_string()), &vec![]), Vec::<bool>::new());
    assert_eq!(workspace_selection_after_set(&"c".to_string(), &uids), vec![false, false, true]);
}

use rift_app::file_ops::{FileEvent, FileOpKind, FileOpResult, PendingFileOps};

#[test]
fn saved_write_is_answered_to_its_request_once() {
    let mut ops = PendingFileOps::new();
    ops.insert(7, "req-w".to_string(), 0xabc, FileOpKind::Write);
    assert!(ops.get(7).is_some());

    let delivery = ops.handle_file_event(7, &FileEvent::Saved).expect("tracked write");
    assert_eq!(delivery.conn_id, 0xabc);
    assert_eq!(delivery.request_id, "req-w");
    assert_eq!(delivery.response.kind, FileOpKind::Write);
    assert!(matches!(delivery.response.result, FileOpResult::Success));

    assert!(ops.get(7).is_none());
    assert!(ops.handle_file_event(7, &FileEvent::Saved).is_none());
}

#[test]
fn failed_delete_carries_the_error() {
    let mut ops = PendingFileOps::new();
    ops.insert(9, "req-d".to_string(), 5, FileOpKind::Delete);
    let delivery = ops
        .handle_file_event(9, &FileEvent::FailedToSave { error: "permission denied".to_string() })
        .expect("tracked delete");
    assert_eq!(delivery.response.kind, FileOpKind::Delete);
    match delivery.response.result {
        FileOpResult::Error { message } => assert_eq!(message, "permission denied"),
        FileOpResult::Success => panic!("expected an error"),
    }
}

#[test]
fn load_and_update_events_do_not_answer() {
    let mut ops = PendingFileOps::new();
    ops.insert(3, "req".to_string(), 1, FileOpKind::Write);
    assert!(ops.handle_file_event(3, &FileEvent::Loaded).is_none());
    assert!(ops.handle_file_event(3, &FileEvent::FailedToLoad).is_none());
    assert!(ops.handle_file_event(3, &FileEvent::Updated).is_none());
    assert!(ops.get(3).is_some());
}

#[test]
fn events_for_untracked_files_are_ignored() {
    let mut ops = PendingFileOps::new();
    assert!(ops.handle_file_event(42, &FileEvent::Saved).is_none());
}

#[test]
fn failed_dispatch_forgets_the_operation_and_explains() {
    let mut ops = PendingFileOps::new();
    ops.insert(4, "req".to_string(), 1, FileOpKind::Write);
    let response = ops.dispatch_failed(4, FileOpKind::Write, "disk full");
    assert_eq!(response.kind, FileOpKind::Write);
    match response.result {
        FileOpResult::Error { message } => {
            assert_eq!(message, "Failed to initiate write: disk full")
        }
        FileOpResult::Success => panic!("expected an error"),
    }
    assert!(ops.get(4).is_none());

    let response = ops.dispatch_failed(5, FileOpKind::Delete, "gone");
    match response.result {
        FileOpResult::Error { message } => assert_eq!(message, "Failed to initiate delete: gone"),
        FileOpResult::Success => panic!("expected an error"),
    }
}

#[test]
fn removing_hands_back_the_operation() {
    let mut ops = PendingFileOps::new();
    ops.insert(1, "a".to_string(), 10, FileOpKind::Write);
    ops.insert(1, "b".to_string(), 11, FileOpKind::Delete);
    let op = ops.remove(1).expect("present");
    assert_eq!(op.request_id, "b");
    assert_eq!(op.conn_id, 11);
    assert_eq!(op.kind, FileOpKind::Delete);
    assert!(ops.remove(1).is_none());
}

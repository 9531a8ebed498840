use rift_app::remote_server::{ConnectionId, ConnectionRegistry, MessageStep, Route, SnapshotTarget};
use rift_app::server_dispatch::{
    dispatch, ClientMessageKind, Dispatch, HostScopedRequestKind, NotificationKind,
    RequestHandler, SessionScopedRequestKind,
};

const TARGET: ConnectionId = 0x1111;
const ALTERNATE: ConnectionId = 0x2222;

#[test]
fn host_scoped_response_fails_over_when_target_send_fails() {
    let mut registry = ConnectionRegistry::new();
    registry.register_connection(TARGET);
    registry.register_connection(ALTERNATE);
    let request_id = "req-1".to_string();
    registry.track_host_scoped_request(request_id.clone(), TARGET);

    let route = registry.route_message(Some(TARGET), Some(&request_id));
    // The target's send may fail: the response is eligible for failover.
    assert_eq!(route, Route::Direct { target: TARGET, failover_on_error: true });
    assert_eq!(registry.failover_candidates(TARGET), vec![ALTERNATE]);
    // The host-scoped entry is consumed regardless of the delivery path.
    assert_eq!(
        registry.route_message(Some(TARGET), Some(&request_id)),
        Route::Direct { target: TARGET, failover_on_error: false }
    );
}

#[test]
fn host_scoped_response_fails_over_when_target_missing() {
    let mut registry = ConnectionRegistry::new();
    registry.register_connection(ALTERNATE);
    let request_id = "req-2".to_string();
    registry.track_host_scoped_request(request_id.clone(), TARGET);

    let route = registry.route_message(Some(TARGET), Some(&request_id));
    assert_eq!(route, Route::Failover { target: TARGET });
    assert_eq!(registry.failover_candidates(TARGET), vec![ALTERNATE]);
    assert_eq!(registry.route_message(Some(TARGET), Some(&request_id)), Route::Drop);
}

#[test]
fn non_host_scoped_response_is_not_failed_over() {
    let mut registry = ConnectionRegistry::new();
    registry.register_connection(TARGET);
    registry.register_connection(ALTERNATE);
    let request_id = "req-3".to_string();

    let route = registry.route_message(Some(TARGET), Some(&request_id));
    assert_eq!(route, Route::Direct { target: TARGET, failover_on_error: false });
    registry.deregister_connection(TARGET);
    assert_eq!(registry.route_message(Some(TARGET), Some(&request_id)), Route::Drop);
}

#[test]
fn push_notifications_are_broadcast() {
    let mut registry = ConnectionRegistry::new();
    registry.register_connection(3);
    registry.register_connection(1);
    assert_eq!(registry.route_message(None, None), Route::Broadcast);
    let mut ids = registry.connection_ids();
    ids.sort();
    assert_eq!(ids, vec![1, 3]);
}

#[test]
fn grace_timer_runs_exactly_without_connections() {
    let mut registry = ConnectionRegistry::new();
    assert!(registry.grace_timer_running());
    assert!(registry.register_connection(TARGET));
    assert!(!registry.grace_timer_running());
    assert!(!registry.register_connection(ALTERNATE));
    let first = registry.deregister_connection(TARGET);
    assert!(first.was_registered && !first.start_grace_timer);
    let last = registry.deregister_connection(ALTERNATE);
    assert!(last.was_registered && last.start_grace_timer);
    assert!(registry.grace_timer_running());
}

#[test]
fn second_deregistration_is_a_no_op() {
    let mut registry = ConnectionRegistry::new();
    registry.register_connection(TARGET);
    registry.register_connection(ALTERNATE);
    assert!(registry.deregister_connection(TARGET).was_registered);
    let again = registry.deregister_connection(TARGET);
    assert!(!again.was_registered);
    assert!(again.aborted_requests.is_empty());
    assert!(!again.start_grace_timer);
    assert!(registry.is_connected(ALTERNATE));
    assert!(!registry.is_connected(TARGET));
}

#[test]
fn last_disconnect_aborts_running_host_scoped_requests() {
    let mut registry = ConnectionRegistry::new();
    registry.register_connection(TARGET);
    registry.track_host_scoped_request("write".to_string(), TARGET);
    registry.track_in_progress("write".to_string());
    registry.track_in_progress("session".to_string());
    registry.track_host_scoped_request("finished".to_string(), TARGET);

    let d = registry.deregister_connection(TARGET);
    assert_eq!(d.aborted_requests, vec!["write".to_string()]);
    assert!(d.start_grace_timer);
    // The session-scoped request is still abortable; the host-scoped one is gone.
    assert!(registry.abort_request(&"session".to_string()));
    assert!(!registry.abort_request(&"write".to_string()));
}

#[test]
fn abort_stops_tracking_the_request() {
    let mut registry = ConnectionRegistry::new();
    registry.register_connection(TARGET);
    registry.track_host_scoped_request("r".to_string(), TARGET);
    registry.track_in_progress("r".to_string());
    assert!(registry.abort_request(&"r".to_string()));
    assert!(!registry.abort_request(&"r".to_string()));
    registry.deregister_connection(TARGET);
    assert_eq!(registry.route_message(Some(TARGET), Some(&"r".to_string())), Route::Drop);
}

#[test]
fn finished_request_is_no_longer_abortable() {
    let mut registry = ConnectionRegistry::new();
    registry.track_in_progress("r".to_string());
    registry.finish_request(&"r".to_string());
    assert!(!registry.abort_request(&"r".to_string()));
}

#[test]
fn empty_request_ids_are_not_tracked() {
    let mut registry = ConnectionRegistry::new();
    registry.register_connection(ALTERNATE);
    registry.track_host_scoped_request(String::new(), TARGET);
    assert_eq!(registry.route_message(Some(TARGET), Some(&String::new())), Route::Drop);
}

#[test]
fn git_snapshot_is_sent_once_per_connection() {
    let mut registry = ConnectionRegistry::new();
    registry.register_connection(TARGET);
    let root = "/repo".to_string();
    assert_eq!(registry.snapshot_target(TARGET, &root, true), SnapshotTarget::Connection(TARGET));
    registry.record_snapshot_sent(TARGET, root.clone());
    assert_eq!(registry.snapshot_target(TARGET, &root, true), SnapshotTarget::Skip);
    assert!(registry.snapshot_already_sent(TARGET, &root));
    // Another repository, or a non-git directory, is not affected.
    assert_eq!(
        registry.snapshot_target(TARGET, &"/other".to_string(), true),
        SnapshotTarget::Connection(TARGET)
    );
    assert_eq!(registry.snapshot_target(TARGET, &root, false), SnapshotTarget::Broadcast);
    // Reconnecting starts over.
    registry.register_connection(TARGET);
    assert!(!registry.snapshot_already_sent(TARGET, &root));
}

#[test]
fn indexed_repository_snapshot_counts_as_sent_on_every_connection() {
    let mut registry = ConnectionRegistry::new();
    registry.register_connection(TARGET);
    registry.register_connection(ALTERNATE);
    let root = "/repo".to_string();
    registry.record_snapshot_sent_everywhere(&root);
    assert_eq!(registry.snapshot_target(TARGET, &root, true), SnapshotTarget::Skip);
    assert_eq!(registry.snapshot_target(ALTERNATE, &root, true), SnapshotTarget::Skip);
    // A connection that opens afterwards has not been sent it.
    registry.register_connection(0x3333);
    assert_eq!(
        registry.snapshot_target(0x3333, &root, true),
        SnapshotTarget::Connection(0x3333)
    );
    // Another repository is unaffected.
    let other = "/other".to_string();
    assert_eq!(
        registry.snapshot_target(TARGET, &other, true),
        SnapshotTarget::Connection(TARGET)
    );
}

#[test]
fn snapshot_for_closed_connection_is_not_recorded() {
    let mut registry = ConnectionRegistry::new();
    registry.register_connection(TARGET);
    registry.deregister_connection(TARGET);
    registry.record_snapshot_sent(TARGET, "/repo".to_string());
    assert!(!registry.snapshot_already_sent(TARGET, &"/repo".to_string()));
}

#[test]
fn dispatch_routes_requests_and_rejects_unset_variants() {
    assert_eq!(
        dispatch(ClientMessageKind::HostScoped(Some(HostScopedRequestKind::WriteFile))),
        Dispatch::Handle { handler: RequestHandler::WriteFile, host_scoped: true }
    );
    assert_eq!(
        dispatch(ClientMessageKind::SessionScoped(Some(SessionScopedRequestKind::RunCommand))),
        Dispatch::Handle { handler: RequestHandler::RunCommand, host_scoped: false }
    );
    assert_eq!(
        dispatch(ClientMessageKind::HostScoped(None)),
        Dispatch::InvalidRequest {
            message: "HostScopedRequest had no message variant set".to_string()
        }
    );
    assert_eq!(
        dispatch(ClientMessageKind::SessionScoped(Some(SessionScopedRequestKind::Unsupported))),
        Dispatch::InvalidRequest {
            message: "SessionScopedRequest message variant is not supported".to_string()
        }
    );
    assert_eq!(
        dispatch(ClientMessageKind::Missing),
        Dispatch::InvalidRequest { message: "ClientMessage had no message variant set".to_string() }
    );
    assert_eq!(
        dispatch(ClientMessageKind::Notification(Some(NotificationKind::Abort))),
        Dispatch::Notify(NotificationKind::Abort)
    );
    assert_eq!(dispatch(ClientMessageKind::Notification(None)), Dispatch::Ignore);
    assert_eq!(
        dispatch(ClientMessageKind::Notification(Some(NotificationKind::Unsupported))),
        Dispatch::Ignore
    );
}

#[test]
fn message_without_variant_is_answered_to_its_sender_only() {
    let mut registry = ConnectionRegistry::new();
    registry.register_connection(TARGET);
    registry.register_connection(ALTERNATE);
    let rid = "req-9".to_string();
    match registry.handle_message(TARGET, &rid, ClientMessageKind::Missing) {
        MessageStep::Reply { route, message } => {
            assert_eq!(route, Route::Direct { target: TARGET, failover_on_error: false });
            assert_eq!(message, "ClientMessage had no message variant set");
        }
        other => panic!("expected a reply, got {other:?}"),
    }
}

#[test]
fn unsupported_host_scoped_request_is_answered_with_failover() {
    let mut registry = ConnectionRegistry::new();
    registry.register_connection(TARGET);
    let rid = "req-h".to_string();
    match registry.handle_message(TARGET, &rid, ClientMessageKind::HostScoped(None)) {
        MessageStep::Reply { route, message } => {
            assert_eq!(route, Route::Direct { target: TARGET, failover_on_error: true });
            assert_eq!(message, "HostScopedRequest had no message variant set");
        }
        other => panic!("expected a reply, got {other:?}"),
    }
    // The reply consumed the tracking entry.
    assert_eq!(
        registry.route_message(Some(TARGET), Some(&rid)),
        Route::Direct { target: TARGET, failover_on_error: false }
    );
}

#[test]
fn host_scoped_request_is_tracked_until_answered() {
    let mut registry = ConnectionRegistry::new();
    registry.register_connection(TARGET);
    registry.register_connection(ALTERNATE);
    let rid = "req-w".to_string();
    let step = registry.handle_message(
        TARGET,
        &rid,
        ClientMessageKind::HostScoped(Some(HostScopedRequestKind::WriteFile)),
    );
    assert!(matches!(step, MessageStep::RunHandler(RequestHandler::WriteFile)));
    registry.deregister_connection(TARGET);
    assert_eq!(registry.route_message(Some(TARGET), Some(&rid)), Route::Failover { target: TARGET });
}

#[test]
fn notifications_are_never_answered() {
    let mut registry = ConnectionRegistry::new();
    registry.register_connection(TARGET);
    let rid = "n-1".to_string();
    let step = registry.handle_message(
        TARGET,
        &rid,
        ClientMessageKind::Notification(Some(NotificationKind::Abort)),
    );
    assert!(matches!(step, MessageStep::Notify(NotificationKind::Abort)));
    assert!(matches!(
        registry.handle_message(TARGET, &rid, ClientMessageKind::Notification(None)),
        MessageStep::Ignore
    ));
}

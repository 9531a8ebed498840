use std::sync::Arc;

use rift_app::auth::{
    get_or_create_anonymous_id, get_persisted_anonymous_id, remote_server_identity_key,
    AuthManager, AuthState, AuthStateProvider, PersistAction, RefreshToken, UserUid,
    ANONYMOUS_ID_KEY,
};

fn is_hyphenated_lower_uuid(s: &str) -> bool {
    let chars: Vec<char> = s.chars().collect();
    chars.len() == 36
        && chars.iter().enumerate().all(|(i, c)| {
            if i == 8 || i == 13 || i == 18 || i == 23 {
                *c == '-'
            } else {
                c.is_ascii_digit() || ('a'..='f').contains(c)
            }
        })
}

#[test]
fn user_uid_round_trips_its_string() {
    let uid = UserUid::new("abc-123");
    assert_eq!(uid.as_str(), "abc-123");
    assert_eq!(uid.as_string(), "abc-123".to_string());
}

#[test]
fn refresh_token_keeps_its_value() {
    let token = RefreshToken::new("tok".to_string());
    assert_eq!(token.get(), "tok");
}

#[test]
fn local_user_is_logged_in_and_onboarded() {
    let state = AuthState::new_for_test();
    assert!(state.is_logged_in());
    assert!(!state.is_anonymous_or_logged_out());
    assert_eq!(state.is_onboarded(), Some(true));
    assert_eq!(state.user_id().map(|u| u.as_string()), Some("local_user".to_string()));
    assert_eq!(state.username_for_display(), Some("Local User".to_string()));
    assert_eq!(state.display_name(), Some("Local User".to_string()));
    assert!(state.credentials().is_none());
    assert!(state.get_access_token_ignoring_validity().is_none());
    assert!(!state.needs_reauth());
    assert!(!state.set_needs_reauth(true));
    assert!(!state.is_api_key_authenticated());
    assert!(state.api_key().is_none());
    assert!(state.global_skills().is_empty());
    assert!(matches!(state.persist_action(), PersistAction::DoNothing));
}

#[test]
fn bearer_token_is_not_kept_offline() {
    let state = AuthState::new_for_test();
    state.set_remote_server_bearer_token("rotated-token".to_string());
    assert!(state.get_access_token_ignoring_validity().is_none());
    state.apply_remote_server_auth_context(
        "initial-token".to_string(),
        "test-user-id".to_string(),
        "test@example.com".to_string(),
    );
    assert!(state.get_access_token_ignoring_validity().is_none());
    assert_eq!(state.user_id().map(|u| u.as_string()), Some("local_user".to_string()));
}

#[test]
fn anonymous_id_is_a_hyphenated_uuid_stable_per_state() {
    let state = AuthState::new_for_test();
    let id = state.anonymous_id();
    assert!(is_hyphenated_lower_uuid(&id), "{id}");
    assert_eq!(state.anonymous_id(), id);
    // The version nibble of a random (version 4) UUID.
    assert_eq!(id.chars().nth(14), Some('4'));
}

#[test]
fn identity_key_is_the_local_user_id() {
    let state = AuthState::new_for_test();
    assert_eq!(remote_server_identity_key(&state), "local_user");
}

#[test]
fn provider_hands_out_its_state() {
    let state = Arc::new(AuthState::new_for_test());
    let provider = AuthStateProvider::new(state.clone());
    assert!(Arc::ptr_eq(provider.get(), &state));
    assert_eq!(provider.get().anonymous_id(), state.anonymous_id());
}

#[test]
fn auth_manager_has_no_anonymous_token() {
    let manager = AuthManager::new();
    assert_eq!(manager.anonymous_token_for_url(), None);
}

#[test]
fn anonymous_id_is_a_random_version_4_uuid() {
    for state in [AuthState::initialize(None), AuthState::new_for_test()] {
        let id: Vec<char> = state.anonymous_id().chars().collect();
        assert_eq!(id.len(), 36);
        assert_eq!(id[14], '4');
        assert!(matches!(id[19], '8' | '9' | 'a' | 'b'));
    }
}

#[test]
fn persisted_anonymous_id_is_reused() {
    let persisted = "67e55044-10b1-426f-9247-bb680e5fe0c8";
    let (id, write_back) = get_or_create_anonymous_id(Some(persisted));
    assert_eq!(id, 0x67e5504410b1426f9247bb680e5fe0c8);
    assert!(write_back.is_none());
    assert_eq!(get_persisted_anonymous_id(Some(persisted)), Some(id));
}

#[test]
fn missing_or_invalid_anonymous_id_is_replaced_and_written_back() {
    for persisted in [None, Some("not a uuid"), Some("")] {
        assert_eq!(get_persisted_anonymous_id(persisted), None);
        let (id, write_back) = get_or_create_anonymous_id(persisted);
        let written = write_back.expect("a fresh id is written back");
        assert_eq!(written.len(), 36);
        assert_eq!(written.chars().nth(14), Some('4'));
        // What is written back reads back as the same id.
        assert_eq!(get_or_create_anonymous_id(Some(&written)), (id, None));
    }
    assert_eq!(ANONYMOUS_ID_KEY, "ExperimentId");
}

use rift_app::agent_command_predicate::{
    default_allowlist_patterns, default_denylist_patterns, with_optional_args,
    AgentModeCommandExecutionPredicate,
};
use rift_app::auth::{remote_server_auth_identity, AuthState};
use rift_app::launch::{
    apply_extra_meta_keys, forwarding_decision, is_cli_binary, is_cloud_agent_web_home_launch_url, parse_urls,
    should_skip_restore, AltKeys, ExecutionMode, ExtraMetaKeys, ForwardingDecision,
    ForwardingResult, KeystrokeModifiers, LaunchMode, LogDestination, MetaSide, PlatformFacts,
    UrlParts,
};
use rift_app::onboarding::{onboarding_settings_plan, SelectedSettings, UiCustomizationSettings};
use rift_app::quit_modal::{
    close_app_cancelled_action, close_window_cancelled_action, close_window_decision,
    quit_shows_warning, CancelledCloseAction, CloseWindowDecision, RUNNING_SESSIONS_QUERY,
};

fn web_home_url() -> UrlParts {
    UrlParts {
        scheme: "rift".to_string(),
        host: Some("action".to_string()),
        path: "/new_cloud_agent_conversation".to_string(),
        query_pairs: vec![
            ("x".to_string(), "1".to_string()),
            ("source".to_string(), "web_home".to_string()),
        ],
    }
}

#[test]
fn web_home_launch_url_is_recognized() {
    assert!(is_cloud_agent_web_home_launch_url(&web_home_url(), "rift"));
    assert!(!is_cloud_agent_web_home_launch_url(&web_home_url(), "warp"));
    let mut other_source = web_home_url();
    other_source.query_pairs = vec![("source".to_string(), "cli".to_string())];
    assert!(!is_cloud_agent_web_home_launch_url(&other_source, "rift"));
    let mut other_path = web_home_url();
    other_path.path = "/other".to_string();
    assert!(!is_cloud_agent_web_home_launch_url(&other_path, "rift"));
    let mut no_host = web_home_url();
    no_host.host = None;
    assert!(!is_cloud_agent_web_home_launch_url(&no_host, "rift"));
}

#[test]
fn restore_is_skipped_for_web_home_launch() {
    let mut mode = LaunchMode::App { urls: vec![], api_key: None };
    assert!(!should_skip_restore(mode.urls(), "rift"));
    mode.add_url(web_home_url());
    assert_eq!(mode.urls().len(), 1);
    assert!(should_skip_restore(mode.urls(), "rift"));
}

#[test]
fn launch_mode_decisions() {
    let app = LaunchMode::App { urls: vec![], api_key: None };
    let cli = LaunchMode::CommandLine {
        agent_run_gui: None,
        api_key: None,
        debug: true,
        is_sandboxed: true,
        computer_use_override: None,
    };
    let gui_agent = LaunchMode::CommandLine {
        agent_run_gui: Some(true),
        api_key: None,
        debug: false,
        is_sandboxed: false,
        computer_use_override: Some(false),
    };
    let test = LaunchMode::Test { is_integration_test: true };
    assert_eq!(app.execution_mode(), ExecutionMode::App);
    assert_eq!(cli.execution_mode(), ExecutionMode::Sdk);
    assert!(!app.is_headless());
    assert!(cli.is_headless());
    assert!(!gui_agent.is_headless());
    assert!(cli.is_sandboxed());
    assert!(!app.is_sandboxed());
    assert!(test.is_integration_test());
    assert!(!app.is_integration_test());
    assert!(app.crash_recovery_enabled());
    assert!(!test.crash_recovery_enabled());
    assert!(test.needs_crash_reporting() && cli.needs_profiling());
    assert_eq!(cli.log_destination(), Some(LogDestination::Stderr));
    assert_eq!(gui_agent.log_destination(), Some(LogDestination::File));
    assert_eq!(app.log_destination(), None);
    let mut test_mode = LaunchMode::Test { is_integration_test: false };
    test_mode.add_url(web_home_url());
    assert!(test_mode.urls().is_empty());
}

#[test]
fn alt_as_meta() {
    let mut k = KeystrokeModifiers { alt: true, meta: false };
    let r = apply_extra_meta_keys(
        &mut k,
        AltKeys { left_alt: true, right_alt: false },
        ExtraMetaKeys { left_alt: true, right_alt: true },
    );
    assert_eq!(r, Some(MetaSide::Left));
    assert_eq!(k, KeystrokeModifiers { alt: false, meta: true });
    assert_eq!(MetaSide::Left.description(), "left alt");
    assert_eq!(MetaSide::Both.description(), "left+right alt");

    let mut unchanged = KeystrokeModifiers { alt: true, meta: false };
    let r = apply_extra_meta_keys(
        &mut unchanged,
        AltKeys { left_alt: true, right_alt: false },
        ExtraMetaKeys { left_alt: false, right_alt: true },
    );
    assert_eq!(r, None);
    assert_eq!(unchanged, KeystrokeModifiers { alt: true, meta: false });
}

#[test]
fn cancelled_quit_opens_running_sessions() {
    assert_eq!(RUNNING_SESSIONS_QUERY, "running");
    assert_eq!(close_app_cancelled_action(false, true, Some(1), &vec![]), CancelledCloseAction::Nothing);
    assert_eq!(close_app_cancelled_action(true, false, Some(1), &vec![]), CancelledCloseAction::Nothing);
    assert_eq!(
        close_app_cancelled_action(true, true, Some(1), &vec![4]),
        CancelledCloseAction::ShowRunningSessions { window: 1 }
    );
    assert_eq!(
        close_app_cancelled_action(true, true, None, &vec![4, 5]),
        CancelledCloseAction::ShowRunningSessions { window: 4 }
    );
    assert_eq!(close_window_cancelled_action(3, true, 0), CancelledCloseAction::Nothing);
    assert_eq!(
        close_window_cancelled_action(3, true, 2),
        CancelledCloseAction::ShowRunningSessions { window: 3 }
    );
}

#[test]
fn onboarding_plans() {
    let ui = UiCustomizationSettings {
        use_vertical_tabs: true,
        show_code_review_button: false,
        show_project_explorer: true,
        show_global_search: false,
        show_conversation_history: true,
    };
    let terminal = SelectedSettings::Terminal {
        ui_customization: Some(ui),
        cli_agent_toolbar_enabled: true,
        show_agent_notifications: false,
    };
    let old = onboarding_settings_plan(&terminal, false);
    assert_eq!(old.is_any_ai_enabled, None);
    assert_eq!(old.use_vertical_tabs, None);
    let new = onboarding_settings_plan(&terminal, true);
    assert_eq!(new.is_any_ai_enabled, Some(false));
    assert_eq!(new.use_vertical_tabs, Some(true));
    assert_eq!(new.show_conversation_history, None);
    assert_eq!(new.should_render_cli_agent_footer, Some(true));
    assert_eq!(new.show_agent_notifications, Some(false));
    let agent = SelectedSettings::AgentDrivenDevelopment { disable_agent: false, ui_customization: Some(ui) };
    let plan = onboarding_settings_plan(&agent, true);
    assert_eq!(plan.is_any_ai_enabled, Some(true));
    assert_eq!(plan.show_conversation_history, Some(true));
    assert_eq!(plan.should_render_cli_agent_footer, None);
}

#[test]
fn command_predicates_match_whole_commands() {
    let ls = AgentModeCommandExecutionPredicate::new_regex(&with_optional_args("ls")).unwrap();
    assert!(ls.matches("ls"));
    assert!(ls.matches("ls -la"));
    assert!(!ls.matches("lsof"));
    assert!(!ls.matches("echo ls"));
    assert_eq!(ls.to_setting_string(), "ls(\\s.*)?");
    let again = AgentModeCommandExecutionPredicate::new_regex("ls(\\s.*)?").unwrap();
    assert!(ls.same_as(&again));
    assert!(AgentModeCommandExecutionPredicate::new_regex("foo(bar").is_err());
}

#[test]
fn default_command_lists() {
    let allow = default_allowlist_patterns();
    assert_eq!(allow.len(), 6);
    assert_eq!(allow[0], "cat(\\s.*)?");
    assert_eq!(allow[2], "find .*");
    let deny = default_denylist_patterns();
    assert_eq!(deny.len(), 18);
    assert_eq!(deny[17], "rm(\\s.*)?");
    for p in allow.iter().chain(deny.iter()) {
        assert!(AgentModeCommandExecutionPredicate::new_regex(p).is_ok());
    }
}

#[test]
fn remote_server_identity_of_local_user() {
    let (user_id, email) = remote_server_auth_identity(&AuthState::new_for_test());
    assert_eq!(user_id, "local_user");
    assert_eq!(email, "");
}

#[test]
fn cli_binary_is_recognised_by_build_name_or_environment() {
    assert!(is_cli_binary(true, None, false));
    assert!(is_cli_binary(false, Some("oz"), false));
    assert!(is_cli_binary(false, Some("oz-preview"), false));
    assert!(!is_cli_binary(false, Some("o"), false));
    assert!(!is_cli_binary(false, Some("rift"), false));
    assert!(!is_cli_binary(false, None, false));
    assert!(is_cli_binary(false, Some("rift"), true));
}

#[test]
fn startup_plan_follows_the_launch_mode() {
    let app = LaunchMode::App { urls: vec![], api_key: None };
    let plan = app.startup_plan(PlatformFacts::default());
    assert!(plan.init_profiling && plan.init_crash_reporting);
    assert_eq!(plan.log_destination, None);
    assert!(!plan.is_cli);
    assert!(plan.forward_to_existing_instance);
    assert!(!plan.headless);
    assert!(plan.activate_on_launch);
    assert!(plan.use_dxc);
    assert!(!plan.force_x11);

    let cli = LaunchMode::CommandLine {
        agent_run_gui: None,
        api_key: None,
        debug: true,
        is_sandboxed: false,
        computer_use_override: None,
    };
    let plan = cli.startup_plan(PlatformFacts { is_parallels_vm: true, ..Default::default() });
    assert_eq!(plan.log_destination, Some(LogDestination::Stderr));
    assert!(plan.is_cli);
    assert!(plan.headless);
    assert!(!plan.forward_to_existing_instance);
    assert!(!plan.use_dxc);

    let test = LaunchMode::Test { is_integration_test: true };
    assert!(!test.startup_plan(PlatformFacts::default()).activate_on_launch);
    let real = PlatformFacts { real_display_in_tests: true, ..Default::default() };
    assert!(test.startup_plan(real).activate_on_launch);
}

#[test]
fn x11_is_forced_only_by_preference_without_wayland_request() {
    let app = LaunchMode::App { urls: vec![], api_key: None };
    let prefer_x11 = PlatformFacts { force_x11_preference: true, ..Default::default() };
    assert!(app.startup_plan(prefer_x11).force_x11);
    let wayland = PlatformFacts {
        force_x11_preference: true,
        wayland_env_var_set: true,
        ..Default::default()
    };
    assert!(!app.startup_plan(wayland).force_x11);
}

#[test]
fn only_a_successful_forward_stops_this_instance() {
    assert_eq!(forwarding_decision(ForwardingResult::Forwarded), ForwardingDecision::Exit);
    assert_eq!(
        forwarding_decision(ForwardingResult::NoExistingInstance),
        ForwardingDecision::Continue
    );
    assert_eq!(
        forwarding_decision(ForwardingResult::IgnoredAfterAutoUpdate),
        ForwardingDecision::Continue
    );
    assert_eq!(
        forwarding_decision(ForwardingResult::Failed),
        ForwardingDecision::ContinueAndReport
    );
}

#[test]
fn api_key_comes_from_the_command_line_or_a_dogfood_app() {
    let cli = LaunchMode::CommandLine {
        agent_run_gui: None,
        api_key: Some("cli-key".to_string()),
        debug: false,
        is_sandboxed: false,
        computer_use_override: None,
    };
    assert_eq!(cli.startup_api_key(false, true), Some("cli-key".to_string()));
    assert_eq!(cli.startup_api_key(false, false), None);
    let app = LaunchMode::App { urls: vec![], api_key: Some("app-key".to_string()) };
    assert_eq!(app.startup_api_key(true, true), Some("app-key".to_string()));
    assert_eq!(app.startup_api_key(false, true), None);
    let test = LaunchMode::Test { is_integration_test: false };
    assert_eq!(test.startup_api_key(true, true), None);

    assert!(app.refreshes_user_at_startup(true));
    assert!(!app.refreshes_user_at_startup(false));
    assert!(!cli.refreshes_user_at_startup(true));
}

#[test]
fn closing_the_last_window_quits_where_configured() {
    // Linux and Windows quit with the last window.
    assert_eq!(close_window_decision(1, true, false, false, true), CloseWindowDecision::TerminateApp);
    // Elsewhere the setting decides.
    assert_eq!(close_window_decision(1, false, true, false, false), CloseWindowDecision::TerminateApp);
    assert_eq!(close_window_decision(1, false, false, false, false), CloseWindowDecision::Close);
    // With other windows open, a warning is shown when there is unsaved state.
    assert_eq!(close_window_decision(2, true, true, false, true), CloseWindowDecision::ShowWarning);
    assert_eq!(close_window_decision(2, true, true, false, false), CloseWindowDecision::Close);
    // Integration tests never see the warning.
    assert_eq!(close_window_decision(2, false, false, true, true), CloseWindowDecision::Close);
}

#[test]
fn quitting_warns_only_outside_integration_tests() {
    assert!(quit_shows_warning(false, true));
    assert!(!quit_shows_warning(true, true));
    assert!(!quit_shows_warning(false, false));
}

#[test]
fn saved_state_is_restored_unless_launched_from_web_home() {
    let saved = || Some(rift_app::app_state::AppState { windows: vec![], active_window_index: None });
    let mut mode = LaunchMode::App { urls: vec![], api_key: None };
    assert!(mode.state_to_restore(saved(), "rift").is_some());
    assert!(mode.state_to_restore(None, "rift").is_none());
    mode.add_url(web_home_url());
    assert!(mode.state_to_restore(saved(), "rift").is_none());
    let test = LaunchMode::Test { is_integration_test: true };
    assert!(test.state_to_restore(saved(), "rift").is_some());
}

#[test]
fn command_line_urls_are_parsed_and_non_urls_skipped() {
    let args = vec![
        "--verbose".to_string(),
        "rift://action/new_cloud_agent_conversation?x=1&source=web%5Fhome".to_string(),
        "not a url".to_string(),
        "file:///tmp/a%20b".to_string(),
    ];
    let urls = parse_urls(&args);
    assert_eq!(urls.len(), 2);
    assert_eq!(urls[0].scheme, "rift");
    assert_eq!(urls[0].host.as_deref(), Some("action"));
    assert_eq!(urls[0].path, "/new_cloud_agent_conversation");
    assert_eq!(
        urls[0].query_pairs,
        vec![("x".to_string(), "1".to_string()), ("source".to_string(), "web_home".to_string())]
    );
    assert!(is_cloud_agent_web_home_launch_url(&urls[0], "rift"));
    assert_eq!(urls[1].scheme, "file");
    assert_eq!(urls[1].host, None);
    assert_eq!(urls[1].path, "/tmp/a%20b");
}

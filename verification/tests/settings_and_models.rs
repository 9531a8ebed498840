use rift_app::default_terminal::{
    can_become_default_terminal, is_rift_default_terminal, set_rift_as_default_terminal,
    DefaultTerminal,
};
use rift_app::external_secrets::{
    ExternalSecret, ExternalSecretIcon, ExternalSecretManager, LastPassSecret, OnePasswordSecret,
};
use rift_app::gutter_button::{
    background_shade, icon_theme, GutterBackground, GutterButton, GutterIcon, GutterIconTheme,
    RevertHunkButton,
};
use rift_app::http_status::HttpStatusError;
use rift_app::pricing::{PricingInfoModel, StripeSubscriptionPlan};
use rift_app::session_mode::{DefaultSessionMode, SessionModeSettings};

#[test]
fn rift_cannot_become_default_terminal_here() {
    assert!(!can_become_default_terminal());
    assert!(!is_rift_default_terminal());
    assert_eq!(set_rift_as_default_terminal(), Err("Not implemented".to_string()));
    assert!(!DefaultTerminal::can_rift_become_default());
}

#[test]
fn default_terminal_model_rechecks_on_focus_only() {
    let mut model = DefaultTerminal::new();
    assert!(!model.is_rift_default());
    assert_eq!(model.handle_window_manager_event(false, true), None);
    assert_eq!(model.handle_window_manager_event(true, true), None);
    assert_eq!(model.handle_window_manager_event(true, false), None);
    assert!(!model.is_rift_default());
}

#[test]
fn make_rift_default_reports_platform_error() {
    let mut model = DefaultTerminal::new();
    assert_eq!(model.make_rift_default(), Err("Not implemented".to_string()));
    assert!(!model.is_rift_default());
}

#[test]
fn external_secret_display_name_and_icon() {
    let one = ExternalSecret::OnePassword(OnePasswordSecret {
        name: "db password".to_string(),
        reference: "op://vault/item".to_string(),
    });
    let last = ExternalSecret::LastPass(LastPassSecret {
        name: "api key".to_string(),
        reference: "lp://id".to_string(),
    });
    assert_eq!(one.get_display_name(), "db password");
    assert_eq!(last.get_display_name(), "api key");
    assert_eq!(one.icon(), ExternalSecretIcon::OnePassword);
    assert_eq!(last.icon(), ExternalSecretIcon::LastPass);
}

#[test]
fn revert_hunk_button_tooltip_depends_on_enabled() {
    let enabled = RevertHunkButton::new(true);
    let disabled = RevertHunkButton::new(false);
    assert!(enabled.is_enabled());
    assert!(!disabled.is_enabled());
    assert_eq!(enabled.tooltip_text(), Some("Revert diff hunk"));
    assert_eq!(disabled.tooltip_text(), Some("Save changes to revert"));
    assert_eq!(enabled.icon(), GutterIcon::ReverseLeft);
    assert!(!RevertHunkButton::default().is_enabled());
}

#[test]
fn gutter_button_shades() {
    assert_eq!(background_shade(true, true), GutterBackground::Neutral3);
    assert_eq!(background_shade(true, false), GutterBackground::Neutral1);
    assert_eq!(background_shade(false, true), GutterBackground::Neutral1);
    assert_eq!(icon_theme(true), GutterIconTheme::Secondary);
    assert_eq!(icon_theme(false), GutterIconTheme::DisabledSecondary);
}

#[test]
fn http_status_error_message_and_actionability() {
    let e = HttpStatusError { status: 404, body: "not found".to_string() };
    assert_eq!(e.message(), "HTTP request failed with status 404: not found");
    assert!(e.is_actionable());
    assert!(!HttpStatusError { status: 408, body: String::new() }.is_actionable());
    assert!(!HttpStatusError { status: 429, body: String::new() }.is_actionable());
    assert!(HttpStatusError { status: 500, body: String::new() }.is_actionable());
    assert_eq!(
        HttpStatusError { status: 0, body: "x".to_string() }.message(),
        "HTTP request failed with status 0: x"
    );
    assert_eq!(
        HttpStatusError { status: 65535, body: String::new() }.message(),
        "HTTP request failed with status 65535: "
    );
    assert_eq!(
        HttpStatusError { status: 10, body: "b".to_string() }.message(),
        "HTTP request failed with status 10: b"
    );
}

#[test]
fn pricing_model_starts_empty() {
    let model = PricingInfoModel::new();
    assert!(model.overage_pricing().is_none());
    assert!(model.plan_pricing(&StripeSubscriptionPlan::Pro).is_none());
    assert!(model.plan_pricing(&StripeSubscriptionPlan::Other("x".to_string())).is_none());
    assert!(model.addon_credits_options().is_none());
    assert!(PricingInfoModel::default().overage_pricing().is_none());
}

#[test]
fn session_mode_defaults_and_names() {
    assert_eq!(DefaultSessionMode::default(), DefaultSessionMode::Terminal);
    assert_eq!(DefaultSessionMode::Terminal.display_name(), "Terminal");
    assert_eq!(DefaultSessionMode::TabConfig.display_name(), "Tab Config");
    let settings = SessionModeSettings::default();
    assert_eq!(settings.default_session_mode(), DefaultSessionMode::Terminal);
    assert_eq!(settings.default_tab_config_path(), "");
}

#[test]
fn default_tab_config_is_resolved_by_path() {
    let paths = vec![
        None,
        Some("/configs/a.toml".to_string()),
        Some("/configs/b.toml".to_string()),
        Some("/configs/b.toml".to_string()),
    ];
    let empty = SessionModeSettings::default();
    assert_eq!(empty.resolved_default_tab_config_index(&paths), None);

    let settings = SessionModeSettings {
        default_session_mode_internal: DefaultSessionMode::TabConfig,
        default_tab_config_path: "/configs/b.toml".to_string(),
    };
    assert_eq!(settings.default_tab_config_path(), "/configs/b.toml");
    assert_eq!(settings.resolved_default_tab_config_index(&paths), Some(2));

    // Paths are compared as paths, component by component.
    let trailing = SessionModeSettings {
        default_session_mode_internal: DefaultSessionMode::TabConfig,
        default_tab_config_path: "/configs//a.toml".to_string(),
    };
    assert_eq!(trailing.resolved_default_tab_config_index(&paths), Some(1));

    let missing = SessionModeSettings {
        default_session_mode_internal: DefaultSessionMode::TabConfig,
        default_tab_config_path: "/nowhere.toml".to_string(),
    };
    assert_eq!(missing.resolved_default_tab_config_index(&paths), None);
}

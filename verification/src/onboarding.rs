//! Which settings the onboarding choices turn into.
//!
//! The onboarding flow asks whether the user wants a terminal or agent-driven
//! development, and optionally how to customize the UI. With the new
//! settings modes disabled, only the old onboarding applies and nothing is
//! written.

use vstd::prelude::*;

verus! {

/// The choices of the "Customize your UI" slide.
#[derive(Clone, Copy, Debug, PartialEq, Eq, Structural)]
pub struct UiCustomizationSettings {
    pub use_vertical_tabs: bool,
    pub show_code_review_button: bool,
    pub show_project_explorer: bool,
    pub show_global_search: bool,
    pub show_conversation_history: bool,
}

/// What the user chose in onboarding.
#[derive(Clone, Copy, Debug, PartialEq, Eq, Structural)]
pub enum SelectedSettings {
    AgentDrivenDevelopment { disable_agent: bool, ui_customization: Option<UiCustomizationSettings> },
    Terminal {
        ui_customization: Option<UiCustomizationSettings>,
        cli_agent_toolbar_enabled: bool,
        show_agent_notifications: bool,
    },
}

/// The settings to write.
#[derive(Clone, Copy, Debug, PartialEq, Eq, Structural)]
pub struct OnboardingSettingsPlan {
    pub use_vertical_tabs: Option<bool>,
    pub show_code_review_button: Option<bool>,
    pub show_project_explorer: Option<bool>,
    pub show_global_search: Option<bool>,
    /// Written for the agent intent only.
    pub show_conversation_history: Option<bool>,
    /// Written for the terminal intent only.
    pub should_render_cli_agent_footer: Option<bool>,
    /// Written for the terminal intent only.
    pub show_agent_notifications: Option<bool>,
    pub is_any_ai_enabled: Option<bool>,
}

/// The settings written for `selected`, when the new settings modes are
/// enabled or not. The UI choices are applied only with the new modes;
/// AI stays enabled for agent-driven development unless the agent was
/// disabled, and is turned off for the terminal intent.
pub fn onboarding_settings_plan(selected: &SelectedSettings, new_settings_modes: bool) -> (r:
    OnboardingSettingsPlan)
    ensures
        !new_settings_modes ==> r == (OnboardingSettingsPlan {
            use_vertical_tabs: None,
            show_code_review_button: None,
            show_project_explorer: None,
            show_global_search: None,
            show_conversation_history: None,
            should_render_cli_agent_footer: None,
            show_agent_notifications: None,
            is_any_ai_enabled: None,
        }),
        new_settings_modes ==> r == (match *selected {
            SelectedSettings::AgentDrivenDevelopment { disable_agent, ui_customization } =>
                OnboardingSettingsPlan {
                use_vertical_tabs: match ui_customization {
                    Some(ui) => Some(ui.use_vertical_tabs),
                    None => None,
                },
                show_code_review_button: match ui_customization {
                    Some(ui) => Some(ui.show_code_review_button),
                    None => None,
                },
                show_project_explorer: match ui_customization {
                    Some(ui) => Some(ui.show_project_explorer),
                    None => None,
                },
                show_global_search: match ui_customization {
                    Some(ui) => Some(ui.show_global_search),
                    None => None,
                },
                show_conversation_history: match ui_customization {
                    Some(ui) => Some(ui.show_conversation_history),
                    None => None,
                },
                should_render_cli_agent_footer: None,
                show_agent_notifications: None,
                is_any_ai_enabled: Some(!disable_agent),
            },
            SelectedSettings::Terminal {
                ui_customization,
                cli_agent_toolbar_enabled,
                show_agent_notifications,
            } => OnboardingSettingsPlan {
                use_vertical_tabs: match ui_customization {
                    Some(ui) => Some(ui.use_vertical_tabs),
                    None => None,
                },
                show_code_review_button: match ui_customization {
                    Some(ui) => Some(ui.show_code_review_button),
                    None => None,
                },
                show_project_explorer: match ui_customization {
                    Some(ui) => Some(ui.show_project_explorer),
                    None => None,
                },
                show_global_search: match ui_customization {
                    Some(ui) => Some(ui.show_global_search),
                    None => None,
                },
                show_conversation_history: None,
                should_render_cli_agent_footer: Some(cli_agent_toolbar_enabled),
                show_agent_notifications: Some(show_agent_notifications),
                is_any_ai_enabled: Some(false),
            },
        }),
{
    let mut plan = OnboardingSettingsPlan {
        use_vertical_tabs: None,
        show_code_review_button: None,
        show_project_explorer: None,
        show_global_search: None,
        show_conversation_history: None,
        should_render_cli_agent_footer: None,
        show_agent_notifications: None,
        is_any_ai_enabled: None,
    };
    let is_ai_enabled = match selected {
        SelectedSettings::AgentDrivenDevelopment { disable_agent, ui_customization } => {
            if let Some(ui) = ui_customization {
                apply_ui_customization(&mut plan, ui, true, new_settings_modes);
            }
            !*disable_agent
        },
        SelectedSettings::Terminal {
            ui_customization,
            cli_agent_toolbar_enabled,
            show_agent_notifications,
        } => {
            if !new_settings_modes {
                true
            } else {
                if let Some(ui) = ui_customization {
                    apply_ui_customization(&mut plan, ui, false, new_settings_modes);
                }
                plan.should_render_cli_agent_footer = Some(*cli_agent_toolbar_enabled);
                plan.show_agent_notifications = Some(*show_agent_notifications);
                false
            }
        },
    };
    if new_settings_modes {
        plan.is_any_ai_enabled = Some(is_ai_enabled);
    }
    plan
}

/// Records the UI customization choices, which exist only with the new
/// settings modes; the conversation history only for the agent intent.
fn apply_ui_customization(
    plan: &mut OnboardingSettingsPlan,
    ui: &UiCustomizationSettings,
    is_agent_intent: bool,
    new_settings_modes: bool,
)
    ensures
        !new_settings_modes ==> *final(plan) == *old(plan),
        new_settings_modes ==> *final(plan) == (OnboardingSettingsPlan {
            use_vertical_tabs: Some(ui.use_vertical_tabs),
            show_code_review_button: Some(ui.show_code_review_button),
            show_project_explorer: Some(ui.show_project_explorer),
            show_global_search: Some(ui.show_global_search),
            show_conversation_history: if is_agent_intent {
                Some(ui.show_conversation_history)
            } else {
                old(plan).show_conversation_history
            },
            ..*old(plan)
        }),
{
    if !new_settings_modes {
        return;
    }
    plan.use_vertical_tabs = Some(ui.use_vertical_tabs);
    plan.show_code_review_button = Some(ui.show_code_review_button);
    plan.show_project_explorer = Some(ui.show_project_explorer);
    plan.show_global_search = Some(ui.show_global_search);
    if is_agent_intent {
        plan.show_conversation_history = Some(ui.show_conversation_history);
    }
}

} // verus!

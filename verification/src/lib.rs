//! Verified core of the Rift terminal application: the decision logic, data
//! types and state machines that the UI, persistence and daemon layers drive.

pub mod nl_prefix;
pub mod suggestion_context;
pub mod app_state;
pub mod launch_config;
pub mod auth;
pub mod persistence;
pub mod remote_server;
pub mod file_ops;
pub mod experiments;
pub mod default_terminal;
pub mod external_secrets;
pub mod gutter_button;
pub mod pricing;
pub mod session_mode;
pub mod managed_paths;
pub mod http_status;
pub mod telemetry_events;
pub mod telemetry_collector;
pub mod telemetry_names;
pub mod server_dispatch;
pub mod pane_rows;
pub mod launch;
pub mod quit_modal;
pub mod agent_command_predicate;
pub mod onboarding;
pub mod input_classifier;
pub mod block;
pub mod ai_context_menu;
pub mod riftify_page;

//! Closing windows and quitting: whether the app quits with its last window,
//! when the warning about running processes is shown, and what happens when
//! the user cancels that warning (optionally, the navigation palette opens on
//! the running sessions).

use vstd::prelude::*;

verus! {

/// The query the navigation palette opens with to list running sessions.
pub const RUNNING_SESSIONS_QUERY: &'static str = "running";

/// What to do after the modal was cancelled.
#[derive(Clone, Copy, Debug, PartialEq, Eq, Structural)]
pub enum CancelledCloseAction {
    /// Nothing more.
    Nothing,
    /// Show `window`, focus the app, and open the navigation palette there
    /// on the running sessions.
    ShowRunningSessions { window: usize },
}

/// After cancelling the quit modal: when the user asked for the navigation
/// palette and commands are still running, it opens in the active window,
/// or, with no active window, in the first window running a command.
pub fn close_app_cancelled_action(
    open_navigation_palette: bool,
    has_long_running_commands: bool,
    active_window: Option<usize>,
    windows_running: &Vec<usize>,
) -> (r: CancelledCloseAction)
    requires
        open_navigation_palette && has_long_running_commands && active_window is None
            ==> windows_running@.len() > 0,
    ensures
        !open_navigation_palette || !has_long_running_commands ==> r
            == CancelledCloseAction::Nothing,
        open_navigation_palette && has_long_running_commands ==> r == (
        CancelledCloseAction::ShowRunningSessions {
            window: match active_window {
                Some(w) => w,
                None => windows_running@[0],
            },
        }),
{
    if !open_navigation_palette || !has_long_running_commands {
        return CancelledCloseAction::Nothing;
    }
    let window = match active_window {
        Some(w) => w,
        None => windows_running[0],
    };
    CancelledCloseAction::ShowRunningSessions { window }
}

/// After cancelling the close-window modal: when the user asked for the
/// navigation palette and the window still runs processes, it opens there.
pub fn close_window_cancelled_action(
    window: usize,
    open_navigation_palette: bool,
    processes_in_window: usize,
) -> (r: CancelledCloseAction)
    ensures
        r == (if open_navigation_palette && processes_in_window > 0 {
            CancelledCloseAction::ShowRunningSessions { window }
        } else {
            CancelledCloseAction::Nothing
        }),
{
    if !open_navigation_palette || processes_in_window == 0 {
        return CancelledCloseAction::Nothing;
    }
    CancelledCloseAction::ShowRunningSessions { window }
}

/// What to do when the user asks to close a window.
#[derive(Clone, Copy, Debug, PartialEq, Eq, Structural)]
pub enum CloseWindowDecision {
    /// It is the last window and closing it quits: ask the app to terminate
    /// (which may still be cancelled) and keep the window for now.
    TerminateApp,
    /// Show the warning about unsaved state; the window closes if the user
    /// confirms.
    ShowWarning,
    /// Close the window.
    Close,
}

/// Whether closing the last window quits the app: always on Linux, FreeBSD
/// and Windows, and by the user's setting elsewhere.
pub open spec fn quits_with_last_window(quits_on_platform: bool, setting: bool) -> bool {
    quits_on_platform || setting
}

/// What to do when the user asks to close one of `open_windows` windows.
/// Integration tests never see a warning: nobody could press its buttons.
pub fn close_window_decision(
    open_windows: usize,
    quits_on_platform: bool,
    quit_on_last_window_closed: bool,
    is_integration_test: bool,
    should_display_warning: bool,
) -> (r: CloseWindowDecision)
    ensures
        r == (if open_windows == 1 && quits_with_last_window(
            quits_on_platform,
            quit_on_last_window_closed,
        ) {
            CloseWindowDecision::TerminateApp
        } else if !is_integration_test && should_display_warning {
            CloseWindowDecision::ShowWarning
        } else {
            CloseWindowDecision::Close
        }),
{
    if open_windows == 1 && (quits_on_platform || quit_on_last_window_closed) {
        CloseWindowDecision::TerminateApp
    } else if !is_integration_test && should_display_warning {
        CloseWindowDecision::ShowWarning
    } else {
        CloseWindowDecision::Close
    }
}

/// Whether the app shows the warning about unsaved state before quitting;
/// it quits at once otherwise.
pub fn quit_shows_warning(is_integration_test: bool, should_display_warning: bool) -> (r: bool)
    ensures
        r == (!is_integration_test && should_display_warning),
{
    !is_integration_test && should_display_warning
}


} // verus!

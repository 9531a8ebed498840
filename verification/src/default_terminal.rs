//! Whether Rift is the operating system's default terminal.
//!
//! This is an OS-level setting: unlike most settings, Rift is not its source
//! of truth, and it can change while Rift runs. The model re-reads it each
//! time a Rift window gains focus. On this platform Rift cannot become the
//! default terminal, so the platform queries answer "no".

use vstd::prelude::*;

verus! {

/// Whether the platform lets Rift become the default terminal.
pub fn can_become_default_terminal() -> (r: bool)
    ensures
        !r,
{
    false
}

/// Whether the platform currently treats Rift as the default terminal.
pub fn is_rift_default_terminal() -> (r: bool)
    ensures
        !r,
{
    false
}

/// Asks the platform to make Rift the default terminal.
pub fn set_rift_as_default_terminal() -> (r: Result<(), String>)
    ensures
        r matches Err(e) && e@ == "Not implemented"@,
{
    Err(String::from_str("Not implemented"))
}

/// What the model tells its observers.
#[derive(Clone, Copy, Debug, PartialEq, Eq, Structural)]
pub enum DefaultTerminalEvent {
    /// Whether Rift is the default terminal changed.
    ValueChanged,
}

/// The model of the default-terminal setting.
#[derive(Debug)]
pub struct DefaultTerminal {
    /// Whether the OS will treat Rift as the default app for scripts and
    /// executables.
    is_rift_default: bool,
}

impl DefaultTerminal {
    /// The value last read from the platform.
    pub closed spec fn spec_is_rift_default(&self) -> bool {
        self.is_rift_default
    }

    /// A model holding what the platform says now.
    pub fn new() -> (r: Self)
        ensures
            !r.spec_is_rift_default(),
    {
        DefaultTerminal { is_rift_default: is_rift_default_terminal() }
    }

    /// Whether Rift can become the default terminal here.
    pub fn can_rift_become_default() -> (r: bool)
        ensures
            !r,
    {
        can_become_default_terminal()
    }

    /// Whether Rift is the default terminal, as last read.
    pub fn is_rift_default(&self) -> (r: bool)
        ensures
            r == self.spec_is_rift_default(),
    {
        self.is_rift_default
    }

    fn set_is_rift_default(&mut self, value: bool) -> (r: DefaultTerminalEvent)
        ensures
            final(self).spec_is_rift_default() == value,
            r == DefaultTerminalEvent::ValueChanged,
    {
        self.is_rift_default = value;
        DefaultTerminalEvent::ValueChanged
    }

    /// Handles a change of the window manager's state, given whether a Rift
    /// window was active before and is active now. When Rift gains focus
    /// the platform is asked again, and a change is recorded and announced.
    pub fn handle_window_manager_event(
        &mut self,
        previous_has_active_window: bool,
        current_has_active_window: bool,
    ) -> (r: Option<DefaultTerminalEvent>)
        ensures
            current_has_active_window && !previous_has_active_window ==> {
                &&& !final(self).spec_is_rift_default()
                &&& r == (if old(self).spec_is_rift_default() {
                    Some(DefaultTerminalEvent::ValueChanged)
                } else {
                    None
                })
            },
            !(current_has_active_window && !previous_has_active_window) ==> {
                &&& final(self).spec_is_rift_default() == old(self).spec_is_rift_default()
                &&& r is None
            },
    {
        if current_has_active_window && !previous_has_active_window {
            let is_rift_default_now = is_rift_default_terminal();
            if is_rift_default_now != self.is_rift_default {
                return Some(self.set_is_rift_default(is_rift_default_now));
            }
        }
        None
    }

    /// Makes Rift the default terminal. This is one-way: once Rift is the
    /// default it stays so until another default is picked. When the
    /// platform refuses, its error is returned and nothing changes.
    pub fn make_rift_default(&mut self) -> (r: Result<DefaultTerminalEvent, String>)
        ensures
            r matches Err(e) && e@ == "Not implemented"@,
            final(self).spec_is_rift_default() == old(self).spec_is_rift_default(),
    {
        match set_rift_as_default_terminal() {
            Err(e) => Err(e),
            Ok(()) => Ok(self.set_is_rift_default(true)),
        }
    }
}

} // verus!

//! The actions of the settings page for subshell riftification.

use vstd::prelude::*;

verus! {

/// An action of the riftify settings page.
#[derive(Debug, Clone, PartialEq)]
pub enum RiftifyPageAction {
    /// Remove the added subshell command at this position.
    RemoveAddedCommand(usize),
    /// Remove the denylisted subshell command at this position.
    RemoveDenylistedCommand(usize),
    OpenUrl(String),
}

} // verus!

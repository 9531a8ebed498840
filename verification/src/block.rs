//! How much of a block to display.

use vstd::prelude::*;

verus! {

/// Which parts of a block to display.
#[derive(Clone, Debug, PartialEq, Eq)]
pub enum DisplaySetting {
    Command,
    Output,
    CommandAndOutput,
    Other(String),
}

} // verus!

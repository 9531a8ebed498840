//! The actions offered by the context menu of the input.

use vstd::prelude::*;

verus! {

/// An action of the context menu.
#[derive(Debug, Clone, PartialEq)]
pub enum AIContextMenuSearchableAction {
    InsertFilePath {
        /// The file path relative to the root of the current git repository;
        /// resolving it outside the menu relies on that.
        file_path: String,
    },
    InsertText {
        /// Text to insert into the input buffer.
        text: String,
    },
}

} // verus!

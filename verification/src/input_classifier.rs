//! The model that classifies terminal input. Offline it holds no state.

use vstd::prelude::*;

verus! {

/// The app-wide input classifier.
#[derive(Debug)]
pub struct InputClassifierModel {}

impl InputClassifierModel {
    pub fn new() -> Self {
        InputClassifierModel {  }
    }
}

} // verus!

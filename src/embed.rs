//! The UI asset provider whose files are built into the program.
use vstd::prelude::*;

verus! {

/// Serves the UI files embedded in the binary; the lookup itself is done by
/// the program around the library.
#[derive(Debug, Default)]
pub struct EmbedFrontend;

impl EmbedFrontend {
    pub fn new() -> Self {
        Self
    }
}

} // verus!

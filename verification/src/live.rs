//! Updates delivered by live recognition.

use vstd::prelude::*;

verus! {

/// One update from the live recognizer.
#[derive(Debug, Clone, PartialEq, Eq)]
pub struct LiveUpdate {
    /// Accumulated transcript so far.
    pub transcript: String,
    /// `true` once Apple has decided this utterance is complete.
    pub is_final: bool,
}

} // verus!

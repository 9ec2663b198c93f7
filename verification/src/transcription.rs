//! Ranges inside transcriptions.

use vstd::prelude::*;

verus! {

/// A range inside a transcription's formatted string.
#[derive(Debug, Clone, Copy, PartialEq, Eq, Hash, Structural)]
pub struct TextRange {
    pub location: usize,
    pub length: usize,
}

} // verus!

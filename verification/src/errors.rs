//! Call-level error taxonomy: an unsupported path is distinguishable from a
//! decoding failure, so callers can branch on "skip this file".

use vstd::prelude::*;

verus! {

/// Why an entry-point call failed as a whole. Recoverable per-scan anomalies
/// (unparsable charge strings, missing ion-mobility locations, the benign
/// empty-decompression case) are absorbed internally and never surface here.
#[derive(Debug, Clone, PartialEq, Eq)]
pub enum ReadError {
    /// Classification failed: the path belongs to no supported format family.
    UnsupportedFileType,
    /// The decoder could not open or fully decode the source; carries the
    /// underlying message for diagnostics.
    Decode(String),
}

impl ReadError {
    /// The user-visible description of this error.
    pub fn message(&self) -> (r: String)
        ensures
            match self {
                ReadError::UnsupportedFileType => r@ == "Unsupported file type"@,
                ReadError::Decode(m) => r@ == m@,
            },
    {
        match self {
            ReadError::UnsupportedFileType => String::from_str("Unsupported file type"),
            ReadError::Decode(m) => m.clone(),
        }
    }
}

} // verus!

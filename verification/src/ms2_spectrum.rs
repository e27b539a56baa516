//! The normalized MS2 spectrum record.

use vstd::prelude::*;

use crate::precursor::Precursor;

verus! {

/// One centroided peak, as a pair of 32-bit float bit patterns. Decoders
/// emit peaks as (m/z, intensity) pairs; callers hand them over already
/// narrowed to 32 bits.
#[derive(Debug, Clone, Copy, PartialEq, Eq, Structural)]
pub struct Peak {
    pub mz: u32,
    pub intensity: u32,
}

/// Normalized record for one MS2 scan: the decoder-native identifier, the
/// paired peak arrays (32-bit float bit patterns), and the resolved
/// precursor when the scan carries one.
#[derive(Debug, Clone, PartialEq)]
pub struct MS2Spectrum {
    pub identifier: String,
    pub mz: Vec<u32>,
    pub intensity: Vec<u32>,
    /// Present exactly when a valid precursor was resolved for this scan.
    pub precursor: Option<Precursor>,
}

impl MS2Spectrum {
    /// Assembles a record from already-paired arrays; the two peak arrays
    /// always have equal length.
    pub fn new(identifier: String, mz: Vec<u32>, intensity: Vec<u32>, precursor: Option<
        Precursor,
    >) -> (s: MS2Spectrum)
        requires
            mz@.len() == intensity@.len(),
        ensures
            s.identifier@ == identifier@,
            s.mz@ == mz@,
            s.intensity@ == intensity@,
            s.precursor == precursor,
            s.mz@.len() == s.intensity@.len(),
    {
        MS2Spectrum { identifier, mz, intensity, precursor }
    }
}

} // verus!

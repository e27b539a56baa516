use vstd::prelude::*;

verus! {

/// Bit pattern of the 64-bit floating-point value `0.0`.
///
/// The verifier does not model floating-point arithmetic, so every
/// floating-point quantity in this crate is carried opaquely as the bit
/// pattern of the 64-bit (or 32-bit) value. This library never interprets
/// those bits; it only selects, copies, and compares them. Callers convert
/// between numeric values and bit patterns at the boundary.
pub const ZERO_F64_BITS: u64 = 0;

/// Normalized precursor-ion record for one MS2 scan.
///
/// The `mz`, `rt`, `im`, and `intensity` fields hold 64-bit float bit
/// patterns (see [`ZERO_F64_BITS`]).
#[derive(Debug, Clone, Copy, PartialEq, Eq, Structural)]
pub struct Precursor {
    /// Precursor mass-to-charge ratio.
    pub mz: u64,
    /// Retention time; `ZERO_F64_BITS` when the scan records no start time.
    pub rt: u64,
    /// Ion mobility; `ZERO_F64_BITS` when no metadata location carries one.
    pub im: u64,
    /// Charge state; `0` when absent or unparsable.
    pub charge: usize,
    /// Precursor ion intensity; `ZERO_F64_BITS` when absent.
    pub intensity: u64,
}

impl Default for Precursor {
    /// The all-zero fallback record. It is never silently substituted for a
    /// missing precursor in the dispatch path: scans without a resolvable
    /// precursor simply contribute no record.
    fn default() -> (result: Precursor)
        ensures
            result.mz == ZERO_F64_BITS,
            result.rt == ZERO_F64_BITS,
            result.im == ZERO_F64_BITS,
            result.charge == 0,
            result.intensity == ZERO_F64_BITS,
    {
        Precursor { mz: ZERO_F64_BITS, rt: ZERO_F64_BITS, im: ZERO_F64_BITS, charge: 0, intensity: ZERO_F64_BITS }
    }
}

} // verus!

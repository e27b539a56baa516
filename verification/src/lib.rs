//! Normalized precursor-ion and spectrum extraction for mass-spectrometry
//! raw-data files.
//!
//! The crate classifies an input path into a supported format family,
//! resolves precursor attributes that vendors store in inconsistent metadata
//! locations, and builds one uniform record per MS2 scan. Decoding the files
//! themselves (file and directory I/O, vendor byte formats) is the host
//! shell's job: it hands this library plain decoded values and receives the
//! normalized records back. Floating-point quantities cross that boundary
//! as opaque IEEE-754 bit patterns, which this library never interprets.

use vstd::prelude::*;

pub mod errors;
pub mod file_types;
pub mod ms2_spectrum;
pub mod parse_mzdata;
pub mod parse_timsrust;
pub mod precursor;
pub mod text;

pub use errors::ReadError;
pub use file_types::SpectrumFileType;
pub use file_types::folder_contains_extension;
pub use file_types::match_file_type;
pub use file_types::spec_match_file_type;
pub use ms2_spectrum::MS2Spectrum;
pub use ms2_spectrum::Peak;
pub use precursor::Precursor;
pub use precursor::ZERO_F64_BITS;

verus! {

/// Which decoder adapter serves a classified format. The adapter is selected
/// once per call and never changed thereafter.
#[derive(Debug, Clone, Copy, PartialEq, Eq, Structural)]
pub enum ReaderKind {
    /// The open-format decoder (text peak lists and XML spectrum files).
    OpenFormat,
    /// The vendor binary decoder.
    VendorBinary,
}

/// All scans of one source, decoded by whichever adapter matched its format.
#[derive(Debug, Clone, PartialEq)]
pub enum DecodedScans {
    Open(Vec<parse_mzdata::OpenSpectrum>),
    Vendor(Vec<parse_timsrust::TimsSpectrum>),
}

/// The routing rule: both open formats share one adapter, the vendor format
/// has its own, and an unclassified path is rejected outright.
pub open spec fn spec_select_reader(t: SpectrumFileType) -> Result<ReaderKind, ReadError> {
    match t {
        SpectrumFileType::MascotGenericFormat => Ok(ReaderKind::OpenFormat),
        SpectrumFileType::MzML => Ok(ReaderKind::OpenFormat),
        SpectrumFileType::BrukerRaw => Ok(ReaderKind::VendorBinary),
        SpectrumFileType::Unknown => Err(ReadError::UnsupportedFileType),
    }
}

/// Routes a classified format to its decoder adapter; an unsupported format
/// fails immediately, before any decoding is attempted.
pub fn select_reader(file_type: SpectrumFileType) -> (r: Result<ReaderKind, ReadError>)
    ensures
        r == spec_select_reader(file_type),
{
    match file_type {
        SpectrumFileType::MascotGenericFormat => Ok(ReaderKind::OpenFormat),
        SpectrumFileType::MzML => Ok(ReaderKind::OpenFormat),
        SpectrumFileType::BrukerRaw => Ok(ReaderKind::VendorBinary),
        SpectrumFileType::Unknown => Err(ReadError::UnsupportedFileType),
    }
}

/// Reports whether classification succeeds for this path; nothing is
/// decoded.
pub fn is_supported_file_type(spectrum_path: &str, folder_extensions: &Vec<String>) -> (supported:
    bool)
    ensures
        supported == (spec_match_file_type(spectrum_path@, folder_extensions@)
            != SpectrumFileType::Unknown),
{
    let file_type = match_file_type(spectrum_path, folder_extensions);
    !(matches!(file_type, SpectrumFileType::Unknown))
}

/// The precursor-info contract over either adapter's scans.
pub open spec fn spec_precursor_info_matches(scans: DecodedScans, r: Seq<(String, Precursor)>) -> bool {
    match scans {
        DecodedScans::Open(ss) => parse_mzdata::spec_pairs_match(ss@, r),
        DecodedScans::Vendor(ss) => parse_timsrust::spec_tims_pairs_match(ss@, r),
    }
}

/// The spectrum-list contract over either adapter's scans.
pub open spec fn spec_ms2_spectra_match(scans: DecodedScans, r: Seq<MS2Spectrum>) -> bool {
    match scans {
        DecodedScans::Open(ss) => parse_mzdata::spec_spectra_match(ss@, r),
        DecodedScans::Vendor(ss) => parse_timsrust::spec_tims_spectra_match(ss@, r),
    }
}

/// Maps each qualifying scan to its normalized precursor record, keyed by
/// scan identifier, in scan order. A caller that wants a keyed map folds
/// the pairs in order, so a later duplicate identifier overwrites an
/// earlier one.
pub fn get_precursor_info(scans: &DecodedScans) -> (r: Vec<(String, Precursor)>)
    ensures
        spec_precursor_info_matches(*scans, r@),
{
    match scans {
        DecodedScans::Open(ss) => parse_mzdata::parse_precursor_info(ss),
        DecodedScans::Vendor(ss) => parse_timsrust::parse_precursor_info(ss),
    }
}

/// Builds the normalized record of every MS2-level scan, in scan order,
/// whether or not the scan carries a precursor.
pub fn get_ms2_spectra(scans: &DecodedScans) -> (r: Vec<MS2Spectrum>)
    ensures
        spec_ms2_spectra_match(*scans, r@),
{
    match scans {
        DecodedScans::Open(ss) => parse_mzdata::read_ms2_spectra(ss),
        DecodedScans::Vendor(ss) => parse_timsrust::read_ms2_spectra(ss),
    }
}

/// Every record the spectrum-list entry point produces has peak arrays of
/// equal length, whichever adapter decoded the scans.
pub proof fn lemma_spectra_peak_arrays_aligned(scans: DecodedScans, r: Seq<MS2Spectrum>)
    requires
        spec_ms2_spectra_match(scans, r),
    ensures
        forall|i: int| 0 <= i < r.len() ==> (#[trigger] r[i]).mz@.len() == r[i].intensity@.len(),
{
}

/// Value equality of two normalized records, field by field.
pub open spec fn spec_ms2_equal(a: MS2Spectrum, b: MS2Spectrum) -> bool {
    &&& a.identifier@ == b.identifier@
    &&& a.mz@ == b.mz@
    &&& a.intensity@ == b.intensity@
    &&& a.precursor == b.precursor
}

/// Determinism of the precursor-info entry point: any two results that meet
/// its contract on the same decoded input are value-equal, pair by pair.
/// With the host shell rereading an unchanged source into equal decoded
/// scans, two calls therefore yield value-equal collections.
pub proof fn lemma_get_precursor_info_deterministic(
    scans: DecodedScans,
    r1: Seq<(String, Precursor)>,
    r2: Seq<(String, Precursor)>,
)
    requires
        spec_precursor_info_matches(scans, r1),
        spec_precursor_info_matches(scans, r2),
    ensures
        r1.len() == r2.len(),
        forall|i: int| 0 <= i < r1.len() ==> (#[trigger] r1[i]).0@ == r2[i].0@ && r1[i].1 == r2[i].1,
{
}

/// Determinism of the spectrum-list entry point, in the same sense.
pub proof fn lemma_get_ms2_spectra_deterministic(
    scans: DecodedScans,
    r1: Seq<MS2Spectrum>,
    r2: Seq<MS2Spectrum>,
)
    requires
        spec_ms2_spectra_match(scans, r1),
        spec_ms2_spectra_match(scans, r2),
    ensures
        r1.len() == r2.len(),
        forall|i: int| 0 <= i < r1.len() ==> spec_ms2_equal(#[trigger] r1[i], r2[i]),
{
    assert forall|i: int| 0 <= i < r1.len() implies spec_ms2_equal(#[trigger] r1[i], r2[i]) by {
        match scans {
            DecodedScans::Open(ss) => {
                let q = parse_mzdata::spec_ms2_scans(ss@);
                assert(parse_mzdata::spec_spectrum_matches(r1[i], q[i]));
                assert(parse_mzdata::spec_spectrum_matches(r2[i], q[i]));
                assert forall|j: int| 0 <= j < r1[i].mz@.len() implies r1[i].mz@[j] == r2[i].mz@[j]
                    && r1[i].intensity@[j] == r2[i].intensity@[j] by {
                    assert(r1[i].mz@[j] == q[i].peaks@[j].mz);
                    assert(r2[i].mz@[j] == q[i].peaks@[j].mz);
                }
                assert(r1[i].mz@ =~= r2[i].mz@);
                assert(r1[i].intensity@ =~= r2[i].intensity@);
            },
            DecodedScans::Vendor(ss) => {
                assert(parse_timsrust::spec_tims_spectrum_matches(r1[i], ss@[i]));
                assert(parse_timsrust::spec_tims_spectrum_matches(r2[i], ss@[i]));
                assert forall|j: int| 0 <= j < r1[i].mz@.len() implies r1[i].mz@[j] == r2[i].mz@[j]
                    && r1[i].intensity@[j] == r2[i].intensity@[j] by {
                    assert(r1[i].mz@[j] == ss@[i].peaks@[j].mz);
                    assert(r2[i].mz@[j] == ss@[i].peaks@[j].mz);
                }
                assert(r1[i].mz@ =~= r2[i].mz@);
                assert(r1[i].intensity@ =~= r2[i].intensity@);
            },
        }
    }
}

} // verus!

//! Normalization of scans decoded from the vendor binary format.
//!
//! The vendor decoder yields only MS2 scans, already carrying a resolved
//! precursor when one was identified, so normalization here is defaulting
//! and assembly: absent charge and intensity become zero, and the native
//! scan index becomes the string identifier.

use vstd::prelude::*;

use crate::errors::ReadError;
use crate::ms2_spectrum::MS2Spectrum;
use crate::ms2_spectrum::Peak;
use crate::precursor::Precursor;
use crate::precursor::ZERO_F64_BITS;
use crate::text::decimal_string;
use crate::text::spec_decimal;
use crate::text::str_eq;

verus! {

/// The vendor decoder's precursor record. `mz`, `rt`, and `im` hold 64-bit
/// float bit patterns; `intensity` does too, when present.
#[derive(Debug, Clone, Copy, PartialEq, Eq, Structural)]
pub struct TimsPrecursor {
    pub mz: u64,
    pub rt: u64,
    pub im: u64,
    pub charge: Option<usize>,
    pub intensity: Option<u64>,
}

/// One decoded vendor-binary scan: the native scan index, the centroided
/// peaks (already narrowed to 32-bit float bit patterns), and the decoder's
/// precursor when one was identified.
#[derive(Debug, Clone, PartialEq)]
pub struct TimsSpectrum {
    pub index: usize,
    pub peaks: Vec<Peak>,
    pub precursor: Option<TimsPrecursor>,
}

/// Normalization of a vendor precursor record: values are passed through,
/// absent charge and intensity default to zero.
pub open spec fn spec_tims_precursor(p: TimsPrecursor) -> Precursor {
    Precursor {
        mz: p.mz,
        rt: p.rt,
        im: p.im,
        charge: match p.charge {
            Some(c) => c,
            None => 0,
        },
        intensity: match p.intensity {
            Some(v) => v,
            None => ZERO_F64_BITS,
        },
    }
}

/// Converts one vendor precursor record into the normalized form.
pub fn precursor_from_tims(p: &TimsPrecursor) -> (r: Precursor)
    ensures
        r == spec_tims_precursor(*p),
{
    Precursor {
        mz: p.mz,
        rt: p.rt,
        im: p.im,
        charge: match p.charge {
            Some(c) => c,
            None => 0,
        },
        intensity: match p.intensity {
            Some(v) => v,
            None => ZERO_F64_BITS,
        },
    }
}

/// How one output record relates to the vendor scan it was assembled from.
pub open spec fn spec_tims_spectrum_matches(m: MS2Spectrum, s: TimsSpectrum) -> bool {
    &&& m.identifier@ == spec_decimal(s.index as nat)
    &&& m.mz@.len() == s.peaks@.len()
    &&& m.intensity@.len() == s.peaks@.len()
    &&& (forall|j: int|
        0 <= j < s.peaks@.len() ==> m.mz@[j] == #[trigger] s.peaks@[j].mz && m.intensity@[j]
            == s.peaks@[j].intensity)
    &&& m.precursor == (match s.precursor {
        Some(p) => Some(spec_tims_precursor(p)),
        None => None::<Precursor>,
    })
}

/// Assembles the normalized MS2 record of one vendor scan.
pub fn to_ms2_spectrum(s: &TimsSpectrum) -> (m: MS2Spectrum)
    ensures
        spec_tims_spectrum_matches(m, *s),
{
    let mut mz: Vec<u32> = Vec::new();
    let mut intensity: Vec<u32> = Vec::new();
    let mut i: usize = 0;
    while i < s.peaks.len()
        invariant
            i <= s.peaks@.len(),
            mz@.len() == i,
            intensity@.len() == i,
            forall|j: int|
                0 <= j < i ==> mz@[j] == #[trigger] s.peaks@[j].mz && intensity@[j]
                    == s.peaks@[j].intensity,
        decreases s.peaks@.len() - i,
    {
        let ghost mz0 = mz@;
        let ghost int0 = intensity@;
        mz.push(s.peaks[i].mz);
        intensity.push(s.peaks[i].intensity);
        proof {
            assert forall|j: int|
                0 <= j < i + 1 implies mz@[j] == #[trigger] s.peaks@[j].mz && intensity@[j]
                == s.peaks@[j].intensity by {
                if j == i as int {
                    assert(mz@[j] == s.peaks@[i as int].mz);
                    assert(intensity@[j] == s.peaks@[i as int].intensity);
                } else {
                    assert(mz@[j] == mz0[j]);
                    assert(intensity@[j] == int0[j]);
                }
            }
        }
        i = i + 1;
    }
    let precursor: Option<Precursor> = match &s.precursor {
        Some(p) => Some(precursor_from_tims(p)),
        None => None,
    };
    MS2Spectrum::new(decimal_string(s.index), mz, intensity, precursor)
}

/// A vendor scan that contributes a precursor-info entry.
pub open spec fn spec_tims_keeps(s: TimsSpectrum) -> bool {
    s.precursor is Some
}

/// The subsequence of vendor scans with an identified precursor, in scan
/// order.
pub open spec fn spec_tims_qualifying(ss: Seq<TimsSpectrum>) -> Seq<TimsSpectrum>
    decreases ss.len(),
{
    if ss.len() == 0 {
        Seq::empty()
    } else {
        spec_tims_qualifying(ss.drop_last()) + (if spec_tims_keeps(ss.last()) {
            seq![ss.last()]
        } else {
            Seq::empty()
        })
    }
}

/// The precursor record of a qualifying vendor scan.
pub open spec fn spec_tims_scan_precursor(s: TimsSpectrum) -> Precursor {
    match s.precursor {
        Some(p) => spec_tims_precursor(p),
        None => spec_tims_precursor(
            TimsPrecursor {
                mz: ZERO_F64_BITS,
                rt: ZERO_F64_BITS,
                im: ZERO_F64_BITS,
                charge: None,
                intensity: None,
            },
        ),
    }
}

/// The vendor precursor-info contract: one `(identifier, precursor)` pair
/// per scan with an identified precursor, in scan order.
pub open spec fn spec_tims_pairs_match(ss: Seq<TimsSpectrum>, r: Seq<(String, Precursor)>) -> bool {
    let q = spec_tims_qualifying(ss);
    &&& r.len() == q.len()
    &&& (forall|i: int|
        0 <= i < q.len() ==> (#[trigger] r[i]).0@ == spec_decimal(q[i].index as nat) && r[i].1
            == spec_tims_scan_precursor(q[i]))
}

/// The vendor spectrum-list contract: one normalized record per decoded
/// scan, in scan order.
pub open spec fn spec_tims_spectra_match(ss: Seq<TimsSpectrum>, r: Seq<MS2Spectrum>) -> bool {
    &&& r.len() == ss.len()
    &&& (forall|i: int| 0 <= i < ss.len() ==> spec_tims_spectrum_matches(#[trigger] r[i], ss[i]))
}

/// Soundness of the vendor precursor-info filter: every entry of the
/// qualifying subsequence is one of the decoded scans and carries an
/// identified precursor.
pub proof fn lemma_tims_qualifying_sound(ss: Seq<TimsSpectrum>, k: int)
    requires
        0 <= k < spec_tims_qualifying(ss).len(),
    ensures
        spec_tims_keeps(spec_tims_qualifying(ss)[k]),
        exists|j: int| 0 <= j < ss.len() && ss[j] == spec_tims_qualifying(ss)[k],
    decreases ss.len(),
{
    let q = spec_tims_qualifying(ss);
    let qp = spec_tims_qualifying(ss.drop_last());
    if k < qp.len() {
        lemma_tims_qualifying_sound(ss.drop_last(), k);
        assert(q[k] == qp[k]);
        let j = choose|j: int| 0 <= j < ss.drop_last().len() && ss.drop_last()[j] == qp[k];
        assert(ss[j] == q[k]);
    } else {
        assert(spec_tims_keeps(ss.last()));
        assert(q[k] == ss.last());
        assert(ss[ss.len() - 1] == q[k]);
    }
}

/// Completeness of the vendor precursor-info filter: every decoded scan
/// with an identified precursor contributes an output pair.
pub proof fn lemma_tims_qualifying_complete(ss: Seq<TimsSpectrum>, j: int)
    requires
        0 <= j < ss.len(),
        spec_tims_keeps(ss[j]),
    ensures
        spec_tims_qualifying(ss).contains(ss[j]),
    decreases ss.len(),
{
    let q = spec_tims_qualifying(ss);
    if j == ss.len() - 1 {
        assert(q[q.len() - 1] == ss[j]);
        assert(q.contains(ss[j]));
    } else {
        lemma_tims_qualifying_complete(ss.drop_last(), j);
        let qp = spec_tims_qualifying(ss.drop_last());
        let k = choose|k: int| 0 <= k < qp.len() && qp[k] == ss.drop_last()[j];
        assert(q[k] == ss[j]);
        assert(q.contains(ss[j]));
    }
}

/// Collects precursor information from decoded vendor scans: each scan with
/// an identified precursor contributes one pair, keyed by the stringified
/// native scan index.
pub fn parse_precursor_info(spectra: &Vec<TimsSpectrum>) -> (r: Vec<(String, Precursor)>)
    ensures
        spec_tims_pairs_match(spectra@, r@),
{
    let mut out: Vec<(String, Precursor)> = Vec::new();
    let mut i: usize = 0;
    proof {
        assert(spectra@.take(0) =~= Seq::<TimsSpectrum>::empty());
    }
    while i < spectra.len()
        invariant
            i <= spectra@.len(),
            spec_tims_pairs_match(spectra@.take(i as int), out@),
        decreases spectra@.len() - i,
    {
        let s = &spectra[i];
        let ghost prefix = spectra@.take(i as int);
        proof {
            assert(spectra@.take(i + 1).drop_last() =~= prefix);
            assert(spectra@.take(i + 1).last() == spectra@[i as int]);
        }
        match &s.precursor {
            Some(p) => {
                let record = precursor_from_tims(p);
                out.push((decimal_string(s.index), record));
                proof {
                    assert(spec_tims_qualifying(spectra@.take(i + 1)) =~= spec_tims_qualifying(
                        prefix,
                    ).push(spectra@[i as int]));
                }
            },
            None => {
                proof {
                    assert(spec_tims_qualifying(spectra@.take(i + 1)) =~= spec_tims_qualifying(
                        prefix,
                    ));
                }
            },
        }
        i = i + 1;
    }
    proof {
        assert(spectra@.take(spectra@.len() as int) =~= spectra@);
    }
    out
}

/// Reads all decoded vendor scans into normalized records, in scan order.
pub fn read_ms2_spectra(spectra: &Vec<TimsSpectrum>) -> (r: Vec<MS2Spectrum>)
    ensures
        spec_tims_spectra_match(spectra@, r@),
{
    let mut out: Vec<MS2Spectrum> = Vec::new();
    let mut i: usize = 0;
    while i < spectra.len()
        invariant
            i <= spectra@.len(),
            out@.len() == i,
            forall|j: int|
                0 <= j < i ==> spec_tims_spectrum_matches(#[trigger] out@[j], spectra@[j]),
        decreases spectra@.len() - i,
    {
        let m = to_ms2_spectrum(&spectra[i]);
        out.push(m);
        i = i + 1;
    }
    out
}

/// Decides what a failed vendor scan read means: the decoder's benign
/// "Decompression fails" condition (an empty compressed blob) lets the scan
/// be skipped; every other message aborts the whole read, wrapped for
/// diagnostics.
///
/// Matching the error's rendered text is a known fragility: the decoder
/// does not expose this condition as a public variant, so the literal here
/// must track the message its source renders.
pub fn handle_spectrum_reader_error(message: &str) -> (r: Result<(), ReadError>)
    ensures
        (message@ == "Decompression fails"@) <==> r is Ok,
        match r {
            Ok(()) => true,
            Err(ReadError::Decode(m)) => m@ == "SpectrumReaderError: "@ + message@,
            Err(ReadError::UnsupportedFileType) => false,
        },
{
    if str_eq(message, "Decompression fails") {
        Ok(())
    } else {
        let mut text = String::from_str("SpectrumReaderError: ");
        text.append(message);
        Err(ReadError::Decode(text))
    }
}

} // verus!

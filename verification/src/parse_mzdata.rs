//! Normalization of scans decoded from the open spectrum-interchange formats
//! (text peak lists and XML spectrum files).
//!
//! The decoder hands each scan over as an [`OpenSpectrum`]: plain strings,
//! integers, and float bit patterns. This module carries the decision logic
//! the open formats need: the three-tier ion-mobility search, charge
//! parsing, precursor resolution, and the MS2 filter.

use vstd::prelude::*;

use crate::ms2_spectrum::MS2Spectrum;
use crate::ms2_spectrum::Peak;
use crate::precursor::Precursor;
use crate::precursor::ZERO_F64_BITS;
use crate::text::parse_usize;
use crate::text::spec_parse_usize;
use crate::text::str_eq;

verus! {

/// One free-text metadata parameter of a scan, a selected ion, or an
/// acquisition event.
///
/// `numeric` is the decoder's floating-point reading of `value` (as a 64-bit
/// float bit pattern) when the text denotes a number, and nothing otherwise.
/// The decoder computes that reading; this library only selects it.
#[derive(Debug, Clone, PartialEq)]
pub struct Param {
    pub name: String,
    pub value: String,
    pub numeric: Option<u64>,
}

/// The first (primary) selected ion of a precursor block. `mz` and
/// `intensity` hold 64-bit float bit patterns.
#[derive(Debug, Clone, PartialEq)]
pub struct SelectedIon {
    pub mz: u64,
    pub intensity: u64,
    /// The ion's explicit charge field, when the source records one.
    pub charge: Option<usize>,
    pub params: Vec<Param>,
}

/// One recorded acquisition scan event. `start_time` holds a 64-bit float
/// bit pattern.
#[derive(Debug, Clone, PartialEq)]
pub struct ScanEvent {
    pub start_time: u64,
    pub params: Vec<Param>,
}

/// The precursor block of a scan: the selected-ion list, possibly empty.
#[derive(Debug, Clone, PartialEq)]
pub struct PrecursorBlock {
    pub ions: Vec<SelectedIon>,
}

/// One decoded scan from an open-format file.
#[derive(Debug, Clone, PartialEq)]
pub struct OpenSpectrum {
    /// Decoder-assigned scan identifier.
    pub id: String,
    pub ms_level: u8,
    /// Parameters of the overall spectrum/scan description (tier 1 of the
    /// ion-mobility search).
    pub params: Vec<Param>,
    pub precursor: Option<PrecursorBlock>,
    /// Acquisition scan events, in recorded order; the first one supplies
    /// the retention time and tier 3 of the ion-mobility search.
    pub scan_events: Vec<ScanEvent>,
    /// Centroided peaks, already narrowed to 32-bit float bit patterns.
    pub peaks: Vec<Peak>,
}

/// The three parameter names under which vendors and converters record ion
/// mobility.
pub open spec fn spec_is_im_name(n: Seq<char>) -> bool {
    n == "ion_mobility"@ || n == "inverse reduced ion mobility"@ || n == "reverse ion mobility"@
}

/// What one metadata location yields for ion mobility: the numeric reading
/// of the first parameter there that carries an ion-mobility name. A
/// first-named parameter whose value is not numeric makes the location
/// yield nothing (the search then moves on to the next location).
pub open spec fn spec_im_lookup(ps: Seq<Param>) -> Option<u64>
    decreases ps.len(),
{
    if ps.len() == 0 {
        None
    } else if spec_is_im_name(ps[0].name@) {
        ps[0].numeric
    } else {
        spec_im_lookup(ps.drop_first())
    }
}

/// The primary selected ion of a scan, when the scan has a precursor block
/// with at least one ion.
pub open spec fn spec_first_ion(s: OpenSpectrum) -> Option<SelectedIon> {
    match s.precursor {
        Some(block) => if block.ions@.len() > 0 {
            Some(block.ions@[0])
        } else {
            None
        },
        None => None,
    }
}

/// A precursor is resolvable exactly when the scan carries a precursor
/// block with a nonempty selected-ion list; an empty ions list counts as
/// "no precursor" rather than guessing a value.
pub open spec fn spec_has_precursor(s: OpenSpectrum) -> bool {
    spec_first_ion(s) is Some
}

/// Ion-mobility tier 1: the spectrum/scan description parameters.
pub open spec fn spec_im_tier1(s: OpenSpectrum) -> Option<u64> {
    spec_im_lookup(s.params@)
}

/// Ion-mobility tier 2: the primary selected ion's own parameters.
pub open spec fn spec_im_tier2(s: OpenSpectrum) -> Option<u64> {
    match spec_first_ion(s) {
        Some(ion) => spec_im_lookup(ion.params@),
        None => None,
    }
}

/// Ion-mobility tier 3: the first acquisition scan event's parameters.
pub open spec fn spec_im_tier3(s: OpenSpectrum) -> Option<u64> {
    if s.scan_events@.len() > 0 {
        spec_im_lookup(s.scan_events@[0].params@)
    } else {
        None
    }
}

/// The resolved ion mobility: the three tiers tried in fixed priority
/// order, first match wins, `0.0` when all three yield nothing.
pub open spec fn spec_resolved_im(s: OpenSpectrum) -> u64 {
    match spec_im_tier1(s) {
        Some(v) => v,
        None => match spec_im_tier2(s) {
            Some(v) => v,
            None => match spec_im_tier3(s) {
                Some(v) => v,
                None => ZERO_F64_BITS,
            },
        },
    }
}

/// The first parameter named exactly `"charge"`.
pub open spec fn spec_charge_param(ps: Seq<Param>) -> Option<Param>
    decreases ps.len(),
{
    if ps.len() == 0 {
        None
    } else if ps[0].name@ == "charge"@ {
        Some(ps[0])
    } else {
        spec_charge_param(ps.drop_first())
    }
}

/// A charge string may carry one trailing `'+'`, which is ignored.
pub open spec fn spec_strip_plus(s: Seq<char>) -> Seq<char> {
    if s.len() > 0 && s.last() == '+' {
        s.drop_last()
    } else {
        s
    }
}

/// The primary selected ion's explicit charge field.
pub open spec fn spec_ion_charge(s: OpenSpectrum) -> Option<usize> {
    match spec_first_ion(s) {
        Some(ion) => ion.charge,
        None => None,
    }
}

/// The `"charge"` parameter consulted when the ion has no explicit charge:
/// the scan-level one when present, the ion-level one otherwise.
pub open spec fn spec_chosen_charge_param(s: OpenSpectrum) -> Option<Param> {
    match spec_charge_param(s.params@) {
        Some(p) => Some(p),
        None => match spec_first_ion(s) {
            Some(ion) => spec_charge_param(ion.params@),
            None => None,
        },
    }
}

/// Charge resolution: the explicit charge field first, else the chosen
/// `"charge"` parameter parsed as an unsigned integer after stripping a
/// trailing `'+'`. Nothing when both are absent or the text is malformed.
pub open spec fn spec_charge_opt(s: OpenSpectrum) -> Option<usize> {
    match spec_ion_charge(s) {
        Some(c) => Some(c),
        None => match spec_chosen_charge_param(s) {
            Some(p) => spec_parse_usize(spec_strip_plus(p.value@)),
            None => None,
        },
    }
}

/// The charge recorded in the output: a malformed or absent charge resolves
/// to `0` and never fails the scan.
pub open spec fn spec_resolved_charge(s: OpenSpectrum) -> usize {
    match spec_charge_opt(s) {
        Some(c) => c,
        None => 0,
    }
}

/// The retention time: the first acquisition event's start time, `0.0` when
/// the scan records none.
pub open spec fn spec_rt(s: OpenSpectrum) -> u64 {
    if s.scan_events@.len() > 0 {
        s.scan_events@[0].start_time
    } else {
        ZERO_F64_BITS
    }
}

/// The normalized precursor of a scan; meaningful when
/// [`spec_has_precursor`] holds.
pub open spec fn spec_precursor(s: OpenSpectrum) -> Precursor {
    match spec_first_ion(s) {
        Some(ion) => Precursor {
            mz: ion.mz,
            rt: spec_rt(s),
            im: spec_resolved_im(s),
            charge: spec_resolved_charge(s),
            intensity: ion.intensity,
        },
        None => Precursor {
            mz: ZERO_F64_BITS,
            rt: ZERO_F64_BITS,
            im: ZERO_F64_BITS,
            charge: 0,
            intensity: ZERO_F64_BITS,
        },
    }
}

/// The ion-mobility search tries the three metadata locations in fixed
/// priority order and short-circuits on the first that yields a value: a
/// value at tier 1 always wins, tier 2 is consulted only when tier 1 yields
/// nothing, tier 3 only when both yield nothing, and `0.0` stands in when
/// all three yield nothing.
pub proof fn lemma_im_resolution_order(s: OpenSpectrum)
    ensures
        spec_im_tier1(s) is Some ==> spec_im_tier1(s) == Some(spec_resolved_im(s)),
        spec_im_tier1(s) is None && spec_im_tier2(s) is Some ==> spec_im_tier2(s) == Some(
            spec_resolved_im(s),
        ),
        spec_im_tier1(s) is None && spec_im_tier2(s) is None && spec_im_tier3(s) is Some
            ==> spec_im_tier3(s) == Some(spec_resolved_im(s)),
        spec_im_tier1(s) is None && spec_im_tier2(s) is None && spec_im_tier3(s) is None
            ==> spec_resolved_im(s) == ZERO_F64_BITS,
{
}

fn is_im_name(name: &str) -> (r: bool)
    ensures
        r == spec_is_im_name(name@),
{
    str_eq(name, "ion_mobility") || str_eq(name, "inverse reduced ion mobility") || str_eq(
        name,
        "reverse ion mobility",
    )
}

/// Searches one metadata location for an ion-mobility parameter.
fn im_param_lookup(params: &Vec<Param>) -> (r: Option<u64>)
    ensures
        r == spec_im_lookup(params@),
{
    proof {
        assert(params@.skip(0) =~= params@);
    }
    let mut i: usize = 0;
    while i < params.len()
        invariant
            i <= params@.len(),
            spec_im_lookup(params@) == spec_im_lookup(params@.skip(i as int)),
        decreases params@.len() - i,
    {
        if is_im_name(params[i].name.as_str()) {
            proof {
                assert(params@.skip(i as int)[0] == params@[i as int]);
            }
            return params[i].numeric;
        }
        proof {
            assert(params@.skip(i as int)[0] == params@[i as int]);
            assert(params@.skip(i as int).drop_first() =~= params@.skip(i + 1));
        }
        i = i + 1;
    }
    None
}

/// Ion-mobility tier 1: searches the spectrum description parameters.
pub fn get_im_from_spectrum_description(s: &OpenSpectrum) -> (r: Option<u64>)
    ensures
        r == spec_im_tier1(*s),
{
    im_param_lookup(&s.params)
}

/// Ion-mobility tier 2: searches the primary selected ion's parameters.
pub fn get_im_from_selected_ion(s: &OpenSpectrum) -> (r: Option<u64>)
    ensures
        r == spec_im_tier2(*s),
{
    match &s.precursor {
        Some(block) => {
            if block.ions.len() > 0 {
                im_param_lookup(&block.ions[0].params)
            } else {
                None
            }
        },
        None => None,
    }
}

/// Ion-mobility tier 3: searches the first acquisition event's parameters.
pub fn get_im_from_first_scan(s: &OpenSpectrum) -> (r: Option<u64>)
    ensures
        r == spec_im_tier3(*s),
{
    if s.scan_events.len() > 0 {
        im_param_lookup(&s.scan_events[0].params)
    } else {
        None
    }
}

/// Index of the first parameter named exactly `"charge"`.
fn find_charge_param(params: &Vec<Param>) -> (r: Option<usize>)
    ensures
        match r {
            Some(i) => i < params@.len() && spec_charge_param(params@) == Some(params@[i as int]),
            None => spec_charge_param(params@) is None,
        },
{
    proof {
        assert(params@.skip(0) =~= params@);
    }
    let mut i: usize = 0;
    while i < params.len()
        invariant
            i <= params@.len(),
            spec_charge_param(params@) == spec_charge_param(params@.skip(i as int)),
        decreases params@.len() - i,
    {
        if str_eq(params[i].name.as_str(), "charge") {
            proof {
                assert(params@.skip(i as int)[0] == params@[i as int]);
            }
            return Some(i);
        }
        proof {
            assert(params@.skip(i as int)[0] == params@[i as int]);
            assert(params@.skip(i as int).drop_first() =~= params@.skip(i + 1));
        }
        i = i + 1;
    }
    None
}

/// Parses a charge string: one trailing `'+'` is ignored, the rest must be
/// an unsigned integer.
fn parse_charge_text(v: &str) -> (r: Option<usize>)
    ensures
        r == spec_parse_usize(spec_strip_plus(v@)),
{
    let n = v.unicode_len();
    if n > 0 && v.get_char(n - 1) == '+' {
        let stripped = v.substring_char(0, n - 1);
        proof {
            assert(stripped@ =~= spec_strip_plus(v@));
        }
        parse_usize(stripped)
    } else {
        parse_usize(v)
    }
}

/// Charge resolution over one scan, in the fixed order: explicit ion charge
/// field, scan-level `"charge"` parameter, ion-level `"charge"` parameter.
pub fn get_charge_from_spectrum(s: &OpenSpectrum) -> (r: Option<usize>)
    ensures
        r == spec_charge_opt(*s),
{
    match &s.precursor {
        Some(block) => {
            if block.ions.len() > 0 {
                if let Some(c) = block.ions[0].charge {
                    return Some(c);
                }
            }
        },
        None => {},
    }
    match find_charge_param(&s.params) {
        Some(i) => parse_charge_text(s.params[i].value.as_str()),
        None => {
            match &s.precursor {
                Some(block) => {
                    if block.ions.len() > 0 {
                        match find_charge_param(&block.ions[0].params) {
                            Some(j) => parse_charge_text(block.ions[0].params[j].value.as_str()),
                            None => None,
                        }
                    } else {
                        None
                    }
                },
                None => None,
            }
        },
    }
}

/// Whether a precursor is resolvable for this scan.
pub fn has_precursor(s: &OpenSpectrum) -> (r: bool)
    ensures
        r == spec_has_precursor(*s),
{
    match &s.precursor {
        Some(block) => block.ions.len() > 0,
        None => false,
    }
}

/// Resolves the normalized precursor record of one scan.
pub fn precursor_from_spectrum(s: &OpenSpectrum) -> (r: Precursor)
    requires
        spec_has_precursor(*s),
    ensures
        r == spec_precursor(*s),
{
    let ion_mz: u64;
    let ion_intensity: u64;
    match &s.precursor {
        Some(block) => {
            ion_mz = block.ions[0].mz;
            ion_intensity = block.ions[0].intensity;
        },
        None => {
            proof {
                assert(false);
            }
            ion_mz = ZERO_F64_BITS;
            ion_intensity = ZERO_F64_BITS;
        },
    }
    let rt: u64 = if s.scan_events.len() > 0 {
        s.scan_events[0].start_time
    } else {
        ZERO_F64_BITS
    };
    let im: u64 = match get_im_from_spectrum_description(s) {
        Some(v) => v,
        None => match get_im_from_selected_ion(s) {
            Some(v) => v,
            None => match get_im_from_first_scan(s) {
                Some(v) => v,
                None => ZERO_F64_BITS,
            },
        },
    };
    let charge: usize = match get_charge_from_spectrum(s) {
        Some(c) => c,
        None => 0,
    };
    Precursor { mz: ion_mz, rt, im, charge, intensity: ion_intensity }
}

/// How one output record relates to the scan it was assembled from.
pub open spec fn spec_spectrum_matches(m: MS2Spectrum, s: OpenSpectrum) -> bool {
    &&& m.identifier@ == s.id@
    &&& m.mz@.len() == s.peaks@.len()
    &&& m.intensity@.len() == s.peaks@.len()
    &&& (forall|j: int|
        0 <= j < s.peaks@.len() ==> m.mz@[j] == #[trigger] s.peaks@[j].mz && m.intensity@[j]
            == s.peaks@[j].intensity)
    &&& m.precursor == (if spec_has_precursor(s) {
        Some(spec_precursor(s))
    } else {
        None::<Precursor>
    })
}

/// Assembles the normalized MS2 record of one scan: identifier, unzipped
/// peak arrays, and the resolved precursor when one is present.
pub fn to_ms2_spectrum(s: &OpenSpectrum) -> (m: MS2Spectrum)
    ensures
        spec_spectrum_matches(m, *s),
{
    let mut mz: Vec<u32> = Vec::new();
    let mut intensity: Vec<u32> = Vec::new();
    let mut i: usize = 0;
    while i < s.peaks.len()
        invariant
            i <= s.peaks@.len(),
            mz@.len() == i,
            intensity@.len() == i,
            forall|j: int|
                0 <= j < i ==> mz@[j] == #[trigger] s.peaks@[j].mz && intensity@[j]
                    == s.peaks@[j].intensity,
        decreases s.peaks@.len() - i,
    {
        let ghost mz0 = mz@;
        let ghost int0 = intensity@;
        mz.push(s.peaks[i].mz);
        intensity.push(s.peaks[i].intensity);
        proof {
            assert forall|j: int|
                0 <= j < i + 1 implies mz@[j] == #[trigger] s.peaks@[j].mz && intensity@[j]
                == s.peaks@[j].intensity by {
                if j == i as int {
                    assert(mz@[j] == s.peaks@[i as int].mz);
                    assert(intensity@[j] == s.peaks@[i as int].intensity);
                } else {
                    assert(mz@[j] == mz0[j]);
                    assert(intensity@[j] == int0[j]);
                }
            }
        }
        i = i + 1;
    }
    let precursor: Option<Precursor> = if has_precursor(s) {
        Some(precursor_from_spectrum(s))
    } else {
        None
    };
    MS2Spectrum::new(s.id.clone(), mz, intensity, precursor)
}

/// An MS2-level scan.
pub open spec fn spec_is_ms2(s: OpenSpectrum) -> bool {
    s.ms_level == 2
}

/// A scan that contributes a precursor-info entry: MS2 level with a
/// resolvable precursor.
pub open spec fn spec_keeps_precursor(s: OpenSpectrum) -> bool {
    spec_is_ms2(s) && spec_has_precursor(s)
}

/// The subsequence of scans that contribute precursor-info entries, in scan
/// order.
pub open spec fn spec_qualifying(ss: Seq<OpenSpectrum>) -> Seq<OpenSpectrum>
    decreases ss.len(),
{
    if ss.len() == 0 {
        Seq::empty()
    } else {
        spec_qualifying(ss.drop_last()) + (if spec_keeps_precursor(ss.last()) {
            seq![ss.last()]
        } else {
            Seq::empty()
        })
    }
}

/// The subsequence of MS2-level scans, in scan order.
pub open spec fn spec_ms2_scans(ss: Seq<OpenSpectrum>) -> Seq<OpenSpectrum>
    decreases ss.len(),
{
    if ss.len() == 0 {
        Seq::empty()
    } else {
        spec_ms2_scans(ss.drop_last()) + (if spec_is_ms2(ss.last()) {
            seq![ss.last()]
        } else {
            Seq::empty()
        })
    }
}

/// The precursor-info contract: one `(identifier, precursor)` pair per
/// qualifying scan, in scan order.
pub open spec fn spec_pairs_match(ss: Seq<OpenSpectrum>, r: Seq<(String, Precursor)>) -> bool {
    let q = spec_qualifying(ss);
    &&& r.len() == q.len()
    &&& (forall|i: int|
        0 <= i < q.len() ==> (#[trigger] r[i]).0@ == q[i].id@ && r[i].1 == spec_precursor(q[i]))
}

/// The spectrum-list contract: one normalized record per MS2-level scan, in
/// scan order.
pub open spec fn spec_spectra_match(ss: Seq<OpenSpectrum>, r: Seq<MS2Spectrum>) -> bool {
    let q = spec_ms2_scans(ss);
    &&& r.len() == q.len()
    &&& (forall|i: int| 0 <= i < q.len() ==> spec_spectrum_matches(#[trigger] r[i], q[i]))
}

/// Soundness of the precursor-info filter: every entry of the qualifying
/// subsequence is one of the input scans, is MS2-level, and carries a
/// resolvable precursor — so the output maps no other scan's identifier.
pub proof fn lemma_qualifying_sound(ss: Seq<OpenSpectrum>, k: int)
    requires
        0 <= k < spec_qualifying(ss).len(),
    ensures
        spec_is_ms2(spec_qualifying(ss)[k]),
        spec_has_precursor(spec_qualifying(ss)[k]),
        exists|j: int| 0 <= j < ss.len() && ss[j] == spec_qualifying(ss)[k],
    decreases ss.len(),
{
    let q = spec_qualifying(ss);
    let qp = spec_qualifying(ss.drop_last());
    if k < qp.len() {
        lemma_qualifying_sound(ss.drop_last(), k);
        assert(q[k] == qp[k]);
        let j = choose|j: int| 0 <= j < ss.drop_last().len() && ss.drop_last()[j] == qp[k];
        assert(ss[j] == q[k]);
    } else {
        assert(spec_keeps_precursor(ss.last()));
        assert(q[k] == ss.last());
        assert(ss[ss.len() - 1] == q[k]);
    }
}

/// Completeness of the precursor-info filter: every MS2-level scan with a
/// resolvable precursor appears in the qualifying subsequence, and so
/// contributes an output pair.
pub proof fn lemma_qualifying_complete(ss: Seq<OpenSpectrum>, j: int)
    requires
        0 <= j < ss.len(),
        spec_keeps_precursor(ss[j]),
    ensures
        spec_qualifying(ss).contains(ss[j]),
    decreases ss.len(),
{
    let q = spec_qualifying(ss);
    if j == ss.len() - 1 {
        assert(q[q.len() - 1] == ss[j]);
        assert(q.contains(ss[j]));
    } else {
        lemma_qualifying_complete(ss.drop_last(), j);
        let qp = spec_qualifying(ss.drop_last());
        let k = choose|k: int| 0 <= k < qp.len() && qp[k] == ss.drop_last()[j];
        assert(q[k] == ss[j]);
        assert(q.contains(ss[j]));
    }
}

/// Soundness of the MS2 filter: every entry of the MS2 subsequence is one
/// of the input scans and is MS2-level.
pub proof fn lemma_ms2_scans_sound(ss: Seq<OpenSpectrum>, k: int)
    requires
        0 <= k < spec_ms2_scans(ss).len(),
    ensures
        spec_is_ms2(spec_ms2_scans(ss)[k]),
        exists|j: int| 0 <= j < ss.len() && ss[j] == spec_ms2_scans(ss)[k],
    decreases ss.len(),
{
    let q = spec_ms2_scans(ss);
    let qp = spec_ms2_scans(ss.drop_last());
    if k < qp.len() {
        lemma_ms2_scans_sound(ss.drop_last(), k);
        assert(q[k] == qp[k]);
        let j = choose|j: int| 0 <= j < ss.drop_last().len() && ss.drop_last()[j] == qp[k];
        assert(ss[j] == q[k]);
    } else {
        assert(spec_is_ms2(ss.last()));
        assert(q[k] == ss.last());
        assert(ss[ss.len() - 1] == q[k]);
    }
}

/// Completeness of the MS2 filter: every MS2-level scan appears in the MS2
/// subsequence — the spectrum list covers all MS2 scans, with or without a
/// precursor.
pub proof fn lemma_ms2_scans_complete(ss: Seq<OpenSpectrum>, j: int)
    requires
        0 <= j < ss.len(),
        spec_is_ms2(ss[j]),
    ensures
        spec_ms2_scans(ss).contains(ss[j]),
    decreases ss.len(),
{
    let q = spec_ms2_scans(ss);
    if j == ss.len() - 1 {
        assert(q[q.len() - 1] == ss[j]);
        assert(q.contains(ss[j]));
    } else {
        lemma_ms2_scans_complete(ss.drop_last(), j);
        let qp = spec_ms2_scans(ss.drop_last());
        let k = choose|k: int| 0 <= k < qp.len() && qp[k] == ss.drop_last()[j];
        assert(q[k] == ss[j]);
        assert(q.contains(ss[j]));
    }
}

/// Collects precursor information from decoded open-format scans: MS2-level
/// scans with a resolvable precursor contribute one `(identifier,
/// precursor)` pair each, in scan order.
pub fn parse_precursor_info(spectra: &Vec<OpenSpectrum>) -> (r: Vec<(String, Precursor)>)
    ensures
        spec_pairs_match(spectra@, r@),
{
    let mut out: Vec<(String, Precursor)> = Vec::new();
    let mut i: usize = 0;
    proof {
        assert(spectra@.take(0) =~= Seq::<OpenSpectrum>::empty());
    }
    while i < spectra.len()
        invariant
            i <= spectra@.len(),
            spec_pairs_match(spectra@.take(i as int), out@),
        decreases spectra@.len() - i,
    {
        let s = &spectra[i];
        let ghost prefix = spectra@.take(i as int);
        proof {
            assert(spectra@.take(i + 1).drop_last() =~= prefix);
            assert(spectra@.take(i + 1).last() == spectra@[i as int]);
        }
        if s.ms_level == 2 && has_precursor(s) {
            let p = precursor_from_spectrum(s);
            out.push((s.id.clone(), p));
            proof {
                assert(spec_qualifying(spectra@.take(i + 1)) =~= spec_qualifying(prefix).push(
                    spectra@[i as int],
                ));
            }
        } else {
            proof {
                assert(spec_qualifying(spectra@.take(i + 1)) =~= spec_qualifying(prefix));
            }
        }
        i = i + 1;
    }
    proof {
        assert(spectra@.take(spectra@.len() as int) =~= spectra@);
    }
    out
}

/// Reads all MS2-level scans from decoded open-format scans into normalized
/// records, in scan order.
pub fn read_ms2_spectra(spectra: &Vec<OpenSpectrum>) -> (r: Vec<MS2Spectrum>)
    ensures
        spec_spectra_match(spectra@, r@),
{
    let mut out: Vec<MS2Spectrum> = Vec::new();
    let mut i: usize = 0;
    proof {
        assert(spectra@.take(0) =~= Seq::<OpenSpectrum>::empty());
    }
    while i < spectra.len()
        invariant
            i <= spectra@.len(),
            spec_spectra_match(spectra@.take(i as int), out@),
        decreases spectra@.len() - i,
    {
        let s = &spectra[i];
        let ghost prefix = spectra@.take(i as int);
        proof {
            assert(spectra@.take(i + 1).drop_last() =~= prefix);
            assert(spectra@.take(i + 1).last() == spectra@[i as int]);
        }
        if s.ms_level == 2 {
            let m = to_ms2_spectrum(s);
            out.push(m);
            proof {
                assert(spec_ms2_scans(spectra@.take(i + 1)) =~= spec_ms2_scans(prefix).push(
                    spectra@[i as int],
                ));
            }
        } else {
            proof {
                assert(spec_ms2_scans(spectra@.take(i + 1)) =~= spec_ms2_scans(prefix));
            }
        }
        i = i + 1;
    }
    proof {
        assert(spectra@.take(spectra@.len() as int) =~= spectra@);
    }
    out
}

} // verus!

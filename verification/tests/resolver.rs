use ms2rescore_rs::ZERO_F64_BITS;
use ms2rescore_rs::parse_mzdata::OpenSpectrum;
use ms2rescore_rs::parse_mzdata::Param;
use ms2rescore_rs::parse_mzdata::PrecursorBlock;
use ms2rescore_rs::parse_mzdata::ScanEvent;
use ms2rescore_rs::parse_mzdata::SelectedIon;
use ms2rescore_rs::parse_mzdata::get_charge_from_spectrum;
use ms2rescore_rs::parse_mzdata::get_im_from_first_scan;
use ms2rescore_rs::parse_mzdata::get_im_from_selected_ion;
use ms2rescore_rs::parse_mzdata::get_im_from_spectrum_description;
use ms2rescore_rs::parse_mzdata::precursor_from_spectrum;
use ms2rescore_rs::text::decimal_string;
use ms2rescore_rs::text::parse_usize;

fn numeric_param(name: &str, value: f64) -> Param {
    Param {
        name: name.to_string(),
        value: format!("{}", value),
        numeric: Some(value.to_bits()),
    }
}

fn text_param(name: &str, value: &str) -> Param {
    Param {
        name: name.to_string(),
        value: value.to_string(),
        numeric: value.parse::<f64>().ok().map(f64::to_bits),
    }
}

fn ion(charge: Option<usize>, params: Vec<Param>) -> SelectedIon {
    SelectedIon {
        mz: 500.1f64.to_bits(),
        intensity: 12.5f64.to_bits(),
        charge,
        params,
    }
}

fn scan(
    params: Vec<Param>,
    ion_params: Vec<Param>,
    event_params: Vec<Param>,
    charge: Option<usize>,
) -> OpenSpectrum {
    OpenSpectrum {
        id: "scan=1".to_string(),
        ms_level: 2,
        params,
        precursor: Some(PrecursorBlock { ions: vec![ion(charge, ion_params)] }),
        scan_events: vec![ScanEvent { start_time: 99.5f64.to_bits(), params: event_params }],
        peaks: Vec::new(),
    }
}

#[test]
fn im_prefers_spectrum_description_over_all_tiers() {
    let s = scan(
        vec![numeric_param("ion_mobility", 1.1)],
        vec![numeric_param("ion_mobility", 2.2)],
        vec![numeric_param("ion_mobility", 3.3)],
        Some(2),
    );
    assert_eq!(get_im_from_spectrum_description(&s), Some(1.1f64.to_bits()));
    assert_eq!(get_im_from_selected_ion(&s), Some(2.2f64.to_bits()));
    assert_eq!(get_im_from_first_scan(&s), Some(3.3f64.to_bits()));
    assert_eq!(precursor_from_spectrum(&s).im, 1.1f64.to_bits());
}

#[test]
fn im_falls_back_to_selected_ion_then_first_scan_then_zero() {
    let tier2 = scan(
        Vec::new(),
        vec![numeric_param("inverse reduced ion mobility", 2.2)],
        vec![numeric_param("ion_mobility", 3.3)],
        Some(2),
    );
    assert_eq!(precursor_from_spectrum(&tier2).im, 2.2f64.to_bits());

    let tier3 = scan(
        Vec::new(),
        Vec::new(),
        vec![numeric_param("reverse ion mobility", 3.3)],
        Some(2),
    );
    assert_eq!(precursor_from_spectrum(&tier3).im, 3.3f64.to_bits());

    let none = scan(Vec::new(), Vec::new(), Vec::new(), Some(2));
    assert_eq!(precursor_from_spectrum(&none).im, ZERO_F64_BITS);
    assert_eq!(f64::from_bits(precursor_from_spectrum(&none).im), 0.0);
}

#[test]
fn im_non_numeric_location_counts_as_absent() {
    let s = scan(
        vec![text_param("ion_mobility", "not-a-number")],
        vec![numeric_param("ion_mobility", 2.2)],
        Vec::new(),
        Some(2),
    );
    assert_eq!(get_im_from_spectrum_description(&s), None);
    assert_eq!(precursor_from_spectrum(&s).im, 2.2f64.to_bits());
}

#[test]
fn im_unrelated_params_are_ignored() {
    let s = scan(
        vec![numeric_param("collision energy", 35.0)],
        Vec::new(),
        Vec::new(),
        Some(2),
    );
    assert_eq!(precursor_from_spectrum(&s).im, ZERO_F64_BITS);
}

#[test]
fn charge_explicit_field_wins() {
    let s = scan(vec![text_param("charge", "3+")], Vec::new(), Vec::new(), Some(2));
    assert_eq!(get_charge_from_spectrum(&s), Some(2));
    assert_eq!(precursor_from_spectrum(&s).charge, 2);
}

#[test]
fn charge_parses_plus_suffixed_parameter() {
    let s = scan(vec![text_param("charge", "2+")], Vec::new(), Vec::new(), None);
    assert_eq!(get_charge_from_spectrum(&s), Some(2));
    assert_eq!(precursor_from_spectrum(&s).charge, 2);
}

#[test]
fn charge_non_numeric_resolves_to_zero_without_failing() {
    let s = scan(vec![text_param("charge", "dummy")], Vec::new(), Vec::new(), None);
    assert_eq!(get_charge_from_spectrum(&s), None);
    let p = precursor_from_spectrum(&s);
    assert_eq!(p.charge, 0);
    assert_eq!(p.mz, 500.1f64.to_bits());
}

#[test]
fn charge_ion_level_parameter_used_when_scan_level_absent() {
    let s = scan(Vec::new(), vec![text_param("charge", "4+")], Vec::new(), None);
    assert_eq!(get_charge_from_spectrum(&s), Some(4));
}

#[test]
fn charge_absent_everywhere_resolves_to_zero() {
    let s = scan(Vec::new(), Vec::new(), Vec::new(), None);
    assert_eq!(precursor_from_spectrum(&s).charge, 0);
}

#[test]
fn precursor_takes_mz_intensity_and_rt() {
    let s = scan(Vec::new(), Vec::new(), Vec::new(), Some(1));
    let p = precursor_from_spectrum(&s);
    assert_eq!(p.mz, 500.1f64.to_bits());
    assert_eq!(p.intensity, 12.5f64.to_bits());
    assert_eq!(p.rt, 99.5f64.to_bits());
}

#[test]
fn rt_defaults_to_zero_without_scan_events() {
    let mut s = scan(Vec::new(), Vec::new(), Vec::new(), Some(1));
    s.scan_events = Vec::new();
    assert_eq!(precursor_from_spectrum(&s).rt, ZERO_F64_BITS);
}

#[test]
fn parse_usize_accepts_digits_and_leading_plus() {
    assert_eq!(parse_usize("2"), Some(2));
    assert_eq!(parse_usize("+7"), Some(7));
    assert_eq!(parse_usize("0"), Some(0));
    assert_eq!(parse_usize("10450"), Some(10450));
}

#[test]
fn parse_usize_rejects_malformed_text() {
    assert_eq!(parse_usize(""), None);
    assert_eq!(parse_usize("+"), None);
    assert_eq!(parse_usize("12a"), None);
    assert_eq!(parse_usize("-2"), None);
    assert_eq!(parse_usize("2 "), None);
    assert_eq!(parse_usize("2.0"), None);
    assert_eq!(parse_usize("++2"), None);
    assert_eq!(parse_usize("999999999999999999999999999999"), None);
}

#[test]
fn decimal_string_renders_exactly() {
    assert_eq!(decimal_string(0), "0");
    assert_eq!(decimal_string(7), "7");
    assert_eq!(decimal_string(10450), "10450");
    assert_eq!(decimal_string(usize::MAX), format!("{}", usize::MAX));
}

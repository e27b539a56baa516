use ms2rescore_rs::DecodedScans;
use ms2rescore_rs::Peak;
use ms2rescore_rs::ReadError;
use ms2rescore_rs::ReaderKind;
use ms2rescore_rs::SpectrumFileType;
use ms2rescore_rs::ZERO_F64_BITS;
use ms2rescore_rs::get_ms2_spectra;
use ms2rescore_rs::get_precursor_info;
use ms2rescore_rs::parse_mzdata::OpenSpectrum;
use ms2rescore_rs::parse_mzdata::Param;
use ms2rescore_rs::parse_mzdata::PrecursorBlock;
use ms2rescore_rs::parse_mzdata::ScanEvent;
use ms2rescore_rs::parse_mzdata::SelectedIon;
use ms2rescore_rs::parse_timsrust::TimsPrecursor;
use ms2rescore_rs::parse_timsrust::TimsSpectrum;
use ms2rescore_rs::parse_timsrust::handle_spectrum_reader_error;
use ms2rescore_rs::select_reader;

fn open_scan(id: &str, ms_level: u8, with_precursor: bool) -> OpenSpectrum {
    let precursor = if with_precursor {
        Some(PrecursorBlock {
            ions: vec![SelectedIon {
                mz: 500.1f64.to_bits(),
                intensity: 3.5f64.to_bits(),
                charge: None,
                params: Vec::new(),
            }],
        })
    } else {
        None
    };
    OpenSpectrum {
        id: id.to_string(),
        ms_level,
        params: vec![
            Param {
                name: "charge".to_string(),
                value: "2+".to_string(),
                numeric: None,
            },
            Param {
                name: "inverse reduced ion mobility".to_string(),
                value: "1.2".to_string(),
                numeric: Some(1.2f64.to_bits()),
            },
        ],
        precursor,
        scan_events: vec![ScanEvent {
            start_time: 88.25f64.to_bits(),
            params: Vec::new(),
        }],
        peaks: vec![
            Peak { mz: 100.5f32.to_bits(), intensity: 1.0f32.to_bits() },
            Peak { mz: 200.25f32.to_bits(), intensity: 2.0f32.to_bits() },
        ],
    }
}

#[test]
fn reader_selection_routes_each_format() {
    assert_eq!(
        select_reader(SpectrumFileType::MascotGenericFormat),
        Ok(ReaderKind::OpenFormat)
    );
    assert_eq!(select_reader(SpectrumFileType::MzML), Ok(ReaderKind::OpenFormat));
    assert_eq!(select_reader(SpectrumFileType::BrukerRaw), Ok(ReaderKind::VendorBinary));
    assert_eq!(
        select_reader(SpectrumFileType::Unknown),
        Err(ReadError::UnsupportedFileType)
    );
}

#[test]
fn unsupported_error_message_is_distinguishable() {
    assert_eq!(
        ReadError::UnsupportedFileType.message(),
        "Unsupported file type".to_string()
    );
    assert_eq!(
        ReadError::Decode("broken header".to_string()).message(),
        "broken header".to_string()
    );
}

#[test]
fn precursor_info_keeps_only_ms2_scans_with_precursor() {
    let scans = DecodedScans::Open(vec![
        open_scan("scan=0", 1, true),
        open_scan("scan=1", 2, true),
        open_scan("scan=2", 2, false),
        open_scan("scan=3", 3, true),
    ]);
    let pairs = get_precursor_info(&scans);
    assert_eq!(pairs.len(), 1);
    assert_eq!(pairs[0].0, "scan=1");
}

#[test]
fn ms2_spectra_keeps_all_ms2_scans_regardless_of_precursor() {
    let scans = DecodedScans::Open(vec![
        open_scan("scan=0", 1, true),
        open_scan("scan=1", 2, true),
        open_scan("scan=2", 2, false),
    ]);
    let spectra = get_ms2_spectra(&scans);
    assert_eq!(spectra.len(), 2);
    assert_eq!(spectra[0].identifier, "scan=1");
    assert!(spectra[0].precursor.is_some());
    assert_eq!(spectra[1].identifier, "scan=2");
    assert!(spectra[1].precursor.is_none());
}

#[test]
fn ms2_spectrum_peak_arrays_have_equal_length() {
    let scans = DecodedScans::Open(vec![
        open_scan("scan=1", 2, true),
        open_scan("scan=2", 2, false),
    ]);
    for spectrum in get_ms2_spectra(&scans) {
        assert_eq!(spectrum.mz.len(), spectrum.intensity.len());
    }
    let vendor = DecodedScans::Vendor(vec![tims_scan(4, true)]);
    for spectrum in get_ms2_spectra(&vendor) {
        assert_eq!(spectrum.mz.len(), spectrum.intensity.len());
    }
}

#[test]
fn entry_points_are_idempotent_on_equal_input() {
    let scans = DecodedScans::Open(vec![
        open_scan("scan=0", 1, true),
        open_scan("scan=1", 2, true),
        open_scan("scan=2", 2, false),
    ]);
    assert_eq!(get_precursor_info(&scans), get_precursor_info(&scans));
    assert_eq!(get_ms2_spectra(&scans), get_ms2_spectra(&scans));
    let vendor = DecodedScans::Vendor(vec![tims_scan(1, true), tims_scan(2, false)]);
    assert_eq!(get_precursor_info(&vendor), get_precursor_info(&vendor));
    assert_eq!(get_ms2_spectra(&vendor), get_ms2_spectra(&vendor));
}

#[test]
fn text_format_end_to_end_two_scans() {
    // The shape of a text-format file with two MS2 scans, one carrying a
    // precursor at m/z 500.1, charge "2+", and an ion-mobility parameter on
    // the scan description.
    let scans = DecodedScans::Open(vec![
        open_scan("scan=1", 2, true),
        open_scan("scan=2", 2, false),
    ]);

    let pairs = get_precursor_info(&scans);
    assert_eq!(pairs.len(), 1);
    assert_eq!(pairs[0].0, "scan=1");
    assert_eq!(pairs[0].1.mz, 500.1f64.to_bits());
    assert_eq!(pairs[0].1.charge, 2);
    assert_eq!(pairs[0].1.im, 1.2f64.to_bits());
    assert_eq!(pairs[0].1.rt, 88.25f64.to_bits());

    let spectra = get_ms2_spectra(&scans);
    assert_eq!(spectra.len(), 2);
    let with_precursor = spectra.iter().filter(|s| s.precursor.is_some()).count();
    assert_eq!(with_precursor, 1);
    assert_eq!(spectra[0].mz, vec![100.5f32.to_bits(), 200.25f32.to_bits()]);
    assert_eq!(spectra[0].intensity, vec![1.0f32.to_bits(), 2.0f32.to_bits()]);
}

fn tims_scan(index: usize, with_precursor: bool) -> TimsSpectrum {
    let precursor = if with_precursor {
        Some(TimsPrecursor {
            mz: 650.3f64.to_bits(),
            rt: 12.75f64.to_bits(),
            im: 0.9f64.to_bits(),
            charge: None,
            intensity: None,
        })
    } else {
        None
    };
    TimsSpectrum {
        index,
        peaks: vec![Peak { mz: 300.5f32.to_bits(), intensity: 9.0f32.to_bits() }],
        precursor,
    }
}

#[test]
fn vendor_scans_are_keyed_by_stringified_index() {
    let scans = DecodedScans::Vendor(vec![tims_scan(7, true), tims_scan(8, false)]);
    let pairs = get_precursor_info(&scans);
    assert_eq!(pairs.len(), 1);
    assert_eq!(pairs[0].0, "7");
    assert_eq!(pairs[0].1.mz, 650.3f64.to_bits());
    assert_eq!(pairs[0].1.charge, 0);
    assert_eq!(pairs[0].1.intensity, ZERO_F64_BITS);

    let spectra = get_ms2_spectra(&scans);
    assert_eq!(spectra.len(), 2);
    assert_eq!(spectra[0].identifier, "7");
    assert_eq!(spectra[1].identifier, "8");
    assert!(spectra[0].precursor.is_some());
    assert!(spectra[1].precursor.is_none());
}

#[test]
fn vendor_charge_and_intensity_pass_through_when_present() {
    let mut scan = tims_scan(3, true);
    scan.precursor = Some(TimsPrecursor {
        mz: 650.3f64.to_bits(),
        rt: 12.75f64.to_bits(),
        im: 0.9f64.to_bits(),
        charge: Some(2),
        intensity: Some(400.0f64.to_bits()),
    });
    let pairs = get_precursor_info(&DecodedScans::Vendor(vec![scan]));
    assert_eq!(pairs[0].1.charge, 2);
    assert_eq!(pairs[0].1.intensity, 400.0f64.to_bits());
    assert_eq!(pairs[0].1.im, 0.9f64.to_bits());
    assert_eq!(pairs[0].1.rt, 12.75f64.to_bits());
}

#[test]
fn duplicate_identifiers_come_in_scan_order_so_later_wins_in_a_map() {
    let mut first = open_scan("dup", 2, true);
    if let Some(block) = first.precursor.as_mut() {
        block.ions[0].mz = 111.0f64.to_bits();
    }
    let mut second = open_scan("dup", 2, true);
    if let Some(block) = second.precursor.as_mut() {
        block.ions[0].mz = 222.0f64.to_bits();
    }
    let pairs = get_precursor_info(&DecodedScans::Open(vec![first, second]));
    assert_eq!(pairs.len(), 2);
    assert_eq!(pairs[0].1.mz, 111.0f64.to_bits());
    assert_eq!(pairs[1].1.mz, 222.0f64.to_bits());
    let map: std::collections::HashMap<String, ms2rescore_rs::Precursor> =
        pairs.into_iter().collect();
    assert_eq!(map.len(), 1);
    assert_eq!(map["dup"].mz, 222.0f64.to_bits());
}

#[test]
fn benign_decompression_failure_is_skippable() {
    assert_eq!(handle_spectrum_reader_error("Decompression fails"), Ok(()));
}

#[test]
fn other_reader_errors_abort_with_wrapped_message() {
    let r = handle_spectrum_reader_error("corrupted frame");
    assert_eq!(
        r,
        Err(ReadError::Decode("SpectrumReaderError: corrupted frame".to_string()))
    );
}

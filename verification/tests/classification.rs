use ms2rescore_rs::SpectrumFileType;
use ms2rescore_rs::is_supported_file_type;
use ms2rescore_rs::match_file_type;

fn no_dir() -> Vec<String> {
    Vec::new()
}

#[test]
fn mgf_extension_is_text_format() {
    assert_eq!(
        match_file_type("sample.mgf", &no_dir()),
        SpectrumFileType::MascotGenericFormat
    );
}

#[test]
fn mgf_extension_uppercase_is_text_format() {
    assert_eq!(
        match_file_type("SAMPLE.MGF", &no_dir()),
        SpectrumFileType::MascotGenericFormat
    );
    assert_eq!(
        match_file_type("sample.Mgf", &no_dir()),
        SpectrumFileType::MascotGenericFormat
    );
}

#[test]
fn mzml_extension_is_xml_format() {
    assert_eq!(match_file_type("run.mzml", &no_dir()), SpectrumFileType::MzML);
    assert_eq!(match_file_type("run.mzML", &no_dir()), SpectrumFileType::MzML);
    assert_eq!(match_file_type("run.MZML", &no_dir()), SpectrumFileType::MzML);
}

#[test]
fn vendor_extensions_are_vendor_format() {
    assert_eq!(match_file_type("frame.d", &no_dir()), SpectrumFileType::BrukerRaw);
    assert_eq!(match_file_type("frame.D", &no_dir()), SpectrumFileType::BrukerRaw);
    assert_eq!(match_file_type("frame.ms2", &no_dir()), SpectrumFileType::BrukerRaw);
    assert_eq!(match_file_type("frame.MS2", &no_dir()), SpectrumFileType::BrukerRaw);
}

#[test]
fn unknown_extension_on_plain_file_is_unsupported() {
    assert_eq!(match_file_type("notes.txt", &no_dir()), SpectrumFileType::Unknown);
    assert_eq!(match_file_type("archive.tar.gz", &no_dir()), SpectrumFileType::Unknown);
}

#[test]
fn no_extension_plain_file_is_unsupported() {
    assert_eq!(match_file_type("plainfile", &no_dir()), SpectrumFileType::Unknown);
    assert_eq!(match_file_type("", &no_dir()), SpectrumFileType::Unknown);
}

#[test]
fn directory_with_bin_only_is_unsupported() {
    let entries = vec!["bin".to_string(), "txt".to_string()];
    assert_eq!(match_file_type("rawdir", &entries), SpectrumFileType::Unknown);
}

#[test]
fn directory_with_parquet_only_is_unsupported() {
    let entries = vec!["parquet".to_string()];
    assert_eq!(match_file_type("rawdir", &entries), SpectrumFileType::Unknown);
}

#[test]
fn directory_with_bin_and_parquet_is_vendor_format() {
    let entries = vec!["txt".to_string(), "bin".to_string(), "parquet".to_string()];
    assert_eq!(match_file_type("rawdir", &entries), SpectrumFileType::BrukerRaw);
}

#[test]
fn directory_check_applies_after_unknown_extension() {
    let entries = vec!["bin".to_string(), "parquet".to_string()];
    assert_eq!(match_file_type("run.data", &entries), SpectrumFileType::BrukerRaw);
}

#[test]
fn hidden_file_extension_still_counts() {
    assert_eq!(
        match_file_type(".mgf", &no_dir()),
        SpectrumFileType::MascotGenericFormat
    );
}

#[test]
fn only_the_final_extension_decides() {
    assert_eq!(match_file_type("a.mgf.txt", &no_dir()), SpectrumFileType::Unknown);
    assert_eq!(match_file_type("a.txt.mzml", &no_dir()), SpectrumFileType::MzML);
}

#[test]
fn supported_check_matches_classification() {
    assert!(is_supported_file_type("a.mgf", &no_dir()));
    assert!(is_supported_file_type("a.MzML", &no_dir()));
    assert!(is_supported_file_type("a.d", &no_dir()));
    assert!(!is_supported_file_type("a.xyz", &no_dir()));
    let entries = vec!["bin".to_string(), "parquet".to_string()];
    assert!(is_supported_file_type("rawdir", &entries));
}

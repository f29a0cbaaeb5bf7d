use uce::pdf_watch_config::{
    candidate_pdf_dirs, dedupe_office_watch_roots, effective_general_min_bytes, min_pdf_bytes,
    office_intercept_roots, PdfWatchConfig,
};

fn strings(v: &[&str]) -> Vec<String> {
    v.iter().map(|s| s.to_string()).collect()
}

fn pairs(v: &[(&str, &str)]) -> Vec<(String, String)> {
    v.iter().map(|(a, b)| (a.to_string(), b.to_string())).collect()
}

#[test]
fn size_floors() {
    let mut cfg = PdfWatchConfig::default();
    assert_eq!(effective_general_min_bytes(&cfg), 512);
    assert_eq!(min_pdf_bytes(&cfg), 64);
    cfg.general_min_file_bytes = Some(10);
    assert_eq!(effective_general_min_bytes(&cfg), 64);
    cfg.general_min_file_bytes = Some(4096);
    assert_eq!(effective_general_min_bytes(&cfg), 4096);
    cfg.min_pdf_bytes = Some(0);
    assert_eq!(min_pdf_bytes(&cfg), 0);
}

#[test]
fn office_roots_in_ccc_temp_mode() {
    let mut cfg = PdfWatchConfig::default();
    cfg.auto_discovered_ccc_dirs = strings(&[" C:\\CCC\\Work ", "  "]);
    cfg.auto_discovered_source_dirs = strings(&["D:\\Scans"]);
    let r = office_intercept_roots(
        "C:\\Users\\a\\AppData\\Local\\Temp\\CCC",
        true,
        &cfg,
        &strings(&["E:\\ignored"]),
        &strings(&["C:\\ignored"]),
        &pairs(&[("C:\\Users\\a\\Downloads", "general_downloads")]),
        &pairs(&[("C:\\FileWisely\\Scans", "scan_filewisely")]),
    );
    assert_eq!(
        r,
        pairs(&[
            ("C:\\Users\\a\\AppData\\Local\\Temp\\CCC", "ccc_temp"),
            ("C:\\CCC\\Work", "ccc_autodiscovered"),
            ("D:\\Scans", "source_autodiscovered"),
        ])
    );
}

#[test]
fn office_roots_in_full_mode() {
    let mut cfg = PdfWatchConfig::default();
    cfg.office_intercept_extra_dirs = strings(&[" F:\\Docs "]);
    cfg.auto_discovered_ccc_dirs = strings(&["C:\\CCC\\Work"]);
    let r = office_intercept_roots(
        "C:\\FileWisely\\Incoming",
        false,
        &cfg,
        &strings(&["G:\\Seed", ""]),
        &strings(&["C:\\CCC\\WORKFILES", "C:\\ProgramData\\CCCInformation Services"]),
        &pairs(&[("C:\\Users\\a\\Downloads", "general_downloads")]),
        &pairs(&[("C:\\FileWisely\\Scans", "scan_filewisely")]),
    );
    assert_eq!(
        r,
        pairs(&[
            ("C:\\FileWisely\\Incoming", "filewisely_incoming"),
            ("C:\\CCC\\WORKFILES", "ccc_workfiles"),
            ("C:\\ProgramData\\CCCInformation Services", "ccc_programdata"),
            ("C:\\Users\\a\\Downloads", "general_downloads"),
            ("F:\\Docs", "office_intercept_extra"),
            ("G:\\Seed", "office_intercept_extra"),
            ("C:\\CCC\\Work", "ccc_autodiscovered"),
            ("C:\\FileWisely\\Scans", "scan_filewisely"),
        ])
    );
    cfg.general_document_capture_enabled = false;
    let r2 = office_intercept_roots(
        "C:\\FileWisely\\Incoming",
        false,
        &cfg,
        &Vec::new(),
        &Vec::new(),
        &pairs(&[("C:\\Users\\a\\Downloads", "general_downloads")]),
        &Vec::new(),
    );
    assert!(r2.iter().all(|(_, rule)| rule != "general_downloads"));
}

#[test]
fn pdf_watch_dirs() {
    let cfg = PdfWatchConfig::default();
    let t = candidate_pdf_dirs(true, "C:\\T\\CCC", &cfg, &Vec::new(), &Vec::new(), &Vec::new());
    assert_eq!(t, strings(&["C:\\T\\CCC", "C:\\T\\CCC\\.uce_staging"]));
    let mut cfg = PdfWatchConfig::default();
    cfg.auto_discovered_source_dirs = strings(&[" D:\\Scans "]);
    let d = candidate_pdf_dirs(
        false,
        "C:\\T\\CCC",
        &cfg,
        &strings(&["C:\\CCC", "c:\\ccc"]),
        &strings(&["C:\\Users\\a\\Desktop"]),
        &strings(&["C:\\FileWisely\\Scans", "C:\\CCC"]),
    );
    assert_eq!(d, strings(&["C:\\CCC", "C:\\Users\\a\\Desktop", "C:\\FileWisely\\Scans", "D:\\Scans"]));
    cfg.general_document_capture_enabled = false;
    let d2 = candidate_pdf_dirs(false, "", &cfg, &Vec::new(), &strings(&["C:\\Users\\a\\Desktop"]), &Vec::new());
    assert_eq!(d2, strings(&["D:\\Scans"]));
}

#[test]
fn office_roots_keep_first_per_key() {
    let roots: Vec<(String, String, String)> = vec![
        ("C:\\A".to_string(), "r1".to_string(), "c:\\a".to_string()),
        ("C:\\a\\".to_string(), "r2".to_string(), "c:\\a".to_string()),
        ("C:\\B".to_string(), "r3".to_string(), "c:\\b".to_string()),
    ];
    assert_eq!(dedupe_office_watch_roots(&roots), pairs(&[("C:\\A", "r1"), ("C:\\B", "r3")]));
}

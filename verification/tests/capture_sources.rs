use uce::services::ccc_autodiscovery::{
    candidate_score_hundredths, is_ccc_named_dir, merge_ccc_dirs, safe_plausible_path,
};
use uce::services::local_ro_harvest::{
    file_key, harvest_copy_name, harvest_summary, harvest_unavailable, is_ccc_import_mirror,
    is_harvest_ext, looks_like_ro_folder_name, skips_harvest_dir, HarvestKind, HarvestRun,
    HarvestStep, MAX_FILES,
};
use uce::services::office_intercept::{extract_path_from_word_title, word_title_document_core};
use uce::services::source_autodiscovery::{
    autodiscovery_complete, autodiscovery_unavailable, is_capture_ext, is_scan_or_print_dialog,
    looks_like_scan_name, merge_discovered_dirs, safe_persistable_folder, should_ingest_harvest,
    temp_harvest_copy_name,
};

fn strings(v: &[&str]) -> Vec<String> {
    v.iter().map(|s| s.to_string()).collect()
}

#[test]
fn word_title_core_strips_word_suffixes() {
    assert_eq!(word_title_document_core("  C:\\ro\\a.docx - Word "), "C:\\ro\\a.docx");
    assert_eq!(word_title_document_core("C:\\ro\\a.docx \u{2013} Word"), "C:\\ro\\a.docx");
    assert_eq!(word_title_document_core("C:\\ro\\a.doc - Microsoft Word"), "C:\\ro\\a.doc");
    assert_eq!(word_title_document_core("Document1"), "Document1");
}

#[test]
fn word_title_path_needs_absolute_existing_word_file() {
    assert_eq!(
        extract_path_from_word_title("C:\\ro\\Estimate.DOCX - Word", true).as_deref(),
        Some("C:\\ro\\Estimate.DOCX")
    );
    assert_eq!(
        extract_path_from_word_title("\\\\srv\\share\\x.rtf - Word", true).as_deref(),
        Some("\\\\srv\\share\\x.rtf")
    );
    assert_eq!(extract_path_from_word_title("C:\\ro\\Estimate.docx - Word", false), None);
    assert_eq!(extract_path_from_word_title("Estimate.docx - Word", true), None);
    assert_eq!(extract_path_from_word_title("C:\\ro\\notes.txt - Word", true), None);
    assert_eq!(extract_path_from_word_title("C:\\a - Word", true), None);
}

#[test]
fn scan_and_print_dialogs_are_recognized() {
    assert!(is_scan_or_print_dialog("WINWORD", "Save Print Output As"));
    assert!(is_scan_or_print_dialog("explorer", "Windows Fax and Scan"));
    assert!(is_scan_or_print_dialog("Epson Scan 2", ""));
    assert!(!is_scan_or_print_dialog("chrome", "Inbox - Mail"));
}

#[test]
fn capture_files_and_scan_names() {
    assert!(is_capture_ext("C:\\x\\Scan.JPG"));
    assert!(is_capture_ext("C:\\x\\a.pdf"));
    assert!(!is_capture_ext("C:\\x\\a.docx"));
    assert!(looks_like_scan_name("C:\\Pictures\\IMG_0001.png"));
    assert!(looks_like_scan_name("C:\\Pictures\\image.png"));
    assert!(!looks_like_scan_name("C:\\Pictures\\holiday.png"));
}

#[test]
fn persistable_folders_exclude_system_and_temp() {
    assert!(!safe_persistable_folder("C:\\Windows\\System32"));
    assert!(!safe_persistable_folder("C:\\Program Files\\Epson\\out"));
    assert!(!safe_persistable_folder("C:\\Users\\a\\AppData\\Local\\Temp"));
    assert!(!safe_persistable_folder("C:\\Users\\a\\AppData\\Local\\Temp\\xyz"));
    assert!(safe_persistable_folder("C:\\Users\\a\\AppData\\Local\\Temp\\WIA_out"));
    assert!(safe_persistable_folder("C:\\Users\\a\\Pictures\\Scanned Documents"));
}

#[test]
fn harvest_ingest_and_temp_copies() {
    assert!(should_ingest_harvest("C:\\Users\\a\\Pictures\\Scanned Documents\\x.jpg"));
    assert!(should_ingest_harvest("C:\\Users\\a\\AppData\\Local\\Temp\\x.png"));
    assert!(!should_ingest_harvest("C:\\Users\\a\\Pictures\\holiday.png"));
    assert_eq!(
        temp_harvest_copy_name("C:\\Users\\a\\AppData\\Local\\Temp\\x.png", 1700).as_deref(),
        Some("wia_1700.png")
    );
    assert_eq!(
        temp_harvest_copy_name("C:\\Users\\a\\AppData\\Local\\Temp\\noext", 5).as_deref(),
        Some("wia_5.bin")
    );
    assert_eq!(temp_harvest_copy_name("C:\\Users\\a\\AppData\\Local\\Temp\\CCC\\x.pdf", 5), None);
    assert_eq!(temp_harvest_copy_name("C:\\Scans\\x.pdf", 5), None);
}

#[test]
fn discovered_folders_merge_without_repeats() {
    let before = strings(&["C:\\Scans\\A"]);
    let folders = strings(&["c:\\scans\\a", "C:\\Windows\\Temp\\x", "C:\\Scans\\B", "C:\\Scans\\B"]);
    let (merged, added) = merge_discovered_dirs(&before, &folders);
    assert_eq!(merged, strings(&["C:\\Scans\\A", "C:\\Scans\\B"]));
    assert_eq!(added, strings(&["C:\\Scans\\B"]));
}

#[test]
fn discovered_folders_stop_at_the_cap() {
    let before: Vec<String> = (0..40).map(|i| format!("C:\\d{i}")).collect();
    let folders = strings(&["C:\\new"]);
    let (merged, added) = merge_discovered_dirs(&before, &folders);
    assert_eq!(merged.len(), 40);
    assert!(added.is_empty());
}

#[test]
fn autodiscovery_reports() {
    let off = autodiscovery_unavailable("manual");
    assert!(!off.ok);
    assert_eq!(off.error.as_deref(), Some("Source autodiscovery is Windows-only"));
    assert!(off.no_new_dirs);
    let done = autodiscovery_complete(
        strings(&["C:\\b"]),
        &strings(&["C:\\b", "C:\\a", "C:\\b"]),
        strings(&["Epson"]),
        "startup",
    );
    assert!(done.ok);
    assert_eq!(done.candidates, strings(&["C:\\a", "C:\\b"]));
    assert!(!done.no_new_dirs);
    assert_eq!(done.trigger, "startup");
}

#[test]
fn ro_folder_names() {
    assert!(looks_like_ro_folder_name("RO 1234 Smith"));
    assert!(looks_like_ro_folder_name("Smith 12345"));
    assert!(looks_like_ro_folder_name("ro-77"));
    assert!(!looks_like_ro_folder_name("Smith 123"));
    assert!(!looks_like_ro_folder_name("Smith 12345678"));
    assert!(!looks_like_ro_folder_name("Photos"));
}

#[test]
fn harvest_kinds_and_mirror() {
    assert!(is_harvest_ext("C:\\a\\x.PDF") == Some(HarvestKind::Pdf));
    assert!(is_harvest_ext("C:\\a\\x.rtf") == Some(HarvestKind::Office));
    assert!(is_harvest_ext("C:\\a\\x.tiff") == Some(HarvestKind::Image));
    assert!(is_harvest_ext("C:\\a\\x.txt").is_none());
    assert!(is_ccc_import_mirror("C:\\FileWisely\\CCC Import\\RO1\\a.pdf"));
    assert!(!is_ccc_import_mirror("C:\\FileWisely\\Incoming\\a.pdf"));
    assert!(skips_harvest_dir(".UCE_STAGING"));
    assert!(skips_harvest_dir("Processed"));
    assert!(!skips_harvest_dir("RO1"));
    assert_eq!(file_key("C:\\A\\X.pdf", 10, 20), "c:\\a\\x.pdf:10:20");
    assert_eq!(harvest_copy_name("C:\\a\\x.JPG", 7), "harvest_7.JPG");
}

#[test]
fn harvest_run_queues_each_key_once() {
    let mut run = HarvestRun::new(strings(&["k-old"]));
    assert!(matches!(run.decide("C:\\x\\a.pdf", "k-old"), HarvestStep::SkipSeen));
    assert!(matches!(run.decide("C:\\x\\a.pdf", "k1"), HarvestStep::Ingest));
    run.note_queued("C:\\x\\a.pdf", "k1");
    assert!(matches!(run.decide("C:\\x\\a.pdf", "k1"), HarvestStep::SkipSeen));
    assert!(matches!(
        run.decide("C:\\x\\b.jpg", "k2"),
        HarvestStep::CopyThenIngest { to_scans: true }
    ));
    assert!(matches!(
        run.decide("C:\\x\\b.docx", "k3"),
        HarvestStep::CopyThenIngest { to_scans: false }
    ));
    assert!(matches!(
        run.decide("C:\\FileWisely\\CCC Import\\b.pdf", "k4"),
        HarvestStep::SkipMirror
    ));
    assert!(matches!(run.decide("C:\\x\\b.txt", "k5"), HarvestStep::SkipKind));
    assert_eq!(run.skipped_seen, 2);
    assert_eq!(run.skipped_mirror, 1);
    let s = harvest_summary(run, 9, strings(&["C:\\x"]));
    assert!(s.ok);
    assert_eq!(s.queued, strings(&["C:\\x\\a.pdf"]));
    assert_eq!(s.visits, 9);
    let off = harvest_unavailable();
    assert_eq!(off.error.as_deref(), Some("Local RO harvest is Windows-only"));
}

#[test]
fn harvest_run_stops_at_max_files() {
    let mut run = HarvestRun::new(Vec::new());
    for i in 0..MAX_FILES {
        let k = format!("k{i}");
        run.note_queued("C:\\x\\a.pdf", &k);
    }
    assert!(matches!(run.decide("C:\\x\\z.pdf", "kz"), HarvestStep::Stop));
}

#[test]
fn ccc_autodiscovery_scoring() {
    assert!(safe_plausible_path("C:\\CCC\\WORKFILES"));
    assert!(!safe_plausible_path("C:\\Program Files (x86)\\CCC\\"));
    assert!(is_ccc_named_dir("CCC ONE"));
    assert!(!is_ccc_named_dir("Photos"));
    assert_eq!(candidate_score_hundredths("ccc estimate.pdf", "pdf"), Some(81));
    assert_eq!(candidate_score_hundredths("estimate.txt", "txt"), Some(18));
    assert_eq!(candidate_score_hundredths("notes.txt", "txt"), None);
    assert_eq!(candidate_score_hundredths("report.pdf", "pdf"), Some(20));
    assert_eq!(
        candidate_score_hundredths("ccc estimate supplement claim invoice record.pdf", "pdf"),
        Some(100)
    );
    let (merged, added) = merge_ccc_dirs(&strings(&["C:\\CCC"]), &strings(&["c:\\ccc", "C:\\CCC\\Exports"]));
    assert_eq!(merged, strings(&["C:\\CCC", "C:\\CCC\\Exports"]));
    assert_eq!(added, strings(&["C:\\CCC\\Exports"]));
}

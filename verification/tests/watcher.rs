use uce::pdf_watch_config::PdfWatchConfig;
use uce::services::print_watcher::{
    debounce_ms, extension_kind, image_accepted_detail, office_after_rename,
    office_convert_failure, office_pipeline_plan, pdf_after_rename, poll_candidate_file,
    watch_path_decision, OfficePlan, PollSeen, SizeStability, WatchKind, WatchOutcome,
    WatchRefresh,
};

fn roots() -> Vec<(String, String)> {
    [
        ("C:\\FileWisely\\Incoming", "filewisely_incoming"),
        ("C:\\Users\\a\\Downloads", "general_downloads"),
        ("C:\\Users\\a\\Pictures\\Scanned Documents", "scan_pictures"),
        ("C:\\CCC\\WORKFILES", "ccc_workfiles"),
    ]
    .iter()
    .map(|(a, b)| (a.to_string(), b.to_string()))
    .collect()
}

fn outcome(o: &WatchOutcome) -> String {
    match o {
        WatchOutcome::CccTemp => "ccc_temp".to_string(),
        WatchOutcome::Rejected(r) => format!("rejected:{r}"),
        WatchOutcome::Ignored => "ignored".to_string(),
        WatchOutcome::Proceed => "proceed".to_string(),
    }
}

#[test]
fn kinds_of_paths() {
    assert_eq!(extension_kind("C:\\x\\a.PDF"), Some(WatchKind::Pdf));
    assert_eq!(extension_kind("C:\\x\\a.docx"), Some(WatchKind::Office));
    assert_eq!(extension_kind("C:\\x\\a.xlsx"), Some(WatchKind::Office));
    assert_eq!(extension_kind("C:\\x\\a.JPG"), Some(WatchKind::Image));
    assert_eq!(extension_kind("C:\\x\\a.tiff"), Some(WatchKind::Image));
    assert_eq!(extension_kind("C:\\x\\a.txt"), None);
    assert!(poll_candidate_file("C:\\T\\CCC\\a.pdf"));
    assert!(!poll_candidate_file("C:\\T\\CCC\\.UCE_STAGING\\a.pdf"));
    assert!(!poll_candidate_file("C:\\T\\CCC\\a.tmp"));
    assert_eq!(debounce_ms(true), 50);
    assert_eq!(debounce_ms(false), 300);
}

#[test]
fn ccc_temp_mode_routes_files_to_the_batch() {
    let cfg = PdfWatchConfig::default();
    let d = watch_path_decision("C:\\T\\CCC\\a.pdf", true, true, Some(10), &roots(), &cfg);
    assert_eq!(outcome(&d.outcome), "ccc_temp");
    let d = watch_path_decision("C:\\T\\CCC\\sub", false, true, None, &roots(), &cfg);
    assert_eq!(outcome(&d.outcome), "rejected:not_a_file_ccc_temp_mode");
    let d = watch_path_decision("C:\\T\\CCC\\.uce_staging\\a.pdf", true, true, Some(10), &roots(), &cfg);
    assert_eq!(outcome(&d.outcome), "rejected:uce_staging_internal");
}

#[test]
fn watched_paths_in_full_mode() {
    let cfg = PdfWatchConfig::default();
    let r = roots();
    let d = watch_path_decision("C:\\FileWisely\\Incoming\\notes.txt", true, false, Some(10), &r, &cfg);
    assert_eq!(outcome(&d.outcome), "rejected:no_pdf_office_image_extension");
    assert!(d.kind.is_none());
    let d = watch_path_decision("C:\\FileWisely\\Incoming\\a.pdf", true, false, Some(10), &r, &cfg);
    assert_eq!(outcome(&d.outcome), "proceed");
    assert_eq!(d.rule, "filewisely_incoming");
    assert!(d.ccc_seen);
    // General folders: ignore patterns, a size floor for PDFs, no Office documents.
    let d = watch_path_decision("C:\\Users\\a\\Downloads\\x.pdf.crdownload", true, false, Some(9999), &r, &cfg);
    assert_eq!(d.kind, None);
    let d = watch_path_decision("C:\\Users\\a\\Downloads\\~$doc.docx", true, false, Some(9999), &r, &cfg);
    assert_eq!(outcome(&d.outcome), "ignored");
    let d = watch_path_decision("C:\\Users\\a\\Downloads\\small.pdf", true, false, Some(100), &r, &cfg);
    assert_eq!(outcome(&d.outcome), "rejected:too_small bytes=100 min_b=512");
    assert_eq!(d.rule, "general_downloads");
    assert!(d.ccc_seen);
    let d = watch_path_decision("C:\\Users\\a\\Downloads\\big.pdf", true, false, Some(4096), &r, &cfg);
    assert_eq!(outcome(&d.outcome), "proceed");
    let d = watch_path_decision("C:\\Users\\a\\Downloads\\letter.docx", true, false, Some(4096), &r, &cfg);
    assert_eq!(outcome(&d.outcome), "rejected:office_skipped_general_folder");
    let d = watch_path_decision("C:\\CCC\\WORKFILES\\est.docx", false, false, None, &r, &cfg);
    assert_eq!(outcome(&d.outcome), "rejected:not_a_file_office_branch");
    let d = watch_path_decision("C:\\CCC\\WORKFILES\\est.docx", true, false, None, &r, &cfg);
    assert_eq!(outcome(&d.outcome), "proceed");
    assert_eq!(d.rule, "ccc_workfiles");
    assert!(!d.ccc_seen);
    // Images only from scan roots.
    let d = watch_path_decision("C:\\CCC\\WORKFILES\\photo.jpg", true, false, None, &r, &cfg);
    assert_eq!(outcome(&d.outcome), "rejected:image_not_from_scan_root");
    let d = watch_path_decision("C:\\Users\\a\\Pictures\\Scanned Documents\\s.png", true, false, None, &r, &cfg);
    assert_eq!(outcome(&d.outcome), "proceed");
    let d = watch_path_decision("C:\\Users\\a\\Pictures\\Scanned Documents\\s.png", false, false, None, &r, &cfg);
    assert_eq!(outcome(&d.outcome), "rejected:not_a_file_image_branch");
}

#[test]
fn after_the_rename() {
    assert_eq!(pdf_after_rename(false, true, "r"), Err("vanished_after_incoming_rename".to_string()));
    assert_eq!(pdf_after_rename(true, false, "r"), Err("not_stable_or_locked".to_string()));
    assert_eq!(pdf_after_rename(true, true, "r"), Ok("kind=pdf matched_rule=r".to_string()));
    assert_eq!(office_after_rename(false, "r"), Err("vanished_after_office_rename".to_string()));
    assert_eq!(office_after_rename(true, "r"), Ok("kind=office matched_rule=r".to_string()));
    assert_eq!(image_accepted_detail("scan_vendor"), "kind=image matched_rule=scan_vendor");
}

#[test]
fn size_stability() {
    let mut s = SizeStability::new();
    assert!(!s.observe(None, 1));
    assert!(!s.observe(Some(0), 1));
    assert!(!s.observe(Some(10), 1));
    assert!(!s.observe(Some(10), 1));
    assert!(!s.observe(Some(10), 1));
    assert!(s.observe(Some(10), 1));
    let mut s = SizeStability::new();
    assert!(!s.observe(Some(100), 64));
    assert!(!s.observe(Some(100), 64));
    assert!(!s.observe(Some(200), 64));
    assert_eq!(s.stable, 0);
    assert!(!s.observe(Some(200), 64));
    assert!(!s.observe(Some(10), 64));
    assert!(!s.observe(Some(200), 64));
    assert!(s.observe(Some(200), 64));
}

#[test]
fn root_refresh_and_polling() {
    let mut w = WatchRefresh::new(vec!["c:\\a".to_string()]);
    assert!(!w.tick());
    assert!(!w.tick());
    assert!(!w.tick());
    assert!(w.tick());
    assert!(!w.needs_watch("c:\\a"));
    assert!(w.needs_watch("c:\\b"));
    w.mark_watched("c:\\b");
    w.mark_watched("c:\\b");
    assert!(!w.needs_watch("c:\\b"));
    assert_eq!(w.watched.len(), 2);
    let mut p = PollSeen::new();
    assert!(p.first_sighting("fp1"));
    assert!(!p.first_sighting("fp1"));
    assert!(p.first_sighting("fp2"));
    assert!(!p.after_round());
    for i in 0..8000 {
        p.first_sighting(&format!("x{i}"));
    }
    assert!(p.after_round());
    assert!(p.seen.is_empty());
}

#[test]
fn office_pipeline() {
    assert!(matches!(office_pipeline_plan(false, true, true), OfficePlan::Skip(ref m) if m == "word_to_pdf_disabled"));
    assert!(matches!(office_pipeline_plan(true, false, true), OfficePlan::Skip(ref m) if m == "libreoffice_not_found"));
    assert!(matches!(office_pipeline_plan(true, true, false), OfficePlan::UseExistingPdf));
    assert!(matches!(office_pipeline_plan(true, true, true), OfficePlan::Convert));
    assert_eq!(office_convert_failure("duplicate office pipeline (skipped)", true, true), (true, false));
    assert_eq!(office_convert_failure("Could not claim C:\\a.docx after 34 attempts", true, true), (false, true));
    assert_eq!(office_convert_failure("Could not claim x", false, true), (false, false));
    assert_eq!(office_convert_failure("Could not claim x", true, false), (false, false));
    assert_eq!(office_convert_failure("soffice failed", true, true), (false, false));
}

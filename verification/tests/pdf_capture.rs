use uce::pdf_capture::{
    capture_message, collect_fw_pdf_metas_in_filewisely_incoming, collect_pdf_metas_since,
    fw_pdf_error_sidecar, fw_pdf_outcome_dest, fw_pdf_outcome_target, is_pdf_path,
    newest_pdf_meta_since, newest_pdf_since, read_pdf_file, read_pdf_precheck,
    recent_pdf_response, recent_pdf_step, recent_pdf_timeout_secs, sort_pdf_metas, PdfDirEntry,
    PdfMeta, RecentPdfStep,
};
use uce::services::popup_log::{popup_log_line, read_last_n_lines, sanitize_for_log};
use uce::timestamps::{log_stamp_millis, log_stamp_seconds};

fn entry(path: &str, ts: Option<i64>, size: Option<u64>) -> PdfDirEntry {
    PdfDirEntry { path: path.to_string(), modified_unix_ms: ts, size, is_file: true }
}

fn keys(v: &[PdfMeta]) -> Vec<(String, i64)> {
    v.iter().map(|m| (m.file_path.clone(), m.modified_unix_ms)).collect()
}

#[test]
fn pdf_extensions() {
    assert!(is_pdf_path("C:\\a\\b.PDF"));
    assert!(is_pdf_path("C:\\a\\b.pdf"));
    assert!(!is_pdf_path("C:\\a\\b.pdf.tmp"));
    assert!(!is_pdf_path("C:\\a\\pdf"));
}

#[test]
fn newest_recent_pdf() {
    let entries = vec![
        entry("C:\\w\\old.pdf", Some(50), Some(1000)),
        entry("C:\\w\\a.pdf", Some(200), Some(1000)),
        entry("C:\\w\\tiny.pdf", Some(900), Some(64)),
        entry("C:\\w\\b.PDF", Some(200), Some(2000)),
        entry("C:\\w\\c.docx", Some(999), Some(5000)),
        entry("C:\\w\\nometa.pdf", None, Some(5000)),
        entry("C:\\w\\d.pdf", Some(150), None),
    ];
    let m = newest_pdf_meta_since(&entries, 100, 64).unwrap();
    // Of the two newest at 200, the first listed wins.
    assert_eq!(m.file_path, "C:\\w\\a.pdf");
    assert_eq!(m.modified_unix_ms, 200);
    assert_eq!(m.file_size, 1000);
    assert_eq!(newest_pdf_since(&entries, 100, 64).as_deref(), Some("C:\\w\\a.pdf"));
    assert!(newest_pdf_meta_since(&entries, 1000, 64).is_none());
}

#[test]
fn recent_pdfs_in_time_then_path_order() {
    let entries = vec![
        entry("C:\\w\\z.pdf", Some(300), Some(100)),
        entry("C:\\w\\b.pdf", Some(200), Some(100)),
        entry("C:\\w\\a.pdf", Some(200), Some(100)),
        entry("C:\\w\\early.pdf", Some(10), Some(100)),
        entry("C:\\w\\x.txt", Some(250), Some(100)),
    ];
    let v = collect_pdf_metas_since(&entries, 100, 64);
    assert_eq!(
        keys(&v),
        vec![
            ("C:\\w\\a.pdf".to_string(), 200),
            ("C:\\w\\b.pdf".to_string(), 200),
            ("C:\\w\\z.pdf".to_string(), 300),
        ]
    );
    assert!(collect_pdf_metas_since(&Vec::new(), 0, 0).is_empty());
}

#[test]
fn sorting_is_by_time_then_path() {
    let m = |p: &str, t: i64, s: u64| PdfMeta { file_path: p.to_string(), modified_unix_ms: t, file_size: s };
    let v = vec![m("b", 5, 1), m("a", 5, 2), m("c", -1, 3), m("a", 5, 9), m("B", 5, 4)];
    let r = sort_pdf_metas(&v);
    let got: Vec<(&str, i64, u64)> = r.iter().map(|x| (x.file_path.as_str(), x.modified_unix_ms, x.file_size)).collect();
    assert_eq!(got, vec![("c", -1, 3), ("B", 5, 4), ("a", 5, 2), ("a", 5, 9), ("b", 5, 1)]);
}

#[test]
fn fw_files_in_incoming() {
    let mut dir = entry("C:\\FileWisely\\Incoming\\fw_dir.pdf", Some(1), Some(500));
    dir.is_file = false;
    let entries = vec![
        entry("C:\\FileWisely\\Incoming\\FW_2.pdf", Some(20), Some(500)),
        entry("C:\\FileWisely\\Incoming\\fw_1.pdf", Some(10), Some(500)),
        entry("C:\\FileWisely\\Incoming\\scan.pdf", Some(5), Some(500)),
        entry("C:\\FileWisely\\Incoming\\fw_small.pdf", Some(5), Some(64)),
        entry("C:\\FileWisely\\Incoming\\fw_notime.pdf", None, Some(500)),
        dir,
    ];
    let v = collect_fw_pdf_metas_in_filewisely_incoming(&entries, 64);
    assert_eq!(
        keys(&v),
        vec![
            ("C:\\FileWisely\\Incoming\\fw_1.pdf".to_string(), 10),
            ("C:\\FileWisely\\Incoming\\FW_2.pdf".to_string(), 20),
        ]
    );
}

#[test]
fn reading_a_pdf_for_the_ui() {
    assert_eq!(read_pdf_precheck("C:\\a.pdf", false), Err("PDF file not found".to_string()));
    assert_eq!(read_pdf_precheck("C:\\a.txt", true), Err("File is not a PDF".to_string()));
    assert_eq!(read_pdf_precheck("C:\\a.Pdf", true), Ok(()));
    let r = read_pdf_file("C:\\a.pdf", b"hello", 42);
    assert!(r.success);
    assert_eq!(r.image_base64, "aGVsbG8=");
    assert_eq!(r.file_path, "C:\\a.pdf");
    assert_eq!(r.message, "PDF captured from background watcher.");
    assert_eq!(r.captured_at_unix_ms, 42);
    assert_eq!(read_pdf_file("x.pdf", b"Man", 0).image_base64, "TWFu");
    assert_eq!(read_pdf_file("x.pdf", &[0xff, 0xfe], 0).image_base64, "//4=");
    assert_eq!(read_pdf_file("x.pdf", b"", 0).image_base64, "");
    assert_eq!(recent_pdf_response("x.pdf", b"%PDF-1.7", 1).image_base64, "JVBERi0xLjc=");
    assert_eq!(recent_pdf_response("x.pdf", b"", 1).message, "PDF captured from recent export.");
}

#[test]
fn waiting_for_a_recent_export() {
    assert_eq!(recent_pdf_timeout_secs(None), 30);
    assert_eq!(recent_pdf_timeout_secs(Some(3)), 10);
    assert_eq!(recent_pdf_timeout_secs(Some(90)), 60);
    assert_eq!(recent_pdf_timeout_secs(Some(45)), 45);
    match recent_pdf_step(Some("C:\\a.pdf".to_string()), 99_999, 0, 10) {
        RecentPdfStep::Found(p) => assert_eq!(p, "C:\\a.pdf"),
        _ => panic!("expected Found"),
    }
    match recent_pdf_step(None, 9_999, 0, 10) {
        RecentPdfStep::Sleep(ms) => assert_eq!(ms, 500),
        _ => panic!("expected Sleep"),
    }
    match recent_pdf_step(None, 10_000, 0, 10) {
        RecentPdfStep::GiveUp(e) => assert_eq!(e, "No PDF found within 10s"),
        _ => panic!("expected GiveUp"),
    }
    assert_eq!(
        capture_message("chrome.exe", "CCC ONE", "ccc_estimate"),
        "Capture completed.\nApp: chrome.exe\nTitle: CCC ONE\nRule: ccc_estimate"
    );
}

#[test]
fn moving_uploaded_pdfs() {
    let src = "C:\\FileWisely\\Incoming\\fw_abc.pdf";
    assert_eq!(
        fw_pdf_outcome_target(src, true, true, "processed"),
        Ok(("C:\\FileWisely\\Processed".to_string(), "fw_abc.pdf".to_string()))
    );
    assert_eq!(
        fw_pdf_outcome_target(src, true, true, "failed"),
        Ok(("C:\\FileWisely\\Failed".to_string(), "fw_abc.pdf".to_string()))
    );
    assert_eq!(
        fw_pdf_outcome_target(src, false, true, "failed"),
        Err(format!("source not found or not a file: {src}"))
    );
    assert_eq!(
        fw_pdf_outcome_target("C:\\FileWisely\\Incoming\\scan.pdf", true, true, "failed"),
        Err("uce_move_fw_pdf_outcome: only fw_*.pdf under Incoming".to_string())
    );
    assert_eq!(
        fw_pdf_outcome_target("D:\\fw_x.pdf", true, false, "failed"),
        Err("path must be under C:\\FileWisely\\Incoming: D:\\fw_x.pdf".to_string())
    );
    assert_eq!(
        fw_pdf_outcome_target(src, true, true, "done"),
        Err("outcome must be processed or failed, got done".to_string())
    );
    assert_eq!(fw_pdf_outcome_dest(src, "C:\\FileWisely\\Failed", false, 7), "C:\\FileWisely\\Failed\\fw_abc.pdf");
    assert_eq!(fw_pdf_outcome_dest(src, "C:\\FileWisely\\Failed", true, 7), "C:\\FileWisely\\Failed\\fw_abc_7.pdf");
    assert_eq!(
        fw_pdf_error_sidecar("C:\\FileWisely\\Failed\\fw_abc_7.pdf", "C:\\FileWisely\\Failed", None),
        ("C:\\FileWisely\\Failed\\fw_abc_7.error.json".to_string(), "{\"error\":\"unknown\"}".to_string())
    );
    assert_eq!(
        fw_pdf_error_sidecar("C:\\FileWisely\\Failed\\fw_abc.pdf", "C:\\FileWisely\\Failed", Some("{}".to_string())).1,
        "{}"
    );
}

#[test]
fn log_stamps_come_from_chrono() {
    assert_eq!(log_stamp_seconds(947_638_923_004).as_deref(), Some("2000-01-12T01:02:03Z"));
    assert_eq!(log_stamp_millis(947_638_923_004).as_deref(), Some("2000-01-12T01:02:03.004Z"));
    assert_eq!(log_stamp_seconds(0).as_deref(), Some("1970-01-01T00:00:00Z"));
    assert!(log_stamp_seconds(i64::MAX).is_none());
}

#[test]
fn popup_log_lines() {
    assert_eq!(sanitize_for_log("a|b\r\nc"), "a\u{a6}b  c");
    assert_eq!(
        popup_log_line("2000-01-12T01:02:03.004Z", "error", "upload", "bad|thing\nhappened"),
        "2000-01-12T01:02:03.004Z | error | upload | bad\u{a6}thing happened\n"
    );
    let raw = "one\r\n\n   \ntwo  \nthree";
    assert_eq!(read_last_n_lines(raw, 2), vec!["two".to_string(), "three".to_string()]);
    assert_eq!(read_last_n_lines(raw, 10), vec!["one".to_string(), "two".to_string(), "three".to_string()]);
    assert!(read_last_n_lines("", 5).is_empty());
    assert!(read_last_n_lines("x\n", 0).is_empty());
}

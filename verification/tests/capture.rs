use uce::pdf_watch_config::{OfficeIngestionMode, PdfWatchConfig};
use uce::services::capture_context::{
    build_capture_context, is_unknown_field, snapshot_foreground, CaptureContext,
};
use uce::services::foreground_telemetry::{
    format_foreground_line, sharing_violation_process_hint, ForegroundSnapshot, WinwordForeground,
};
use uce::services::incoming_emit::{incoming_pdf_event, is_fw_incoming_pdf_path};
use uce::services::js_runtime_diag::JsRuntimeDiagSnapshot;
use uce::services::office_printer_route::{
    office_print_precheck, printer_route_outcome, printer_route_plan, word_print_result,
    word_print_script, OfficePrinterFirstResult, PrinterRoutePlan, RoutedDocuments, ROUTE_TTL_MS,
};

fn snap(exe: &str, app: &str, title: &str) -> ForegroundSnapshot {
    ForegroundSnapshot {
        exe_token: exe.to_string(),
        process_id: 4242,
        app_name: app.to_string(),
        title_short: title.to_string(),
        process_path: format!("C:\\Program Files\\{exe}"),
    }
}

fn fg(app: &str, title: &str) -> CaptureContext {
    CaptureContext {
        source_app: app.to_string(),
        window_title: title.to_string(),
        foreground_sampled_at_unix_ms: Some(77),
        watch_folder_rule: None,
        trigger_kind: None,
    }
}

#[test]
fn unknown_fields() {
    assert!(is_unknown_field(""));
    assert!(is_unknown_field("   "));
    assert!(is_unknown_field(" Unknown "));
    assert!(!is_unknown_field("Word"));
}

#[test]
fn foreground_samples() {
    let s = snap("WINWORD.EXE", "Microsoft Word", "Doc1 - Word");
    let c = snapshot_foreground(Some(&s), 10);
    assert_eq!(c.source_app, "Microsoft Word");
    assert_eq!(c.window_title, "Doc1 - Word");
    assert_eq!(c.foreground_sampled_at_unix_ms, Some(10));
    assert!(c.watch_folder_rule.is_none() && c.trigger_kind.is_none());
    let blank = snap("acrobat.exe", " ", "");
    let c2 = snapshot_foreground(Some(&blank), 11);
    assert_eq!(c2.source_app, "acrobat.exe");
    assert_eq!(c2.window_title, "unknown");
    let c3 = snapshot_foreground(None, 12);
    assert_eq!(c3.source_app, "unknown");
    assert_eq!(c3.window_title, "unknown");
}

#[test]
fn capture_context_with_rules() {
    let p = Some("C:\\Scans\\invoice.pdf");
    // Informative foreground: kept, rule attached.
    let c = build_capture_context(fg("Word", "Doc1"), p, "watch", Some("scans"), None);
    assert_eq!(c.source_app, "Word");
    assert_eq!(c.window_title, "Doc1");
    assert_eq!(c.watch_folder_rule.as_deref(), Some("scans"));
    assert_eq!(c.trigger_kind.as_deref(), Some("watch"));
    assert_eq!(c.foreground_sampled_at_unix_ms, Some(77));
    // Nothing known from the foreground: the folder rule and file name stand in.
    let c2 = build_capture_context(fg("unknown", ""), p, "watch", Some("unknown"), Some("ccc_temp"));
    assert_eq!(c2.source_app, "folder:ccc_temp");
    assert_eq!(c2.window_title, "invoice.pdf");
    assert_eq!(c2.watch_folder_rule.as_deref(), Some("ccc_temp"));
    // Only the title unknown: the file name replaces it.
    let c3 = build_capture_context(fg("Word", "unknown"), p, "print", Some("r1"), None);
    assert_eq!(c3.source_app, "Word");
    assert_eq!(c3.window_title, "invoice.pdf");
    // No rule at all and nothing known.
    let c4 = build_capture_context(fg("", ""), p, "watch", None, Some("unknown"));
    assert_eq!(c4.source_app, "folder:watched_folder");
    assert_eq!(c4.window_title, "invoice.pdf");
    assert_eq!(c4.watch_folder_rule.as_deref(), Some("watched_folder"));
    // No rule, informative foreground: no rule recorded.
    let c5 = build_capture_context(fg("Word", "Doc1"), p, "watch", None, None);
    assert!(c5.watch_folder_rule.is_none());
}

#[test]
fn incoming_events() {
    assert!(is_fw_incoming_pdf_path("C:\\FileWisely\\Incoming\\FW_abc.PDF"));
    assert!(!is_fw_incoming_pdf_path("C:\\FileWisely\\Incoming\\scan.pdf"));
    assert!(!is_fw_incoming_pdf_path("C:\\FileWisely\\Incoming\\fw_abc.docx"));
    let e = incoming_pdf_event("C:\\x\\a.pdf".to_string(), Some(5), Some(100), fg("Word", "Doc1"));
    assert_eq!(e.path, "C:\\x\\a.pdf");
    assert_eq!(e.kind, "pdf");
    assert_eq!(e.modified_unix_ms, Some(5));
    assert_eq!(e.file_size, Some(100));
    assert_eq!(e.capture_context.unwrap().source_app, "Word");
}

#[test]
fn js_runtime_state() {
    let mut d = JsRuntimeDiagSnapshot::new();
    assert!(d.js_upload_listener_registered_unix_ms.is_none());
    d.set_upload_listener_ready(1);
    d.record_incoming_pdf_event("a.pdf".to_string(), 2);
    d.record_upload_skip("duplicate".to_string());
    d.record_popup("error".to_string(), "upload".to_string(), Some("boom".to_string()), 3);
    let s = d.snapshot();
    assert_eq!(s.js_upload_listener_registered_unix_ms, Some(1));
    assert_eq!(s.last_js_incoming_pdf_at_unix_ms, Some(2));
    assert_eq!(s.last_js_incoming_pdf_path.as_deref(), Some("a.pdf"));
    assert_eq!(s.last_upload_skip_reason.as_deref(), Some("duplicate"));
    assert_eq!(s.last_popup_kind.as_deref(), Some("error"));
    assert_eq!(s.last_popup_source.as_deref(), Some("upload"));
    assert_eq!(s.last_popup_message_preview.as_deref(), Some("boom"));
    assert_eq!(s.last_popup_at_unix_ms, Some(3));
}

#[test]
fn foreground_lines_and_hints() {
    let s = snap("WINWORD.EXE", "Microsoft Word", "Doc1");
    assert_eq!(
        format_foreground_line("claim", &s),
        "[UCE] foreground claim: class=WINWORD exe=WINWORD.EXE pid=4242 app_name=Microsoft Word title=\"Doc1\" path=C:\\Program Files\\WINWORD.EXE"
    );
    assert_eq!(
        sharing_violation_process_hint(Some(&s)),
        "likely_locker_hint class=WINWORD exe=WINWORD.EXE pid=4242 title=\"Doc1\""
    );
    assert_eq!(
        sharing_violation_process_hint(None),
        "likely_locker_hint=(foreground unavailable)"
    );
    let mut w = WinwordForeground::new();
    assert_eq!(w.last_winword_foreground_unix_ms(), 0);
    w.record_winword_if_class(&snap("explorer.exe", "Explorer", "Files"), 10);
    assert_eq!(w.last_winword_foreground_unix_ms(), 0);
    w.record_winword_if_class(&s, 20);
    assert_eq!(w.last_winword_foreground_unix_ms(), 20);
}

#[test]
fn printer_routing_plan() {
    let mut cfg = PdfWatchConfig::default();
    assert_eq!(printer_route_plan(true, &cfg), PrinterRoutePlan::SkipDuplicateWindow);
    assert_eq!(printer_route_plan(false, &cfg), PrinterRoutePlan::PrintSilently);
    cfg.office_auto_print_silent = false;
    assert_eq!(printer_route_plan(false, &cfg), PrinterRoutePlan::NoSilentPrint);
    cfg.office_ingestion_mode = OfficeIngestionMode::StagingConvert;
    assert_eq!(printer_route_plan(false, &cfg), PrinterRoutePlan::Staging);
    assert_eq!(printer_route_outcome(true, true), (OfficePrinterFirstResult::HandledByPrinter, false));
    assert_eq!(printer_route_outcome(false, true), (OfficePrinterFirstResult::FallThroughToStaging, true));
    assert_eq!(printer_route_outcome(false, false), (OfficePrinterFirstResult::FallThroughToStaging, false));
}

#[test]
fn routed_documents_window() {
    let mut r = RoutedDocuments::new();
    assert!(!r.office_printer_recently_routed("doc-a", 1_000));
    r.mark_office_printer_routed("doc-a", 1_000);
    assert!(r.office_printer_recently_routed("doc-a", 1_000 + ROUTE_TTL_MS - 1));
    assert!(!r.office_printer_recently_routed("doc-b", 2_000));
    assert!(!r.office_printer_recently_routed("doc-a", 1_000 + ROUTE_TTL_MS));
    assert!(r.routed.is_empty());
    r.mark_office_printer_routed("doc-a", 5);
    r.mark_office_printer_routed("doc-a", 6);
    assert_eq!(r.routed.len(), 1);
    assert_eq!(r.routed[0].1, 6);
}

#[test]
fn word_print_checks_and_results() {
    assert_eq!(office_print_precheck("C:\\a\\b.DOCX", true), Ok(()));
    assert_eq!(office_print_precheck("C:\\a\\b.rtf", true), Ok(()));
    assert_eq!(office_print_precheck("C:\\a\\b.docx", false), Err("path is not a file".to_string()));
    assert_eq!(
        office_print_precheck("C:\\a\\b.PDF", true),
        Err("not an Office document extension: pdf".to_string())
    );
    assert_eq!(
        office_print_precheck("C:\\a\\noext", true),
        Err("not an Office document extension: ".to_string())
    );
    assert_eq!(word_print_result(true, " OK\n", "", "exit code: 0", "FileWisely Printer"), Ok(()));
    assert_eq!(
        word_print_result(false, "PRINTER_NOT_FOUND", "", "exit code: 2", "FileWisely Printer"),
        Err("printer 'FileWisely Printer' not found".to_string())
    );
    assert_eq!(
        word_print_result(false, " nope ", " err ", "exit code: 1", "P"),
        Err("word_print exit=exit code: 1 stdout=nope stderr=err".to_string())
    );
    let script = word_print_script("C:\\Bob's\\a.docx", "FileWisely Printer");
    assert!(script.starts_with("\n$ErrorActionPreference = 'Stop'\n$docPath = 'C:\\Bob''s\\a.docx'\n$want = 'FileWisely Printer'\n"));
    assert!(script.contains("$doc.PrintOut($true)"));
    assert!(script.ends_with("Write-Output 'OK'\nexit 0\n"));
}

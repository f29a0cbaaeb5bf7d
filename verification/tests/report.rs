use uce::diagnostic_report::{format_capture_pipeline_plain, format_ccc_writer_plain, ReportPart};
use uce::json::Json;

fn s(x: &str) -> Json {
    Json::Str(x.to_string())
}

fn n(x: &str) -> Json {
    Json::Number(x.to_string())
}

fn obj(entries: Vec<(&str, Json)>) -> Json {
    let mut v: Vec<(String, Json)> = entries.into_iter().map(|(k, v)| (k.to_string(), v)).collect();
    v.sort_by(|a, b| a.0.cmp(&b.0));
    Json::Object(v)
}

fn render(parts: &[ReportPart]) -> String {
    let mut out = String::new();
    for p in parts {
        match p {
            ReportPart::Text(t) => out.push_str(t),
            ReportPart::PrettyOf(k) => out.push_str(&format!("<{k}>")),
            ReportPart::PrettyAll => out.push_str("<all>"),
            ReportPart::Confidence => out.push_str("<conf>"),
        }
    }
    out
}

#[test]
fn ccc_writer_section_defaults() {
    let text = format_ccc_writer_plain(&Json::Null);
    assert_eq!(
        text,
        "=== CCC Import writer (cloud \u{2192} local) ===\nccc_import_root: ?\nccc_import_writable: false\nclaim_offline: false\nsync_paused: false\nlast_claim_error: (none)\nlast_write_error: (none)\nlast_write_unix_ms: 0\nsyncing_count: 0\nlast_claim_batch_count: 0\nlast_claim_parsed_unix_ms: 0\nlast_ack_ok_count: 0\nlast_ack_fail_count: 0\nlast_ack_ok_unix_ms: 0\nlast_ack_error: (none)\n\n"
    );
}

#[test]
fn ccc_writer_section_values() {
    let cw = obj(vec![
        ("ccc_import_root", s("C:\\FileWisely\\CCC Import")),
        ("ccc_import_writable", Json::Bool(true)),
        ("sync_paused", Json::Bool(true)),
        ("last_write_unix_ms", n("-5")),
        ("syncing_count", n("3")),
        ("last_ack_ok_count", n("-1")),
        ("last_claim_batch_count", n("2.5")),
        ("last_ack_error", s("timeout")),
    ]);
    let text = format_ccc_writer_plain(&cw);
    assert!(text.contains("ccc_import_root: C:\\FileWisely\\CCC Import\n"));
    assert!(text.contains("ccc_import_writable: true\n"));
    assert!(text.contains("claim_offline: false\n"));
    assert!(text.contains("sync_paused: true\n"));
    assert!(text.contains("last_write_unix_ms: -5\n"));
    assert!(text.contains("syncing_count: 3\n"));
    // Negative and fractional counts print as 0, as unsigned reads of them fail.
    assert!(text.contains("last_ack_ok_count: 0\n"));
    assert!(text.contains("last_claim_batch_count: 0\n"));
    assert!(text.contains("last_ack_error: timeout\n"));
}

#[test]
fn capture_pipeline_section_on_empty_snapshot() {
    let parts = format_capture_pipeline_plain(&obj(vec![]));
    let text = render(&parts);
    assert!(text.starts_with("capture_pipeline_status: \ncapture_pipeline_failure_detail: (none)\n"));
    assert!(text.contains("ccc_temp_watch_only_env (UCE_CCC_TEMP_WATCH_ONLY): (missing)\n"));
    assert!(!text.contains("printer_alert"));
    assert!(text.contains("--- pipeline stage rings (recent, Connection Doctor JSON keys) ---\ngeneral_document_capture_enabled: (missing)\n"));
    assert!(text.contains("ccc_autodiscovery_last_run_unix_ms: (never)\nccc_autodiscovery_confidence: <conf>\n"));
    assert!(text.contains("watch_root_count: (missing)\nwatch_roots:\n  (missing)\n"));
    assert!(text.ends_with("trace_hints:\n  (missing)\n\n--- capture_pipeline (full JSON) ---\n<all>\n"));
}

#[test]
fn capture_pipeline_section_with_values() {
    let cp = obj(vec![
        ("capture_pipeline_status", s("ok")),
        ("capture_pipeline_failure_detail", s("")),
        ("ccc_temp_watch_only_env", Json::Bool(true)),
        ("printer_alert", obj(vec![])),
        ("last_copy_failures", Json::Array(vec![])),
        ("last_detected_files", Json::Array(vec![])),
        ("general_document_capture_enabled", Json::Bool(false)),
        ("auto_discovered_ccc_dirs", Json::Array(vec![])),
        ("ccc_autodiscovery_last_run_unix_ms", n("1700")),
        ("ccc_autodiscovery_candidates", Json::Array(vec![s("C:\\a"), n("1"), s("C:\\b")])),
        ("watch_root_count", n("2")),
        (
            "watch_roots",
            Json::Array(vec![obj(vec![("path", s("C:\\in")), ("rule", s("incoming"))]), obj(vec![])]),
        ),
        ("last_files_seen_ring_buffer", Json::Array(vec![])),
        ("last_20_ccc_files_seen", Json::Array(vec![s("x.pdf")])),
        ("trace_hints", Json::Array(vec![s("hint one")])),
    ]);
    let text = render(&format_capture_pipeline_plain(&cp));
    assert!(text.starts_with("capture_pipeline_status: ok\ncapture_pipeline_failure_detail: (none)\n"));
    assert!(text.contains("ccc_temp_watch_only_env (UCE_CCC_TEMP_WATCH_ONLY): true\nprinter_alert (policy snapshot):\n<printer_alert>\n"));
    // Rings come in report order, whatever the object's order.
    assert!(text.contains("last_detected_files:\n<last_detected_files>\n\nlast_copy_failures:\n<last_copy_failures>\n\ngeneral_document_capture_enabled: false\n"));
    assert!(text.contains("auto_discovered_ccc_dirs (persisted in uce-pdf-watch.json):\n  (none)\nccc_autodiscovery_last_run_unix_ms: 1700\n"));
    assert!(text.contains("ccc_autodiscovery_candidates (sample):\n  - C:\\a\n  - C:\\b\nwatch_root_count: 2\n"));
    assert!(text.contains("watch_roots:\n  [1] C:\\in  (rule=incoming)\n  [2] ?  (rule=?)\n"));
    assert!(text.contains("(CCC-related, chronological):\n  (empty \u{2014} no CCC-related files recorded yet this session)\n"));
    assert!(text.contains("last_20_ccc_files_seen:\n  - x.pdf\ntrace_hints:\n  - hint one\n"));
}

use uce::connection_diagnostics::heartbeat_body;
use uce::json::Json;
use uce::connection_diagnostics::{
    categorize_http_status, connection_test_log_line, connection_test_precheck, fail_test,
    heartbeat_config_error, heartbeat_from_response, heartbeat_network_error, heartbeat_precheck,
    heartbeat_stale, ingest_host, mask_secret, missing_config_categories, outcome_error_text,
    outcome_from_payload, push_recent_log, rust_heartbeat_due, saturating_sub_i64,
    test_outcome_record, test_result_from_outcome, url_looks_like_loaded_app_ui,
    url_overlay_classification, RecordOutcomePayload, RECENT_LOG_MAX,
};
use uce::tenant_config::TenantConfig;

const BID: &str = "550e8400-e29b-41d4-a716-446655440000";

fn cfg(b: &str, u: &str, k: &str) -> TenantConfig {
    TenantConfig { business_id: b.to_string(), backend_url: u.to_string(), anon_key: k.to_string() }
}

#[test]
fn saturating_and_staleness() {
    assert_eq!(saturating_sub_i64(i64::MIN, 1), i64::MIN);
    assert_eq!(saturating_sub_i64(i64::MAX, -1), i64::MAX);
    assert!(!heartbeat_stale(0, 10_000_000));
    assert!(heartbeat_stale(1_000, 1_000 + 720_001));
    assert!(!heartbeat_stale(1_000, 1_000 + 720_000));
}

#[test]
fn http_categories() {
    assert_eq!(categorize_http_status(401), "HTTP_401");
    assert_eq!(categorize_http_status(403), "HTTP_403");
    assert_eq!(categorize_http_status(404), "HTTP_404");
    assert_eq!(categorize_http_status(503), "HTTP_500");
    assert_eq!(categorize_http_status(418), "UNKNOWN");
}

#[test]
fn secrets_are_masked() {
    assert_eq!(mask_secret("   "), "(empty)");
    assert_eq!(mask_secret(" short "), "***");
    assert_eq!(mask_secret("abcdefghijklmnop"), "abcdef\u{2026}mnop");
}

#[test]
fn webview_urls() {
    assert!(url_looks_like_loaded_app_ui("http://TAURI.localhost/index.html"));
    assert!(url_looks_like_loaded_app_ui("http://127.0.0.1:5173/"));
    assert!(!url_looks_like_loaded_app_ui("https://example.com"));
    assert_eq!(url_overlay_classification("chrome-error://chromewebdata/"), "chrome_error_page");
    assert_eq!(url_overlay_classification(" about:blank "), "about_blank");
    assert_eq!(url_overlay_classification("tauri://localhost"), "app_ui");
    assert_eq!(url_overlay_classification("https://example.com"), "other");
}

#[test]
fn heartbeat_prechecks() {
    let e = heartbeat_precheck(&cfg(BID, "", "k"), "uce-device-1", 5).unwrap_err();
    assert_eq!(e.category, "MISSING_CONFIG");
    assert_eq!(e.message, "tenant not fully configured");
    assert_eq!(e.last_unix_ms, 5);
    let e = heartbeat_precheck(&cfg("nope", "https://x", "k"), "uce-device-1", 5).unwrap_err();
    assert_eq!(e.category, "CONTRACT_INVALID");
    assert_eq!(e.message, "contract validation failed: business_id must be a UUID");
    assert!(heartbeat_precheck(&cfg(BID, "https://x", "k"), "uce-device-1", 5).is_ok());
    let c = heartbeat_config_error("bad json", 9);
    assert_eq!(c.category, "CONFIG_ERROR");
    assert!(!c.success);
}

#[test]
fn heartbeat_outcomes() {
    let (ok, line) = heartbeat_from_response(204, "abc", 7);
    assert!(ok.success);
    assert_eq!(ok.category, "HEARTBEAT_OK");
    assert_eq!(ok.http_status, Some(204));
    assert_eq!(line, "rust heartbeat OK http=204 body_len=3");
    let body = "z".repeat(2500);
    let (bad, line) = heartbeat_from_response(500, &body, 7);
    assert!(!bad.success);
    assert_eq!(bad.category, "HTTP_500");
    assert_eq!(bad.message.len(), 2000);
    assert_eq!(line, "rust heartbeat failed http=500 category=HTTP_500");
    assert_eq!(outcome_error_text(&bad).unwrap(), format!("heartbeat HTTP_500: {}", "z".repeat(2000)));
    assert_eq!(outcome_error_text(&ok), None);
    let (net, l) = heartbeat_network_error("dns", true, 3);
    assert_eq!(net.category, "NETWORK_ERROR");
    assert_eq!(l.as_deref(), Some("rust heartbeat NETWORK_ERROR msg=dns"));
    let (_, l) = heartbeat_network_error("dns", false, 3);
    assert_eq!(l, None);
    let mut silent = net;
    silent.message = String::new();
    assert_eq!(outcome_error_text(&silent).unwrap(), "heartbeat failed: NETWORK_ERROR");
}

#[test]
fn web_reported_outcomes() {
    let p = RecordOutcomePayload {
        success: false,
        category: "HTTP_401".to_string(),
        http_status: Some(401),
        message: Some("denied".to_string()),
    };
    let (rec, line) = outcome_from_payload(&p, 11);
    assert_eq!(rec.message, "denied");
    assert_eq!(rec.last_unix_ms, 11);
    assert_eq!(line, "outcome success=false category=HTTP_401 http=Some(401) msg=denied");
}

#[test]
fn fallback_heartbeat_timing() {
    let c = cfg(BID, "https://x", "k");
    let mut last_attempt = 0i64;
    let now = 10_000_000i64;
    assert!(!rust_heartbeat_due(&c, now - 1_000, now, &mut last_attempt, false));
    assert!(rust_heartbeat_due(&c, now - 800_000, now, &mut last_attempt, false));
    assert_eq!(last_attempt, now);
    assert!(!rust_heartbeat_due(&c, now - 800_000, now + 1_000, &mut last_attempt, false));
    assert!(rust_heartbeat_due(&c, now - 800_000, now + 1_000, &mut last_attempt, true));
    let mut la = 0i64;
    assert!(!rust_heartbeat_due(&cfg("", "", ""), 0, now, &mut la, true));
}

#[test]
fn connection_test_steps() {
    let e = connection_test_precheck(&cfg(" ", "u", "k"), "uce-device-1").unwrap_err();
    assert_eq!(e.category, "MISSING_BUSINESS_ID");
    assert_eq!(e.message, "business_id is empty");
    let e = connection_test_precheck(&cfg(BID, " ", "k"), "uce-device-1").unwrap_err();
    assert_eq!(e.category, "MISSING_BACKEND_URL");
    let e = connection_test_precheck(&cfg(BID, "u", ""), "uce-device-1").unwrap_err();
    assert_eq!(e.category, "MISSING_AUTH_KEY");
    assert!(connection_test_precheck(&cfg(BID, "u", "k"), "uce-device-1").is_ok());
    let f = fail_test("NETWORK_ERROR", None, "timeout");
    assert!(!f.ok);
    let rec = test_outcome_record(&f, 4);
    assert_eq!(rec.category, "NETWORK_ERROR");
    assert_eq!(rec.last_unix_ms, 4);
    let (ok, _) = heartbeat_from_response(200, "", 1);
    let t = test_result_from_outcome(&ok);
    assert!(t.ok);
    assert_eq!(t.message, "OK");
    assert_eq!(connection_test_log_line(&ok), "CONNECTION_TEST_OK http=Some(200) category=HEARTBEAT_OK");
}

#[test]
fn missing_categories_in_order() {
    assert_eq!(
        missing_config_categories(&cfg("", " ", "")),
        vec!["MISSING_BUSINESS_ID".to_string(), "MISSING_BACKEND_URL".to_string(), "MISSING_AUTH_KEY".to_string()]
    );
    assert!(missing_config_categories(&cfg("b", "u", "k")).is_empty());
}

#[test]
fn ingest_host_comes_from_the_url_crate() {
    assert_eq!(ingest_host("  https://abc.supabase.co/functions/v1/uce-ingest ").as_deref(), Some("abc.supabase.co"));
    assert_eq!(ingest_host("   "), None);
    assert_eq!(ingest_host("not a url"), None);
}

#[test]
fn recent_log_keeps_the_newest_lines() {
    let mut lines = Vec::new();
    for i in 0..(RECENT_LOG_MAX + 3) {
        push_recent_log(&mut lines, &format!("t{i}"), "x");
    }
    assert_eq!(lines.len(), RECENT_LOG_MAX);
    assert_eq!(lines[0], "t3 x");
    assert_eq!(lines[RECENT_LOG_MAX - 1], format!("t{} x", RECENT_LOG_MAX + 2));
}

#[test]
fn heartbeat_body_fields_in_key_order() {
    let body = heartbeat_body(" biz-1 ", "dev-9", None, "0.1.0", Some("Windows 11".to_string()));
    let Json::Object(o) = body else { panic!("not an object") };
    let got: Vec<(String, String)> = o
        .into_iter()
        .map(|(k, v)| match v {
            Json::Str(s) => (k, s),
            _ => panic!("not a string"),
        })
        .collect();
    let want: Vec<(String, String)> = [
        ("action", "heartbeat"),
        ("agent_version", "0.1.0"),
        ("business_id", "biz-1"),
        ("device_id", "dev-9"),
        ("device_name", "unknown"),
        ("os_info", "Windows 11"),
        ("user_id", ""),
    ]
    .iter()
    .map(|(k, v)| (k.to_string(), v.to_string()))
    .collect();
    assert_eq!(got, want);
}

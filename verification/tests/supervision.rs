use uce::health_watchdog::{ccc_idle_log_line, WatchdogState, WebviewAction};
use uce::services::ccc_cr_word_autoclose::{
    ccc_cr_autoclose_enabled, correlate_strong, is_ccc_surface, path_under_ccc_temp,
    title_is_change_request, title_starts_with_4_to_6_digit_ro, weak_mode_enabled, ClaimedPdf,
    ClaimedPdfFacts, CrState, CrTick, ForegroundSample,
};
use uce::services::converter::{IncomingPipelines, DUPLICATE_OFFICE_PIPELINE_SKIPPED};
use uce::types::RecentMemory;
use uce::watch_policy_sync::{
    apply_watch_policy_to_memory, build_policy_url, policy_http_error, policy_synced_message,
    replace_str, WatchPolicyDocument,
};

fn doc(version: Option<&str>) -> WatchPolicyDocument {
    WatchPolicyDocument { version: version.map(String::from), trained: vec![], excluded: vec![] }
}

#[test]
fn policy_url_placeholder_and_query() {
    assert_eq!(
        build_policy_url(" https://fw.test/p/{business_id}/rules ", "B1").unwrap(),
        "https://fw.test/p/B1/rules"
    );
    assert_eq!(
        build_policy_url("https://fw.test/policy", "B1").unwrap(),
        "https://fw.test/policy?business_id=B1"
    );
    assert_eq!(
        build_policy_url("https://fw.test/policy?x=1", "B 1").unwrap(),
        "https://fw.test/policy?x=1&business_id=B+1"
    );
    assert_eq!(
        build_policy_url("https://fw.test/policy?business_id=Z", "B1").unwrap(),
        "https://fw.test/policy?business_id=Z"
    );
    assert_eq!(build_policy_url("   ", "B1").err().as_deref(), Some("empty policy URL"));
    assert_eq!(
        build_policy_url("not a url", "B1").err().as_deref(),
        Some("invalid policy URL: relative URL without a base")
    );
}

#[test]
fn replace_matches_str_replace() {
    assert_eq!(replace_str("a{x}b{x}", "{x}", "Q"), "aQbQ");
    assert_eq!(replace_str("aaa", "aa", "b"), "ba");
    assert_eq!(replace_str("abc", "zz", "y"), "abc");
}

#[test]
fn policy_messages() {
    assert_eq!(policy_synced_message(&doc(Some("v3"))), "Watch policy synced: v3");
    assert_eq!(policy_synced_message(&doc(None)), "Watch policy synced: (no version)");
    let long = "x".repeat(250);
    let e = policy_http_error("404 Not Found", &long);
    assert_eq!(e, format!("watch policy HTTP 404 Not Found \u{2014} {}", "x".repeat(200)));
}

#[test]
fn applying_a_policy_records_version_and_time() {
    let mut m = RecentMemory::default();
    apply_watch_policy_to_memory(&mut m, &doc(Some("v9")), 1234);
    assert_eq!(m.approved_contexts_version.as_deref(), Some("v9"));
    assert_eq!(m.approved_contexts_last_loaded_unix_ms, Some(1234));
    apply_watch_policy_to_memory(&mut m, &doc(None), 99);
    assert_eq!(m.approved_contexts_version.as_deref(), Some("v9"));
    assert_eq!(m.approved_contexts_last_loaded_unix_ms, Some(99));
}

#[test]
fn heartbeat_nudges_respect_their_interval() {
    let mut w = WatchdogState::new();
    let now = 10_000_000i64;
    assert!(w.heartbeat_nudge(now, 0, "ok").is_none());
    assert!(w.heartbeat_nudge(now, now - 60_000, "ok").is_none());
    let n = w.heartbeat_nudge(now, now - 720_000, "network").unwrap();
    assert_eq!(n.age_ms, 720_000);
    assert_eq!(n.log_line, "heartbeat stale age_ms=720000 category=network \u{2014} nudge JS");
    assert_eq!(n.last_error, "heartbeat stale 12m (category network)");
    assert_eq!(w.last_heartbeat_nudge_ms, now);
    assert!(w.heartbeat_nudge(now + 60_000, now - 720_000, "network").is_none());
    assert!(w.heartbeat_nudge(now + 600_001, now - 720_000, "network").is_some());
}

#[test]
fn webview_recovery_has_a_cooldown() {
    let mut w = WatchdogState::new();
    assert!(matches!(w.check_webview(true, 1_000_000), WebviewAction::Recover));
    assert!(matches!(w.check_webview(true, 1_100_000), WebviewAction::Wait));
    assert!(matches!(w.check_webview(true, 1_180_000), WebviewAction::Recover));
    assert!(matches!(w.check_webview(false, 1_200_000), WebviewAction::NotedOk));
    assert_eq!(w.last_webview_ok_ms, 1_200_000);
    w.note_webview_navigation_ok(true, 1_300_000);
    assert_eq!(w.last_webview_ok_ms, 1_200_000);
}

#[test]
fn ccc_idle_line() {
    assert_eq!(
        ccc_idle_log_line(5_000_000, 1_000_000, false).as_deref(),
        Some("ccc sync idle long age_ms=4000000 (poll continues)")
    );
    assert_eq!(ccc_idle_log_line(5_000_000, 1_000_000, true), None);
    assert_eq!(ccc_idle_log_line(5_000_000, 0, false), None);
    assert_eq!(ccc_idle_log_line(5_000_000, 4_900_000, false), None);
}

#[test]
fn autoclose_switches() {
    assert!(ccc_cr_autoclose_enabled(true, None));
    assert!(!ccc_cr_autoclose_enabled(false, None));
    assert!(!ccc_cr_autoclose_enabled(true, Some(" OFF ")));
    assert!(!ccc_cr_autoclose_enabled(true, Some("0")));
    assert!(ccc_cr_autoclose_enabled(true, Some("yes")));
    assert!(weak_mode_enabled(Some(" 1 ")));
    assert!(!weak_mode_enabled(Some("true")));
    assert!(!weak_mode_enabled(None));
}

#[test]
fn ccc_window_recognition() {
    assert!(title_starts_with_4_to_6_digit_ro("  12345 Smith"));
    assert!(!title_starts_with_4_to_6_digit_ro("123 Smith"));
    assert!(!title_starts_with_4_to_6_digit_ro("1234567 Smith"));
    assert!(is_ccc_surface("CCCONE", "Workfile"));
    assert!(is_ccc_surface("explorer", "RO# 55"));
    assert!(!is_ccc_surface("chrome", "News"));
    assert!(title_is_change_request("Change Requests - 12345"));
    assert!(!title_is_change_request("Estimate"));
    assert!(path_under_ccc_temp(
        "C:\\Users\\a\\AppData\\Local\\Temp\\CCC\\x.pdf",
        "C:\\Users\\A\\AppData\\Local\\Temp\\CCC\\"
    ));
    assert!(!path_under_ccc_temp("C:\\Other\\x.pdf", "C:\\Users\\A\\AppData\\Local\\Temp\\CCC"));
}

#[test]
fn strong_correlation_needs_stem_and_folder() {
    assert!(correlate_strong(Some("c:\\ro\\est.docx"), Some("c:\\ro"), "C:\\RO\\EST.pdf", Some("C:\\RO")));
    assert!(!correlate_strong(Some("c:\\ro\\est.docx"), Some("c:\\ro"), "C:\\RO\\other.pdf", Some("C:\\RO")));
    assert!(!correlate_strong(Some("c:\\ro\\est.docx"), Some("c:\\ro"), "C:\\X\\est.pdf", Some("C:\\X")));
    assert!(!correlate_strong(None, None, "C:\\X\\est.pdf", Some("C:\\X")));
}

fn sample(exe: &str, app: &str, title: &str, hwnd: i64, doc: Option<&str>) -> ForegroundSample {
    ForegroundSample {
        exe: exe.to_string(),
        title: title.to_string(),
        app: app.to_string(),
        pid: 7,
        hwnd,
        title_doc_path: doc.map(String::from),
    }
}

fn facts(strong: bool, valid: bool) -> ClaimedPdfFacts {
    ClaimedPdfFacts {
        enabled: true,
        under_ccc_temp: true,
        strong,
        weak_mode: false,
        winword_processes: 1,
        hwnd_valid: valid,
    }
}

#[test]
fn change_request_flow_tracks_word_and_closes_it_once() {
    let mut st = CrState::new();
    assert!(matches!(st.tick(0, &sample("WINWORD.EXE", "Word", "x", 5, None)), CrTick::Unchanged));
    assert!(st.word.is_none());
    assert!(matches!(
        st.tick(1_000, &sample("ccc.exe", "CCC ONE", "Change Requests", 42, None)),
        CrTick::FlowStarted
    ));
    assert!(matches!(
        st.tick(2_000, &sample("WINWORD.EXE", "Word", "C:\\ro\\Est.docx - Word", 5, Some("C:\\ro\\Est.docx"))),
        CrTick::WordTracked
    ));
    assert_eq!(st.word.as_ref().unwrap().doc_path_lower.as_deref(), Some("c:\\ro\\est.docx"));
    assert!(matches!(st.notify_ccc_temp_pdf_claimed(facts(false, true), 3_000), ClaimedPdf::NotCorrelated));
    assert!(st.word.is_some());
    let track = match st.notify_ccc_temp_pdf_claimed(facts(true, true), 3_000) {
        ClaimedPdf::Close { track, strong } => {
            assert!(strong);
            track
        }
        _ => panic!("expected close"),
    };
    assert_eq!(track.hwnd, 5);
    assert_eq!(st.after_close_posted(track, true, 3_100), Some(42));
    assert!(matches!(st.notify_ccc_temp_pdf_claimed(facts(true, true), 10_000), ClaimedPdf::CooldownActive));
    assert!(matches!(st.notify_ccc_temp_pdf_claimed(facts(true, true), 20_000), ClaimedPdf::NoTrackedWord));
}

#[test]
fn stale_flows_expire() {
    let mut st = CrState::new();
    st.tick(0, &sample("ccc.exe", "CCC ONE", "Change Request", 42, None));
    assert!(matches!(st.tick(300_000, &sample("WINWORD.EXE", "Word", "x", 5, None)), CrTick::Unchanged));
    assert!(st.cr_flow_at.is_none());
    assert!(st.ccc_hwnd.is_none());
}

#[test]
fn hotkey_close_rules() {
    let mut st = CrState::new();
    assert_eq!(
        st.manual_close_armed_word(false, "winword.exe", 1, Some(5), 0).err().as_deref(),
        Some("CCC CR Word autoclose disabled.")
    );
    assert_eq!(
        st.manual_close_armed_word(true, "excel.exe", 1, Some(5), 0).err().as_deref(),
        Some("Foreground window is not Word.")
    );
    assert_eq!(
        st.manual_close_armed_word(true, "WINWORD.EXE", 1, None, 0).err().as_deref(),
        Some("Could not resolve Word window handle.")
    );
    assert_eq!(
        st.manual_close_armed_word(true, "WINWORD.EXE", 1, Some(5), 0).err().as_deref(),
        Some("No recent Change Request flow \u{2014} open Change Requests in CCC first.")
    );
    st.tick(1_000, &sample("ccc.exe", "CCC ONE", "Change Requests", 42, None));
    assert_eq!(st.manual_close_armed_word(true, "WINWORD.EXE", 1, Some(5), 2_000).unwrap(), 5);
    assert_eq!(st.after_manual_close(false, 2_000).err().as_deref(), Some("PostMessage WM_CLOSE failed."));
    let (m, focus) = st.after_manual_close(true, 2_000).unwrap();
    assert_eq!(m, "Word close requested (WM_CLOSE).");
    assert_eq!(focus, Some(42));
}

#[test]
fn one_pipeline_per_incoming_file() {
    let mut p = IncomingPipelines::new();
    assert!(p.try_acquire_incoming_pipeline("c:\\fw\\incoming\\a.docx"));
    assert!(!p.try_acquire_incoming_pipeline("c:\\fw\\incoming\\a.docx"));
    assert_eq!(
        p.claim_for_ccc_queue("c:\\fw\\incoming\\a.docx").err().as_deref(),
        Some(DUPLICATE_OFFICE_PIPELINE_SKIPPED)
    );
    assert!(p.claim_for_ccc_queue("c:\\fw\\incoming\\b.pdf").is_ok());
    p.release("c:\\fw\\incoming\\a.docx");
    assert!(p.try_acquire_incoming_pipeline("c:\\fw\\incoming\\a.docx"));
}

#[test]
fn ccc_queue_claim_gives_the_file_back() {
    let mut p = IncomingPipelines::new();
    let key = "c:\\fw\\incoming\\c.docx";
    assert!(p.claim_for_ccc_queue(key).is_ok());
    assert!(p.claim_for_ccc_queue(key).is_err());
    let r = p.finish_ccc_queue_claim(key, Ok("c:\\fw\\incoming\\.uce_staging\\c.docx".to_string()));
    assert_eq!(r.as_deref(), Ok("c:\\fw\\incoming\\.uce_staging\\c.docx"));
    assert!(p.claim_for_ccc_queue(key).is_ok());
    let r = p.finish_ccc_queue_claim(key, Err("locked".to_string()));
    assert_eq!(r, Err("locked".to_string()));
    assert!(p.claim_for_ccc_queue(key).is_ok());
}

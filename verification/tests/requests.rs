use uce::context_tracker::last_observed_context;
use uce::json::Json;
use uce::local_agent_probe::probe_response;
use uce::ro_status::{ro_status_reply, ro_status_request, ro_status_send_error};
use uce::types::RecentMemory;

#[test]
fn last_observed_context_defaults_and_values() {
    let m = RecentMemory::default();
    let c = last_observed_context(&m);
    assert_eq!(c.source_app, "unknown");
    assert_eq!(c.window_title, "unknown");
    assert_eq!(c.matched_rule, "none");
    assert_eq!(c.workflow_kind, "unknown");
    assert_eq!(c.preferred_capture_mode, "screenshot");
    assert_eq!(c.bucket, "unknown");
    assert!(!c.in_cooldown);
    let mut m = RecentMemory::default();
    m.last_context_key = "chrome.exe|ccc one | estimate".to_string();
    m.last_window_title = "CCC ONE | Estimate".to_string();
    m.last_matched_rule = "ccc_estimate".to_string();
    m.last_bucket = "known".to_string();
    m.last_in_cooldown = true;
    let c = last_observed_context(&m);
    assert_eq!(c.source_app, "chrome.exe");
    assert_eq!(c.window_title, "CCC ONE | Estimate");
    assert_eq!(c.matched_rule, "ccc_estimate");
    assert_eq!(c.workflow_kind, "ccc");
    assert_eq!(c.preferred_capture_mode, "pdf");
    assert_eq!(c.bucket, "known");
    assert!(c.in_cooldown);
    m.last_context_key = "no-separator".to_string();
    assert_eq!(last_observed_context(&m).source_app, "no-separator");
}

#[test]
fn ro_status_checks_and_body() {
    assert_eq!(
        ro_status_request(" http://x.test/ro ", "b", "1", "t", "d", "k").err().unwrap(),
        "uce-ro-status URL must use HTTPS"
    );
    assert_eq!(
        ro_status_request("https://x.test/ro", "b", "1", "t", "d", "  ").err().unwrap(),
        "Missing Supabase anon key (set VITE_SUPABASE_ANON_KEY or VITE_UCE_SUPABASE_ANON_KEY)"
    );
    let q = ro_status_request(" https://x.test/ro ", " B1 ", " 1234 ", "RO 1234 - CCC", "dev-1", " key ")
        .ok()
        .unwrap();
    assert_eq!(q.url, "https://x.test/ro");
    assert_eq!(q.authorization, "key");
    let Json::Object(o) = q.body else { panic!("object body") };
    let got: Vec<(String, String)> = o
        .iter()
        .map(|(k, v)| match v {
            Json::Str(s) => (k.clone(), s.clone()),
            _ => (k.clone(), "?".to_string()),
        })
        .collect();
    let want: Vec<(String, String)> = [
        ("business_id", "B1"),
        ("device_id", "dev-1"),
        ("repair_order_number", "1234"),
        ("ro_number", "1234"),
        ("window_title", "RO 1234 - CCC"),
    ]
    .iter()
    .map(|(a, b)| (a.to_string(), b.to_string()))
    .collect();
    assert_eq!(got, want);
    assert_eq!(ro_status_reply(true, "200 OK", "{}".to_string()), Ok("{}".to_string()));
    assert_eq!(
        ro_status_reply(false, "500 Internal Server Error", "boom".to_string()),
        Err("RO status HTTP 500 Internal Server Error: boom".to_string())
    );
    assert_eq!(ro_status_send_error("timeout"), "RO status request failed: timeout");
}

#[test]
fn local_probe_replies() {
    let body = "{\"ok\":true,\"product\":\"FileWisely UCE\"}";
    assert_eq!(
        probe_response("GET /whoami HTTP/1.1\r\nHost: x\r\n\r\n", body),
        format!(
            "HTTP/1.1 200 OK\r\nContent-Type: application/json\r\nAccess-Control-Allow-Origin: *\r\nContent-Length: {}\r\nConnection: close\r\n\r\n{}",
            body.len(),
            body
        )
    );
    assert!(probe_response("GET / HTTP/1.1\r\n\r\n", body).starts_with("HTTP/1.1 200 OK\r\n"));
    let nf = "{\"ok\":false,\"error\":\"use GET /whoami\"}";
    assert_eq!(
        probe_response("POST /x HTTP/1.1\r\n\r\n", body),
        format!(
            "HTTP/1.1 404 Not Found\r\nContent-Type: application/json\r\nContent-Length: {}\r\nConnection: close\r\n\r\n{}",
            nf.len(),
            nf
        )
    );
    // The length counts bytes, not characters.
    assert!(probe_response("GET /whoami", "\"é\"").contains("Content-Length: 4\r\n"));
}

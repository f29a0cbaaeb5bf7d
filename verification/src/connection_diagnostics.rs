//! Heartbeat outcomes, the connection test, and the pieces of the diagnostic report:
//! what each heartbeat attempt records, when a fallback heartbeat is due, and how
//! secrets and URLs are shown.
use vstd::prelude::*;
use crate::api_contracts::{heartbeat_problems, outcome, validate_heartbeat_request};
use crate::ccc_package_sync::opt_view;
use crate::tenant_config::{configured, TenantConfig};
use crate::text::{
    ascii_lower, at_char_boundary, byte_count, byte_len_exec, byte_prefix, byte_suffix, chars_of,
    contains_str, decimal, eq_str, has_sub, is_blank, split_at_byte, starts_with, starts_with_str,
    take_chars, take_string, trim, trim_chars, trim_string, u64_to_string,
};

verus! {

/// A heartbeat older than this turns the tray red.
pub const HEARTBEAT_STALE_MS: i64 = 720_000;

/// At most one fallback heartbeat per this interval (unless forced).
pub const RUST_HEARTBEAT_COOLDOWN_MS: i64 = 300_000;

/// Lines kept in the recent connection log.
pub const RECENT_LOG_MAX: usize = 40;

/// The last heartbeat attempt, as persisted.
pub struct HeartbeatOutcomeRecord {
    pub last_unix_ms: i64,
    pub success: bool,
    pub category: String,
    pub http_status: Option<u16>,
    pub message: String,
}

impl Default for HeartbeatOutcomeRecord {
    fn default() -> (r: Self)
        ensures
            r.last_unix_ms == 0,
            !r.success,
            r.category@ == Seq::<char>::empty(),
            r.http_status is None,
            r.message@ == Seq::<char>::empty(),
    {
        HeartbeatOutcomeRecord {
            last_unix_ms: 0,
            success: false,
            category: String::new(),
            http_status: None,
            message: String::new(),
        }
    }
}

pub struct ConnectionTestResult {
    pub ok: bool,
    pub category: String,
    pub http_status: Option<u16>,
    pub message: String,
}

/// An outcome reported by the web side.
pub struct RecordOutcomePayload {
    pub success: bool,
    pub category: String,
    pub http_status: Option<u16>,
    pub message: Option<String>,
}

/// `a - b`, clamped to the `i64` range (`i64::saturating_sub`).
pub open spec fn sat_sub(a: i64, b: i64) -> i64 {
    if a - b > i64::MAX {
        i64::MAX
    } else if a - b < i64::MIN {
        i64::MIN
    } else {
        (a - b) as i64
    }
}

pub fn saturating_sub_i64(a: i64, b: i64) -> (r: i64)
    ensures
        r == sat_sub(a, b),
{
    let d: i128 = a as i128 - b as i128;
    if d > i64::MAX as i128 {
        i64::MAX
    } else if d < i64::MIN as i128 {
        i64::MIN
    } else {
        d as i64
    }
}

/// Age of the last heartbeat: `i64::MAX` when there has been none.
pub open spec fn heartbeat_age(last_ms: i64, now: i64) -> i64 {
    if last_ms > 0 {
        sat_sub(now, last_ms)
    } else {
        i64::MAX
    }
}

/// A heartbeat happened and is older than `HEARTBEAT_STALE_MS`.
pub open spec fn heartbeat_is_stale(last_ms: i64, now: i64) -> bool {
    last_ms > 0 && heartbeat_age(last_ms, now) > HEARTBEAT_STALE_MS
}

pub fn heartbeat_stale(last_ms: i64, now: i64) -> (b: bool)
    ensures
        b == heartbeat_is_stale(last_ms, now),
{
    let age = if last_ms > 0 {
        saturating_sub_i64(now, last_ms)
    } else {
        i64::MAX
    };
    last_ms > 0 && age > HEARTBEAT_STALE_MS
}

// ---------------------------------------------------------------------------
// Categories and text
// ---------------------------------------------------------------------------

pub open spec fn http_category(status: u16) -> Seq<char> {
    if status == 401 {
        "HTTP_401"@
    } else if status == 403 {
        "HTTP_403"@
    } else if status == 404 {
        "HTTP_404"@
    } else if 500 <= status <= 599 {
        "HTTP_500"@
    } else {
        "UNKNOWN"@
    }
}

/// The category of a failed heartbeat's HTTP status.
pub fn categorize_http_status(status: u16) -> (r: String)
    ensures
        r@ == http_category(status),
{
    if status == 401 {
        String::from_str("HTTP_401")
    } else if status == 403 {
        String::from_str("HTTP_403")
    } else if status == 404 {
        String::from_str("HTTP_404")
    } else if 500 <= status && status <= 599 {
        String::from_str("HTTP_500")
    } else {
        String::from_str("UNKNOWN")
    }
}

/// Byte offsets at which `mask_secret` cuts a longer secret: after 6 bytes, and 4 bytes
/// before the end.
pub open spec fn mask_cuts_ok(t: Seq<char>) -> bool {
    byte_count(t) > 10 ==> at_char_boundary(t, 6) && at_char_boundary(
        t,
        byte_count(t) - 4,
    )
}

/// A secret for display: `(empty)`, `***` up to 10 bytes, else its first 6 and last 4
/// bytes around `…`.
pub open spec fn masked(s: Seq<char>) -> Seq<char> {
    let t = trim(s);
    if byte_count(t) <= 10 {
        if t.len() == 0 {
            "(empty)"@
        } else {
            "***"@
        }
    } else {
        byte_prefix(t, 6) + "\u{2026}"@ + byte_suffix(t, byte_count(t) - 4)
    }
}

pub fn mask_secret(s: &str) -> (r: String)
    requires
        mask_cuts_ok(trim(s@)),
    ensures
        r@ == masked(s@),
{
    let t = trim_string(s);
    let n = byte_len_exec(t.as_str());
    if n <= 10 {
        if t.as_str().is_empty() {
            return String::from_str("(empty)");
        }
        return String::from_str("***");
    }
    let (head, _) = split_at_byte(t.as_str(), 6);
    let (_, tail) = split_at_byte(t.as_str(), n - 4);
    let mut out = head;
    out.append("\u{2026}");
    out.append(tail.as_str());
    out
}

pub open spec fn url_looks_loaded(u: Seq<char>) -> bool {
    let l = ascii_lower(u);
    has_sub(l, "tauri.localhost"@) || starts_with(l, "http://tauri.localhost"@) || starts_with(
        l,
        "https://tauri.localhost"@,
    ) || starts_with(l, "tauri://localhost"@) || starts_with(l, "http://127.0.0.1:"@)
        || starts_with(l, "http://localhost:"@) || starts_with(l, "https://127.0.0.1:"@)
        || starts_with(l, "https://localhost:"@) || has_sub(l, "127.0.0.1:5173"@) || has_sub(
        l,
        "localhost:5173"@,
    )
}

/// Whether the main webview shows the app (packaged asset host or a loopback dev server).
pub fn url_looks_like_loaded_app_ui(url: &str) -> (b: bool)
    ensures
        b == url_looks_loaded(url@),
{
    let v = crate::text::lower_ascii_of(url);
    let u = v.as_slice();
    contains_str(u, "tauri.localhost") || starts_with_str(u, "http://tauri.localhost")
        || starts_with_str(u, "https://tauri.localhost") || starts_with_str(u, "tauri://localhost")
        || starts_with_str(u, "http://127.0.0.1:") || starts_with_str(u, "http://localhost:")
        || starts_with_str(u, "https://127.0.0.1:") || starts_with_str(u, "https://localhost:")
        || contains_str(u, "127.0.0.1:5173") || contains_str(u, "localhost:5173")
}

pub open spec fn overlay_class(u: Seq<char>) -> Seq<char> {
    let l = ascii_lower(u);
    if starts_with(l, "chrome-error:"@) || has_sub(l, "chromewebdata"@) {
        "chrome_error_page"@
    } else if trim(l) == "about:blank"@ || trim(l) == "about:srcdoc"@ || starts_with(
        l,
        "about:blank?"@,
    ) {
        "about_blank"@
    } else if url_looks_loaded(u) {
        "app_ui"@
    } else {
        "other"@
    }
}

/// What the main webview's URL shows: a Chrome error page, a blank page, the app, or
/// something else.
pub fn url_overlay_classification(url: &str) -> (r: String)
    ensures
        r@ == overlay_class(url@),
{
    let v = crate::text::lower_ascii_of(url);
    let u = v.as_slice();
    if starts_with_str(u, "chrome-error:") || contains_str(u, "chromewebdata") {
        return String::from_str("chrome_error_page");
    }
    let s = crate::text::string_of(u);
    let t = trim_chars(s.as_str());
    if eq_str(t.as_slice(), "about:blank") || eq_str(t.as_slice(), "about:srcdoc")
        || starts_with_str(u, "about:blank?") {
        return String::from_str("about_blank");
    }
    if url_looks_like_loaded_app_ui(url) {
        return String::from_str("app_ui");
    }
    String::from_str("other")
}

// ---------------------------------------------------------------------------
// Heartbeat attempts
// ---------------------------------------------------------------------------

pub open spec fn record_is(
    r: HeartbeatOutcomeRecord,
    now: i64,
    success: bool,
    category: Seq<char>,
    http_status: Option<u16>,
    message: Seq<char>,
) -> bool {
    r.last_unix_ms == now && r.success == success && r.category@ == category && r.http_status
        == http_status && r.message@ == message
}

fn record(now: i64, success: bool, category: &str, http_status: Option<u16>, message: String) -> (r:
    HeartbeatOutcomeRecord)
    ensures
        record_is(r, now, success, category@, http_status, message@),
{
    HeartbeatOutcomeRecord {
        last_unix_ms: now,
        success,
        category: String::from_str(category),
        http_status,
        message,
    }
}

/// The tenant configuration could not be read.
pub fn heartbeat_config_error(error: &str, now: i64) -> (r: HeartbeatOutcomeRecord)
    ensures
        record_is(r, now, false, "CONFIG_ERROR"@, None, error@),
{
    record(now, false, "CONFIG_ERROR", None, String::from_str(error))
}

/// Checks made before a heartbeat is sent: a tenant configuration with all three fields
/// (else `MISSING_CONFIG`), and a valid request (else `CONTRACT_INVALID` with the
/// validation message).
pub fn heartbeat_precheck(cfg: &TenantConfig, device_id: &str, now: i64) -> (r: Result<
    (),
    HeartbeatOutcomeRecord,
>)
    ensures
        !configured(*cfg) ==> (r matches Err(rec) && record_is(
            rec,
            now,
            false,
            "MISSING_CONFIG"@,
            None,
            "tenant not fully configured"@,
        )),
        configured(*cfg) ==> match r {
            Ok(_) => heartbeat_problems(trim(cfg.business_id@), device_id@).len() == 0,
            Err(rec) => heartbeat_problems(trim(cfg.business_id@), device_id@).len() > 0
                && record_is(
                rec,
                now,
                false,
                "CONTRACT_INVALID"@,
                None,
                crate::api_contracts::contract_failure(
                    heartbeat_problems(trim(cfg.business_id@), device_id@),
                ),
            ),
        },
{
    if !cfg.is_configured() {
        return Err(
            record(now, false, "MISSING_CONFIG", None, String::from_str("tenant not fully configured")),
        );
    }
    let bid = trim_string(cfg.business_id.as_str());
    match validate_heartbeat_request(bid.as_str(), device_id) {
        Ok(()) => Ok(()),
        Err(e) => Err(record(now, false, "CONTRACT_INVALID", None, e)),
    }
}

/// The fields of the heartbeat request body, in the order serde_json writes an object's
/// keys: the trimmed business id, `"unknown"` for a host name or OS version that could
/// not be read, and an empty `user_id`.
pub open spec fn heartbeat_body_fields(
    business_id: Seq<char>,
    device_id: Seq<char>,
    device_name: Option<Seq<char>>,
    agent_version: Seq<char>,
    os_info: Option<Seq<char>>,
) -> crate::json::Entries {
    seq![
        ("action"@, crate::json::JsonV::Str("heartbeat"@)),
        ("agent_version"@, crate::json::JsonV::Str(agent_version)),
        ("business_id"@, crate::json::JsonV::Str(trim(business_id))),
        ("device_id"@, crate::json::JsonV::Str(device_id)),
        ("device_name"@, crate::json::JsonV::Str(device_name.unwrap_or("unknown"@))),
        ("os_info"@, crate::json::JsonV::Str(os_info.unwrap_or("unknown"@))),
        ("user_id"@, crate::json::JsonV::Str(Seq::empty())),
    ]
}

fn str_entry(k: &str, v: String) -> (r: (String, crate::json::Json))
    ensures
        r.0@ == k@,
        r.1@ == crate::json::JsonV::Str(v@),
{
    (String::from_str(k), crate::json::Json::Str(v))
}

/// The JSON body of the heartbeat request.
pub fn heartbeat_body(
    business_id: &str,
    device_id: &str,
    device_name: Option<String>,
    agent_version: &str,
    os_info: Option<String>,
) -> (r: crate::json::Json)
    ensures
        r matches crate::json::Json::Object(o) && crate::json::entries_view(o@)
            == heartbeat_body_fields(
            business_id@,
            device_id@,
            opt_view(device_name),
            agent_version@,
            opt_view(os_info),
        ),
{
    let name = match device_name {
        Some(n) => n,
        None => String::from_str("unknown"),
    };
    let os = match os_info {
        Some(n) => n,
        None => String::from_str("unknown"),
    };
    let mut o: Vec<(String, crate::json::Json)> = Vec::new();
    o.push(str_entry("action", String::from_str("heartbeat")));
    o.push(str_entry("agent_version", String::from_str(agent_version)));
    o.push(str_entry("business_id", trim_string(business_id)));
    o.push(str_entry("device_id", String::from_str(device_id)));
    o.push(str_entry("device_name", name));
    o.push(str_entry("os_info", os));
    o.push(str_entry("user_id", String::new()));
    assert(crate::json::entries_view(o@) =~= heartbeat_body_fields(
        business_id@,
        device_id@,
        opt_view(device_name),
        agent_version@,
        opt_view(os_info),
    ));
    crate::json::Json::Object(o)
}

/// The heartbeat could not be sent; with `log` (the request failed, as opposed to the
/// HTTP client not being built) the recent-log line too.
pub fn heartbeat_network_error(message: &str, log: bool, now: i64) -> (r: (HeartbeatOutcomeRecord, Option<String>))
    ensures
        record_is(r.0, now, false, "NETWORK_ERROR"@, None, message@),
        log ==> (r.1 matches Some(l) && l@ == "rust heartbeat NETWORK_ERROR msg="@ + message@),
        !log ==> r.1 is None,
{
    let rec = record(now, false, "NETWORK_ERROR", None, String::from_str(message));
    if log {
        let mut l = String::from_str("rust heartbeat NETWORK_ERROR msg=");
        l.append(message);
        (rec, Some(l))
    } else {
        (rec, None)
    }
}

/// The outcome of a heartbeat that got an HTTP answer: success for 2xx, else failure
/// with the status's category and the first 2000 characters of the body; with the
/// recent-log line.
pub fn heartbeat_from_response(status: u16, body: &str, now: i64) -> (r: (HeartbeatOutcomeRecord, String))
    ensures
        200 <= status < 300 ==> record_is(r.0, now, true, "HEARTBEAT_OK"@, Some(status), Seq::empty())
            && r.1@ == "rust heartbeat OK http="@ + decimal(status as nat) + " body_len="@ + decimal(
            byte_count(body@) as nat,
        ),
        !(200 <= status < 300) ==> record_is(
            r.0,
            now,
            false,
            http_category(status),
            Some(status),
            take_chars(body@, 2000),
        ) && r.1@ == "rust heartbeat failed http="@ + decimal(status as nat) + " category="@
            + http_category(status),
{
    let code = u64_to_string(status as u64);
    if 200 <= status && status < 300 {
        let rec = record(now, true, "HEARTBEAT_OK", Some(status), String::new());
        let mut l = String::from_str("rust heartbeat OK http=");
        l.append(code.as_str());
        l.append(" body_len=");
        let n = u64_to_string(byte_len_exec(body) as u64);
        l.append(n.as_str());
        (rec, l)
    } else {
        let cat = categorize_http_status(status);
        let rec = record(now, false, cat.as_str(), Some(status), take_string(body, 2000));
        let mut l = String::from_str("rust heartbeat failed http=");
        l.append(code.as_str());
        l.append(" category=");
        l.append(cat.as_str());
        (rec, l)
    }
}

/// The error a failed outcome leaves: `heartbeat failed: {category}` without a message,
/// else `heartbeat {category}: {message}`; none for a success.
pub fn outcome_error_text(rec: &HeartbeatOutcomeRecord) -> (r: Option<String>)
    ensures
        rec.success ==> r is None,
        !rec.success ==> (r matches Some(e) && e@ == if rec.message@.len() == 0 {
            "heartbeat failed: "@ + rec.category@
        } else {
            "heartbeat "@ + rec.category@ + ": "@ + rec.message@
        }),
{
    if rec.success {
        return None;
    }
    if rec.message.as_str().is_empty() {
        let mut e = String::from_str("heartbeat failed: ");
        e.append(rec.category.as_str());
        Some(e)
    } else {
        let mut e = String::from_str("heartbeat ");
        e.append(rec.category.as_str());
        e.append(": ");
        e.append(rec.message.as_str());
        Some(e)
    }
}

/// `{:?}` of an optional HTTP status.
pub open spec fn status_debug(s: Option<u16>) -> Seq<char> {
    match s {
        Some(c) => "Some("@ + decimal(c as nat) + ")"@,
        None => "None"@,
    }
}

fn status_debug_text(s: Option<u16>) -> (r: String)
    ensures
        r@ == status_debug(s),
{
    match s {
        Some(c) => {
            let mut t = String::from_str("Some(");
            let d = u64_to_string(c as u64);
            t.append(d.as_str());
            t.append(")");
            t
        },
        None => String::from_str("None"),
    }
}

pub open spec fn bool_text(b: bool) -> Seq<char> {
    if b {
        "true"@
    } else {
        "false"@
    }
}

fn bool_string(b: bool) -> (r: String)
    ensures
        r@ == bool_text(b),
{
    if b {
        String::from_str("true")
    } else {
        String::from_str("false")
    }
}

/// An outcome reported by the web side, recorded now: its message cut to 2000
/// characters; with the recent-log line (message cut to 200).
pub fn outcome_from_payload(payload: &RecordOutcomePayload, now: i64) -> (r: (HeartbeatOutcomeRecord, String))
    ensures
        ({
            let msg = match opt_view(payload.message) {
                Some(m) => m,
                None => Seq::empty(),
            };
            &&& record_is(
                r.0,
                now,
                payload.success,
                payload.category@,
                payload.http_status,
                take_chars(msg, 2000),
            )
            &&& r.1@ == "outcome success="@ + bool_text(payload.success) + " category="@
                + payload.category@ + " http="@ + status_debug(payload.http_status) + " msg="@
                + take_chars(msg, 200)
        }),
{
    let msg = match &payload.message {
        Some(m) => m.clone(),
        None => String::new(),
    };
    let mut line = String::from_str("outcome success=");
    let b = bool_string(payload.success);
    line.append(b.as_str());
    line.append(" category=");
    line.append(payload.category.as_str());
    line.append(" http=");
    let st = status_debug_text(payload.http_status);
    line.append(st.as_str());
    line.append(" msg=");
    let short = take_string(msg.as_str(), 200);
    line.append(short.as_str());
    let rec = record(
        now,
        payload.success,
        payload.category.as_str(),
        payload.http_status,
        take_string(msg.as_str(), 2000),
    );
    (rec, line)
}

/// Whether a fallback heartbeat is sent now: the tenant must be configured; then a
/// forced one always is, else only when the last heartbeat is stale and the last
/// attempt is at least `RUST_HEARTBEAT_COOLDOWN_MS` old.
pub open spec fn fallback_due(cfg: TenantConfig, last_hb_ms: i64, now: i64, last_attempt: i64, force: bool) -> bool {
    configured(cfg) && (force || (heartbeat_is_stale(last_hb_ms, now) && sat_sub(now, last_attempt)
        >= RUST_HEARTBEAT_COOLDOWN_MS))
}

/// See `fallback_due`; when due, `*last_attempt` becomes `now`.
pub fn rust_heartbeat_due(cfg: &TenantConfig, last_hb_ms: i64, now: i64, last_attempt: &mut i64, force: bool) -> (due: bool)
    ensures
        due == fallback_due(*cfg, last_hb_ms, now, *old(last_attempt), force),
        due ==> *final(last_attempt) == now,
        !due ==> *final(last_attempt) == *old(last_attempt),
{
    if !cfg.is_configured() {
        return false;
    }
    let stale = heartbeat_stale(last_hb_ms, now);
    if !force && !stale {
        return false;
    }
    if !force && saturating_sub_i64(now, *last_attempt) < RUST_HEARTBEAT_COOLDOWN_MS {
        return false;
    }
    *last_attempt = now;
    true
}

// ---------------------------------------------------------------------------
// Connection test
// ---------------------------------------------------------------------------

pub open spec fn test_is(r: ConnectionTestResult, ok: bool, category: Seq<char>, http_status: Option<u16>, message: Seq<char>) -> bool {
    r.ok == ok && r.category@ == category && r.http_status == http_status && r.message@ == message
}

/// A failed test: its message cut to 2000 characters.
pub fn fail_test(category: &str, http_status: Option<u16>, message: &str) -> (r: ConnectionTestResult)
    ensures
        test_is(r, false, category@, http_status, take_chars(message@, 2000)),
{
    ConnectionTestResult {
        ok: false,
        category: String::from_str(category),
        http_status,
        message: take_string(message, 2000),
    }
}

/// Checks made before the connection test sends a heartbeat, in order: business id,
/// backend URL, anon key (each trimmed, not blank), then a valid heartbeat request.
pub fn connection_test_precheck(cfg: &TenantConfig, device_id: &str) -> (r: Result<(), ConnectionTestResult>)
    ensures
        trim(cfg.business_id@).len() == 0 ==> (r matches Err(t) && test_is(
            t,
            false,
            "MISSING_BUSINESS_ID"@,
            None,
            "business_id is empty"@,
        )),
        trim(cfg.business_id@).len() > 0 && trim(cfg.backend_url@).len() == 0 ==> (r matches Err(t)
            && test_is(t, false, "MISSING_BACKEND_URL"@, None, "backend_url / ingest URL is empty"@)),
        trim(cfg.business_id@).len() > 0 && trim(cfg.backend_url@).len() > 0 && trim(
            cfg.anon_key@,
        ).len() == 0 ==> (r matches Err(t) && test_is(
            t,
            false,
            "MISSING_AUTH_KEY"@,
            None,
            "anon_key is empty"@,
        )),
        configured(*cfg) ==> match r {
            Ok(_) => heartbeat_problems(trim(cfg.business_id@), device_id@).len() == 0,
            Err(t) => heartbeat_problems(trim(cfg.business_id@), device_id@).len() > 0 && test_is(
                t,
                false,
                "CONTRACT_INVALID"@,
                None,
                take_chars(
                    crate::api_contracts::contract_failure(
                        heartbeat_problems(trim(cfg.business_id@), device_id@),
                    ),
                    2000,
                ),
            ),
        },
{
    if is_blank(cfg.business_id.as_str()) {
        proof {
            reveal_strlit("business_id is empty");
            assert(take_chars("business_id is empty"@, 2000) == "business_id is empty"@);
        }
        return Err(fail_test("MISSING_BUSINESS_ID", None, "business_id is empty"));
    }
    if is_blank(cfg.backend_url.as_str()) {
        proof {
            reveal_strlit("backend_url / ingest URL is empty");
            assert(take_chars("backend_url / ingest URL is empty"@, 2000)
                == "backend_url / ingest URL is empty"@);
        }
        return Err(fail_test("MISSING_BACKEND_URL", None, "backend_url / ingest URL is empty"));
    }
    if is_blank(cfg.anon_key.as_str()) {
        proof {
            reveal_strlit("anon_key is empty");
            assert(take_chars("anon_key is empty"@, 2000) == "anon_key is empty"@);
        }
        return Err(fail_test("MISSING_AUTH_KEY", None, "anon_key is empty"));
    }
    let bid = trim_string(cfg.business_id.as_str());
    match validate_heartbeat_request(bid.as_str(), device_id) {
        Ok(()) => Ok(()),
        Err(e) => Err(fail_test("CONTRACT_INVALID", None, e.as_str())),
    }
}

/// The test result from the heartbeat outcome: `OK` as message on success, else the
/// outcome's message.
pub fn test_result_from_outcome(rec: &HeartbeatOutcomeRecord) -> (r: ConnectionTestResult)
    ensures
        rec.success ==> test_is(r, true, rec.category@, rec.http_status, "OK"@),
        !rec.success ==> test_is(r, false, rec.category@, rec.http_status, rec.message@),
{
    if rec.success {
        ConnectionTestResult {
            ok: true,
            category: rec.category.clone(),
            http_status: rec.http_status,
            message: String::from_str("OK"),
        }
    } else {
        ConnectionTestResult {
            ok: false,
            category: rec.category.clone(),
            http_status: rec.http_status,
            message: rec.message.clone(),
        }
    }
}

/// The outcome a finished (pre-check failed) test records.
pub fn test_outcome_record(r: &ConnectionTestResult, now: i64) -> (rec: HeartbeatOutcomeRecord)
    ensures
        record_is(rec, now, r.ok, r.category@, r.http_status, r.message@),
{
    HeartbeatOutcomeRecord {
        last_unix_ms: now,
        success: r.ok,
        category: r.category.clone(),
        http_status: r.http_status,
        message: r.message.clone(),
    }
}

/// The recent-log line of a connection test.
pub fn connection_test_log_line(rec: &HeartbeatOutcomeRecord) -> (r: String)
    ensures
        r@ == "CONNECTION_TEST_"@ + (if rec.success {
            "OK"@
        } else {
            "FAILED"@
        }) + " http="@ + status_debug(rec.http_status) + " category="@ + rec.category@,
{
    let mut l = String::from_str("CONNECTION_TEST_");
    if rec.success {
        l.append("OK");
    } else {
        l.append("FAILED");
    }
    l.append(" http=");
    let st = status_debug_text(rec.http_status);
    l.append(st.as_str());
    l.append(" category=");
    l.append(rec.category.as_str());
    l
}

// ---------------------------------------------------------------------------
// Report pieces
// ---------------------------------------------------------------------------

/// The missing tenant fields, in order.
pub open spec fn missing_categories(cfg: TenantConfig) -> Seq<Seq<char>> {
    (if trim(cfg.business_id@).len() == 0 {
        seq!["MISSING_BUSINESS_ID"@]
    } else {
        Seq::empty()
    }) + (if trim(cfg.backend_url@).len() == 0 {
        seq!["MISSING_BACKEND_URL"@]
    } else {
        Seq::empty()
    }) + (if trim(cfg.anon_key@).len() == 0 {
        seq!["MISSING_AUTH_KEY"@]
    } else {
        Seq::empty()
    })
}

pub fn missing_config_categories(cfg: &TenantConfig) -> (r: Vec<String>)
    ensures
        crate::text::views(r@) == missing_categories(*cfg),
{
    let mut r: Vec<String> = Vec::new();
    if is_blank(cfg.business_id.as_str()) {
        r.push(String::from_str("MISSING_BUSINESS_ID"));
    }
    let ghost a = crate::text::views(r@);
    if is_blank(cfg.backend_url.as_str()) {
        r.push(String::from_str("MISSING_BACKEND_URL"));
    }
    let ghost b = crate::text::views(r@);
    if is_blank(cfg.anon_key.as_str()) {
        r.push(String::from_str("MISSING_AUTH_KEY"));
    }
    assert(crate::text::views(r@) =~= missing_categories(*cfg));
    r
}

/// Name for the host that the `url` crate parses from a URL, shown as text; `None`
/// when the text does not parse or the URL has no host.
pub uninterp spec fn url_host_of(s: Seq<char>) -> Option<Seq<char>>;

/// Calls `url::Url::parse`, then `Url::host` and its `Display`. Claimed: the result is
/// the value named `url_host_of` of the input.
#[verifier::external_body]
fn parsed_url_host(s: &str) -> (r: Option<String>)
    ensures
        opt_view(r) == url_host_of(s@),
{
    match url::Url::parse(s) {
        Ok(u) => match u.host() {
            Some(h) => Some(h.to_string()),
            None => None,
        },
        Err(_) => None,
    }
}

/// The ingest host shown in diagnostics: none for a blank backend URL, else the host the
/// trimmed URL parses to.
pub fn ingest_host(backend_url: &str) -> (r: Option<String>)
    ensures
        trim(backend_url@).len() == 0 ==> r is None,
        trim(backend_url@).len() > 0 ==> opt_view(r) == url_host_of(trim(backend_url@)),
{
    let t = trim_string(backend_url);
    if t.as_str().is_empty() {
        return None;
    }
    parsed_url_host(t.as_str())
}

/// The recent connection log after one more line: `{stamp} {line}` appended, the
/// oldest lines dropped beyond `RECENT_LOG_MAX`.
pub open spec fn with_recent(lines: Seq<Seq<char>>, entry: Seq<char>) -> Seq<Seq<char>> {
    let all = lines.push(entry);
    if all.len() > RECENT_LOG_MAX {
        all.skip(all.len() - RECENT_LOG_MAX)
    } else {
        all
    }
}

pub fn push_recent_log(lines: &mut Vec<String>, stamp: &str, line: &str)
    ensures
        crate::text::views(final(lines)@) == with_recent(
            crate::text::views(old(lines)@),
            stamp@ + " "@ + line@,
        ),
{
    let mut e = String::from_str(stamp);
    e.append(" ");
    e.append(line);
    let ghost all = crate::text::views(lines@).push(e@);
    lines.push(e);
    assert(crate::text::views(lines@) =~= all);
    let ghost mut dropped: int = 0;
    while lines.len() > RECENT_LOG_MAX
        invariant
            0 <= dropped <= all.len(),
            crate::text::views(lines@) == all.skip(dropped),
            all.len() > RECENT_LOG_MAX ==> dropped <= all.len() - RECENT_LOG_MAX,
            all.len() <= RECENT_LOG_MAX ==> dropped == 0,
        decreases lines.len(),
    {
        let ghost before = crate::text::views(lines@);
        assert(before.len() == lines@.len());
        lines.remove(0);
        assert(crate::text::views(lines@) =~= before.drop_first());
        assert(crate::text::views(lines@) =~= all.skip(dropped + 1));
        proof {
            dropped = dropped + 1;
        }
    }
}

} // verus!

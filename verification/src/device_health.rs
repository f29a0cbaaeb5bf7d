//! Tray health (green / yellow / red), the tray tooltip, and the `device_health`
//! snapshot sent with heartbeats.
use vstd::prelude::*;
use crate::ccc_package_sync::CccSyncStatus;
use crate::connection_diagnostics::{
    heartbeat_is_stale, sat_sub, saturating_sub_i64, HeartbeatOutcomeRecord, HEARTBEAT_STALE_MS,
};
use crate::tenant_config::{configured, TenantConfig};
use crate::text::{
    at_char_boundary, byte_count, byte_len_exec, byte_prefix, decimal, split_at_byte, trim,
    trim_string, u64_to_string,
};

verus! {

#[derive(Clone, Copy, Debug, PartialEq, Eq, Structural)]
pub enum TrayHealthColor {
    Green,
    Yellow,
    Red,
}

pub struct DeviceHealthSnapshot {
    pub tray_state: TrayHealthColor,
    pub tenant_configured: bool,
    pub business_id_short: String,
    pub heartbeat_ok: bool,
    pub heartbeat_stale: bool,
    pub last_heartbeat_unix_ms: i64,
    pub last_heartbeat_category: String,
    pub ccc_sync_paused: bool,
    pub ccc_sync_offline: bool,
    pub ccc_syncing_count: u32,
    pub last_ccc_sync_unix_ms: i64,
    pub pending_uploads: u32,
    pub last_upload_unix_ms: i64,
    pub agent_version: String,
}

/// Upload queue figures reported by the web side.
pub struct UploadQueueReport {
    pub pending_uploads: u32,
    pub last_upload_unix_ms: Option<i64>,
}

/// Activity figures kept between snapshots.
pub struct HealthCounters {
    pub pending_uploads: u32,
    pub last_upload_unix_ms: i64,
    pub last_ccc_sync_unix_ms: i64,
}

impl HealthCounters {
    pub fn new() -> (r: Self)
        ensures
            r.pending_uploads == 0,
            r.last_upload_unix_ms == 0,
            r.last_ccc_sync_unix_ms == 0,
    {
        HealthCounters { pending_uploads: 0, last_upload_unix_ms: 0, last_ccc_sync_unix_ms: 0 }
    }

    /// A claim round reached the server.
    pub fn note_ccc_sync_activity(&mut self, now_ms: i64)
        ensures
            final(self).last_ccc_sync_unix_ms == now_ms,
            final(self).pending_uploads == old(self).pending_uploads,
            final(self).last_upload_unix_ms == old(self).last_upload_unix_ms,
    {
        self.last_ccc_sync_unix_ms = now_ms;
    }

    pub fn last_ccc_sync_unix_ms(&self) -> (r: i64)
        ensures
            r == self.last_ccc_sync_unix_ms,
    {
        self.last_ccc_sync_unix_ms
    }

    /// Takes the pending count; the last upload time only when given and positive.
    pub fn uce_report_upload_queue_stats(&mut self, report: &UploadQueueReport)
        ensures
            final(self).pending_uploads == report.pending_uploads,
            final(self).last_upload_unix_ms == match report.last_upload_unix_ms {
                Some(ms) => if ms > 0 {
                    ms
                } else {
                    old(self).last_upload_unix_ms
                },
                None => old(self).last_upload_unix_ms,
            },
            final(self).last_ccc_sync_unix_ms == old(self).last_ccc_sync_unix_ms,
    {
        self.pending_uploads = report.pending_uploads;
        if let Some(ms) = report.last_upload_unix_ms {
            if ms > 0 {
                self.last_upload_unix_ms = ms;
            }
        }
    }
}

/// Byte 8 of a long business id falls between characters (it is cut there).
pub open spec fn short_id_cut_ok(bid: Seq<char>) -> bool {
    byte_count(trim(bid)) >= 8 ==> at_char_boundary(trim(bid), 8)
}

/// A business id for display: its first 8 bytes and `…`, `(not set)` when blank.
pub open spec fn short_id(bid: Seq<char>) -> Seq<char> {
    let t = trim(bid);
    if byte_count(t) >= 8 {
        byte_prefix(t, 8) + "\u{2026}"@
    } else if t.len() == 0 {
        "(not set)"@
    } else {
        t
    }
}

pub fn business_id_short(bid: &str) -> (r: String)
    requires
        short_id_cut_ok(bid@),
    ensures
        r@ == short_id(bid@),
{
    let t = trim_string(bid);
    if byte_len_exec(t.as_str()) >= 8 {
        let (head, _) = split_at_byte(t.as_str(), 8);
        let mut r = head;
        r.append("\u{2026}");
        r
    } else if t.as_str().is_empty() {
        String::from_str("(not set)")
    } else {
        t
    }
}

/// The tray color: red without a tenant; yellow while paused or before any heartbeat;
/// red when the heartbeat is stale or failed; yellow when it is not OK or the CCC queue
/// is offline; else green.
pub open spec fn tray_color(
    tenant_configured: bool,
    ccc_paused: bool,
    heartbeat_ok: bool,
    last_hb_ms: i64,
    heartbeat_stale: bool,
    last_hb_success: bool,
    ccc_offline: bool,
) -> TrayHealthColor {
    if !tenant_configured {
        TrayHealthColor::Red
    } else if ccc_paused {
        TrayHealthColor::Yellow
    } else if last_hb_ms == 0 {
        TrayHealthColor::Yellow
    } else if heartbeat_stale || !last_hb_success {
        TrayHealthColor::Red
    } else if !heartbeat_ok || ccc_offline {
        TrayHealthColor::Yellow
    } else {
        TrayHealthColor::Green
    }
}

pub fn compute_tray_color(
    tenant_configured: bool,
    ccc_paused: bool,
    heartbeat_ok: bool,
    last_hb_ms: i64,
    heartbeat_stale: bool,
    last_hb_success: bool,
    ccc_offline: bool,
) -> (r: TrayHealthColor)
    ensures
        r == tray_color(
            tenant_configured,
            ccc_paused,
            heartbeat_ok,
            last_hb_ms,
            heartbeat_stale,
            last_hb_success,
            ccc_offline,
        ),
{
    if !tenant_configured {
        return TrayHealthColor::Red;
    }
    if ccc_paused {
        return TrayHealthColor::Yellow;
    }
    if last_hb_ms == 0 {
        return TrayHealthColor::Yellow;
    }
    if heartbeat_stale || !last_hb_success {
        return TrayHealthColor::Red;
    }
    if !heartbeat_ok || ccc_offline {
        return TrayHealthColor::Yellow;
    }
    TrayHealthColor::Green
}

/// The health snapshot at time `now` from the tenant, the last heartbeat outcome, the
/// CCC queue status and the activity counters.
pub fn snapshot(
    cfg: &TenantConfig,
    hb: &HeartbeatOutcomeRecord,
    now: i64,
    ccc: &CccSyncStatus,
    counters: &HealthCounters,
    agent_version: &str,
) -> (r: DeviceHealthSnapshot)
    requires
        short_id_cut_ok(cfg.business_id@),
    ensures
        r.tenant_configured == configured(*cfg),
        r.heartbeat_ok == (hb.success && hb.last_unix_ms > 0),
        r.heartbeat_stale == heartbeat_is_stale(hb.last_unix_ms, now),
        r.tray_state == tray_color(
            configured(*cfg),
            ccc.paused,
            hb.success && hb.last_unix_ms > 0,
            hb.last_unix_ms,
            heartbeat_is_stale(hb.last_unix_ms, now),
            hb.success,
            ccc.offline,
        ),
        r.business_id_short@ == short_id(cfg.business_id@),
        r.last_heartbeat_unix_ms == hb.last_unix_ms,
        r.last_heartbeat_category@ == hb.category@,
        r.ccc_sync_paused == ccc.paused,
        r.ccc_sync_offline == ccc.offline,
        r.ccc_syncing_count == ccc.syncing_count,
        r.last_ccc_sync_unix_ms == counters.last_ccc_sync_unix_ms,
        r.pending_uploads == counters.pending_uploads,
        r.last_upload_unix_ms == counters.last_upload_unix_ms,
        r.agent_version@ == agent_version@,
{
    let tenant_configured = cfg.is_configured();
    let heartbeat_ok = hb.success && hb.last_unix_ms > 0;
    let heartbeat_stale = crate::connection_diagnostics::heartbeat_stale(hb.last_unix_ms, now);
    let paused = ccc.is_sync_paused();
    let offline = ccc.is_ccc_offline();
    let tray_state = compute_tray_color(
        tenant_configured,
        paused,
        heartbeat_ok,
        hb.last_unix_ms,
        heartbeat_stale,
        hb.success,
        offline,
    );
    DeviceHealthSnapshot {
        tray_state,
        tenant_configured,
        business_id_short: business_id_short(cfg.business_id.as_str()),
        heartbeat_ok,
        heartbeat_stale,
        last_heartbeat_unix_ms: hb.last_unix_ms,
        last_heartbeat_category: hb.category.clone(),
        ccc_sync_paused: paused,
        ccc_sync_offline: offline,
        ccc_syncing_count: ccc.syncing_count(),
        last_ccc_sync_unix_ms: counters.last_ccc_sync_unix_ms,
        pending_uploads: counters.pending_uploads,
        last_upload_unix_ms: counters.last_upload_unix_ms,
        agent_version: String::from_str(agent_version),
    }
}

/// How long ago `ms` was, at time `now`: `never`, `just now`, minutes, hours or days.
pub open spec fn relative_text(ms: i64, now: i64) -> Seq<char> {
    let age = sat_sub(now, ms);
    if ms <= 0 {
        "never"@
    } else if age < 60_000 {
        "just now"@
    } else if age < 3_600_000 {
        decimal((age / 60_000) as nat) + "m ago"@
    } else if age < 86_400_000 {
        decimal((age / 3_600_000) as nat) + "h ago"@
    } else {
        decimal((age / 86_400_000) as nat) + "d ago"@
    }
}

pub fn format_relative_ms(ms: i64, now: i64) -> (r: String)
    ensures
        r@ == relative_text(ms, now),
{
    if ms <= 0 {
        return String::from_str("never");
    }
    let age = saturating_sub_i64(now, ms);
    if age < 60_000 {
        return String::from_str("just now");
    }
    let (n, unit) = if age < 3_600_000 {
        (age / 60_000, "m ago")
    } else if age < 86_400_000 {
        (age / 3_600_000, "h ago")
    } else {
        (age / 86_400_000, "d ago")
    };
    let mut r = u64_to_string(n as u64);
    r.append(unit);
    r
}

pub open spec fn status_word(snap: DeviceHealthSnapshot) -> Seq<char> {
    match snap.tray_state {
        TrayHealthColor::Green => "Connected"@,
        TrayHealthColor::Yellow => if snap.ccc_sync_paused {
            "Paused"@
        } else {
            "Attention"@
        },
        TrayHealthColor::Red => "Disconnected"@,
    }
}

pub open spec fn shop_line(snap: DeviceHealthSnapshot) -> Seq<char> {
    if snap.tenant_configured {
        "Shop "@ + snap.business_id_short@
    } else {
        "Not connected \u{2014} tray \u{2192} Connect"@
    }
}

pub open spec fn heartbeat_line(snap: DeviceHealthSnapshot, now: i64) -> Seq<char> {
    if snap.last_heartbeat_unix_ms > 0 {
        "Heartbeat: "@ + (if snap.heartbeat_ok {
            "OK"@
        } else {
            "failed"@
        }) + " ("@ + relative_text(snap.last_heartbeat_unix_ms, now) + ")"@
    } else {
        "Heartbeat: waiting for first success"@
    }
}

pub open spec fn ccc_line(snap: DeviceHealthSnapshot, now: i64) -> Seq<char> {
    if snap.ccc_sync_paused {
        "CCC sync: paused"@
    } else if snap.ccc_sync_offline {
        "CCC sync: offline"@
    } else if snap.ccc_syncing_count > 0 {
        "CCC sync: "@ + decimal(snap.ccc_syncing_count as nat) + " in progress"@
    } else {
        "CCC sync: idle (last "@ + relative_text(snap.last_ccc_sync_unix_ms, now) + ")"@
    }
}

pub open spec fn upload_line(snap: DeviceHealthSnapshot, now: i64) -> Seq<char> {
    if snap.pending_uploads > 0 {
        "Pending uploads: "@ + decimal(snap.pending_uploads as nat)
    } else {
        "Pending uploads: 0 (last "@ + relative_text(snap.last_upload_unix_ms, now) + ")"@
    }
}

/// The tray tooltip at time `now`: status, shop, heartbeat, CCC sync and upload lines and
/// the agent version, separated by CRLF.
pub open spec fn tooltip_text(snap: DeviceHealthSnapshot, now: i64) -> Seq<char> {
    "FileWisely UCE \u{2014} "@ + status_word(snap) + "\r\n"@ + shop_line(snap) + "\r\n"@
        + heartbeat_line(snap, now) + "\r\n"@ + ccc_line(snap, now) + "\r\n"@ + upload_line(
        snap,
        now,
    ) + "\r\nv"@ + snap.agent_version@
}

fn status_word_text(snap: &DeviceHealthSnapshot) -> (r: String)
    ensures
        r@ == status_word(*snap),
{
    match snap.tray_state {
        TrayHealthColor::Green => String::from_str("Connected"),
        TrayHealthColor::Yellow => if snap.ccc_sync_paused {
            String::from_str("Paused")
        } else {
            String::from_str("Attention")
        },
        TrayHealthColor::Red => String::from_str("Disconnected"),
    }
}

fn shop_line_text(snap: &DeviceHealthSnapshot) -> (r: String)
    ensures
        r@ == shop_line(*snap),
{
    if snap.tenant_configured {
        let mut r = String::from_str("Shop ");
        r.append(snap.business_id_short.as_str());
        r
    } else {
        String::from_str("Not connected \u{2014} tray \u{2192} Connect")
    }
}

fn heartbeat_line_text(snap: &DeviceHealthSnapshot, now: i64) -> (r: String)
    ensures
        r@ == heartbeat_line(*snap, now),
{
    if snap.last_heartbeat_unix_ms > 0 {
        let mut r = String::from_str("Heartbeat: ");
        if snap.heartbeat_ok {
            r.append("OK");
        } else {
            r.append("failed");
        }
        r.append(" (");
        let rel = format_relative_ms(snap.last_heartbeat_unix_ms, now);
        r.append(rel.as_str());
        r.append(")");
        r
    } else {
        String::from_str("Heartbeat: waiting for first success")
    }
}

fn ccc_line_text(snap: &DeviceHealthSnapshot, now: i64) -> (r: String)
    ensures
        r@ == ccc_line(*snap, now),
{
    if snap.ccc_sync_paused {
        String::from_str("CCC sync: paused")
    } else if snap.ccc_sync_offline {
        String::from_str("CCC sync: offline")
    } else if snap.ccc_syncing_count > 0 {
        let mut r = String::from_str("CCC sync: ");
        let n = u64_to_string(snap.ccc_syncing_count as u64);
        r.append(n.as_str());
        r.append(" in progress");
        r
    } else {
        let mut r = String::from_str("CCC sync: idle (last ");
        let rel = format_relative_ms(snap.last_ccc_sync_unix_ms, now);
        r.append(rel.as_str());
        r.append(")");
        r
    }
}

fn upload_line_text(snap: &DeviceHealthSnapshot, now: i64) -> (r: String)
    ensures
        r@ == upload_line(*snap, now),
{
    if snap.pending_uploads > 0 {
        let mut r = String::from_str("Pending uploads: ");
        let n = u64_to_string(snap.pending_uploads as u64);
        r.append(n.as_str());
        r
    } else {
        let mut r = String::from_str("Pending uploads: 0 (last ");
        let rel = format_relative_ms(snap.last_upload_unix_ms, now);
        r.append(rel.as_str());
        r.append(")");
        r
    }
}

/// See `tooltip_text`.
pub fn tray_tooltip_at(snap: &DeviceHealthSnapshot, now: i64) -> (r: String)
    ensures
        r@ == tooltip_text(*snap, now),
{
    let a = status_word_text(snap);
    let b = shop_line_text(snap);
    let c = heartbeat_line_text(snap, now);
    let d = ccc_line_text(snap, now);
    let e = upload_line_text(snap, now);
    let mut r = String::from_str("FileWisely UCE \u{2014} ");
    r.append(a.as_str());
    r.append("\r\n");
    r.append(b.as_str());
    r.append("\r\n");
    r.append(c.as_str());
    r.append("\r\n");
    r.append(d.as_str());
    r.append("\r\n");
    r.append(e.as_str());
    r.append("\r\nv");
    r.append(snap.agent_version.as_str());
    r
}

#[verifier::external_type_specification]
#[verifier::external_body]
pub struct ExSystemTime(std::time::SystemTime);

/// Calls `std::time::SystemTime::now`. Nothing is claimed of the time it reads.
#[verifier::external_body]
fn system_time_now() -> (r: std::time::SystemTime) {
    std::time::SystemTime::now()
}

/// Calls `SystemTime::duration_since` with `UNIX_EPOCH`: the time since the epoch, `None`
/// when `t` is before it. Nothing is claimed of the duration.
#[verifier::external_body]
fn since_unix_epoch(t: &std::time::SystemTime) -> (r: Option<std::time::Duration>) {
    t.duration_since(std::time::UNIX_EPOCH).ok()
}

/// Calls `Duration::as_millis`. Nothing is claimed of the count.
#[verifier::external_body]
fn duration_millis(d: &std::time::Duration) -> (r: u128) {
    d.as_millis()
}

/// Milliseconds since the Unix epoch by the system clock (0 when the clock is before it),
/// truncated to `i64`.
pub(crate) fn now_unix_ms() -> (r: i64) {
    let t = system_time_now();
    match since_unix_epoch(&t) {
        Some(d) => {
            let ms = duration_millis(&d);
            #[verifier::truncate]
            (ms as i64)
        },
        None => 0,
    }
}

/// The tray tooltip now (see `tooltip_text`).
pub fn tray_tooltip(snap: &DeviceHealthSnapshot) -> (r: String)
    ensures
        exists|now: i64| r@ == tooltip_text(*snap, now),
{
    let now = now_unix_ms();
    tray_tooltip_at(snap, now)
}

} // verus!

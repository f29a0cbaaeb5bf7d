//! The self-healing supervisor's decisions: when a stale heartbeat is nudged, when the
//! CCC sync is reported idle, and when the webview is recovered from a browser error
//! page, each with its cool-down.
use vstd::prelude::*;
use crate::connection_diagnostics::{sat_sub, saturating_sub_i64};
use crate::text::{decimal_int};

verus! {

pub const CHECK_INTERVAL_SECS: u64 = 60;

/// A heartbeat older than this is nudged, at most once per this interval.
pub const HEARTBEAT_NUDGE_MS: i64 = 600000;

/// CCC sync activity older than this is logged as idle.
pub const CCC_ACTIVITY_STALE_MS: i64 = 1200000;

/// At most one webview recovery per this interval.
pub const WEBVIEW_RECOVERY_COOLDOWN_MS: i64 = 180000;

pub const LOG_MAX_LINES: usize = 400;

/// The watchdog's clocks (Unix milliseconds, 0 for never).
pub struct WatchdogState {
    pub last_webview_ok_ms: i64,
    pub last_webview_recovery_ms: i64,
    pub last_heartbeat_nudge_ms: i64,
}

/// The age of the last heartbeat; the largest value when there was none.
pub open spec fn heartbeat_age(now: i64, last: i64) -> i64 {
    if last > 0 {
        sat_sub(now, last)
    } else {
        i64::MAX
    }
}

/// A due nudge: the heartbeat's age, and the texts for the health log and the device
/// health's last error.
pub struct HeartbeatNudge {
    pub age_ms: i64,
    pub log_line: String,
    pub last_error: String,
}

/// What the webview check does.
pub enum WebviewAction {
    /// The page is a browser error page and the cool-down has passed: recover.
    Recover,
    /// An error page within the cool-down: nothing.
    Wait,
    /// A normal page: recorded as the last good navigation.
    NotedOk,
}

impl WatchdogState {
    pub fn new() -> (r: Self)
        ensures
            r.last_webview_ok_ms == 0 && r.last_webview_recovery_ms == 0 && r.last_heartbeat_nudge_ms == 0,
    {
        WatchdogState { last_webview_ok_ms: 0, last_webview_recovery_ms: 0, last_heartbeat_nudge_ms: 0 }
    }

    /// Records a successful navigation unless the page is a browser error page.
    pub fn note_webview_navigation_ok(&mut self, is_error_page: bool, now_ms: i64)
        ensures
            final(self).last_webview_ok_ms == if is_error_page {
                old(self).last_webview_ok_ms
            } else {
                now_ms
            },
            final(self).last_webview_recovery_ms == old(self).last_webview_recovery_ms,
            final(self).last_heartbeat_nudge_ms == old(self).last_heartbeat_nudge_ms,
    {
        if is_error_page {
            return;
        }
        self.last_webview_ok_ms = now_ms;
    }

    /// The heartbeat check of one tick: a heartbeat that exists and is older than
    /// `HEARTBEAT_NUDGE_MS` is nudged, unless the last nudge is that recent.
    pub fn heartbeat_nudge(&mut self, now_ms: i64, last_heartbeat_ms: i64, category: &str) -> (r: Option<
        HeartbeatNudge,
    >)
        ensures
            final(self).last_webview_ok_ms == old(self).last_webview_ok_ms,
            final(self).last_webview_recovery_ms == old(self).last_webview_recovery_ms,
            ({
                let age = heartbeat_age(now_ms, last_heartbeat_ms);
                let due = last_heartbeat_ms > 0 && age > HEARTBEAT_NUDGE_MS && sat_sub(
                    now_ms,
                    old(self).last_heartbeat_nudge_ms,
                ) > HEARTBEAT_NUDGE_MS;
                &&& due ==> (r matches Some(n) && n.age_ms == age && final(self).last_heartbeat_nudge_ms
                    == now_ms && n.log_line@ == "heartbeat stale age_ms="@ + decimal_int(age as int)
                    + " category="@ + category@ + " \u{2014} nudge JS"@ && n.last_error@
                    == "heartbeat stale "@ + decimal_int(age as int / 60000) + "m (category "@
                    + category@ + ")"@)
                &&& !due ==> r is None && final(self).last_heartbeat_nudge_ms
                    == old(self).last_heartbeat_nudge_ms
            }),
    {
        let age: i64 = if last_heartbeat_ms > 0 {
            saturating_sub_i64(now_ms, last_heartbeat_ms)
        } else {
            i64::MAX
        };
        if !(last_heartbeat_ms > 0 && age > HEARTBEAT_NUDGE_MS) {
            return None;
        }
        if saturating_sub_i64(now_ms, self.last_heartbeat_nudge_ms) <= HEARTBEAT_NUDGE_MS {
            return None;
        }
        self.last_heartbeat_nudge_ms = now_ms;
        let a = crate::text::i64_to_string(age);
        let mut log_line = String::from_str("heartbeat stale age_ms=");
        log_line.append(a.as_str());
        log_line.append(" category=");
        log_line.append(category);
        log_line.append(" \u{2014} nudge JS");
        let mins = crate::text::i64_to_string(age / 60000);
        let mut last_error = String::from_str("heartbeat stale ");
        last_error.append(mins.as_str());
        last_error.append("m (category ");
        last_error.append(category);
        last_error.append(")");
        Some(HeartbeatNudge { age_ms: age, log_line, last_error })
    }

    /// The webview check of one tick.
    pub fn check_webview(&mut self, is_error_page: bool, now_ms: i64) -> (a: WebviewAction)
        ensures
            final(self).last_heartbeat_nudge_ms == old(self).last_heartbeat_nudge_ms,
            is_error_page && sat_sub(now_ms, old(self).last_webview_recovery_ms) < WEBVIEW_RECOVERY_COOLDOWN_MS
                ==> a is Wait && *final(self) == *old(self),
            is_error_page && sat_sub(now_ms, old(self).last_webview_recovery_ms) >= WEBVIEW_RECOVERY_COOLDOWN_MS
                ==> a is Recover && final(self).last_webview_recovery_ms == now_ms
                && final(self).last_webview_ok_ms == old(self).last_webview_ok_ms,
            !is_error_page ==> a is NotedOk && final(self).last_webview_ok_ms == now_ms
                && final(self).last_webview_recovery_ms == old(self).last_webview_recovery_ms,
    {
        if is_error_page {
            if saturating_sub_i64(now_ms, self.last_webview_recovery_ms) < WEBVIEW_RECOVERY_COOLDOWN_MS {
                return WebviewAction::Wait;
            }
            self.last_webview_recovery_ms = now_ms;
            return WebviewAction::Recover;
        }
        self.note_webview_navigation_ok(false, now_ms);
        WebviewAction::NotedOk
    }
}

/// The health-log line when CCC sync activity is older than `CCC_ACTIVITY_STALE_MS`
/// while CCC is not offline; none when there was no activity yet.
pub fn ccc_idle_log_line(now_ms: i64, last_ccc_sync_ms: i64, ccc_offline: bool) -> (r: Option<String>)
    ensures
        ({
            let age = sat_sub(now_ms, last_ccc_sync_ms);
            if last_ccc_sync_ms > 0 && age > CCC_ACTIVITY_STALE_MS && !ccc_offline {
                r matches Some(l) && l@ == "ccc sync idle long age_ms="@ + decimal_int(age as int)
                    + " (poll continues)"@
            } else {
                r is None
            }
        }),
{
    if last_ccc_sync_ms <= 0 {
        return None;
    }
    let age = saturating_sub_i64(now_ms, last_ccc_sync_ms);
    if age > CCC_ACTIVITY_STALE_MS && !ccc_offline {
        let mut l = String::from_str("ccc sync idle long age_ms=");
        let a = crate::text::i64_to_string(age);
        l.append(a.as_str());
        l.append(" (poll continues)");
        Some(l)
    } else {
        None
    }
}

} // verus!

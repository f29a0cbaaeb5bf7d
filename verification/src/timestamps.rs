//! UTC timestamps for log lines, formatted by `chrono` from milliseconds since the Unix
//! epoch.
use vstd::prelude::*;

verus! {

/// `%Y-%m-%dT%H:%M:%SZ`: the stamp of the connection log.
pub open spec fn seconds_format() -> Seq<char> {
    "%Y-%m-%dT%H:%M:%SZ"@
}

/// `%Y-%m-%dT%H:%M:%S%.3fZ`: the stamp of the popup log.
pub open spec fn millis_format() -> Seq<char> {
    "%Y-%m-%dT%H:%M:%S%.3fZ"@
}

/// Name for what `chrono` prints for the UTC time `unix_ms` with the format `fmt`;
/// `None` when the time is outside chrono's range.
pub uninterp spec fn utc_format_text(unix_ms: i64, fmt: Seq<char>) -> Option<Seq<char>>;

/// Calls `chrono::DateTime::from_timestamp_millis`, then `format` and `to_string`.
/// Claimed: the text is the value named `utc_format_text` of the time and the format.
/// Only the two formats above are passed, which chrono formats without error.
#[verifier::external_body]
fn utc_format(unix_ms: i64, fmt: &str) -> (r: Option<String>)
    requires
        fmt@ == seconds_format() || fmt@ == millis_format(),
    ensures
        match r {
            Some(s) => utc_format_text(unix_ms, fmt@) == Some(s@),
            None => utc_format_text(unix_ms, fmt@) is None,
        },
{
    match chrono::DateTime::from_timestamp_millis(unix_ms) {
        Some(t) => Some(t.format(fmt).to_string()),
        None => None,
    }
}

/// The connection-log stamp of `unix_ms` (whole seconds, UTC).
pub fn log_stamp_seconds(unix_ms: i64) -> (r: Option<String>)
    ensures
        match r {
            Some(s) => utc_format_text(unix_ms, seconds_format()) == Some(s@),
            None => utc_format_text(unix_ms, seconds_format()) is None,
        },
{
    utc_format(unix_ms, "%Y-%m-%dT%H:%M:%SZ")
}

/// The popup-log stamp of `unix_ms` (milliseconds, UTC).
pub fn log_stamp_millis(unix_ms: i64) -> (r: Option<String>)
    ensures
        match r {
            Some(s) => utc_format_text(unix_ms, millis_format()) == Some(s@),
            None => utc_format_text(unix_ms, millis_format()) is None,
        },
{
    utc_format(unix_ms, "%Y-%m-%dT%H:%M:%S%.3fZ")
}

} // verus!

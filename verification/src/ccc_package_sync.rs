//! CCC package queue: claim → download → write → ack. The library holds the claimed job
//! model, where each job is written under the CCC Import root, how each job is acknowledged,
//! the sync status shown in the tray and diagnostics, and the checks a poll makes before it
//! claims. HTTP requests and file writes happen outside the library.
use vstd::prelude::*;
use crate::paths::{append_rel, append_rel_exec, join_chars, path_join, sanitize_segment, sanitize_segment_exec};
use crate::text::{
    chars_of, find_chars, first_occurrence, has_sub, is_blank, string_of, take_chars,
    take_string, trim, trim_chars,
};

verus! {

pub const POLL_INTERVAL_SECS: u64 = 15;
pub const CLAIM_LIMIT: u32 = 25;
pub const HTTP_TIMEOUT_SECS: u64 = 120;

/// One job of a `ccc-package-claim-batch` response.
pub struct ClaimItem {
    pub queue_id: String,
    /// `mirror_file` (default), `delete_folder`, `delete_file`, `archive_folder`, …
    pub action_type: Option<String>,
    pub ro_folder_name: Option<String>,
    /// e.g. `photos/check_in`: preferred layout when set.
    pub sub_folder: Option<String>,
    /// Legacy photo bucket when `sub_folder` is absent.
    pub bucket: Option<String>,
    pub signed_url: Option<String>,
    pub filename: Option<String>,
    /// RO folder (or relative path under the CCC Import root) for cleanup jobs.
    pub target_path_hint: Option<String>,
    pub source_table: String,
    pub source_id: String,
}

/// One row of the `ccc-package-ack` body.
pub struct PendingAck {
    pub queue_id: String,
    pub source_table: String,
    pub source_id: String,
    pub status: String,
    pub error_message: Option<String>,
    pub written_path: Option<String>,
    pub sub_folder: Option<String>,
    pub action_type: Option<String>,
}

pub open spec fn opt_view(o: Option<String>) -> Option<Seq<char>> {
    match o {
        Some(s) => Some(s@),
        None => None,
    }
}

/// The value when present and not blank.
pub open spec fn nonblank(o: Option<Seq<char>>) -> Option<Seq<char>> {
    match o {
        Some(s) => if trim(s).len() > 0 {
            Some(s)
        } else {
            None
        },
        None => None,
    }
}

/// The job's action: `action_type` when present and not blank, else `mirror_file`.
pub open spec fn action_of(item: ClaimItem) -> Seq<char> {
    match nonblank(opt_view(item.action_type)) {
        Some(a) => a,
        None => "mirror_file"@,
    }
}

pub open spec fn sanitized_or(o: Option<Seq<char>>, dflt: Seq<char>) -> Seq<char> {
    match o {
        Some(s) => match sanitize_segment(s) {
            Some(x) => x,
            None => dflt,
        },
        None => dflt,
    }
}

pub open spec fn bucket_path(base: Seq<char>, bucket: Option<Seq<char>>, file: Seq<char>) -> Seq<
    char,
> {
    match bucket {
        Some(b) => match sanitize_segment(b) {
            Some(bs) => path_join(path_join(base, bs), file),
            None => path_join(base, file),
        },
        None => path_join(base, file),
    }
}

/// Where a mirrored file is written: `{root}/{ro}/{sub_folder…}/{file}` when `sub_folder` is
/// set and usable, else `{root}/{ro}/{bucket}/{file}` with a usable bucket, else
/// `{root}/{ro}/{file}`; `RO` and `file` stand in for unusable names.
pub open spec fn destination_spec(root: Seq<char>, item: ClaimItem) -> Seq<char> {
    let ro = sanitized_or(opt_view(item.ro_folder_name), "RO"@);
    let file = sanitized_or(opt_view(item.filename), "file"@);
    let base = path_join(root, ro);
    match nonblank(opt_view(item.sub_folder)) {
        Some(sf) => match append_rel(base, sf) {
            Some(p) => path_join(p, file),
            None => bucket_path(base, opt_view(item.bucket), file),
        },
        None => bucket_path(base, opt_view(item.bucket), file),
    }
}

/// Law: a usable `sub_folder` is the layout: when it is not blank and every part of it
/// sanitizes under `root\{ro}`, the file goes to `root\{ro}\{sub_folder parts}\{file}`,
/// whatever the legacy `bucket` holds (the same place for any other bucket).
pub proof fn law_sub_folder_wins_over_bucket(root: Seq<char>, item: ClaimItem, other_bucket: Option<String>)
    requires
        item.sub_folder matches Some(sf) && trim(sf@).len() > 0 && append_rel(
            path_join(root, sanitized_or(opt_view(item.ro_folder_name), "RO"@)),
            sf@,
        ) is Some,
    ensures
        destination_spec(root, item) == path_join(
            append_rel(
                path_join(root, sanitized_or(opt_view(item.ro_folder_name), "RO"@)),
                item.sub_folder->0@,
            )->0,
            sanitized_or(opt_view(item.filename), "file"@),
        ),
        destination_spec(root, item) == destination_spec(root, ClaimItem { bucket: other_bucket, ..item }),
{
}

fn opt_chars(o: &Option<String>) -> (r: Option<Vec<char>>)
    ensures
        match r {
            Some(v) => opt_view(*o) == Some(v@),
            None => o.is_none(),
        },
{
    match o {
        Some(s) => Some(chars_of(s.as_str())),
        None => None,
    }
}

fn nonblank_chars(o: &Option<String>) -> (r: Option<Vec<char>>)
    ensures
        match r {
            Some(v) => nonblank(opt_view(*o)) == Some(v@),
            None => nonblank(opt_view(*o)) is None,
        },
{
    match o {
        Some(s) => if is_blank(s.as_str()) {
            None
        } else {
            Some(chars_of(s.as_str()))
        },
        None => None,
    }
}

fn sanitized_or_exec(o: &Option<String>, dflt: &str) -> (r: Vec<char>)
    ensures
        r@ == sanitized_or(opt_view(*o), dflt@),
{
    match opt_chars(o) {
        Some(v) => match sanitize_segment_exec(v.as_slice()) {
            Some(x) => x,
            None => chars_of(dflt),
        },
        None => chars_of(dflt),
    }
}

impl ClaimItem {
    /// The job's action (`mirror_file` when not given).
    pub fn action(&self) -> (r: String)
        ensures
            r@ == action_of(*self),
    {
        match nonblank_chars(&self.action_type) {
            Some(a) => string_of(a.as_slice()),
            None => String::from_str("mirror_file"),
        }
    }
}

/// Where a mirrored file is written under the CCC Import `root`.
pub fn destination_path_for_item(root: &str, item: &ClaimItem) -> (r: String)
    ensures
        r@ == destination_spec(root@, *item),
{
    let ro = sanitized_or_exec(&item.ro_folder_name, "RO");
    let file = sanitized_or_exec(&item.filename, "file");
    let rootv = chars_of(root);
    let base = join_chars(rootv.as_slice(), ro.as_slice());
    if let Some(sf) = nonblank_chars(&item.sub_folder) {
        if let Some(with_sub) = append_rel_exec(base.as_slice(), sf.as_slice()) {
            let p = join_chars(with_sub.as_slice(), file.as_slice());
            return string_of(p.as_slice());
        }
    }
    let out = match opt_chars(&item.bucket) {
        Some(b) => match sanitize_segment_exec(b.as_slice()) {
            Some(bs) => {
                let with_bucket = join_chars(base.as_slice(), bs.as_slice());
                join_chars(with_bucket.as_slice(), file.as_slice())
            },
            None => join_chars(base.as_slice(), file.as_slice()),
        },
        None => join_chars(base.as_slice(), file.as_slice()),
    };
    string_of(out.as_slice())
}

/// Relative path under the CCC Import root from a `target_path_hint` (sanitized segments).
pub fn path_under_root(root: &str, hint: &str) -> (r: Option<String>)
    ensures
        match r {
            Some(p) => append_rel(root@, hint@) == Some(p@),
            None => append_rel(root@, hint@) is None,
        },
{
    crate::paths::append_rel_string(root, hint)
}

// ---------------------------------------------------------------------------
// Sync status (tray label, diagnostics)
// ---------------------------------------------------------------------------

/// What the package sync last did, as shown in the tray and in diagnostics.
pub struct CccSyncStatus {
    pub syncing_count: u32,
    pub paused: bool,
    pub offline: bool,
    pub last_claim_error: String,
    pub last_write_error: String,
    pub last_write_ok_ms: i64,
    pub last_claim_batch_count: u32,
    pub last_claim_parsed_ms: i64,
    pub last_ack_ok_ms: i64,
    pub last_ack_ok_count: u32,
    pub last_ack_fail_count: u32,
    pub last_ack_error: String,
    pub import_writable: bool,
}

/// The sync status as plain values.
pub struct CccSyncStatusV {
    pub syncing_count: u32,
    pub paused: bool,
    pub offline: bool,
    pub last_claim_error: Seq<char>,
    pub last_write_error: Seq<char>,
    pub last_write_ok_ms: i64,
    pub last_claim_batch_count: u32,
    pub last_claim_parsed_ms: i64,
    pub last_ack_ok_ms: i64,
    pub last_ack_ok_count: u32,
    pub last_ack_fail_count: u32,
    pub last_ack_error: Seq<char>,
    pub import_writable: bool,
}

impl View for CccSyncStatus {
    type V = CccSyncStatusV;

    open spec fn view(&self) -> CccSyncStatusV {
        CccSyncStatusV {
            syncing_count: self.syncing_count,
            paused: self.paused,
            offline: self.offline,
            last_claim_error: self.last_claim_error@,
            last_write_error: self.last_write_error@,
            last_write_ok_ms: self.last_write_ok_ms,
            last_claim_batch_count: self.last_claim_batch_count,
            last_claim_parsed_ms: self.last_claim_parsed_ms,
            last_ack_ok_ms: self.last_ack_ok_ms,
            last_ack_ok_count: self.last_ack_ok_count,
            last_ack_fail_count: self.last_ack_fail_count,
            last_ack_error: self.last_ack_error@,
            import_writable: self.import_writable,
        }
    }
}

impl CccSyncStatus {
    /// The kept error texts are at most 500 characters (as recorded).
    pub open spec fn wf(&self) -> bool {
        &&& self.last_claim_error@.len() <= 500
        &&& self.last_write_error@.len() <= 500
        &&& self.last_ack_error@.len() <= 500
    }
}

/// Error text kept for diagnostics: its first 500 characters.
pub open spec fn capped(s: Seq<char>) -> Seq<char> {
    take_chars(s, 500)
}

pub open spec fn sync_label(st: CccSyncStatus) -> Seq<char> {
    if st.paused {
        "CCC sync: Paused"@
    } else if st.offline {
        "CCC sync: Offline"@
    } else if st.syncing_count > 0 {
        "CCC sync: "@ + crate::text::decimal(st.syncing_count as nat) + " syncing…"@
    } else {
        "CCC sync: 0 pending"@
    }
}

impl CccSyncStatus {
    /// Initial state: nothing claimed, not paused, online, CCC Import writable.
    pub fn new() -> (r: Self)
        ensures
            r.wf(),
            r@ == (CccSyncStatusV {
                syncing_count: 0,
                paused: false,
                offline: false,
                last_claim_error: Seq::empty(),
                last_write_error: Seq::empty(),
                last_write_ok_ms: 0,
                last_claim_batch_count: 0,
                last_claim_parsed_ms: 0,
                last_ack_ok_ms: 0,
                last_ack_ok_count: 0,
                last_ack_fail_count: 0,
                last_ack_error: Seq::empty(),
                import_writable: true,
            }),
    {
        CccSyncStatus {
            syncing_count: 0,
            paused: false,
            offline: false,
            last_claim_error: String::new(),
            last_write_error: String::new(),
            last_write_ok_ms: 0,
            last_claim_batch_count: 0,
            last_claim_parsed_ms: 0,
            last_ack_ok_ms: 0,
            last_ack_ok_count: 0,
            last_ack_fail_count: 0,
            last_ack_error: String::new(),
            import_writable: true,
        }
    }

    pub fn is_sync_paused(&self) -> (b: bool)
        ensures
            b == self.paused,
    {
        self.paused
    }

    pub fn is_ccc_offline(&self) -> (b: bool)
        ensures
            b == self.offline,
    {
        self.offline
    }

    pub fn syncing_count(&self) -> (n: u32)
        ensures
            n == self.syncing_count,
    {
        self.syncing_count
    }

    /// Pauses or resumes the sync loop.
    pub fn set_sync_paused(&mut self, paused: bool)
        ensures
            final(self)@ == (CccSyncStatusV { paused, ..old(self)@ }),
            old(self).wf() ==> final(self).wf(),
    {
        self.paused = paused;
    }

    /// Enabled state of the tray's (Pause, Resume) items.
    pub fn refresh_pause_resume_menu(&self) -> (r: (bool, bool))
        ensures
            r == (!self.paused, self.paused),
    {
        (!self.paused, self.paused)
    }

    /// Tray menu line for the package sync.
    pub fn tray_ccc_sync_label(&self) -> (r: String)
        ensures
            r@ == sync_label(*self),
    {
        if self.paused {
            return String::from_str("CCC sync: Paused");
        }
        if self.offline {
            return String::from_str("CCC sync: Offline");
        }
        if self.syncing_count > 0 {
            let mut s = String::from_str("CCC sync: ");
            let n = crate::text::u64_to_string(self.syncing_count as u64);
            s.append(n.as_str());
            s.append(" syncing…");
            s
        } else {
            String::from_str("CCC sync: 0 pending")
        }
    }

    pub fn set_ccc_import_writable(&mut self, writable: bool)
        ensures
            final(self)@ == (CccSyncStatusV { import_writable: writable, ..old(self)@ }),
            old(self).wf() ==> final(self).wf(),
    {
        self.import_writable = writable;
    }

    pub fn ccc_import_writable(&self) -> (b: bool)
        ensures
            b == self.import_writable,
    {
        self.import_writable
    }

    pub fn last_ccc_claim_error(&self) -> (r: String)
        ensures
            r@ == self.last_claim_error@,
    {
        self.last_claim_error.clone()
    }

    pub fn last_ccc_write_error(&self) -> (r: String)
        ensures
            r@ == self.last_write_error@,
    {
        self.last_write_error.clone()
    }

    pub fn last_ccc_write_unix_ms(&self) -> (r: i64)
        ensures
            r == self.last_write_ok_ms,
    {
        self.last_write_ok_ms
    }

    pub fn last_ccc_claim_batch_count(&self) -> (r: u32)
        ensures
            r == self.last_claim_batch_count,
    {
        self.last_claim_batch_count
    }

    pub fn last_ccc_claim_parsed_unix_ms(&self) -> (r: i64)
        ensures
            r == self.last_claim_parsed_ms,
    {
        self.last_claim_parsed_ms
    }

    pub fn last_ccc_ack_ok_unix_ms(&self) -> (r: i64)
        ensures
            r == self.last_ack_ok_ms,
    {
        self.last_ack_ok_ms
    }

    pub fn last_ccc_ack_ok_count(&self) -> (r: u32)
        ensures
            r == self.last_ack_ok_count,
    {
        self.last_ack_ok_count
    }

    pub fn last_ccc_ack_fail_count(&self) -> (r: u32)
        ensures
            r == self.last_ack_fail_count,
    {
        self.last_ack_fail_count
    }

    pub fn last_ccc_ack_error(&self) -> (r: String)
        ensures
            r@ == self.last_ack_error@,
    {
        self.last_ack_error.clone()
    }

    /// Records a claim error (first 500 characters); returns the device-health error line.
    pub fn note_claim_error(&mut self, msg: &str) -> (line: String)
        ensures
            final(self)@ == (CccSyncStatusV { last_claim_error: capped(msg@), ..old(self)@ }),
            line@ == "CCC claim: "@ + capped(msg@),
            old(self).wf() ==> final(self).wf(),
    {
        let m = take_string(msg, 500);
        let mut line = String::from_str("CCC claim: ");
        line.append(m.as_str());
        self.last_claim_error = m;
        line
    }

    pub fn clear_claim_error(&mut self)
        ensures
            final(self)@ == (CccSyncStatusV { last_claim_error: Seq::empty(), ..old(self)@ }),
            old(self).wf() ==> final(self).wf(),
    {
        self.last_claim_error = String::new();
    }

    /// Records a write error (first 500 characters); returns the device-health error line.
    pub fn note_write_error(&mut self, msg: &str) -> (line: String)
        ensures
            final(self)@ == (CccSyncStatusV { last_write_error: capped(msg@), ..old(self)@ }),
            line@ == "CCC write: "@ + capped(msg@),
            old(self).wf() ==> final(self).wf(),
    {
        let m = take_string(msg, 500);
        let mut line = String::from_str("CCC write: ");
        line.append(m.as_str());
        self.last_write_error = m;
        line
    }

    /// A file was written (or a folder removed) at `now_ms`: the write error is cleared.
    pub fn note_write_ok(&mut self, now_ms: i64)
        ensures
            final(self)@ == (CccSyncStatusV {
                last_write_ok_ms: now_ms,
                last_write_error: Seq::empty(),
                ..old(self)@
            }),
            old(self).wf() ==> final(self).wf(),
    {
        self.last_write_ok_ms = now_ms;
        self.last_write_error = String::new();
    }

    /// Records an ack error (first 500 characters); returns the device-health error line.
    pub fn note_ack_error(&mut self, msg: &str) -> (line: String)
        ensures
            final(self)@ == (CccSyncStatusV { last_ack_error: capped(msg@), ..old(self)@ }),
            line@ == "CCC ack: "@ + capped(msg@),
            old(self).wf() ==> final(self).wf(),
    {
        let m = take_string(msg, 500);
        let mut line = String::from_str("CCC ack: ");
        line.append(m.as_str());
        self.last_ack_error = m;
        line
    }

    pub fn clear_ack_batch_counters(&mut self)
        ensures
            final(self)@ == (CccSyncStatusV {
                last_ack_ok_count: 0,
                last_ack_fail_count: 0,
                ..old(self)@
            }),
            old(self).wf() ==> final(self).wf(),
    {
        self.last_ack_ok_count = 0;
        self.last_ack_fail_count = 0;
    }

    /// One acknowledged item at `now_ms` (the counter wraps like an atomic add).
    pub fn record_ack_ok(&mut self, now_ms: i64)
        ensures
            final(self)@ == (CccSyncStatusV {
                last_ack_ok_ms: now_ms,
                last_ack_ok_count: old(self).last_ack_ok_count.wrapping_add(1),
                last_ack_error: Seq::empty(),
                ..old(self)@
            }),
            old(self).wf() ==> final(self).wf(),
    {
        self.last_ack_ok_ms = now_ms;
        self.last_ack_ok_count = self.last_ack_ok_count.wrapping_add(1);
        self.last_ack_error = String::new();
    }

    /// One failed ack; returns the device-health error line.
    pub fn record_ack_fail(&mut self, msg: &str) -> (line: String)
        ensures
            final(self)@ == st_ack_fail(old(self)@, msg@),
            line@ == "CCC ack: "@ + capped(msg@),
            old(self).wf() ==> final(self).wf(),
    {
        self.last_ack_fail_count = self.last_ack_fail_count.wrapping_add(1);
        self.note_ack_error(msg)
    }

    /// Goes offline (recording `claim_reason` as the claim error when given) or back online
    /// (clearing the claim error). Returns the device-health error line when one was recorded.
    pub fn set_offline(&mut self, offline: bool, claim_reason: Option<&str>) -> (line: Option<
        String,
    >)
        ensures
            final(self)@ == (CccSyncStatusV {
                offline,
                last_claim_error: offline_claim_error(
                    old(self)@.last_claim_error,
                    offline,
                    claim_reason,
                ),
                ..old(self)@
            }),
            offline && claim_reason is Some ==> line is Some && line->0@ == "CCC claim: "@
                + capped(claim_reason->0@),
            !(offline && claim_reason is Some) ==> line is None,
            old(self).wf() ==> final(self).wf(),
    {
        self.offline = offline;
        if offline {
            match claim_reason {
                Some(r) => Some(self.note_claim_error(r)),
                None => None,
            }
        } else {
            self.clear_claim_error();
            None
        }
    }
}

/// The claim error after going offline (with or without a reason) or back online.
pub open spec fn offline_claim_error(prev: Seq<char>, offline: bool, reason: Option<&str>) -> Seq<
    char,
> {
    if !offline {
        Seq::empty()
    } else {
        match reason {
            Some(r) => capped(r@),
            None => prev,
        }
    }
}

// ---------------------------------------------------------------------------
// Claim responses and ack batches
// ---------------------------------------------------------------------------

impl CccSyncStatus {
    /// The claim request failed with a non-success HTTP status: offline, with the status
    /// line and the first 200 characters of the body as the claim error.
    pub fn on_claim_http_error(&mut self, http_status: &str, body: &str) -> (line: Option<String>)
        ensures
            final(self)@ == (CccSyncStatusV {
                offline: true,
                last_claim_error: capped(claim_http_reason(http_status@, body@)),
                ..old(self)@
            }),
            line is Some && line->0@ == "CCC claim: "@ + capped(
                claim_http_reason(http_status@, body@),
            ),
            old(self).wf() ==> final(self).wf(),
    {
        let mut reason = String::from_str("claim HTTP ");
        reason.append(http_status);
        reason.append(": ");
        let preview = take_string(body, 200);
        reason.append(preview.as_str());
        self.set_offline(true, Some(reason.as_str()))
    }

    /// The claim request could not be sent: offline with `claim network: {e}`.
    pub fn on_claim_network_error(&mut self, e: &str) -> (line: Option<String>)
        ensures
            final(self)@ == (CccSyncStatusV {
                offline: true,
                last_claim_error: capped("claim network: "@ + e@),
                ..old(self)@
            }),
            line is Some && line->0@ == "CCC claim: "@ + capped("claim network: "@ + e@),
            old(self).wf() ==> final(self).wf(),
    {
        let mut reason = String::from_str("claim network: ");
        reason.append(e);
        self.set_offline(true, Some(reason.as_str()))
    }

    /// The HTTP client could not be built: offline with `http client: {e}`.
    pub fn on_http_client_error(&mut self, e: &str) -> (line: Option<String>)
        ensures
            final(self)@ == (CccSyncStatusV {
                offline: true,
                last_claim_error: capped("http client: "@ + e@),
                ..old(self)@
            }),
            line is Some && line->0@ == "CCC claim: "@ + capped("http client: "@ + e@),
            old(self).wf() ==> final(self).wf(),
    {
        let mut reason = String::from_str("http client: ");
        reason.append(e);
        self.set_offline(true, Some(reason.as_str()))
    }

    /// The claim request succeeded: back online, claim error cleared.
    pub fn on_claim_ok(&mut self)
        ensures
            final(self)@ == st_claim_ok(old(self)@),
            old(self).wf() ==> final(self).wf(),
    {
        let _ = self.set_offline(false, None);
    }

    /// The claim body could not be parsed: claim error recorded, batch count reset.
    pub fn on_claim_parse_error(&mut self, e: &str) -> (line: String)
        ensures
            final(self)@ == st_claim_parse_error(old(self)@, e@),
            line@ == "CCC claim: "@ + capped(e@),
            old(self).wf() ==> final(self).wf(),
    {
        let line = self.note_claim_error(e);
        self.last_claim_batch_count = 0;
        line
    }

    /// `count` jobs were parsed at `now_ms`. With jobs, the ack counters restart and
    /// `count` jobs are in progress; without, nothing is in progress.
    pub fn on_claim_parsed(&mut self, count: usize, now_ms: i64)
        ensures
            final(self)@ == st_claim_parsed(old(self)@, count, now_ms),
            old(self).wf() ==> final(self).wf(),
    {
        let n: u32 = #[verifier::truncate] (count as u32);
        self.last_claim_batch_count = n;
        self.last_claim_parsed_ms = now_ms;
        if count == 0 {
            self.syncing_count = 0;
        } else {
            self.clear_ack_batch_counters();
            self.syncing_count = n;
        }
    }

    /// The batch is finished: nothing in progress.
    pub fn finish_batch(&mut self)
        ensures
            final(self)@ == st_finish_batch(old(self)@),
            old(self).wf() ==> final(self).wf(),
    {
        self.syncing_count = 0;
    }

    /// The ack batch of `n` items was accepted at `now_ms`: each counts as one ok ack.
    pub fn record_ack_batch_ok(&mut self, n: usize, now_ms: i64)
        ensures
            final(self)@ == st_ack_batch_ok(old(self)@, n, now_ms),
            old(self).wf() ==> final(self).wf(),
    {
        let mut i: usize = 0;
        while i < n
            invariant
                i <= n,
                i == 0 ==> self@ == old(self)@,
                i > 0 ==> self@ == (CccSyncStatusV {
                    last_ack_ok_ms: now_ms,
                    last_ack_ok_count: ((old(self).last_ack_ok_count as int + i) % 0x1_0000_0000) as u32,
                    last_ack_error: Seq::empty(),
                    ..old(self)@
                }),
                old(self).wf() ==> self.wf(),
            decreases n - i,
        {
            self.record_ack_ok(now_ms);
            i = i + 1;
        }
    }
}

impl CccSyncStatus {
    /// A success claim response whose body decoded to `parsed`: back online, then either
    /// the batch is recorded or the decode error is (with the batch count reset to 0).
    /// Returns the device-health error line for a decode error.
    pub fn on_claim_response(&mut self, parsed: &Result<Vec<ClaimItem>, String>, now_ms: i64) -> (line:
        Option<String>)
        ensures
            final(self)@ == st_claim_response(old(self)@, claim_outcome(*parsed), now_ms),
            match parsed {
                Ok(_) => line is None,
                Err(e) => line is Some && line->0@ == "CCC claim: "@ + capped(e@),
            },
            old(self).wf() ==> final(self).wf(),
    {
        self.on_claim_ok();
        match parsed {
            Ok(items) => {
                self.on_claim_parsed(items.len(), now_ms);
                None
            },
            Err(e) => Some(self.on_claim_parse_error(e.as_str())),
        }
    }

    /// The batch's acks were sent (`n` of them) with `result` (`Err` holds the failure text,
    /// such as `network: …`), and the batch is closed: nothing is in progress any more.
    /// With no acks nothing was sent. Returns the device-health error line of a failure.
    pub fn close_batch(&mut self, n: usize, result: &Result<(), String>, now_ms: i64) -> (line:
        Option<String>)
        ensures
            final(self)@ == st_close_batch(old(self)@, n, ack_outcome(*result), now_ms),
            match result {
                Err(e) if n > 0 => line is Some && line->0@ == "CCC ack: "@ + capped(e@),
                _ => line is None,
            },
            old(self).wf() ==> final(self).wf(),
    {
        let mut line: Option<String> = None;
        if n > 0 {
            match result {
                Ok(()) => self.record_ack_batch_ok(n, now_ms),
                Err(e) => {
                    line = Some(self.record_ack_fail(e.as_str()));
                },
            }
        }
        self.finish_batch();
        line
    }
}

/// A claim body's decode result, by the number of jobs or the error text.
pub open spec fn claim_outcome(parsed: Result<Vec<ClaimItem>, String>) -> Result<usize, Seq<char>> {
    match parsed {
        Ok(items) => Ok(items.len()),
        Err(e) => Err(e@),
    }
}

/// An ack post's result, by the failure text.
pub open spec fn ack_outcome(result: Result<(), String>) -> Result<(), Seq<char>> {
    match result {
        Ok(()) => Ok(()),
        Err(e) => Err(e@),
    }
}

/// Back online with no claim error.
pub open spec fn st_claim_ok(v: CccSyncStatusV) -> CccSyncStatusV {
    CccSyncStatusV { offline: false, last_claim_error: Seq::empty(), ..v }
}

/// A claim body that could not be decoded.
pub open spec fn st_claim_parse_error(v: CccSyncStatusV, e: Seq<char>) -> CccSyncStatusV {
    CccSyncStatusV { last_claim_error: capped(e), last_claim_batch_count: 0, ..v }
}

/// `count` jobs decoded at `now_ms`.
pub open spec fn st_claim_parsed(v: CccSyncStatusV, count: usize, now_ms: i64) -> CccSyncStatusV {
    if count == 0 {
        CccSyncStatusV {
            last_claim_batch_count: 0,
            last_claim_parsed_ms: now_ms,
            syncing_count: 0,
            ..v
        }
    } else {
        CccSyncStatusV {
            last_claim_batch_count: count as u32,
            last_claim_parsed_ms: now_ms,
            syncing_count: count as u32,
            last_ack_ok_count: 0,
            last_ack_fail_count: 0,
            ..v
        }
    }
}

/// A success claim response, by its decode result.
pub open spec fn st_claim_response(v: CccSyncStatusV, outcome: Result<usize, Seq<char>>, now_ms: i64) -> CccSyncStatusV {
    match outcome {
        Ok(count) => st_claim_parsed(st_claim_ok(v), count, now_ms),
        Err(e) => st_claim_parse_error(st_claim_ok(v), e),
    }
}

/// One failed ack.
pub open spec fn st_ack_fail(v: CccSyncStatusV, msg: Seq<char>) -> CccSyncStatusV {
    CccSyncStatusV {
        last_ack_fail_count: v.last_ack_fail_count.wrapping_add(1),
        last_ack_error: capped(msg),
        ..v
    }
}

/// `n` acks accepted at `now_ms` (the counter wraps).
pub open spec fn st_ack_batch_ok(v: CccSyncStatusV, n: usize, now_ms: i64) -> CccSyncStatusV {
    if n == 0 {
        v
    } else {
        CccSyncStatusV {
            last_ack_ok_ms: now_ms,
            last_ack_ok_count: ((v.last_ack_ok_count as int + n) % 0x1_0000_0000) as u32,
            last_ack_error: Seq::empty(),
            ..v
        }
    }
}

/// Nothing in progress.
pub open spec fn st_finish_batch(v: CccSyncStatusV) -> CccSyncStatusV {
    CccSyncStatusV { syncing_count: 0, ..v }
}

/// The end of a batch: its `n` acks sent with `result`, then nothing in progress.
pub open spec fn st_close_batch(v: CccSyncStatusV, n: usize, result: Result<(), Seq<char>>, now_ms: i64) -> CccSyncStatusV {
    if n == 0 {
        st_finish_batch(v)
    } else {
        match result {
            Ok(()) => st_finish_batch(st_ack_batch_ok(v, n, now_ms)),
            Err(e) => st_finish_batch(st_ack_fail(v, e)),
        }
    }
}

/// Law: after a success claim response, the batch count is the number of decoded jobs
/// (as a `u32`), or 0 when the body could not be decoded.
pub proof fn law_batch_count_follows_decode(
    v: CccSyncStatusV,
    outcome: Result<usize, Seq<char>>,
    now_ms: i64,
)
    ensures
        st_claim_response(v, outcome, now_ms).last_claim_batch_count == (match outcome {
            Ok(n) => n as u32,
            Err(_) => 0u32,
        }),
{
}

/// Law: a poll ends with nothing in progress. Closing a batch leaves a syncing count of 0
/// whatever came before; from an idle state, a poll that ends at its claim response (an
/// undecodable body or an empty batch) stays idle.
pub proof fn law_poll_ends_idle(
    v: CccSyncStatusV,
    w: CccSyncStatusV,
    n: usize,
    result: Result<(), Seq<char>>,
    e: Seq<char>,
    now_ms: i64,
)
    requires
        v.syncing_count == 0,
    ensures
        st_close_batch(w, n, result, now_ms).syncing_count == 0,
        st_claim_response(v, Err(e), now_ms).syncing_count == 0,
        st_claim_response(v, Ok(0usize), now_ms).syncing_count == 0,
{
}

/// Law: the steps of a poll leave the pause switch and the CCC Import writable flag alone.
pub proof fn law_poll_keeps_pause_and_writable(
    v: CccSyncStatusV,
    outcome: Result<usize, Seq<char>>,
    n: usize,
    result: Result<(), Seq<char>>,
    now_ms: i64,
)
    ensures
        st_claim_response(v, outcome, now_ms).paused == v.paused,
        st_claim_response(v, outcome, now_ms).import_writable == v.import_writable,
        st_close_batch(v, n, result, now_ms).paused == v.paused,
        st_close_batch(v, n, result, now_ms).import_writable == v.import_writable,
{
}

/// Law: when a poll claimed at least one job and its ack post for the batch failed, the
/// batch shows one failed ack, no accepted ack and a non-empty ack error. `w` is the state
/// after the jobs were written, which differs from the claimed state in the write fields only.
pub proof fn law_failed_ack_batch(
    v: CccSyncStatusV,
    count: usize,
    parsed_ms: i64,
    w: CccSyncStatusV,
    n: usize,
    msg: Seq<char>,
    now_ms: i64,
)
    requires
        count >= 1,
        n >= 1,
        msg.len() >= 1,
        w == (CccSyncStatusV {
            last_write_ok_ms: w.last_write_ok_ms,
            last_write_error: w.last_write_error,
            ..st_claim_response(v, Ok(count), parsed_ms)
        }),
    ensures
        st_close_batch(w, n, Err(msg), now_ms).last_ack_fail_count == 1,
        st_close_batch(w, n, Err(msg), now_ms).last_ack_ok_count == 0,
        st_close_batch(w, n, Err(msg), now_ms).last_ack_error.len() >= 1,
        st_close_batch(w, n, Err(msg), now_ms).syncing_count == 0,
{
}

/// The claim error for a non-success claim response: the status and a body preview.
pub open spec fn claim_http_reason(http_status: Seq<char>, body: Seq<char>) -> Seq<char> {
    "claim HTTP "@ + http_status + ": "@ + take_chars(body, 200)
}

// ---------------------------------------------------------------------------
// Poll checks, per-job work and acks
// ---------------------------------------------------------------------------

pub open spec fn functions_marker() -> Seq<char> {
    "/functions/v1"@
}

/// The backend URL up to and including its first `/functions/v1`, trimmed first.
pub open spec fn functions_base(backend: Seq<char>) -> Option<Seq<char>> {
    let t = trim(backend);
    if has_sub(t, functions_marker()) {
        let i = choose|i: int| first_occurrence(t, functions_marker(), i);
        Some(t.take(i + functions_marker().len()))
    } else {
        None
    }
}

/// `https://…/functions/v1` base of the edge functions, derived from the ingest URL.
pub fn edge_functions_v1_base(backend_url: &str) -> (r: Option<String>)
    ensures
        match r {
            Some(b) => functions_base(backend_url@) == Some(b@),
            None => functions_base(backend_url@) is None,
        },
{
    let t = trim_chars(backend_url);
    let marker = chars_of("/functions/v1");
    match find_chars(t.as_slice(), marker.as_slice()) {
        Some(i) => {
            let ghost j = choose|j: int| first_occurrence(t@, marker@, j);
            assert(j == i as int) by {
                if j < i {
                    assert(!crate::text::occurs_at(t@, marker@, j));
                } else if i < j {
                    assert(!crate::text::occurs_at(t@, marker@, i as int));
                }
            }
            let mut out: Vec<char> = Vec::new();
            assert(crate::text::occurs_at(t@, marker@, i as int));
            assert(i + marker@.len() <= t@.len());
            let ml: usize = marker.len();
            let tl: usize = t.len();
            assert(i + ml <= tl);
            let end: usize = i + ml;
            let mut k: usize = 0;
            while k < end
                invariant
                    k <= end,
                    end <= t.len(),
                    out@ == t@.take(k as int),
                decreases end - k,
            {
                out.push(t[k]);
                assert(t@.take(k + 1) =~= t@.take(k as int).push(t@[k as int]));
                k = k + 1;
            }
            Some(string_of(out.as_slice()))
        },
        None => None,
    }
}

/// `{base}/ccc-package-claim-batch`.
pub fn claim_url(base: &str) -> (r: String)
    ensures
        r@ == base@ + "/ccc-package-claim-batch"@,
{
    let mut s = String::from_str(base);
    s.append("/ccc-package-claim-batch");
    s
}

/// `{base}/ccc-package-ack`.
pub fn ack_url(base: &str) -> (r: String)
    ensures
        r@ == base@ + "/ccc-package-ack"@,
{
    let mut s = String::from_str(base);
    s.append("/ccc-package-ack");
    s
}

/// The first 500 characters of an error message.
pub fn cap_err(s: &str) -> (r: String)
    ensures
        r@ == capped(s@),
{
    take_string(s, 500)
}

/// Everything one claim round needs, once the poll checks passed.
pub struct ClaimPlan {
    pub business_id: String,
    pub device_id: String,
    pub token: String,
    pub root: String,
    pub claim_url: String,
    pub ack_url: String,
}

/// Why a poll goes offline before claiming, in the order the checks are made;
/// `None` when every check passes.
pub open spec fn poll_block_reason(
    writable: bool,
    tenant: Result<crate::tenant_config::TenantConfig, String>,
    settings: crate::ccc_import_settings::SidekickSettings,
    device_id: Option<String>,
) -> Option<Seq<char>> {
    if !writable {
        Some("CCC Import folder not writable — check path exists and is not blocked by AV"@)
    } else {
        match tenant {
            Err(e) => Some("tenant config: "@ + e@),
            Ok(t) => if trim(t.business_id@).len() == 0 {
                Some("missing business_id in uce-tenant.json"@)
            } else if trim(t.backend_url@).len() == 0 || trim(t.anon_key@).len() == 0 {
                Some("missing backend_url or anon_key"@)
            } else if crate::ccc_import_settings::effective_root(settings) is None {
                Some("ccc_package_root not configured in settings.json"@)
            } else if functions_base(t.backend_url@) is None {
                Some("backend_url must contain /functions/v1 for claim-batch"@)
            } else if device_id is None {
                Some("device_id not set — open UCE overlay to complete Connect"@)
            } else {
                None
            },
        }
    }
}

/// The claim plan a passing poll uses.
pub open spec fn plan_matches(
    p: ClaimPlan,
    t: crate::tenant_config::TenantConfig,
    settings: crate::ccc_import_settings::SidekickSettings,
    device_id: Seq<char>,
) -> bool {
    let base = functions_base(trim(t.backend_url@))->0;
    &&& p.business_id@ == trim(t.business_id@)
    &&& p.token@ == trim(t.anon_key@)
    &&& p.device_id@ == device_id
    &&& p.root@ == crate::ccc_import_settings::effective_root(settings)->0
    &&& p.claim_url@ == base + "/ccc-package-claim-batch"@
    &&& p.ack_url@ == base + "/ccc-package-ack"@
}

proof fn lemma_trim_start_twice(s: Seq<char>)
    ensures
        crate::text::trim_start(crate::text::trim_start(s)) == crate::text::trim_start(s),
    decreases s.len(),
{
    if s.len() > 0 && crate::text::is_ws(s[0]) {
        lemma_trim_start_twice(s.drop_first());
    }
}

proof fn lemma_trim_end_twice(s: Seq<char>)
    ensures
        crate::text::trim_end(crate::text::trim_end(s)) == crate::text::trim_end(s),
    decreases s.len(),
{
    if s.len() > 0 && crate::text::is_ws(s.last()) {
        lemma_trim_end_twice(s.drop_last());
    }
}

proof fn lemma_trim_end_keeps_start(s: Seq<char>)
    requires
        s.len() == 0 || !crate::text::is_ws(s[0]),
    ensures
        crate::text::trim_start(crate::text::trim_end(s)) == crate::text::trim_end(s),
    decreases s.len(),
{
    if s.len() > 0 && crate::text::is_ws(s.last()) {
        if s.len() > 1 {
            assert(s.drop_last()[0] == s[0]);
        }
        lemma_trim_end_keeps_start(s.drop_last());
    }
}

proof fn lemma_trim_start_no_ws(s: Seq<char>)
    ensures
        crate::text::trim_start(s).len() == 0 || !crate::text::is_ws(crate::text::trim_start(s)[0]),
    decreases s.len(),
{
    if s.len() > 0 && crate::text::is_ws(s[0]) {
        lemma_trim_start_no_ws(s.drop_first());
    }
}

/// Trimming twice gives what trimming once gives.
pub proof fn lemma_trim_idempotent(s: Seq<char>)
    ensures
        trim(trim(s)) == trim(s),
{
    let a = crate::text::trim_start(s);
    lemma_trim_start_no_ws(s);
    lemma_trim_end_keeps_start(a);
    lemma_trim_end_twice(a);
}

/// The checks a poll makes before claiming: the CCC Import folder is writable, the tenant
/// file is readable and complete, the CCC Import root is set, the backend URL names the
/// edge functions and a device id is known. The error is the offline reason.
pub fn poll_gate(
    writable: bool,
    tenant: &Result<crate::tenant_config::TenantConfig, String>,
    settings: &crate::ccc_import_settings::SidekickSettings,
    device_id: &Option<String>,
) -> (r: Result<ClaimPlan, String>)
    ensures
        match r {
            Ok(p) => poll_block_reason(writable, *tenant, *settings, *device_id) is None
                && plan_matches(p, tenant->Ok_0, *settings, device_id->0@),
            Err(e) => poll_block_reason(writable, *tenant, *settings, *device_id) == Some(e@),
        },
{
    if !writable {
        return Err(
            String::from_str(
                "CCC Import folder not writable — check path exists and is not blocked by AV",
            ),
        );
    }
    let t = match tenant {
        Err(e) => {
            let mut m = String::from_str("tenant config: ");
            m.append(e.as_str());
            return Err(m);
        },
        Ok(t) => t,
    };
    if is_blank(t.business_id.as_str()) {
        return Err(String::from_str("missing business_id in uce-tenant.json"));
    }
    if is_blank(t.backend_url.as_str()) || is_blank(t.anon_key.as_str()) {
        return Err(String::from_str("missing backend_url or anon_key"));
    }
    let root = match crate::ccc_import_settings::effective_ccc_package_root(settings) {
        Some(r) => r,
        None => {
            return Err(String::from_str("ccc_package_root not configured in settings.json"));
        },
    };
    let backend = crate::text::trim_string(t.backend_url.as_str());
    proof {
        lemma_trim_idempotent(t.backend_url@);
    }
    let base = match edge_functions_v1_base(backend.as_str()) {
        Some(b) => b,
        None => {
            return Err(String::from_str("backend_url must contain /functions/v1 for claim-batch"));
        },
    };
    let did = match device_id {
        Some(d) => d.clone(),
        None => {
            return Err(String::from_str("device_id not set — open UCE overlay to complete Connect"));
        },
    };
    Ok(ClaimPlan {
        business_id: crate::text::trim_string(t.business_id.as_str()),
        device_id: did,
        token: crate::text::trim_string(t.anon_key.as_str()),
        root,
        claim_url: claim_url(base.as_str()),
        ack_url: ack_url(base.as_str()),
    })
}

/// The claim body check: the plan's business id, device id and the batch limit.
pub fn check_claim_contract(plan: &ClaimPlan) -> (r: Result<(), String>)
    ensures
        crate::api_contracts::outcome(
            crate::api_contracts::claim_batch_problems(
                plan.business_id@,
                plan.device_id@,
                CLAIM_LIMIT,
            ),
            r,
        ),
{
    crate::api_contracts::validate_claim_batch_request(
        plan.business_id.as_str(),
        plan.device_id.as_str(),
        CLAIM_LIMIT,
    )
}

/// How a claimed job is handled.
pub enum ItemRoute {
    DeleteFolder,
    Unsupported,
    Mirror,
}

pub open spec fn route_of(item: ClaimItem) -> ItemRoute {
    let a = action_of(item);
    if a == "delete_folder"@ {
        ItemRoute::DeleteFolder
    } else if a == "delete_file"@ || a == "archive_folder"@ {
        ItemRoute::Unsupported
    } else {
        ItemRoute::Mirror
    }
}

/// Route by action: folder removal, the actions not supported yet, or a file mirror.
pub fn route_item(item: &ClaimItem) -> (r: ItemRoute)
    ensures
        r == route_of(*item),
{
    let a = item.action();
    let v = chars_of(a.as_str());
    if crate::text::eq_str(v.as_slice(), "delete_folder") {
        ItemRoute::DeleteFolder
    } else if crate::text::eq_str(v.as_slice(), "delete_file") || crate::text::eq_str(
        v.as_slice(),
        "archive_folder",
    ) {
        ItemRoute::Unsupported
    } else {
        ItemRoute::Mirror
    }
}

/// The ack row for a job.
pub open spec fn ack_matches(
    a: PendingAck,
    item: ClaimItem,
    status: Seq<char>,
    error_message: Option<Seq<char>>,
    written_path: Option<Seq<char>>,
) -> bool {
    &&& a.queue_id@ == item.queue_id@
    &&& a.source_table@ == item.source_table@
    &&& a.source_id@ == item.source_id@
    &&& a.status@ == status
    &&& opt_view(a.error_message) == error_message
    &&& opt_view(a.written_path) == written_path
    &&& opt_view(a.sub_folder) == nonblank(opt_view(item.sub_folder))
    &&& opt_view(a.action_type) == (if action_of(item) == "mirror_file"@ {
        None
    } else {
        Some(action_of(item))
    })
}

fn clone_opt(o: &Option<String>) -> (r: Option<String>)
    ensures
        opt_view(r) == opt_view(*o),
{
    match o {
        Some(s) => Some(s.clone()),
        None => None,
    }
}

/// The ack row for `item` with the given status, error message and written path.
pub fn queue_ack(
    item: &ClaimItem,
    status: &str,
    error_message: Option<String>,
    written_path: Option<String>,
) -> (r: PendingAck)
    ensures
        ack_matches(r, *item, status@, opt_view(error_message), opt_view(written_path)),
{
    let sub = match nonblank_chars(&item.sub_folder) {
        Some(v) => Some(string_of(v.as_slice())),
        None => None,
    };
    let a = item.action();
    let av = chars_of(a.as_str());
    let action_type = if crate::text::eq_str(av.as_slice(), "mirror_file") {
        None
    } else {
        Some(a)
    };
    PendingAck {
        queue_id: item.queue_id.clone(),
        source_table: item.source_table.clone(),
        source_id: item.source_id.clone(),
        status: String::from_str(status),
        error_message,
        written_path,
        sub_folder: sub,
        action_type,
    }
}

/// The error ack for an action that is not supported.
pub fn unsupported_ack(item: &ClaimItem) -> (r: PendingAck)
    ensures
        ack_matches(
            r,
            *item,
            "error"@,
            Some("unsupported action: "@ + action_of(*item)),
            None,
        ),
{
    let mut msg = String::from_str("unsupported action: ");
    let a = item.action();
    msg.append(a.as_str());
    queue_ack(item, "error", Some(msg), None)
}

/// The folder a `delete_folder` job removes, or why it cannot.
pub open spec fn delete_target(root: Seq<char>, item: ClaimItem) -> Result<Seq<char>, Seq<char>> {
    match nonblank(opt_view(item.target_path_hint)) {
        None => Err("missing target_path_hint"@),
        Some(h) => match append_rel(root, h) {
            None => Err("invalid target_path_hint"@),
            Some(d) => Ok(d),
        },
    }
}

pub fn delete_folder_target(root: &str, item: &ClaimItem) -> (r: Result<String, String>)
    ensures
        match r {
            Ok(d) => delete_target(root@, *item) == Ok::<Seq<char>, Seq<char>>(d@),
            Err(e) => delete_target(root@, *item) == Err::<Seq<char>, Seq<char>>(e@),
        },
{
    let hint = match nonblank_chars(&item.target_path_hint) {
        Some(h) => h,
        None => {
            return Err(String::from_str("missing target_path_hint"));
        },
    };
    let rootv = chars_of(root);
    match append_rel_exec(rootv.as_slice(), hint.as_slice()) {
        Some(d) => Ok(string_of(d.as_slice())),
        None => Err(String::from_str("invalid target_path_hint")),
    }
}

/// The signed URL and destination of a `mirror_file` job, or why it cannot run.
pub open spec fn mirror_target(root: Seq<char>, item: ClaimItem) -> Result<
    (Seq<char>, Seq<char>),
    Seq<char>,
> {
    match nonblank(opt_view(item.signed_url)) {
        None => Err("missing signed_url"@),
        Some(u) => Ok((u, destination_spec(root, item))),
    }
}

pub fn mirror_plan(root: &str, item: &ClaimItem) -> (r: Result<(String, String), String>)
    ensures
        match r {
            Ok((u, d)) => mirror_target(root@, *item) == Ok::<(Seq<char>, Seq<char>), Seq<char>>(
                (u@, d@),
            ),
            Err(e) => mirror_target(root@, *item) == Err::<(Seq<char>, Seq<char>), Seq<char>>(
                e@,
            ),
        },
{
    match nonblank_chars(&item.signed_url) {
        None => Err(String::from_str("missing signed_url")),
        Some(u) => Ok((string_of(u.as_slice()), destination_path_for_item(root, item))),
    }
}

impl CccSyncStatus {
    /// Records how a job ended at `now_ms` and returns its ack: success acks `ok` with the
    /// written path (if any) and clears the write error; failure acks `error` with the
    /// message, which also becomes the write error.
    pub fn finish_item(
        &mut self,
        item: &ClaimItem,
        result: Result<Option<String>, String>,
        now_ms: i64,
    ) -> (r: (PendingAck, Option<String>))
        ensures
            match result {
                Ok(w) => ack_matches(r.0, *item, "ok"@, None, opt_view(w)) && final(self)@ == (
                CccSyncStatusV {
                    last_write_ok_ms: now_ms,
                    last_write_error: Seq::empty(),
                    ..old(self)@
                }) && r.1 is None,
                Err(e) => ack_matches(r.0, *item, "error"@, Some(e@), None) && final(self)@ == (
                CccSyncStatusV { last_write_error: capped(e@), ..old(self)@ }) && r.1 is Some
                    && r.1->0@ == "CCC write: "@ + capped(e@),
            },
            old(self).wf() ==> final(self).wf(),
    {
        match result {
            Ok(w) => {
                self.note_write_ok(now_ms);
                (queue_ack(item, "ok", None, w), None)
            },
            Err(e) => {
                let line = self.note_write_error(e.as_str());
                let ack = queue_ack(item, "error", Some(e), None);
                (ack, Some(line))
            },
        }
    }
}

/// The first ack row that fails its contract check, with the check's error.
pub fn first_invalid_ack(pending: &Vec<PendingAck>) -> (r: Option<(usize, String)>)
    ensures
        match r {
            Some((i, e)) => {
                &&& i < pending@.len()
                &&& crate::api_contracts::outcome(
                    crate::api_contracts::package_ack_problems(
                        pending@[i as int].queue_id@,
                        pending@[i as int].status@,
                        pending@[i as int].source_table@,
                        pending@[i as int].source_id@,
                    ),
                    Err::<(), String>(e),
                )
                &&& forall|j: int|
                    0 <= j < i ==> crate::api_contracts::package_ack_problems(
                        #[trigger] pending@[j].queue_id@,
                        pending@[j].status@,
                        pending@[j].source_table@,
                        pending@[j].source_id@,
                    ).len() == 0
            },
            None => forall|j: int|
                0 <= j < pending@.len() ==> crate::api_contracts::package_ack_problems(
                    #[trigger] pending@[j].queue_id@,
                    pending@[j].status@,
                    pending@[j].source_table@,
                    pending@[j].source_id@,
                ).len() == 0,
        },
{
    let mut i: usize = 0;
    while i < pending.len()
        invariant
            i <= pending.len(),
            forall|j: int|
                0 <= j < i ==> crate::api_contracts::package_ack_problems(
                    #[trigger] pending@[j].queue_id@,
                    pending@[j].status@,
                    pending@[j].source_table@,
                    pending@[j].source_id@,
                ).len() == 0,
        decreases pending.len() - i,
    {
        let a = &pending[i];
        match crate::api_contracts::validate_package_ack_request(
            a.queue_id.as_str(),
            a.status.as_str(),
            a.source_table.as_str(),
            a.source_id.as_str(),
        ) {
            Ok(()) => {},
            Err(e) => {
                return Some((i, e));
            },
        }
        i = i + 1;
    }
    None
}


/// What a failed write reports about its cause.
#[derive(Clone, Copy, Debug, PartialEq, Eq, Structural)]
pub enum WriteErrorKind {
    PermissionDenied,
    StorageFull,
    Other,
}

/// The write error recorded for a job: `permission_denied`, `disk_full`, or the error's
/// own message.
pub fn classify_write_error(kind: WriteErrorKind, message: &str) -> (r: String)
    ensures
        r@ == match kind {
            WriteErrorKind::PermissionDenied => "permission_denied"@,
            WriteErrorKind::StorageFull => "disk_full"@,
            WriteErrorKind::Other => message@,
        },
{
    match kind {
        WriteErrorKind::PermissionDenied => String::from_str("permission_denied"),
        WriteErrorKind::StorageFull => String::from_str("disk_full"),
        WriteErrorKind::Other => String::from_str(message),
    }
}

} // verus!
